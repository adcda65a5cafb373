use gguf_filename::{parse_gguf_filename, parse_gguf_filename_map, GGUFComponents};

fn text(value: Option<&str>) -> Option<String> {
    value.map(|v| v.to_string())
}

fn record(
    base_name: Option<&str>,
    size_label: Option<&str>,
    fine_tune: Option<&str>,
    version: &str,
    encoding: Option<&str>,
    type_field: Option<&str>,
    shard: Option<&str>,
) -> GGUFComponents {
    GGUFComponents {
        base_name: text(base_name),
        size_label: text(size_label),
        fine_tune: text(fine_tune),
        version: version.to_string(),
        encoding: text(encoding),
        type_field: text(type_field),
        shard: text(shard),
    }
}

fn map_of(values: [(&str, Option<&str>); 7]) -> Vec<(String, Option<String>)> {
    values.iter().map(|(key, value)| (key.to_string(), text(*value))).collect()
}

#[test]
fn test_parse_gguf_filename() {
    let test_cases = vec![
        (
            "Mixtral-8x7B-v0.1-KQ2.gguf",
            Some(map_of([
                ("BaseName", Some("Mixtral")),
                ("SizeLabel", Some("8x7B")),
                ("FineTune", None),
                ("Version", Some("v0.1")),
                ("Encoding", Some("KQ2")),
                ("Type", None),
                ("Shard", None),
            ])),
        ),
        (
            "Grok-100B-v1.0-Q4_0-00003-of-00009.gguf",
            Some(map_of([
                ("BaseName", Some("Grok")),
                ("SizeLabel", Some("100B")),
                ("FineTune", None),
                ("Version", Some("v1.0")),
                ("Encoding", Some("Q4_0")),
                ("Type", None),
                ("Shard", Some("00003-of-00009")),
            ])),
        ),
        (
            "Hermes-2-Pro-Llama-3-8B-v1.0-F16.gguf",
            Some(map_of([
                ("BaseName", Some("Hermes-2-Pro-Llama-3")),
                ("SizeLabel", Some("8B")),
                ("FineTune", None),
                ("Version", Some("v1.0")),
                ("Encoding", Some("F16")),
                ("Type", None),
                ("Shard", None),
            ])),
        ),
        (
            "Phi-3-mini-3.8B-ContextLength4k-instruct-v1.0.gguf",
            Some(map_of([
                ("BaseName", Some("Phi-3-mini")),
                ("SizeLabel", Some("3.8B-ContextLength4k")),
                ("FineTune", Some("instruct")),
                ("Version", Some("v1.0")),
                ("Encoding", None),
                ("Type", None),
                ("Shard", None),
            ])),
        ),
        ("not-a-known-arrangement.gguf", None),
    ];

    for (filename, expected) in test_cases {
        let result = parse_gguf_filename_map(filename);
        assert_eq!(
            result, expected,
            "Failed for filename: {}. Expected: {:?}, Got: {:?}",
            filename, expected, result
        );
    }
}

#[test]
fn mixtral_record() {
    assert_eq!(
        parse_gguf_filename("Mixtral-8x7B-v0.1-KQ2.gguf"),
        Some(record(Some("Mixtral"), Some("8x7B"), None, "v0.1", Some("KQ2"), None, None))
    );
}

#[test]
fn grok_record_with_shard() {
    assert_eq!(
        parse_gguf_filename("Grok-100B-v1.0-Q4_0-00003-of-00009.gguf"),
        Some(record(
            Some("Grok"),
            Some("100B"),
            None,
            "v1.0",
            Some("Q4_0"),
            None,
            Some("00003-of-00009")
        ))
    );
}

#[test]
fn hermes_record_with_hyphens_in_base_name() {
    assert_eq!(
        parse_gguf_filename("Hermes-2-Pro-Llama-3-8B-v1.0-F16.gguf"),
        Some(record(Some("Hermes-2-Pro-Llama-3"), Some("8B"), None, "v1.0", Some("F16"), None, None))
    );
}

#[test]
fn phi_record_with_qualified_size_and_fine_tune() {
    assert_eq!(
        parse_gguf_filename("Phi-3-mini-3.8B-ContextLength4k-instruct-v1.0.gguf"),
        Some(record(
            Some("Phi-3-mini"),
            Some("3.8B-ContextLength4k"),
            Some("instruct"),
            "v1.0",
            None,
            None,
            None
        ))
    );
}

#[test]
fn name_without_version_is_rejected() {
    assert_eq!(parse_gguf_filename("not-a-known-arrangement.gguf"), None);
    assert_eq!(parse_gguf_filename("Mixtral-8x7B-KQ2.gguf"), None);
    assert_eq!(parse_gguf_filename("Grok.gguf"), None);
    assert_eq!(parse_gguf_filename("Grok-100B.gguf"), None);
    assert_eq!(parse_gguf_filename("Grok-100B-Q4_0-00003-of-00009.gguf"), None);
    assert_eq!(parse_gguf_filename("Grok-100B-chat-LoRA.gguf"), None);
    assert_eq!(parse_gguf_filename("Grok-.gguf"), None);
    assert_eq!(parse_gguf_filename("Grokv1.0.gguf"), None);
    assert_eq!(parse_gguf_filename("Grok-100Bv1.0.gguf"), None);
}

#[test]
fn name_without_extension_is_rejected() {
    assert_eq!(parse_gguf_filename("Mixtral-8x7B-v0.1-KQ2"), None);
    assert_eq!(parse_gguf_filename("Mixtral-8x7B-v0.1-KQ2.bin"), None);
    assert_eq!(parse_gguf_filename("Mixtral-8x7B-v0.1-KQ2.gguf "), None);
    assert_eq!(parse_gguf_filename("Mixtral-8x7B-v0.1-KQ2.gguf\n"), None);
    assert_eq!(parse_gguf_filename("Mixtral-8x7B-v0.1-KQ2.GGUF"), None);
    assert_eq!(parse_gguf_filename("Mixtral-8x7B-v0.1-KQ2.gguf.part"), None);
    assert_eq!(parse_gguf_filename("Mixtral-8x7B-v0.1-KQ2gguf"), None);
    assert_eq!(parse_gguf_filename_map("Mixtral-8x7B-v0.1-KQ2"), None);
}

#[test]
fn short_and_empty_names_are_rejected() {
    assert_eq!(parse_gguf_filename(""), None);
    assert_eq!(parse_gguf_filename("gguf"), None);
    assert_eq!(parse_gguf_filename(".gguf"), None);
    assert_eq!(parse_gguf_filename("v1.0.gguf"), None);
    assert_eq!(parse_gguf_filename("Model.gguf"), None);
}

#[test]
fn partial_match_is_rejected() {
    assert_eq!(parse_gguf_filename("dir/Mixtral-8x7B-v0.1-KQ2.gguf"), None);
    assert_eq!(parse_gguf_filename("Mixtral-8x7B-v0.1-KQ2-.gguf"), None);
    assert_eq!(parse_gguf_filename("Mixtral-8x7B-v0.1-K.Q2.gguf"), None);
    assert_eq!(parse_gguf_filename("Grok-100B-v1.0-Q4_0-0003-of-00009.gguf"), None);
}

#[test]
fn base_name_and_version_alone() {
    assert_eq!(
        parse_gguf_filename("Grok-v1.0.gguf"),
        Some(record(Some("Grok"), None, None, "v1.0", None, None, None))
    );
    assert_eq!(
        parse_gguf_filename("Model-v2.gguf"),
        Some(record(Some("Model"), None, None, "v2", None, None, None))
    );
    assert_eq!(
        parse_gguf_filename("Hermes-2-Pro-v0.3.gguf"),
        Some(record(Some("Hermes-2-Pro"), None, None, "v0.3", None, None, None))
    );
}

#[test]
fn version_follows_the_base_name_with_later_segments() {
    assert_eq!(
        parse_gguf_filename("Grok-v1.0-Q4_0.gguf"),
        Some(record(Some("Grok"), None, None, "v1.0", Some("Q4_0"), None, None))
    );
    assert_eq!(
        parse_gguf_filename("Grok-v1.0-F16-LoRA-00001-of-00002.gguf"),
        Some(record(
            Some("Grok"),
            None,
            None,
            "v1.0",
            Some("F16"),
            Some("LoRA"),
            Some("00001-of-00002")
        ))
    );
}

#[test]
fn second_hyphen_falls_to_the_base_name() {
    assert_eq!(
        parse_gguf_filename("Model--v2.gguf"),
        Some(record(Some("Model-"), None, None, "v2", None, None, None))
    );
}

#[test]
fn base_name_may_be_empty() {
    assert_eq!(
        parse_gguf_filename("-7B-v1.gguf"),
        Some(record(Some(""), Some("7B"), None, "v1", None, None, None))
    );
}

#[test]
fn base_name_may_hold_spaces() {
    assert_eq!(
        parse_gguf_filename("My Model-7B-v1.0.gguf"),
        Some(record(Some("My Model"), Some("7B"), None, "v1.0", None, None, None))
    );
}

#[test]
fn version_of_every_record_has_its_shape() {
    let names = [
        ("Mixtral-8x7B-v0.1-KQ2.gguf", "v0.1"),
        ("Grok-100B-v1.0-Q4_0-00003-of-00009.gguf", "v1.0"),
        ("Model-7B-v3.gguf", "v3"),
        ("Model-7B-v2.3.1-F16.gguf", "v2.3.1"),
        ("Model-7B-v10.20.gguf", "v10.20"),
    ];
    for (filename, version) in names {
        let found = parse_gguf_filename(filename).expect(filename);
        assert_eq!(found.version, version);
        assert!(gguf_filename::has_shape(gguf_filename::Shape::Version, &found.version));
    }
}

#[test]
fn malformed_version_is_rejected() {
    assert_eq!(parse_gguf_filename("Model-7B-v.gguf"), None);
    assert_eq!(parse_gguf_filename("Model-7B-v1..2.gguf"), None);
    assert_eq!(parse_gguf_filename("Model-7B-1.0.gguf"), None);
    assert_eq!(parse_gguf_filename("Model-7B-V1.0.gguf"), None);
}

#[test]
fn type_is_told_from_encoding() {
    assert_eq!(
        parse_gguf_filename("Model-7B-v1.0-Q4_0-LoRA.gguf"),
        Some(record(Some("Model"), Some("7B"), None, "v1.0", Some("Q4_0"), Some("LoRA"), None))
    );
    assert_eq!(
        parse_gguf_filename("Model-7B-v1.0-F16-vocab.gguf"),
        Some(record(Some("Model"), Some("7B"), None, "v1.0", Some("F16"), Some("vocab"), None))
    );
}

#[test]
fn reserved_literal_is_never_an_encoding() {
    for filename in ["Model-7B-v1.0-LoRA.gguf", "Model-7B-v1.0-vocab.gguf"] {
        let found = parse_gguf_filename(filename).expect(filename);
        assert_eq!(found.encoding, None);
        assert_eq!(found.base_name, text(Some("Model")));
        assert_eq!(found.size_label, text(Some("7B")));
        assert_eq!(found.version, "v1.0");
    }
    let found = parse_gguf_filename("Model-7B-v1.0-LoRA-LoRA.gguf").expect("doubled type");
    assert_eq!(found.encoding, None);
    assert_eq!(found.type_field, text(Some("LoRA")));
}

#[test]
fn encoding_close_to_a_reserved_literal_is_kept() {
    let found = parse_gguf_filename("Model-7B-v1.0-lora.gguf").expect("lower case");
    assert_eq!(found.encoding, text(Some("lora")));
    let found = parse_gguf_filename("Model-7B-v1.0-LoRA2.gguf").expect("longer");
    assert_eq!(found.encoding, text(Some("LoRA2")));
}

#[test]
fn shard_without_encoding() {
    assert_eq!(
        parse_gguf_filename("Grok-100B-v1.0-00003-of-00009.gguf"),
        Some(record(Some("Grok"), Some("100B"), None, "v1.0", None, None, Some("00003-of-00009")))
    );
}

#[test]
fn all_segments_at_once() {
    assert_eq!(
        parse_gguf_filename("Model-7B-chat-v1.2-Q8_0-LoRA-00001-of-00002.gguf"),
        Some(record(
            Some("Model"),
            Some("7B"),
            Some("chat"),
            "v1.2",
            Some("Q8_0"),
            Some("LoRA"),
            Some("00001-of-00002")
        ))
    );
}

#[test]
fn map_has_the_seven_keys_in_order() {
    let map = parse_gguf_filename_map("Mixtral-8x7B-v0.1-KQ2.gguf").expect("conforms");
    let keys: Vec<&str> = map.iter().map(|(key, _)| key.as_str()).collect();
    assert_eq!(
        keys,
        vec!["BaseName", "SizeLabel", "FineTune", "Version", "Encoding", "Type", "Shard"]
    );
}

#[test]
fn fine_tune_takes_what_the_version_leaves() {
    assert_eq!(
        parse_gguf_filename("Model-7B-ft-LoRA-v1.gguf"),
        Some(record(Some("Model"), Some("7B"), Some("ft-LoRA"), "v1", None, None, None))
    );
}

#[test]
fn qualifier_belongs_to_the_size_label() {
    assert_eq!(
        parse_gguf_filename("A-7B-Instruct256k-v1.gguf"),
        Some(record(Some("A"), Some("7B-Instruct256k"), None, "v1", None, None, None))
    );
}

#[test]
fn multiplier_and_long_encoding() {
    assert_eq!(
        parse_gguf_filename("A-7x8B-v1.0-Q4_K_M.gguf"),
        Some(record(Some("A"), Some("7x8B"), None, "v1.0", Some("Q4_K_M"), None, None))
    );
}

#[test]
fn encoding_holds_no_hyphen() {
    assert_eq!(parse_gguf_filename("A-7B-v1.0-Q4-K.gguf"), None);
}

#[test]
fn reserved_literal_before_a_type() {
    assert_eq!(
        parse_gguf_filename("A-7B-v1.0-vocab-LoRA.gguf"),
        Some(record(Some("A"), Some("7B"), None, "v1.0", None, Some("LoRA"), None))
    );
}

#[test]
fn blank_and_empty_base_names() {
    assert_eq!(
        parse_gguf_filename(" -7B-v1.gguf"),
        Some(record(Some(" "), Some("7B"), None, "v1", None, None, None))
    );
    assert_eq!(
        parse_gguf_filename("-v1.gguf"),
        Some(record(Some(""), None, None, "v1", None, None, None))
    );
}

#[test]
fn number_after_the_base_name_belongs_to_it() {
    assert_eq!(
        parse_gguf_filename("A-1-v1.gguf"),
        Some(record(Some("A-1"), None, None, "v1", None, None, None))
    );
}

#[test]
fn digits_of_other_scripts_count_as_digits() {
    assert_eq!(
        parse_gguf_filename("A-7B-v\u{661}.gguf"),
        Some(record(Some("A"), Some("7B"), None, "v\u{661}", None, None, None))
    );
}

#[test]
fn segments_spell_the_filename_out() {
    let names = [
        "Mixtral-8x7B-v0.1-KQ2.gguf",
        "Grok-100B-v1.0-Q4_0-00003-of-00009.gguf",
        "Hermes-2-Pro-Llama-3-8B-v1.0-F16.gguf",
        "Phi-3-mini-3.8B-ContextLength4k-instruct-v1.0.gguf",
        "Model-7B-chat-v1.2-Q8_0-LoRA-00001-of-00002.gguf",
        "Grok-v1.0.gguf",
    ];
    for filename in names {
        let found = parse_gguf_filename(filename).expect(filename);
        let mut spelled = String::new();
        spelled.push_str(found.base_name.as_deref().unwrap_or(""));
        for segment in [&found.size_label, &found.fine_tune] {
            if let Some(text) = segment {
                spelled.push('-');
                spelled.push_str(text);
            }
        }
        spelled.push('-');
        spelled.push_str(&found.version);
        for segment in [&found.encoding, &found.type_field, &found.shard] {
            if let Some(text) = segment {
                spelled.push('-');
                spelled.push_str(text);
            }
        }
        spelled.push_str(".gguf");
        assert_eq!(spelled, filename);
    }
}

#[test]
fn every_record_has_a_base_name() {
    let names = [
        "Mixtral-8x7B-v0.1-KQ2.gguf",
        "Grok-v1.0.gguf",
        "-v1.gguf",
        "-7B-v1.gguf",
        "Model-7B-v1.0-LoRA.gguf",
    ];
    for filename in names {
        let found = parse_gguf_filename(filename).expect(filename);
        assert!(found.base_name.is_some());
        let map = parse_gguf_filename_map(filename).expect(filename);
        assert!(matches!(gguf_filename::map_value(&map, "BaseName"), Some(Some(_))));
        assert!(matches!(gguf_filename::map_value(&map, "Version"), Some(Some(_))));
    }
}

#[test]
fn segments_of_a_record_have_their_shapes() {
    let names = [
        "Mixtral-8x7B-v0.1-KQ2.gguf",
        "Grok-100B-v1.0-Q4_0-00003-of-00009.gguf",
        "Hermes-2-Pro-Llama-3-8B-v1.0-F16.gguf",
        "Phi-3-mini-3.8B-ContextLength4k-instruct-v1.0.gguf",
        "Model-7B-chat-v1.2-Q8_0-LoRA-00001-of-00002.gguf",
        "Grok-v1.0.gguf",
    ];
    for filename in names {
        let found = parse_gguf_filename(filename).expect(filename);
        assert!(gguf_filename::has_shape(gguf_filename::Shape::Version, &found.version));
        if let Some(text) = &found.base_name {
            assert!(gguf_filename::has_shape(gguf_filename::Shape::BaseName, text));
        }
        if let Some(text) = &found.size_label {
            assert!(gguf_filename::has_shape(gguf_filename::Shape::SizeLabel, text));
        }
        if let Some(text) = &found.fine_tune {
            assert!(found.size_label.is_some());
            assert!(gguf_filename::has_shape(gguf_filename::Shape::FineTune, text));
        }
        if let Some(text) = &found.encoding {
            assert!(!text.is_empty());
            assert!(!text.contains('-'));
            assert!(gguf_filename::has_shape(gguf_filename::Shape::Encoding, text));
        }
        if let Some(text) = &found.type_field {
            assert!(text == "LoRA" || text == "vocab");
        }
        if let Some(text) = &found.shard {
            assert_eq!(text.chars().count(), 14);
            assert_eq!(&text[5..9], "-of-");
            assert!(gguf_filename::has_shape(gguf_filename::Shape::Shard, text));
        }
    }
}
