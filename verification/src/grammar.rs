//! The grammar of GGUF filenames, and the parser that applies it.
//!
//! The engine decides which text falls to which segment. What it returns is
//! held against the filename before a record is made of it: the captured texts,
//! joined by hyphens in the order of the grammar, must give the filename back,
//! and each must have the shape of its segment.

use crate::components::{
    is_reserved, is_reserved_literal, lemma_resolved_well_formed, resolve_captures, resolved,
    CapturesView, ComponentsView, GGUFComponents, SegmentCaptures, DEFAULT_VERSION,
};
use crate::engine::{capture_named, regex_captures, regex_compiles};
use crate::shapes::{captures_shaped, shaped, well_shaped};
use crate::text::{ends_with, same_text};
use vstd::prelude::*;
use vstd::string::{StrSliceExecFns, StringExecFns};

verus! {

/// The extension that every GGUF filename ends with.
pub const EXTENSION: &'static str = ".gguf";

/// The hyphen that stands between two segments.
pub const SEPARATOR: &'static str = "-";

/// The name of the segment that holds the model's base name.
pub const BASE_NAME: &'static str = "BaseName";

/// The name of the segment that holds the size label.
pub const SIZE_LABEL: &'static str = "SizeLabel";

/// The name of the segment that holds the fine-tune descriptor.
pub const FINE_TUNE: &'static str = "FineTune";

/// The name of the segment that holds the version.
pub const VERSION: &'static str = "Version";

/// The name of the segment that holds the encoding.
pub const ENCODING: &'static str = "Encoding";

/// The name of the segment that holds the type.
pub const TYPE: &'static str = "Type";

/// The name of the segment that holds the shard descriptor.
pub const SHARD: &'static str = "Shard";

/// The grammar of a whole filename, as a regular expression with one named
/// group for each segment. The segments stand in a fixed order, joined by
/// hyphens; all but the base name and the version may be missing, and a
/// fine-tune descriptor can only follow a size label.
pub const GRAMMAR: &'static str =
    r"^(?P<BaseName>[A-Za-z0-9\s]*(?:(?:-(?:(?:[A-Za-z\s][A-Za-z0-9\s]*)|(?:[0-9\s]*)))*))(?:-(?P<SizeLabel>(?:\d+x)?(?:\d+\.)?\d+[A-Za-z](?:-[A-Za-z]+(\d+\.)?\d+[A-Za-z]+)?)(?:-(?P<FineTune>[A-Za-z0-9\s-]+))?)?-(?:(?P<Version>v\d+(?:\.\d+)*))(?:-(?P<Encoding>[\w_]+))?(?:-(?P<Type>LoRA|vocab))?(?:-(?P<Shard>\d{5}-of-\d{5}))?\.gguf$";

/// The names of the segments, in the order of the grammar.
pub open spec fn segment_names() -> Seq<Seq<char>> {
    seq![BASE_NAME@, SIZE_LABEL@, FINE_TUNE@, VERSION@, ENCODING@, TYPE@, SHARD@]
}

/// The captures that a list of texts stands for, one text for each name of
/// [`segment_names`], in that order.
pub open spec fn captures_of(texts: Seq<Option<Seq<char>>>) -> CapturesView {
    CapturesView {
        base_name: texts[0],
        size_label: texts[1],
        fine_tune: texts[2],
        version: texts[3],
        encoding: texts[4],
        type_field: texts[5],
        shard: texts[6],
    }
}

/// The text of a segment that brings no hyphen of its own: nothing where the
/// segment is absent.
pub open spec fn plain(segment: Option<Seq<char>>) -> Seq<char> {
    match segment {
        Some(text) => text,
        None => Seq::empty(),
    }
}

/// The text of an optional segment with the hyphen that leads up to it:
/// nothing where the segment is absent.
pub open spec fn hyphenated(segment: Option<Seq<char>>) -> Seq<char> {
    match segment {
        Some(text) => SEPARATOR@ + text,
        None => Seq::empty(),
    }
}

/// The filename that a set of captures spells out: the segments in the order
/// of the grammar, then the extension. The base name comes first, a hyphen
/// always leads up to the version, and every optional segment brings its own
/// hyphen: so one hyphen joins base name and version where nothing stands
/// between them.
pub open spec fn joined(captures: CapturesView) -> Seq<char> {
    plain(captures.base_name) + hyphenated(captures.size_label) + hyphenated(captures.fine_tune)
        + SEPARATOR@ + plain(captures.version) + hyphenated(captures.encoding) + hyphenated(
        captures.type_field,
    ) + hyphenated(captures.shard) + EXTENSION@
}

/// Whether a captured version, where it has any text, starts with `v`.
pub open spec fn starts_as_version(version: Option<Seq<char>>) -> bool {
    version matches Some(text) ==> text.len() == 0 || text[0] == 'v'
}

/// Whether a set of captures is a reading of `filename` that the grammar
/// allows: there is a base name, the captures spell the filename out, a
/// fine-tune descriptor comes only with a size label, a version starts with
/// `v`, and a type is a reserved literal.
pub open spec fn fits(captures: CapturesView, filename: Seq<char>) -> bool {
    &&& captures.base_name is Some
    &&& joined(captures) == filename
    &&& captures.fine_tune is Some ==> captures.size_label is Some
    &&& starts_as_version(captures.version)
    &&& captures.type_field matches Some(text) ==> is_reserved(text)
}

/// Whether a filename holds the start of a version token: a hyphen and then
/// `v`.
pub open spec fn has_version_token(filename: Seq<char>) -> bool {
    exists|i: int|
        0 <= i && i + 1 < filename.len() && #[trigger] filename[i] == '-' && filename[i + 1] == 'v'
}

/// What holds of every record that a filename yields:
/// it has a base name; a fine-tune descriptor comes only with a size label; a
/// type is a reserved literal; the version is not empty and the encoding no
/// reserved literal; and every segment has the shape of its kind.
pub open spec fn conforms(components: ComponentsView) -> bool {
    &&& components.base_name is Some
    &&& components.fine_tune is Some ==> components.size_label is Some
    &&& components.type_field matches Some(text) ==> is_reserved(text)
    &&& components.well_formed()
    &&& well_shaped(components)
}

/// The record that a set of captures yields for `filename`, given whether
/// the record is well shaped: there is one where the captures fit the
/// filename and the shapes hold.
pub open spec fn record_if(captures: CapturesView, filename: Seq<char>, shapes_hold: bool) -> Option<
    ComponentsView,
> {
    if fits(captures, filename) && shapes_hold {
        Some(resolved(captures))
    } else {
        None
    }
}

/// The record that a set of captures yields for `filename`: the captures
/// must fit the filename, and the cleaned-up record must be well shaped.
pub open spec fn record_from(captures: CapturesView, filename: Seq<char>) -> Option<
    ComponentsView,
> {
    record_if(captures, filename, shaped(captures))
}

/// The record that `filename` stands for, if any.
///
/// The engine decides, by [`GRAMMAR`], whether the name conforms and which
/// text falls to which segment; a grammar that does not compile admits no
/// name. What the engine captured then has to pass [`record_from`].
pub open spec fn parsed(filename: Seq<char>) -> Option<ComponentsView> {
    if !regex_compiles(GRAMMAR@) {
        None
    } else {
        match regex_captures(GRAMMAR@, filename, segment_names()) {
            Some(texts) => record_from(captures_of(texts), filename),
            None => None,
        }
    }
}

/// Every filename that captures spell out ends with the extension.
pub proof fn lemma_joined_has_extension(captures: CapturesView)
    ensures
        EXTENSION@.is_suffix_of(joined(captures)),
{
}

/// A record made from captures conforms.
pub proof fn lemma_record_conforms(captures: CapturesView, filename: Seq<char>)
    ensures
        record_from(captures, filename) matches Some(components) ==> conforms(components),
{
    lemma_resolved_well_formed(captures);
}

/// Captures with a version text fit only a filename that holds a version
/// token.
pub proof fn lemma_captured_version_is_a_token(captures: CapturesView, filename: Seq<char>)
    requires
        fits(captures, filename),
        captures.version matches Some(text) && text.len() > 0,
    ensures
        has_version_token(filename),
{
    reveal_strlit("-");
    let before = plain(captures.base_name) + hyphenated(captures.size_label) + hyphenated(
        captures.fine_tune,
    );
    let i = before.len() as int;
    assert(filename[i] == '-');
    assert(filename[i + 1] == captures.version->0[0]);
}

/// A filename without a version token stands for no record, unless for one
/// whose version is the default, put in where none was captured.
pub proof fn lemma_parsed_needs_version_token(filename: Seq<char>)
    requires
        !has_version_token(filename),
    ensures
        parsed(filename) matches Some(components) ==> components.version == DEFAULT_VERSION@,
{
    if parsed(filename) is Some {
        let captures = captures_of(regex_captures(GRAMMAR@, filename, segment_names())->0);
        if captures.version matches Some(text) && text.len() > 0 {
            lemma_captured_version_is_a_token(captures, filename);
        }
    }
}

/// A filename that does not end with the extension stands for no record.
pub proof fn lemma_parsed_needs_extension(filename: Seq<char>)
    requires
        !EXTENSION@.is_suffix_of(filename),
    ensures
        parsed(filename) is None,
{
    if parsed(filename) is Some {
        let texts = regex_captures(GRAMMAR@, filename, segment_names())->0;
        lemma_joined_has_extension(captures_of(texts));
    }
}

/// Every record that a filename stands for conforms, and is the cleaned-up
/// form of captures that spell the filename out.
pub proof fn lemma_parsed_record(filename: Seq<char>)
    ensures
        parsed(filename) matches Some(components) ==> {
            &&& conforms(components)
            &&& exists|captures: CapturesView|
                fits(captures, filename) && components == resolved(captures)
        },
{
    if parsed(filename) is Some {
        let texts = regex_captures(GRAMMAR@, filename, segment_names())->0;
        lemma_record_conforms(captures_of(texts), filename);
    }
}

/// Sorts the texts that the engine captured, one for each name of
/// [`segment_names`], into their fields.
fn sort_captures(texts: Vec<Option<String>>) -> (captures: SegmentCaptures)
    requires
        texts.len() == 7,
    ensures
        captures@ == captures_of(texts.deep_view()),
{
    let mut rest = texts;
    let shard = rest.pop().unwrap();
    let type_field = rest.pop().unwrap();
    let encoding = rest.pop().unwrap();
    let version = rest.pop().unwrap();
    let fine_tune = rest.pop().unwrap();
    let size_label = rest.pop().unwrap();
    let base_name = rest.pop().unwrap();
    SegmentCaptures { base_name, size_label, fine_tune, version, encoding, type_field, shard }
}

/// Appends a segment to `name`, after a hyphen where `hyphen` is set; an
/// absent segment adds nothing.
fn append_segment(name: &mut String, segment: &Option<String>, hyphen: bool)
    ensures
        final(name)@ == old(name)@ + (if hyphen {
            hyphenated(segment.deep_view())
        } else {
            plain(segment.deep_view())
        }),
{
    match segment {
        Some(text) => {
            if hyphen {
                name.append(SEPARATOR);
            }
            name.append(text.as_str());
            assert(name@ =~= old(name)@ + (if hyphen {
                hyphenated(segment.deep_view())
            } else {
                plain(segment.deep_view())
            }));
        },
        None => {},
    }
}

/// Spells out the filename that a set of captures stands for.
pub fn join_captures(captures: &SegmentCaptures) -> (name: String)
    ensures
        name@ == joined(captures@),
{
    let mut name = String::new();
    append_segment(&mut name, &captures.base_name, false);
    append_segment(&mut name, &captures.size_label, true);
    append_segment(&mut name, &captures.fine_tune, true);
    name.append(SEPARATOR);
    append_segment(&mut name, &captures.version, false);
    append_segment(&mut name, &captures.encoding, true);
    append_segment(&mut name, &captures.type_field, true);
    append_segment(&mut name, &captures.shard, true);
    name.append(EXTENSION);
    name
}

/// Whether a set of captures is a reading of `filename` that the grammar
/// allows.
pub fn captures_fit(captures: &SegmentCaptures, filename: &str) -> (fit: bool)
    ensures
        fit == fits(captures@, filename@),
{
    if captures.base_name.is_none() {
        return false;
    }
    if captures.fine_tune.is_some() && captures.size_label.is_none() {
        return false;
    }
    let versioned = match &captures.version {
        Some(text) => text.as_str().is_empty() || text.as_str().get_char(0) == 'v',
        None => true,
    };
    let typed = match &captures.type_field {
        Some(text) => is_reserved_literal(text.as_str()),
        None => true,
    };
    if !versioned || !typed {
        return false;
    }
    let name = join_captures(captures);
    same_text(name.as_str(), filename)
}

/// Makes the record of `filename` from what the grammar captured in it, given
/// whether the record is well shaped. There is none where the shapes do not
/// hold or the captures are no reading of the filename.
pub fn record_from_checked(captures: SegmentCaptures, filename: &str, shapes_hold: bool) -> (found:
    Option<GGUFComponents>)
    ensures
        found.deep_view() == record_if(captures@, filename@, shapes_hold),
{
    if shapes_hold && captures_fit(&captures, filename) {
        Some(resolve_captures(captures))
    } else {
        None
    }
}

/// Makes the record of `filename` from what the grammar captured in it, or
/// none where the captures are no reading of the filename or a segment has
/// not the shape of its kind.
pub fn record_from_captures(captures: SegmentCaptures, filename: &str) -> (found: Option<
    GGUFComponents,
>)
    ensures
        found.deep_view() == record_from(captures@, filename@),
        found matches Some(components) ==> conforms(components@),
{
    proof {
        lemma_record_conforms(captures@, filename@);
    }
    if !captures_fit(&captures, filename) {
        return None;
    }
    let shapes_hold = captures_shaped(&captures);
    record_from_checked(captures, filename, shapes_hold)
}

/// Parses a GGUF filename into its components.
///
/// Returns `None` where the filename does not conform to the grammar: in
/// particular, where it does not end with the extension. A record that is
/// returned conforms: it has a base name, its version has the shape of a
/// version, its encoding is never a reserved literal, every other segment has
/// the shape of its kind, and its segments come from captures that spell the
/// filename out. Its version stands in the filename after a hyphen, unless it
/// is the default, put in where none was captured.
pub fn parse_gguf_filename(filename: &str) -> (found: Option<GGUFComponents>)
    ensures
        found.deep_view() == parsed(filename@),
        !EXTENSION@.is_suffix_of(filename@) ==> found is None,
        found matches Some(components) ==> {
            &&& conforms(components@)
            &&& has_version_token(filename@) || components.version@ == DEFAULT_VERSION@
            &&& exists|captures: CapturesView|
                fits(captures, filename@) && components@ == resolved(captures)
        },
{
    proof {
        lemma_parsed_record(filename@);
        if !has_version_token(filename@) {
            lemma_parsed_needs_version_token(filename@);
        }
    }
    if !ends_with(filename, EXTENSION) {
        proof {
            lemma_parsed_needs_extension(filename@);
        }
        return None;
    }
    let mut names: Vec<&str> = Vec::new();
    names.push(BASE_NAME);
    names.push(SIZE_LABEL);
    names.push(FINE_TUNE);
    names.push(VERSION);
    names.push(ENCODING);
    names.push(TYPE);
    names.push(SHARD);
    assert(names.deep_view() =~= segment_names());
    match capture_named(GRAMMAR, filename, &names) {
        Ok(Some(texts)) => record_from_captures(sort_captures(texts), filename),
        Ok(None) => None,
        Err(_) => None,
    }
}

} // verus!
