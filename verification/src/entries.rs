//! A record as an ordered list of entries, keyed by the names of the segments.

use crate::components::{ComponentsView, GGUFComponents};
use crate::grammar::{
    conforms, parse_gguf_filename, parsed, segment_names, BASE_NAME, ENCODING, EXTENSION,
    FINE_TUNE, SHARD, SIZE_LABEL, TYPE, VERSION,
};
use crate::text::same_text;
use vstd::prelude::*;

verus! {

/// The entries of a record: one for each segment, in the order of the
/// grammar. The version, which a record always has, is wrapped like the rest.
pub open spec fn entries(components: ComponentsView) -> Seq<(Seq<char>, Option<Seq<char>>)> {
    seq![
        (BASE_NAME@, components.base_name),
        (SIZE_LABEL@, components.size_label),
        (FINE_TUNE@, components.fine_tune),
        (VERSION@, Some(components.version)),
        (ENCODING@, components.encoding),
        (TYPE@, components.type_field),
        (SHARD@, components.shard),
    ]
}

/// The value of the first entry under `key`, if there is one.
pub open spec fn lookup(map: Seq<(Seq<char>, Option<Seq<char>>)>, key: Seq<char>) -> Option<
    Option<Seq<char>>,
>
    decreases map.len(),
{
    if map.len() == 0 {
        None
    } else if map.first().0 == key {
        Some(map.first().1)
    } else {
        lookup(map.drop_first(), key)
    }
}

/// The record that a list of entries stands for, read key by key: there is
/// one where every segment has an entry and the version has a text.
pub open spec fn record_of(map: Seq<(Seq<char>, Option<Seq<char>>)>) -> Option<ComponentsView> {
    match (
        lookup(map, BASE_NAME@),
        lookup(map, SIZE_LABEL@),
        lookup(map, FINE_TUNE@),
        lookup(map, VERSION@),
        lookup(map, ENCODING@),
        lookup(map, TYPE@),
        lookup(map, SHARD@),
    ) {
        (
            Some(base_name),
            Some(size_label),
            Some(fine_tune),
            Some(Some(version)),
            Some(encoding),
            Some(type_field),
            Some(shard),
        ) => Some(
            ComponentsView { base_name, size_label, fine_tune, version, encoding, type_field, shard },
        ),
        _ => None,
    }
}

/// Whether no key stands in the list twice.
pub open spec fn has_distinct_keys(map: Seq<(Seq<char>, Option<Seq<char>>)>) -> bool {
    forall|i: int, j: int| 0 <= i < j < map.len() ==> map[i].0 != map[j].0
}

/// The entries of an optional record.
pub open spec fn entries_of(found: Option<ComponentsView>) -> Option<
    Seq<(Seq<char>, Option<Seq<char>>)>,
> {
    match found {
        Some(components) => Some(entries(components)),
        None => None,
    }
}

/// An entry that comes first under its key is the one that `lookup` finds.
pub proof fn lemma_lookup_finds(map: Seq<(Seq<char>, Option<Seq<char>>)>, key: Seq<char>, i: int)
    requires
        0 <= i < map.len(),
        map[i].0 == key,
        forall|j: int| 0 <= j < i ==> map[j].0 != key,
    ensures
        lookup(map, key) == Some(map[i].1),
    decreases i,
{
    if i > 0 {
        lemma_lookup_finds(map.drop_first(), key, i - 1);
    }
}

/// The names of the segments differ from one another.
pub proof fn lemma_names_differ()
    ensures
        forall|i: int, j: int| 0 <= i < j < 7 ==> segment_names()[i] != segment_names()[j],
{
    reveal_strlit("BaseName");
    reveal_strlit("SizeLabel");
    reveal_strlit("FineTune");
    reveal_strlit("Version");
    reveal_strlit("Encoding");
    reveal_strlit("Type");
    reveal_strlit("Shard");
    let names = segment_names();
    assert(names[0][0] == 'B' && names[0].len() == 8);
    assert(names[1][0] == 'S' && names[1].len() == 9);
    assert(names[2][0] == 'F' && names[2].len() == 8);
    assert(names[3][0] == 'V' && names[3].len() == 7);
    assert(names[4][0] == 'E' && names[4].len() == 8);
    assert(names[5][0] == 'T' && names[5].len() == 4);
    assert(names[6][0] == 'S' && names[6].len() == 5);
}

/// The entries of a record hold each key once.
pub proof fn lemma_entries_have_distinct_keys(components: ComponentsView)
    ensures
        has_distinct_keys(entries(components)),
{
    lemma_names_differ();
    let map = entries(components);
    assert(forall|i: int| 0 <= i < 7 ==> (#[trigger] map[i]).0 == segment_names()[i]);
}

/// Rendering a record as entries and reading the entries back, key by key,
/// gives the record again, every field as it was.
pub proof fn lemma_entries_round_trip(components: ComponentsView)
    ensures
        record_of(entries(components)) == Some(components),
{
    lemma_names_differ();
    let map = entries(components);
    let names = segment_names();
    assert forall|i: int| 0 <= i < 7 implies lookup(map, names[i]) == Some(#[trigger] map[i].1) by {
        assert(forall|j: int| 0 <= j < 7 ==> (#[trigger] map[j]).0 == names[j]);
        lemma_lookup_finds(map, names[i], i);
    }
    assert(lookup(map, BASE_NAME@) == Some(map[0].1));
    assert(lookup(map, SIZE_LABEL@) == Some(map[1].1));
    assert(lookup(map, FINE_TUNE@) == Some(map[2].1));
    assert(lookup(map, VERSION@) == Some(map[3].1));
    assert(lookup(map, ENCODING@) == Some(map[4].1));
    assert(lookup(map, TYPE@) == Some(map[5].1));
    assert(lookup(map, SHARD@) == Some(map[6].1));
}

/// Renders a record as its list of entries.
pub fn component_map(components: GGUFComponents) -> (map: Vec<(String, Option<String>)>)
    ensures
        map.deep_view() == entries(components@),
        has_distinct_keys(map.deep_view()),
        record_of(map.deep_view()) == Some(components@),
{
    proof {
        lemma_entries_have_distinct_keys(components@);
        lemma_entries_round_trip(components@);
    }
    let mut map: Vec<(String, Option<String>)> = Vec::new();
    map.push((BASE_NAME.to_owned(), components.base_name));
    map.push((SIZE_LABEL.to_owned(), components.size_label));
    map.push((FINE_TUNE.to_owned(), components.fine_tune));
    map.push((VERSION.to_owned(), Some(components.version)));
    map.push((ENCODING.to_owned(), components.encoding));
    map.push((TYPE.to_owned(), components.type_field));
    map.push((SHARD.to_owned(), components.shard));
    assert(map.deep_view() =~= entries(components@));
    map
}

/// Looks up the value of the first entry under `key`.
pub fn map_value<'a>(map: &'a Vec<(String, Option<String>)>, key: &str) -> (found: Option<
    &'a Option<String>,
>)
    ensures
        found.deep_view() == lookup(map.deep_view(), key@),
{
    let ghost all = map.deep_view();
    let mut i: usize = 0;
    assert(all.skip(0) =~= all);
    while i < map.len()
        invariant
            i <= map.len(),
            all == map.deep_view(),
            lookup(all, key@) == lookup(all.skip(i as int), key@),
        decreases map.len() - i,
    {
        let ghost rest = all.skip(i as int);
        assert(rest.drop_first() =~= all.skip(i + 1));
        if same_text(map[i].0.as_str(), key) {
            return Some(&map[i].1);
        }
        i = i + 1;
    }
    None
}

/// A copy of an optional text.
fn copy_of(text: &Option<String>) -> (copy: Option<String>)
    ensures
        copy == *text,
{
    match text {
        Some(text) => Some(text.clone()),
        None => None,
    }
}

/// Reads a record back from a list of entries, key by key.
///
/// Returns `None` where a segment has no entry, or the version no text.
pub fn components_from_map(map: &Vec<(String, Option<String>)>) -> (found: Option<GGUFComponents>)
    ensures
        found.deep_view() == record_of(map.deep_view()),
{
    let base_name = map_value(map, BASE_NAME);
    let size_label = map_value(map, SIZE_LABEL);
    let fine_tune = map_value(map, FINE_TUNE);
    let version = map_value(map, VERSION);
    let encoding = map_value(map, ENCODING);
    let type_field = map_value(map, TYPE);
    let shard = map_value(map, SHARD);
    match (base_name, size_label, fine_tune, version, encoding, type_field, shard) {
        (
            Some(base_name),
            Some(size_label),
            Some(fine_tune),
            Some(Some(version)),
            Some(encoding),
            Some(type_field),
            Some(shard),
        ) => Some(
            GGUFComponents {
                base_name: copy_of(base_name),
                size_label: copy_of(size_label),
                fine_tune: copy_of(fine_tune),
                version: version.clone(),
                encoding: copy_of(encoding),
                type_field: copy_of(type_field),
                shard: copy_of(shard),
            },
        ),
        _ => None,
    }
}

/// Parses a GGUF filename into the entries of its record.
///
/// Returns `None` where the filename does not conform to the grammar: in
/// particular, where it does not end with the extension. The entries that
/// are returned are those of the record that [`parse_gguf_filename`] gives:
/// reading them back gives that record, which conforms.
pub fn parse_gguf_filename_map(filename: &str) -> (found: Option<Vec<(String, Option<String>)>>)
    ensures
        found.deep_view() == entries_of(parsed(filename@)),
        !EXTENSION@.is_suffix_of(filename@) ==> found is None,
        found matches Some(map) ==> {
            &&& has_distinct_keys(map.deep_view())
            &&& record_of(map.deep_view()) == parsed(filename@)
            &&& record_of(map.deep_view()) matches Some(components) && conforms(components)
        },
{
    match parse_gguf_filename(filename) {
        Some(components) => Some(component_map(components)),
        None => None,
    }
}

} // verus!
