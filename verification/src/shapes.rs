//! The shape of each segment taken by itself.
//!
//! The engine decides what counts as a letter, a digit or a word character, so
//! it is also asked whether a text has the shape of a segment: each shape is a
//! regular expression that has to match the whole of the text.

use crate::components::{
    encoding_text, resolved, version_text, CapturesView, ComponentsView, SegmentCaptures,
};
use crate::engine::{capture_named, regex_captures, regex_compiles};
use vstd::prelude::*;

verus! {

/// A base name: letters, digits and spaces, then any number of further
/// tokens, each after a hyphen, that either start with a letter or a space or
/// hold digits and spaces only.
pub const BASE_NAME_GRAMMAR: &'static str =
    r"^(?:[A-Za-z0-9\s]*(?:(?:-(?:(?:[A-Za-z\s][A-Za-z0-9\s]*)|(?:[0-9\s]*)))*))$";

/// A size label: an optional multiplier (`8x`), an optional integer part with
/// its dot (`3.`), digits and one letter for the unit; then, optionally, a
/// hyphen and a qualifier made of letters, a number and letters.
pub const SIZE_LABEL_GRAMMAR: &'static str =
    r"^(?:(?:\d+x)?(?:\d+\.)?\d+[A-Za-z](?:-[A-Za-z]+(\d+\.)?\d+[A-Za-z]+)?)$";

/// A fine-tune descriptor: one or more letters, digits, spaces and hyphens.
pub const FINE_TUNE_GRAMMAR: &'static str = r"^[A-Za-z0-9\s-]+$";

/// A version: `v`, then one or more groups of digits separated by dots.
pub const VERSION_GRAMMAR: &'static str = r"^v\d+(\.\d+)*$";

/// An encoding: one or more word characters and underscores, and so no
/// hyphen.
pub const ENCODING_GRAMMAR: &'static str = r"^[\w_]+$";

/// A shard descriptor: five digits, `-of-`, five digits.
pub const SHARD_GRAMMAR: &'static str = r"^\d{5}-of-\d{5}$";

/// The segments whose shape the engine decides. The type is not among them:
/// it is one of two literals.
#[derive(Clone, Copy, Debug, PartialEq, Eq)]
pub enum Shape {
    BaseName,
    SizeLabel,
    FineTune,
    Version,
    Encoding,
    Shard,
}

/// The regular expression that stands for a shape.
pub open spec fn shape_grammar(shape: Shape) -> Seq<char> {
    match shape {
        Shape::BaseName => BASE_NAME_GRAMMAR@,
        Shape::SizeLabel => SIZE_LABEL_GRAMMAR@,
        Shape::FineTune => FINE_TUNE_GRAMMAR@,
        Shape::Version => VERSION_GRAMMAR@,
        Shape::Encoding => ENCODING_GRAMMAR@,
        Shape::Shard => SHARD_GRAMMAR@,
    }
}

/// Whether the engine finds `text` to have the given shape: the shape's
/// grammar compiles and matches the whole of `text`.
pub open spec fn is_shaped(shape: Shape, text: Seq<char>) -> bool {
    &&& regex_compiles(shape_grammar(shape))
    &&& regex_captures(shape_grammar(shape), text, Seq::empty()) is Some
}

/// Whether a segment that may be absent has the given shape where it is
/// present.
pub open spec fn is_shaped_if_present(shape: Shape, segment: Option<Seq<char>>) -> bool {
    segment matches Some(text) ==> is_shaped(shape, text)
}

/// Whether every segment of a record has the shape of its kind. The type is
/// left out: it has no shape but its two literals.
pub open spec fn well_shaped(components: ComponentsView) -> bool {
    &&& is_shaped_if_present(Shape::BaseName, components.base_name)
    &&& is_shaped_if_present(Shape::SizeLabel, components.size_label)
    &&& is_shaped_if_present(Shape::FineTune, components.fine_tune)
    &&& is_shaped(Shape::Version, components.version)
    &&& is_shaped_if_present(Shape::Encoding, components.encoding)
    &&& is_shaped_if_present(Shape::Shard, components.shard)
}

/// Whether the record that a set of captures stands for is well shaped.
pub open spec fn shaped(captures: CapturesView) -> bool {
    well_shaped(resolved(captures))
}

/// The regular expression that stands for a shape.
pub fn grammar_of(shape: Shape) -> (pattern: &'static str)
    ensures
        pattern@ == shape_grammar(shape),
{
    match shape {
        Shape::BaseName => BASE_NAME_GRAMMAR,
        Shape::SizeLabel => SIZE_LABEL_GRAMMAR,
        Shape::FineTune => FINE_TUNE_GRAMMAR,
        Shape::Version => VERSION_GRAMMAR,
        Shape::Encoding => ENCODING_GRAMMAR,
        Shape::Shard => SHARD_GRAMMAR,
    }
}

/// Whether `text` has the given shape.
pub fn has_shape(shape: Shape, text: &str) -> (found: bool)
    ensures
        found == is_shaped(shape, text@),
{
    let no_names: Vec<&str> = Vec::new();
    assert(no_names.deep_view() =~= Seq::<Seq<char>>::empty());
    match capture_named(grammar_of(shape), text, &no_names) {
        Ok(Some(_)) => true,
        Ok(None) => false,
        Err(_) => false,
    }
}

/// Whether a segment that may be absent has the given shape where it is
/// present.
fn has_shape_if_present(shape: Shape, segment: &Option<String>) -> (found: bool)
    ensures
        found == is_shaped_if_present(shape, segment.deep_view()),
{
    match segment {
        Some(text) => has_shape(shape, text.as_str()),
        None => true,
    }
}

/// Whether the record that a set of captures stands for is well shaped: the
/// version it would get, the encoding it would keep, and every other segment
/// as it was captured.
pub fn captures_shaped(captures: &SegmentCaptures) -> (found: bool)
    ensures
        found == shaped(captures@),
{
    if !has_shape(Shape::Version, version_text(&captures.version)) {
        return false;
    }
    if !has_shape_if_present(Shape::BaseName, &captures.base_name) {
        return false;
    }
    if !has_shape_if_present(Shape::SizeLabel, &captures.size_label) {
        return false;
    }
    if !has_shape_if_present(Shape::FineTune, &captures.fine_tune) {
        return false;
    }
    let encoded = match encoding_text(&captures.encoding) {
        Some(text) => has_shape(Shape::Encoding, text),
        None => true,
    };
    if !encoded {
        return false;
    }
    has_shape_if_present(Shape::Shard, &captures.shard)
}

} // verus!
