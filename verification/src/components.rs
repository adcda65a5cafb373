//! The component record of a filename, and the pass that cleans up what the
//! grammar captured.

use crate::text::same_text;
use vstd::prelude::*;

verus! {

/// The version given to a record whose filename yielded none.
pub const DEFAULT_VERSION: &'static str = "v1.0";

/// The type of a file that holds a LoRA adapter.
pub const TYPE_LORA: &'static str = "LoRA";

/// The type of a file that holds only a vocabulary.
pub const TYPE_VOCAB: &'static str = "vocab";

/// The components of a GGUF filename.
///
/// Every field but `version` is absent where the filename has no such segment.
#[derive(Clone, Debug, PartialEq, Eq)]
pub struct GGUFComponents {
    pub base_name: Option<String>,
    pub size_label: Option<String>,
    pub fine_tune: Option<String>,
    pub version: String,
    pub encoding: Option<String>,
    pub type_field: Option<String>,
    pub shard: Option<String>,
}

/// What a [`GGUFComponents`] holds, as sequences of characters.
pub struct ComponentsView {
    pub base_name: Option<Seq<char>>,
    pub size_label: Option<Seq<char>>,
    pub fine_tune: Option<Seq<char>>,
    pub version: Seq<char>,
    pub encoding: Option<Seq<char>>,
    pub type_field: Option<Seq<char>>,
    pub shard: Option<Seq<char>>,
}

impl View for GGUFComponents {
    type V = ComponentsView;

    open spec fn view(&self) -> ComponentsView {
        ComponentsView {
            base_name: self.base_name.deep_view(),
            size_label: self.size_label.deep_view(),
            fine_tune: self.fine_tune.deep_view(),
            version: self.version@,
            encoding: self.encoding.deep_view(),
            type_field: self.type_field.deep_view(),
            shard: self.shard.deep_view(),
        }
    }
}

/// The text that each segment of the grammar captured in a filename, before
/// any cleanup. A segment that took no part in the match is absent.
#[derive(Clone, Debug, PartialEq, Eq)]
pub struct SegmentCaptures {
    pub base_name: Option<String>,
    pub size_label: Option<String>,
    pub fine_tune: Option<String>,
    pub version: Option<String>,
    pub encoding: Option<String>,
    pub type_field: Option<String>,
    pub shard: Option<String>,
}

/// What a [`SegmentCaptures`] holds, as sequences of characters.
pub struct CapturesView {
    pub base_name: Option<Seq<char>>,
    pub size_label: Option<Seq<char>>,
    pub fine_tune: Option<Seq<char>>,
    pub version: Option<Seq<char>>,
    pub encoding: Option<Seq<char>>,
    pub type_field: Option<Seq<char>>,
    pub shard: Option<Seq<char>>,
}

impl DeepView for GGUFComponents {
    type V = ComponentsView;

    open spec fn deep_view(&self) -> ComponentsView {
        self@
    }
}

impl View for SegmentCaptures {
    type V = CapturesView;

    open spec fn view(&self) -> CapturesView {
        CapturesView {
            base_name: self.base_name.deep_view(),
            size_label: self.size_label.deep_view(),
            fine_tune: self.fine_tune.deep_view(),
            version: self.version.deep_view(),
            encoding: self.encoding.deep_view(),
            type_field: self.type_field.deep_view(),
            shard: self.shard.deep_view(),
        }
    }
}

impl DeepView for SegmentCaptures {
    type V = CapturesView;

    open spec fn deep_view(&self) -> CapturesView {
        self@
    }
}

/// A reserved literal names a type of file, and never an encoding.
pub open spec fn is_reserved(text: Seq<char>) -> bool {
    text == TYPE_LORA@ || text == TYPE_VOCAB@
}

impl ComponentsView {
    /// What holds of every record made from captures: it has a version, and
    /// its encoding is no reserved literal.
    pub open spec fn well_formed(self) -> bool {
        &&& self.version.len() > 0
        &&& self.encoding matches Some(text) ==> !is_reserved(text)
    }
}

/// The version of a record: the captured text, or the default where nothing
/// or an empty text was captured.
pub open spec fn resolved_version(captured: Option<Seq<char>>) -> Seq<char> {
    match captured {
        Some(text) if text.len() > 0 => text,
        _ => DEFAULT_VERSION@,
    }
}

/// The encoding of a record: the captured text, unless that is a reserved
/// literal, which the lenient grammar let through in the encoding's place.
pub open spec fn resolved_encoding(captured: Option<Seq<char>>) -> Option<Seq<char>> {
    match captured {
        Some(text) if !is_reserved(text) => Some(text),
        _ => None,
    }
}

/// The record that a set of captures stands for.
pub open spec fn resolved(captures: CapturesView) -> ComponentsView {
    ComponentsView {
        base_name: captures.base_name,
        size_label: captures.size_label,
        fine_tune: captures.fine_tune,
        version: resolved_version(captures.version),
        encoding: resolved_encoding(captures.encoding),
        type_field: captures.type_field,
        shard: captures.shard,
    }
}

/// Cleaning up captures always gives a well-formed record.
pub proof fn lemma_resolved_well_formed(captures: CapturesView)
    ensures
        resolved(captures).well_formed(),
{
    reveal_strlit("v1.0");
}

/// Whether `text` is one of the reserved literals.
pub fn is_reserved_literal(text: &str) -> (reserved: bool)
    ensures
        reserved == is_reserved(text@),
{
    same_text(text, TYPE_LORA) || same_text(text, TYPE_VOCAB)
}

/// The version that a record gets from what was captured.
pub fn version_text<'a>(captured: &'a Option<String>) -> (text: &'a str)
    ensures
        text@ == resolved_version(captured.deep_view()),
{
    match captured {
        Some(text) => {
            if text.as_str().is_empty() {
                DEFAULT_VERSION
            } else {
                text.as_str()
            }
        },
        None => DEFAULT_VERSION,
    }
}

/// The encoding that a record keeps of what was captured.
pub fn encoding_text<'a>(captured: &'a Option<String>) -> (text: Option<&'a str>)
    ensures
        text.deep_view() == resolved_encoding(captured.deep_view()),
{
    match captured {
        Some(text) => {
            if is_reserved_literal(text.as_str()) {
                None
            } else {
                Some(text.as_str())
            }
        },
        None => None,
    }
}

/// Turns what the grammar captured into a record: substitutes the default
/// version, and drops an encoding that is a reserved literal. The other
/// segments pass through unchanged.
pub fn resolve_captures(captures: SegmentCaptures) -> (components: GGUFComponents)
    ensures
        components@ == resolved(captures@),
        components@.well_formed(),
{
    let version = version_text(&captures.version).to_owned();
    let encoding = match encoding_text(&captures.encoding) {
        Some(text) => Some(text.to_owned()),
        None => None,
    };
    proof {
        lemma_resolved_well_formed(captures@);
    }
    GGUFComponents {
        base_name: captures.base_name,
        size_label: captures.size_label,
        fine_tune: captures.fine_tune,
        version,
        encoding,
        type_field: captures.type_field,
        shard: captures.shard,
    }
}

} // verus!
