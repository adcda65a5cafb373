//! Decomposition of GGUF model filenames into their named segments.
//!
//! A filename such as `Mixtral-8x7B-v0.1-KQ2.gguf` is a hyphen-separated list of
//! segments in a fixed order. [`parse_gguf_filename`] splits such a name into a
//! [`GGUFComponents`] record; [`parse_gguf_filename_map`] gives the same result
//! as a list of entries keyed by segment name.
//!
//! Which text falls to which segment is decided by a regular expression, and
//! the engine that runs it is not verified: the module [`engine`] holds what is
//! taken on trust about it. Everything around that call is proved, and what
//! the engine captured is held against the filename and against the shape of
//! each segment before a record is made of it.

pub mod components;
pub mod engine;
pub mod entries;
pub mod grammar;
pub mod shapes;
pub mod text;

pub use components::{
    encoding_text, is_reserved_literal, resolve_captures, version_text, GGUFComponents,
    SegmentCaptures, DEFAULT_VERSION, TYPE_LORA, TYPE_VOCAB,
};
pub use entries::{component_map, components_from_map, map_value, parse_gguf_filename_map};
pub use grammar::{
    captures_fit, join_captures, parse_gguf_filename, record_from_captures, record_from_checked,
    EXTENSION, GRAMMAR, SEPARATOR,
};
pub use shapes::{captures_shaped, grammar_of, has_shape, Shape};
