//! Synthesis of `Clone` and `Default` implementations for structs from
//! declarative per-type and per-field options.
//!
//! The handlers classify a struct's shape, resolve each field's option once,
//! and append the implementation as source text to an output buffer.
pub mod bounds;
pub mod clone_struct;
pub mod default_struct;
pub mod laws;
pub mod model;
pub mod text;
