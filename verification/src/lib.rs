//! Canonical protobuf JSON support for prost-generated types: the rules that
//! turn a derive input (fields, variants, attributes) into a plan for the
//! generated `serde` implementations, and the runtime adapters that the
//! generated code uses.

pub mod text;
pub mod error;
pub mod naming;
pub mod meta;
pub mod parser;
pub mod syntax;
pub mod attrs;
pub mod types;
pub mod input;
pub mod field;
pub mod shape;
pub mod plan;
pub mod dispatch;
pub mod variants;
pub mod laws;
pub mod kind_laws;
pub mod runtime;

pub use runtime::{MapObjectSerializer, OneofMatch, ProstEnum, StructObjectSerializer};
