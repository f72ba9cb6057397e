//! Schema compiler for immutable Dart value objects: a type-annotation
//! parser, a schema model with layered defaults, a batch validator and a
//! source generator.

pub mod args;
pub mod casing;
pub mod codegen;
pub mod context;
pub mod diagnostic;
pub mod ident;
pub mod model;
pub mod span;
pub mod text;
pub mod ty;
pub mod validate;
pub mod version;
