//! The schema model: what a schema document declares, after decoding.

pub mod meta;
pub mod options;
pub mod util;
pub mod view;
pub mod value;

use crate::model::meta::Meta;
use crate::model::options::{Defaults, RenameCase};
use crate::model::value::Value;
use crate::span::{Span, SpannedScalar};
use vstd::prelude::*;

verus! {

/// The root of a schema document.
#[derive(Debug, Clone, PartialEq, Eq)]
pub struct Library {
    /// Text emitted verbatim before everything generated.
    pub preamble: Option<String>,
    /// Text emitted verbatim after everything generated.
    pub postamble: Option<String>,
    pub meta: Option<Meta>,
    pub defaults: Option<Defaults>,
    pub enums: Vec<Enum>,
    pub classes: Vec<Class>,
    pub unions: Vec<Union>,
}

/// A value class, free-standing or a member of a union.
#[derive(Debug, Clone, PartialEq, Eq)]
pub struct Class {
    pub span: Span,
    pub name: SpannedScalar<String>,
    pub allow_non_pascal_case: Option<SpannedScalar<bool>>,
    pub fields: Vec<Field>,
    pub docs: Option<SpannedScalar<String>>,
    pub json_key_case: Option<SpannedScalar<RenameCase>>,
    /// Only meaningful on a member of a union.
    pub json_discriminant_value: Option<Value>,
    pub annotations: Option<SpannedScalar<String>>,
    pub builder_annotations: Option<SpannedScalar<String>>,
    /// Extra text for the body of the value class.
    pub extra_dart: Option<SpannedScalar<String>>,
    /// Extra text for the body of the builder class.
    pub builder_extra_dart: Option<SpannedScalar<String>>,
}

/// One field of a class.
#[derive(Debug, Clone, PartialEq, Eq)]
pub struct Field {
    pub name: SpannedScalar<String>,
    /// The type annotation, as written.
    pub ty: SpannedScalar<String>,
    /// Default given as a literal of the schema language.
    pub defaults_to: Option<Value>,
    /// Default given as a Dart expression.
    pub defaults_to_dart: Option<SpannedScalar<String>>,
    pub docs: Option<SpannedScalar<String>>,
    pub to_json: Option<SpannedScalar<String>>,
    pub from_json: Option<SpannedScalar<String>>,
    pub json_key: Option<SpannedScalar<String>>,
}

/// A discriminated union of classes.
#[derive(Debug, Clone, PartialEq, Eq)]
pub struct Union {
    pub span: Span,
    pub name: SpannedScalar<String>,
    pub sealed: Option<SpannedScalar<bool>>,
    pub json_discriminant: Option<SpannedScalar<String>>,
    pub json_discriminant_value_case: Option<SpannedScalar<RenameCase>>,
    pub docs: Option<SpannedScalar<String>>,
    pub classes: Vec<Class>,
    pub extra_dart: Vec<SpannedScalar<String>>,
}

/// An enumeration.
#[derive(Debug, Clone, PartialEq, Eq)]
pub struct Enum {
    pub span: Span,
    pub name: SpannedScalar<String>,
    pub docs: Option<SpannedScalar<String>>,
    pub annotations: Option<SpannedScalar<String>>,
    pub extra_dart: Option<SpannedScalar<String>>,
    pub variants: Vec<EnumVariant>,
}

/// One variant of an enumeration.
#[derive(Debug, Clone, PartialEq, Eq)]
pub struct EnumVariant {
    pub name: SpannedScalar<String>,
    pub docs: Option<SpannedScalar<String>>,
    pub json_value: Option<Value>,
}

} // verus!
