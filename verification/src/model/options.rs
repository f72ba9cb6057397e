//! Library-wide default options and the casing choices they can name.

use crate::span::SpannedScalar;
use vstd::prelude::*;

verus! {

/// Options that apply to every declaration unless the declaration says
/// otherwise.
#[derive(Debug, Clone, PartialEq, Eq, Hash)]
pub struct Defaults {
    pub generate_to_string: Option<SpannedScalar<bool>>,
    pub generate_equals: Option<SpannedScalar<bool>>,
    pub dart_format_language_version: Option<SpannedScalar<String>>,
    pub class: Option<ClassOptions>,
    pub union: Option<UnionOptions>,
    pub enumeration: Option<EnumOptions>,
    pub field: Option<FieldOptions>,
}

/// Defaults for every class.
#[derive(Debug, Clone, PartialEq, Eq, Hash)]
pub struct ClassOptions {
    pub annotations: Option<SpannedScalar<String>>,
    pub builder_annotations: Option<SpannedScalar<String>>,
}

/// Defaults for every enum.
#[derive(Debug, Clone, PartialEq, Eq, Hash)]
pub struct EnumOptions {
    pub annotations: Option<SpannedScalar<String>>,
}

/// Defaults for every union.
#[derive(Debug, Clone, PartialEq, Eq, Hash)]
pub struct UnionOptions {
    pub sealed: Option<SpannedScalar<bool>>,
    pub json_discriminant: Option<SpannedScalar<String>>,
    pub annotations: Option<SpannedScalar<String>>,
    pub builder_annotations: Option<SpannedScalar<String>>,
}

/// Defaults for every field.
#[derive(Debug, Clone, PartialEq, Eq, Hash)]
pub struct FieldOptions {
    pub json_key_case: Option<SpannedScalar<RenameCase>>,
}

/// A casing convention that names can be rewritten into.
#[derive(Debug, Clone, Copy, PartialEq, Eq, Hash, Structural)]
pub enum RenameCase {
    Camel,
    Pascal,
    Snake,
    Kebab,
    ScreamingSnake,
}

} // verus!
