//! Pieces that every declaration is put together from.

use crate::codegen::doc::{doc_comment_text, write_doc_comment};
use crate::model::util::{first_of, format_dart_literal_const, layered, literal_text, value_of};
use crate::model::view::{FieldView, LibraryView, text_of, TextView};
use crate::model::{Field, Library};
use crate::span::SpannedScalar;
use crate::text::same_text;
use vstd::prelude::*;
use vstd::string::StringExecFns;

verus! {

/// The text on a line of its own, if there is one.
pub open spec fn optional_line_text(text: Option<TextView>) -> Seq<char> {
    match text {
        Some(t) => t.value + "\n"@,
        None => Seq::empty(),
    }
}

/// The annotations of a declaration on a line of their own: its own, or
/// else those that the defaults give to every declaration of its kind.
pub open spec fn annotations_text(
    own: Option<TextView>,
    section: Option<TextView>,
) -> Seq<char> {
    optional_line_text(first_of(own, section))
}

/// The text as a documentation comment, if there is one.
pub open spec fn optional_doc_text(docs: Option<TextView>) -> Seq<char> {
    match docs {
        Some(d) => doc_comment_text(d.value),
        None => Seq::empty(),
    }
}

/// Whether the string conversion is generated: what the defaults say, else
/// yes.
pub open spec fn wants_to_string(lib: LibraryView) -> bool {
    layered(
        None,
        match lib.defaults {
            Some(d) => value_of(d.generate_to_string),
            None => None,
        },
        true,
    )
}

/// Whether equality and the hash code are generated: what the defaults
/// say, else yes.
pub open spec fn wants_equals(lib: LibraryView) -> bool {
    layered(
        None,
        match lib.defaults {
            Some(d) => value_of(d.generate_equals),
            None => None,
        },
        true,
    )
}

/// The default of `field` as a Dart expression, if it has one.
pub open spec fn default_text(field: FieldView) -> Option<Seq<char>> {
    match field.defaults_to {
        Some(value) => Some(literal_text(value.literal)),
        None => match field.defaults_to_dart {
            Some(dart) => Some(dart.value),
            None => None,
        },
    }
}

/// `required` for a field without a default.
pub open spec fn required_text(field: FieldView) -> Seq<char> {
    if default_text(field) is None {
        "required"@
    } else {
        Seq::empty()
    }
}

/// The default of a parameter: `lead`, the default and a line feed, or
/// nothing where the field has no default or the default is null.
pub open spec fn default_suffix_text(field: FieldView, lead: Seq<char>) -> Seq<char> {
    match default_text(field) {
        Some(dart) => if dart != "null"@ {
            lead + dart + "\n"@
        } else {
            Seq::empty()
        },
        None => Seq::empty(),
    }
}

/// The text on a line of its own, if there is one.
pub fn optional_line(text: &Option<SpannedScalar<String>>) -> (out: String)
    ensures
        out@ == optional_line_text(text_of(*text)),
{
    let mut out = String::new();
    if let Some(t) = text {
        out.append(t.value.as_str());
        out.append("\n");
    }
    assert(out@ =~= optional_line_text(text_of(*text)));
    out
}

/// The annotations of a declaration on a line of their own: its own, or
/// else those that the defaults give to every declaration of its kind.
pub fn annotations(
    own: &Option<SpannedScalar<String>>,
    section: &Option<SpannedScalar<String>>,
) -> (out: String)
    ensures
        out@ == annotations_text(text_of(*own), text_of(*section)),
{
    match own {
        Some(_) => optional_line(own),
        None => optional_line(section),
    }
}

/// The text as a documentation comment, if there is one.
pub fn optional_doc(docs: &Option<SpannedScalar<String>>) -> (out: String)
    ensures
        out@ == optional_doc_text(text_of(*docs)),
{
    match docs {
        Some(d) => write_doc_comment(d.value.as_str()),
        None => String::new(),
    }
}

/// Whether the string conversion is generated.
pub fn generates_to_string(lib: &Library) -> (wanted: bool)
    ensures
        wanted == wants_to_string(lib@),
{
    if let Some(d) = &lib.defaults {
        if let Some(g) = &d.generate_to_string {
            return g.value;
        }
    }
    true
}

/// Whether equality and the hash code are generated.
pub fn generates_equals(lib: &Library) -> (wanted: bool)
    ensures
        wanted == wants_equals(lib@),
{
    if let Some(d) = &lib.defaults {
        if let Some(g) = &d.generate_equals {
            return g.value;
        }
    }
    true
}

/// The default of `field` as a Dart expression, if it has one.
pub fn default_of(field: &Field) -> (dart: Option<String>)
    requires
        field.defaults_to is Some ==> !field.defaults_to->0.literal.has_unsupported_radix(),
    ensures
        dart is Some <==> default_text(field@) is Some,
        dart is Some ==> dart->0@ == default_text(field@)->0,
{
    match &field.defaults_to {
        Some(value) => Some(format_dart_literal_const(value)),
        None => match &field.defaults_to_dart {
            Some(dart) => Some(dart.value.clone()),
            None => None,
        },
    }
}

/// `required` for a field without a default.
pub fn required_keyword(field: &Field) -> (out: String)
    ensures
        out@ == required_text(field@),
{
    if field.defaults_to.is_none() && field.defaults_to_dart.is_none() {
        String::from_str("required")
    } else {
        String::new()
    }
}

/// The default of a parameter: `lead`, the default and a line feed, or
/// nothing where the field has no default or the default is null.
pub fn default_suffix(field: &Field, lead: &str) -> (out: String)
    requires
        field.defaults_to is Some ==> !field.defaults_to->0.literal.has_unsupported_radix(),
    ensures
        out@ == default_suffix_text(field@, lead@),
{
    let mut out = String::new();
    if let Some(dart) = default_of(field) {
        if !same_text(dart.as_str(), "null") {
            out.append(lead);
            out.append(dart.as_str());
            out.append("\n");
        }
    }
    assert(out@ =~= default_suffix_text(field@, lead@));
    out
}

} // verus!
