//! Enums.

use crate::codegen::ready::{enum_ready, literal_ready};
use crate::codegen::util::{
    annotations, annotations_text, generates_to_string, optional_doc, optional_doc_text,
    optional_line, optional_line_text, wants_to_string,
};
use crate::context::Context;
use crate::model::util::{format_dart_literal_const, literal_text, quote, quoted};
use crate::model::view::{
    EnumVariantView, EnumView, LibraryView, text_of, TextView, value_of_literal,
};
use crate::model::{Enum, EnumVariant};
use crate::span::SpannedScalar;
use crate::text::{braced, braced_text};
use vstd::prelude::*;
use vstd::string::StringExecFns;

verus! {

/// The annotations that the defaults give to every enum.
pub open spec fn enum_annotations(lib: LibraryView) -> Option<TextView> {
    match lib.defaults {
        Some(d) => match d.enumeration {
            Some(e) => e.annotations,
            None => None,
        },
        None => None,
    }
}

/// The Dart constant that a variant is encoded as: the literal it names,
/// else its name between double quotes.
pub open spec fn variant_value_text(variant: EnumVariantView) -> Seq<char> {
    match variant.json_value {
        Some(value) => literal_text(value.literal),
        None => quoted(variant.name.value),
    }
}

/// The declarations of the first `n` variants.
pub open spec fn variant_decls_text(variants: Seq<EnumVariantView>, n: int) -> Seq<char>
    decreases n,
{
    if n <= 0 {
        Seq::empty()
    } else {
        variant_decls_text(variants, n - 1) + optional_doc_text(variants[n - 1].docs)
            + variants[n - 1].name.value + ",\n"@
    }
}

/// The arms of the decoding switch for the first `n` variants.
pub open spec fn variant_decode_arms_text(enumeration: EnumView, n: int) -> Seq<char>
    decreases n,
{
    if n <= 0 {
        Seq::empty()
    } else {
        variant_decode_arms_text(enumeration, n - 1) + variant_value_text(
            enumeration.variants[n - 1],
        ) + " => "@ + enumeration.name.value + "."@ + enumeration.variants[n - 1].name.value
            + ",\n"@
    }
}

/// The arms of the encoding switch for the first `n` variants.
pub open spec fn variant_encode_arms_text(enumeration: EnumView, n: int) -> Seq<char>
    decreases n,
{
    if n <= 0 {
        Seq::empty()
    } else {
        variant_encode_arms_text(enumeration, n - 1) + enumeration.name.value + "."@
            + enumeration.variants[n - 1].name.value + " => "@ + variant_value_text(
            enumeration.variants[n - 1],
        ) + ","@
    }
}

/// The arms of the string conversion for the first `n` variants.
pub open spec fn variant_name_arms_text(enumeration: EnumView, n: int) -> Seq<char>
    decreases n,
{
    if n <= 0 {
        Seq::empty()
    } else {
        variant_name_arms_text(enumeration, n - 1) + enumeration.name.value + "."@
            + enumeration.variants[n - 1].name.value + " => "@ + quoted(
            enumeration.variants[n - 1].name.value,
        ) + ",\n"@
    }
}

/// The string conversion of an enum: the name of the variant.
pub open spec fn to_string_enum_text(enumeration: EnumView) -> Seq<char> {
    "@override\nString toString() => switch (this)\n"@ + braced_text(
        variant_name_arms_text(enumeration, enumeration.variants.len() as int),
    ) + ";\n"@
}

/// The decoding factory of an enum: a switch on the encoded value, with
/// one arm for each variant and one that refuses everything else.
pub open spec fn enum_from_json_text(enumeration: EnumView) -> Seq<char> {
    "factory "@ + enumeration.name.value + ".fromJson(dynamic json) => switch (json)"@
        + braced_text(
        variant_decode_arms_text(enumeration, enumeration.variants.len() as int)
            + "final other => throw ArgumentError(\"Unknown variant: $other\"),\n"@,
    ) + ";\n"@
}

/// The `toJson` method of an enum.
pub open spec fn enum_to_json_text(enumeration: EnumView) -> Seq<char> {
    "dynamic toJson() => switch (this)"@ + braced_text(
        variant_encode_arms_text(enumeration, enumeration.variants.len() as int),
    ) + ";"@ + "\n"@
}

/// What stands between the braces of an enum.
#[verifier::opaque]
pub open spec fn enum_body_text(lib: LibraryView, enumeration: EnumView) -> Seq<char> {
    variant_decls_text(enumeration.variants, enumeration.variants.len() as int) + ";\n"@
        + enum_from_json_text(enumeration) + "\n"@ + enum_to_json_text(enumeration)
        + (if wants_to_string(lib) {
        to_string_enum_text(enumeration)
    } else {
        Seq::empty()
    }) + optional_line_text(enumeration.extra_dart)
}

/// The declaration of an enum.
#[verifier::opaque]
pub open spec fn enum_text(lib: LibraryView, enumeration: EnumView) -> Seq<char> {
    optional_doc_text(enumeration.docs) + annotations_text(
        enumeration.annotations,
        enum_annotations(lib),
    ) + "enum "@ + enumeration.name.value + "\n"@
        + braced_text(enum_body_text(lib, enumeration))
}

/// The Dart constant that a variant is encoded as.
pub fn variant_value(variant: &EnumVariant) -> (out: String)
    requires
        literal_ready(value_of_literal(variant.json_value)),
    ensures
        out@ == variant_value_text(variant@),
{
    match &variant.json_value {
        Some(value) => format_dart_literal_const(value),
        None => quote(variant.name.value.as_str()),
    }
}

fn variant_decls(enumeration: &Enum) -> (out: String)
    ensures
        out@ == variant_decls_text(enumeration@.variants, enumeration.variants@.len() as int),
{
    let mut out = String::new();
    let mut i: usize = 0;
    while i < enumeration.variants.len()
        invariant
            i <= enumeration.variants.len(),
            out@ == variant_decls_text(enumeration@.variants, i as int),
        decreases enumeration.variants.len() - i,
    {
        let ghost before = out@;
        let variant = &enumeration.variants[i];
        let docs = optional_doc(&variant.docs);
        out.append(docs.as_str());
        out.append(variant.name.value.as_str());
        out.append(",\n");
        assert(out@ =~= before + optional_doc_text(text_of(variant.docs)) + variant.name.value@ + ",\n"@);
        i = i + 1;
    }
    out
}

fn enum_from_json(enumeration: &Enum) -> (out: String)
    requires
        enum_ready(enumeration@),
    ensures
        out@ == enum_from_json_text(enumeration@),
{
    let mut arms = String::new();
    let mut i: usize = 0;
    while i < enumeration.variants.len()
        invariant
            i <= enumeration.variants.len(),
            enum_ready(enumeration@),
            arms@ == variant_decode_arms_text(enumeration@, i as int),
        decreases enumeration.variants.len() - i,
    {
        let ghost before = arms@;
        let variant = &enumeration.variants[i];
        assert(enumeration@.variants[i as int] == enumeration.variants@[i as int]@);
        assert(literal_ready(enumeration@.variants[i as int].json_value));
        let value = variant_value(variant);
        arms.append(value.as_str());
        arms.append(" => ");
        arms.append(enumeration.name.value.as_str());
        arms.append(".");
        arms.append(variant.name.value.as_str());
        arms.append(",\n");
        assert(arms@ =~= before + variant_value_text(variant@) + " => "@ + enumeration.name.value@
            + "."@ + variant.name.value@ + ",\n"@);
        i = i + 1;
    }
    arms.append("final other => throw ArgumentError(\"Unknown variant: $other\"),\n");
    let mut out = String::new();
    out.append("factory ");
    out.append(enumeration.name.value.as_str());
    out.append(".fromJson(dynamic json) => switch (json)");
    braced(&mut out, arms.as_str());
    out.append(";\n");
    assert(out@ =~= enum_from_json_text(enumeration@));
    out
}

fn enum_to_json(enumeration: &Enum) -> (out: String)
    requires
        enum_ready(enumeration@),
    ensures
        out@ == enum_to_json_text(enumeration@),
{
    let mut arms = String::new();
    let mut i: usize = 0;
    while i < enumeration.variants.len()
        invariant
            i <= enumeration.variants.len(),
            enum_ready(enumeration@),
            arms@ == variant_encode_arms_text(enumeration@, i as int),
        decreases enumeration.variants.len() - i,
    {
        let ghost before = arms@;
        let variant = &enumeration.variants[i];
        assert(enumeration@.variants[i as int] == enumeration.variants@[i as int]@);
        assert(literal_ready(enumeration@.variants[i as int].json_value));
        let value = variant_value(variant);
        arms.append(enumeration.name.value.as_str());
        arms.append(".");
        arms.append(variant.name.value.as_str());
        arms.append(" => ");
        arms.append(value.as_str());
        arms.append(",");
        assert(arms@ =~= before + enumeration.name.value@ + "."@ + variant.name.value@ + " => "@
            + variant_value_text(variant@) + ","@);
        i = i + 1;
    }
    let mut out = String::new();
    out.append("dynamic toJson() => switch (this)");
    braced(&mut out, arms.as_str());
    out.append(";");
    out.append("\n");
    assert(out@ =~= enum_to_json_text(enumeration@));
    out
}

impl Context {
    /// The string conversion of an enum: the name of the variant.
    pub fn generate_to_string_enum(&self, enumeration: &Enum) -> (out: String)
        ensures
            out@ == to_string_enum_text(enumeration@),
    {
        let mut arms = String::new();
        let mut i: usize = 0;
        while i < enumeration.variants.len()
            invariant
                i <= enumeration.variants.len(),
                arms@ == variant_name_arms_text(enumeration@, i as int),
            decreases enumeration.variants.len() - i,
        {
            let ghost before = arms@;
            let variant = &enumeration.variants[i];
            arms.append(enumeration.name.value.as_str());
            arms.append(".");
            arms.append(variant.name.value.as_str());
            arms.append(" => ");
            arms.append("\"");
            arms.append(variant.name.value.as_str());
            arms.append("\"");
            arms.append(",\n");
            assert(arms@ =~= before + enumeration.name.value@ + "."@ + variant.name.value@
                + " => "@ + quoted(variant.name.value@) + ",\n"@);
            i = i + 1;
        }
        let mut out = String::new();
        out.append("@override\nString toString() => switch (this)\n");
        braced(&mut out, arms.as_str());
        out.append(";\n");
        assert(out@ =~= to_string_enum_text(enumeration@));
        out
    }

    /// The declaration of an enum: its variants, the conversions to and
    /// from JSON and, unless switched off, the string conversion.
    pub fn codegen_enum(&self, enumeration: &Enum) -> (out: String)
        requires
            enum_ready(enumeration@),
        ensures
            out@ == enum_text(self.library@, enumeration@),
    {
        proof {
            reveal(enum_text);
            reveal(enum_body_text);
        }
        let docs = optional_doc(&enumeration.docs);
        let none: Option<SpannedScalar<String>> = None;
        let shared = match &self.library.defaults {
            Some(d) => match &d.enumeration {
                Some(e) => &e.annotations,
                None => &none,
            },
            None => &none,
        };
        let own = annotations(&enumeration.annotations, shared);
        let decls = variant_decls(enumeration);
        let from_json = enum_from_json(enumeration);
        let to_json = enum_to_json(enumeration);
        let to_string = if generates_to_string(&self.library) {
            self.generate_to_string_enum(enumeration)
        } else {
            String::new()
        };
        let extra = optional_line(&enumeration.extra_dart);
        let mut body = String::new();
        body.append(decls.as_str());
        body.append(";\n");
        body.append(from_json.as_str());
        body.append("\n");
        body.append(to_json.as_str());
        body.append(to_string.as_str());
        body.append(extra.as_str());
        assert(body@ =~= enum_body_text(self.library@, enumeration@));
        let mut out = String::new();
        out.append(docs.as_str());
        out.append(own.as_str());
        out.append("enum ");
        out.append(enumeration.name.value.as_str());
        out.append("\n");
        braced(&mut out, body.as_str());
        assert(out@ =~= enum_text(self.library@, enumeration@));
        out
    }
}

} // verus!
