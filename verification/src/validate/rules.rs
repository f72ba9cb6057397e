//! The rules.

use crate::casing::{case_converted, follows_case, is_case, to_case};
use crate::context::{parse_diagnostic, parse_error_diagnostic};
use crate::diagnostic::{
    captioned_label, Diagnostic, DiagnosticView, finding_at, finding_between, finding_captioned,
    Label, Severity, views,
};
use crate::model::options::RenameCase;
use crate::model::util::value_of;
use crate::model::view::{
    ClassView, EnumView, FieldView, LibraryView, refers_to, TextView, UnionView, ValueView,
};
use crate::model::{Class, Enum, Field, Library, Union};
use crate::span::{Span, SpannedScalar};
use crate::text::same_text;
use crate::ty::parse::{check_fits, fits, parse, parsed};
use crate::ty::{Ty, TyKind, TyKindView, TyView};
use crate::validate::collect::{concat, concat_upto, extend, nothing, only};
use crate::version::{check_requirement, requirement_admits, requirement_parses, ToolVersion};
use vstd::prelude::*;
use vstd::string::StringExecFns;

verus! {

// Names are PascalCase.
/// The finding about a name that is not PascalCase. It says what the
/// name would better be.
pub open spec fn casing_finding(name: TextView, better: Seq<char>) -> DiagnosticView {
    finding_at(
        Severity::Error,
        "Type had name that was not PascalCase"@,
        name.span,
        Some("Try renaming it to `"@ + better + "`"@),
    )
}

/// What the rule finds about one name, given whether the name is
/// PascalCase already and what it is in PascalCase.
pub open spec fn casing_verdict(
    name: TextView,
    exempt: bool,
    follows: bool,
    better: Seq<char>,
) -> Seq<DiagnosticView> {
    if exempt || follows {
        Seq::empty()
    } else {
        seq![casing_finding(name, better)]
    }
}

/// What the rule finds about one name.
pub open spec fn name_casing(name: TextView, exempt: bool) -> Seq<DiagnosticView> {
    casing_verdict(
        name,
        exempt,
        follows_case(name.value, RenameCase::Pascal),
        case_converted(name.value, RenameCase::Pascal),
    )
}

/// Whether the class says that its name need not be PascalCase.
pub open spec fn opted_out(class: ClassView) -> bool {
    value_of(class.allow_non_pascal_case) == Some(true)
}

/// What the rule finds about each class.
pub open spec fn class_casing_items(lib: LibraryView) -> Seq<Seq<DiagnosticView>> {
    Seq::new(
        lib.every_class().len(),
        |i: int| name_casing(lib.every_class()[i].name, opted_out(lib.every_class()[i])),
    )
}

/// What the rule finds about each union.
pub open spec fn union_casing_items(lib: LibraryView) -> Seq<Seq<DiagnosticView>> {
    Seq::new(lib.unions.len(), |i: int| name_casing(lib.unions[i].name, false))
}

/// What the rule finds about each enum.
pub open spec fn enum_casing_items(lib: LibraryView) -> Seq<Seq<DiagnosticView>> {
    Seq::new(lib.enums.len(), |i: int| name_casing(lib.enums[i].name, false))
}

/// One finding for every class, union and enum whose name is not
/// PascalCase, but for the classes that opted out.
pub open spec fn casing_findings(lib: LibraryView) -> Seq<DiagnosticView> {
    concat(class_casing_items(lib)) + concat(union_casing_items(lib)) + concat(
        enum_casing_items(lib),
    )
}

/// What the rule finds about one name, given whether the name is
/// PascalCase already and what it is in PascalCase.
pub fn judge_name_casing(
    name: &SpannedScalar<String>,
    exempt: bool,
    follows: bool,
    better: &str,
) -> (out: Vec<Diagnostic>)
    ensures
        views(out@) == casing_verdict(name@, exempt, follows, better@),
{
    if exempt || follows {
        nothing()
    } else {
        let mut help = String::from_str("Try renaming it to `");
        help.append(better);
        help.append("`");
        only(
            Diagnostic::at(
                Severity::Error,
                "Type had name that was not PascalCase",
                name.span,
                Some(help),
            ),
        )
    }
}

fn check_name_casing(name: &SpannedScalar<String>, exempt: bool) -> (out: Vec<Diagnostic>)
    ensures
        views(out@) == name_casing(name@, exempt),
{
    let follows = is_case(name.value.as_str(), RenameCase::Pascal);
    let better = to_case(name.value.as_str(), RenameCase::Pascal);
    judge_name_casing(name, exempt, follows, better.as_str())
}

fn is_opted_out(class: &Class) -> (out: bool)
    ensures
        out == opted_out(class@),
{
    match &class.allow_non_pascal_case {
        Some(allow) => allow.value,
        None => false,
    }
}

/// Every class, union and enum has a PascalCase name, unless it is a
/// class that opted out.
pub fn incorrect_type_name_case(lib: &Library) -> (out: Vec<Diagnostic>)
    ensures
        views(out@) == casing_findings(lib@),
{
    let classes = lib.all_classes();
    let mut out = nothing();
    let mut i: usize = 0;
    while i < classes.len()
        invariant
            i <= classes.len(),
            refers_to(classes@, lib@.every_class()),
            views(out@) == concat_upto(class_casing_items(lib@), i as int),
        decreases classes.len() - i,
    {
        let class = classes[i];
        let more = check_name_casing(&class.name, is_opted_out(class));
        extend(&mut out, more);
        i = i + 1;
    }
    let mut u: usize = 0;
    while u < lib.unions.len()
        invariant
            u <= lib.unions.len(),
            views(out@) == concat(class_casing_items(lib@)) + concat_upto(
                union_casing_items(lib@),
                u as int,
            ),
        decreases lib.unions.len() - u,
    {
        let more = check_name_casing(&lib.unions[u].name, false);
        extend(&mut out, more);
        assert(views(out@) =~= concat(class_casing_items(lib@)) + concat_upto(
            union_casing_items(lib@),
            u + 1,
        ));
        u = u + 1;
    }
    let mut e: usize = 0;
    while e < lib.enums.len()
        invariant
            e <= lib.enums.len(),
            views(out@) == concat(class_casing_items(lib@)) + concat(union_casing_items(lib@))
                + concat_upto(enum_casing_items(lib@), e as int),
        decreases lib.enums.len() - e,
    {
        let more = check_name_casing(&lib.enums[e].name, false);
        extend(&mut out, more);
        assert(views(out@) =~= concat(class_casing_items(lib@)) + concat(union_casing_items(lib@))
            + concat_upto(enum_casing_items(lib@), e + 1));
        e = e + 1;
    }
    out
}

// Type names are unique.
/// Whether another of the names is the same as name `i`.
pub open spec fn name_clashes(names: Seq<TextView>, i: int) -> bool {
    exists|j: int| 0 <= j < names.len() && j != i && (#[trigger] names[j]).value == names[i].value
}

/// The finding about a type name that is used more than once.
pub open spec fn duplicate_type_finding(name: TextView) -> DiagnosticView {
    finding_at(
        Severity::Error,
        "Duplicate type name"@,
        name.span,
        Some("Try giving it a different name"@),
    )
}

/// What the rule finds about each of the names.
pub open spec fn duplicate_type_items(lib: LibraryView) -> Seq<Seq<DiagnosticView>> {
    Seq::new(
        lib.every_type_name().len(),
        |i: int|
            if name_clashes(lib.every_type_name(), i) {
                seq![duplicate_type_finding(lib.every_type_name()[i])]
            } else {
                Seq::empty()
            },
    )
}

/// One finding for every class, union and enum whose name another of them
/// has too.
pub open spec fn duplicate_type_findings(lib: LibraryView) -> Seq<DiagnosticView> {
    concat(duplicate_type_items(lib))
}

fn has_clash(
    names: &Vec<&SpannedScalar<String>>,
    i: usize,
    Ghost(all): Ghost<Seq<TextView>>,
) -> (clash: bool)
    requires
        refers_to(names@, all),
        i < names.len(),
    ensures
        clash == name_clashes(all, i as int),
{
    let mut j: usize = 0;
    while j < names.len()
        invariant
            j <= names.len(),
            i < names.len(),
            refers_to(names@, all),
            forall|k: int| 0 <= k < j && k != i ==> (#[trigger] all[k]).value != all[i as int].value,
        decreases names.len() - j,
    {
        if j != i && same_text(names[j].value.as_str(), names[i].value.as_str()) {
            return true;
        }
        j = j + 1;
    }
    false
}

/// No two of the classes, unions and enums have the same name.
pub fn duplicate_type_names(lib: &Library) -> (out: Vec<Diagnostic>)
    ensures
        views(out@) == duplicate_type_findings(lib@),
{
    let names = lib.type_names();
    let mut out = nothing();
    let mut i: usize = 0;
    while i < names.len()
        invariant
            i <= names.len(),
            refers_to(names@, lib@.every_type_name()),
            views(out@) == concat_upto(duplicate_type_items(lib@), i as int),
        decreases names.len() - i,
    {
        let more = if has_clash(&names, i, Ghost(lib@.every_type_name())) {
            only(
                Diagnostic::at(
                    Severity::Error,
                    "Duplicate type name",
                    names[i].span,
                    Some(String::from_str("Try giving it a different name")),
                ),
            )
        } else {
            nothing()
        };
        extend(&mut out, more);
        i = i + 1;
    }
    out
}

// Field names are unique within a class.
/// Whether another field of the same class has the name of field `i`.
pub open spec fn field_clashes(fields: Seq<FieldView>, i: int) -> bool {
    exists|j: int|
        0 <= j < fields.len() && j != i && (#[trigger] fields[j]).name.value
            == fields[i].name.value
}

/// The finding about a field name that is used more than once.
pub open spec fn duplicate_field_finding(field: FieldView) -> DiagnosticView {
    finding_at(
        Severity::Error,
        "Duplicate field name"@,
        field.name.span,
        Some("Try giving it a different name"@),
    )
}

/// What the rule finds about each field of `class`.
pub open spec fn duplicate_field_class_items(class: ClassView) -> Seq<Seq<DiagnosticView>> {
    Seq::new(
        class.fields.len(),
        |i: int|
            if field_clashes(class.fields, i) {
                seq![duplicate_field_finding(class.fields[i])]
            } else {
                Seq::empty()
            },
    )
}

/// What the rule finds about each class.
pub open spec fn duplicate_field_items(lib: LibraryView) -> Seq<Seq<DiagnosticView>> {
    Seq::new(
        lib.every_class().len(),
        |c: int| concat(duplicate_field_class_items(lib.every_class()[c])),
    )
}

/// One finding for every field whose name another field of its class has
/// too.
pub open spec fn duplicate_field_findings(lib: LibraryView) -> Seq<DiagnosticView> {
    concat(duplicate_field_items(lib))
}

fn has_field_clash(class: &Class, i: usize) -> (clash: bool)
    requires
        i < class.fields.len(),
    ensures
        clash == field_clashes(class@.fields, i as int),
{
    let mut j: usize = 0;
    while j < class.fields.len()
        invariant
            j <= class.fields.len(),
            i < class.fields.len(),
            forall|k: int|
                0 <= k < j && k != i ==> (#[trigger] class@.fields[k]).name.value
                    != class@.fields[i as int].name.value,
        decreases class.fields.len() - j,
    {
        assert(class@.fields[j as int] == class.fields@[j as int]@);
        assert(class@.fields[i as int] == class.fields@[i as int]@);
        if j != i && same_text(
            class.fields[j].name.value.as_str(),
            class.fields[i].name.value.as_str(),
        ) {
            return true;
        }
        j = j + 1;
    }
    false
}

fn duplicate_fields_of(class: &Class) -> (out: Vec<Diagnostic>)
    ensures
        views(out@) == concat(duplicate_field_class_items(class@)),
{
    let mut out = nothing();
    let mut i: usize = 0;
    while i < class.fields.len()
        invariant
            i <= class.fields.len(),
            views(out@) == concat_upto(duplicate_field_class_items(class@), i as int),
        decreases class.fields.len() - i,
    {
        let more = if has_field_clash(class, i) {
            only(
                Diagnostic::at(
                    Severity::Error,
                    "Duplicate field name",
                    class.fields[i].name.span,
                    Some(String::from_str("Try giving it a different name")),
                ),
            )
        } else {
            nothing()
        };
        extend(&mut out, more);
        i = i + 1;
    }
    out
}

/// No two fields of one class have the same name.
pub fn duplicate_field_names(lib: &Library) -> (out: Vec<Diagnostic>)
    ensures
        views(out@) == duplicate_field_findings(lib@),
{
    let classes = lib.all_classes();
    let mut out = nothing();
    let mut c: usize = 0;
    while c < classes.len()
        invariant
            c <= classes.len(),
            refers_to(classes@, lib@.every_class()),
            views(out@) == concat_upto(duplicate_field_items(lib@), c as int),
        decreases classes.len() - c,
    {
        let more = duplicate_fields_of(classes[c]);
        extend(&mut out, more);
        c = c + 1;
    }
    out
}

// Unions have members.
/// The finding about a union without a member.
pub open spec fn empty_union_finding(union: UnionView) -> DiagnosticView {
    finding_at(
        Severity::Error,
        "Union was empty"@,
        union.span,
        Some("Unions must contain at least one `class`"@),
    )
}

/// What the rule finds about each union.
pub open spec fn empty_union_items(lib: LibraryView) -> Seq<Seq<DiagnosticView>> {
    Seq::new(
        lib.unions.len(),
        |i: int|
            if lib.unions[i].classes.len() == 0 {
                seq![empty_union_finding(lib.unions[i])]
            } else {
                Seq::empty()
            },
    )
}

/// One finding for every union without a member.
pub open spec fn empty_union_findings(lib: LibraryView) -> Seq<DiagnosticView> {
    concat(empty_union_items(lib))
}

/// Every union has at least one member.
pub fn empty_union(lib: &Library) -> (out: Vec<Diagnostic>)
    ensures
        views(out@) == empty_union_findings(lib@),
{
    let mut out = nothing();
    let mut i: usize = 0;
    while i < lib.unions.len()
        invariant
            i <= lib.unions.len(),
            views(out@) == concat_upto(empty_union_items(lib@), i as int),
        decreases lib.unions.len() - i,
    {
        let union = &lib.unions[i];
        let more = if union.classes.len() == 0 {
            only(
                Diagnostic::at(
                    Severity::Error,
                    "Union was empty",
                    union.span,
                    Some(String::from_str("Unions must contain at least one `class`")),
                ),
            )
        } else {
            nothing()
        };
        extend(&mut out, more);
        i = i + 1;
    }
    out
}

// Enums have variants.
/// The finding about an enum without a variant.
pub open spec fn empty_enum_finding(enumeration: EnumView) -> DiagnosticView {
    finding_at(
        Severity::Error,
        "Enum has no variants"@,
        enumeration.span,
        Some("Add at least one variant, e.g. `variant \"myVariant\"`"@),
    )
}

/// What the rule finds about each enum.
pub open spec fn empty_enum_items(lib: LibraryView) -> Seq<Seq<DiagnosticView>> {
    Seq::new(
        lib.enums.len(),
        |i: int|
            if lib.enums[i].variants.len() == 0 {
                seq![empty_enum_finding(lib.enums[i])]
            } else {
                Seq::empty()
            },
    )
}

/// One finding for every enum without a variant.
pub open spec fn empty_enum_findings(lib: LibraryView) -> Seq<DiagnosticView> {
    concat(empty_enum_items(lib))
}

/// Every enum has at least one variant.
pub fn empty_enum(lib: &Library) -> (out: Vec<Diagnostic>)
    ensures
        views(out@) == empty_enum_findings(lib@),
{
    let mut out = nothing();
    let mut i: usize = 0;
    while i < lib.enums.len()
        invariant
            i <= lib.enums.len(),
            views(out@) == concat_upto(empty_enum_items(lib@), i as int),
        decreases lib.enums.len() - i,
    {
        let enumeration = &lib.enums[i];
        let more = if enumeration.variants.len() == 0 {
            only(
                Diagnostic::at(
                    Severity::Error,
                    "Enum has no variants",
                    enumeration.span,
                    Some(
                        String::from_str("Add at least one variant, e.g. `variant \"myVariant\"`"),
                    ),
                ),
            )
        } else {
            nothing()
        };
        extend(&mut out, more);
        i = i + 1;
    }
    out
}

// A field has at most one default.
/// How to mend a field with two defaults.
pub open spec fn both_defaults_help() -> Seq<char> {
    "`defaults-to` takes a native KDL value and writes it as a Dart constant. If you need something that cannot be expressed in KDL (such as class instances, collection literals), use `defaults-to-dart` alone"@
}

/// The finding about a field with two defaults. It points at both.
pub open spec fn both_defaults_finding(literal: Span, dart: Span) -> DiagnosticView {
    finding_between(
        Severity::Error,
        "Field has a definition for both `defaults-to` and `defaults-to-dart`"@,
        captioned_label(literal, "`defaults-to` defined here"@),
        captioned_label(dart, "`defaults-to-dart` defined here"@),
        Some(both_defaults_help()),
    )
}

/// What the rule finds about one field.
pub open spec fn both_defaults_of(field: FieldView) -> Seq<DiagnosticView> {
    match (field.defaults_to, field.defaults_to_dart) {
        (Some(literal), Some(dart)) => seq![both_defaults_finding(literal.span, dart.span)],
        _ => Seq::empty(),
    }
}

/// What the rule finds about each field.
pub open spec fn both_defaults_items(lib: LibraryView) -> Seq<Seq<DiagnosticView>> {
    Seq::new(lib.every_field().len(), |i: int| both_defaults_of(lib.every_field()[i]))
}

/// One finding for every field that has a literal default and a default
/// expression as well.
pub open spec fn both_defaults_findings(lib: LibraryView) -> Seq<DiagnosticView> {
    concat(both_defaults_items(lib))
}

fn check_both_defaults(field: &Field) -> (out: Vec<Diagnostic>)
    ensures
        views(out@) == both_defaults_of(field@),
{
    if let Some(literal) = &field.defaults_to {
        if let Some(dart) = &field.defaults_to_dart {
            return only(
                Diagnostic::between(
                    Severity::Error,
                    "Field has a definition for both `defaults-to` and `defaults-to-dart`",
                    Label::captioned(literal.span, "`defaults-to` defined here"),
                    Label::captioned(dart.span, "`defaults-to-dart` defined here"),
                    Some(
                        String::from_str(
                            "`defaults-to` takes a native KDL value and writes it as a Dart constant. If you need something that cannot be expressed in KDL (such as class instances, collection literals), use `defaults-to-dart` alone",
                        ),
                    ),
                ),
            );
        }
    }
    nothing()
}

/// No field has a literal default and a default expression as well.
pub fn field_with_both_defaults(lib: &Library) -> (out: Vec<Diagnostic>)
    ensures
        views(out@) == both_defaults_findings(lib@),
{
    let fields = lib.all_fields();
    let mut out = nothing();
    let mut i: usize = 0;
    while i < fields.len()
        invariant
            i <= fields.len(),
            refers_to(fields@, lib@.every_field()),
            views(out@) == concat_upto(both_defaults_items(lib@), i as int),
        decreases fields.len() - i,
    {
        let more = check_both_defaults(fields[i]);
        extend(&mut out, more);
        i = i + 1;
    }
    out
}

// Integer defaults are decimal or hexadecimal.
/// The finding about an integer in a base that Dart cannot write.
pub open spec fn radix_finding(value: ValueView) -> DiagnosticView {
    finding_captioned(
        Severity::Error,
        "Invalid integer literal"@,
        value.span,
        "invalid"@,
        Some(
            "Integer literals must be either decimal (i.e. `1234`) or hexadecimal (i.e. `0x1234`)"@,
        ),
    )
}

/// What the rule finds about one literal default.
pub open spec fn radix_of(value: ValueView) -> Seq<DiagnosticView> {
    if value.literal.has_unsupported_radix() {
        seq![radix_finding(value)]
    } else {
        Seq::empty()
    }
}

/// What the rule finds about each literal default.
pub open spec fn radix_items(lib: LibraryView) -> Seq<Seq<DiagnosticView>> {
    Seq::new(lib.every_raw_value().len(), |i: int| radix_of(lib.every_raw_value()[i]))
}

/// One finding for every literal default that is an integer in a base
/// other than ten or sixteen.
pub open spec fn radix_findings(lib: LibraryView) -> Seq<DiagnosticView> {
    concat(radix_items(lib))
}

/// Every integer that is the literal default of a field is decimal or
/// hexadecimal.
pub fn invalid_int_literal(lib: &Library) -> (out: Vec<Diagnostic>)
    ensures
        views(out@) == radix_findings(lib@),
{
    let values = lib.all_raw_values();
    let mut out = nothing();
    let mut i: usize = 0;
    while i < values.len()
        invariant
            i <= values.len(),
            refers_to(values@, lib@.every_raw_value()),
            views(out@) == concat_upto(radix_items(lib@), i as int),
        decreases values.len() - i,
    {
        let value = values[i];
        let more = if value.literal.has_unsupported_radix() {
            only(
                Diagnostic::captioned(
                    Severity::Error,
                    "Invalid integer literal",
                    value.span,
                    "invalid",
                    Some(
                        String::from_str(
                            "Integer literals must be either decimal (i.e. `1234`) or hexadecimal (i.e. `0x1234`)",
                        ),
                    ),
                ),
            )
        } else {
            nothing()
        };
        extend(&mut out, more);
        i = i + 1;
    }
    out
}

// Only members of a union have a discriminant.
/// The finding about a discriminant on a class that is no member of a
/// union.
pub open spec fn stray_discriminant_finding(value: ValueView) -> DiagnosticView {
    finding_captioned(
        Severity::Error,
        "Non-union class has `json-discriminant-value`"@,
        value.span,
        "Remove this"@,
        Some(
            "Only classes that are part of a union have a json discriminant, so this value is meaningless"@,
        ),
    )
}

/// What the rule finds about each free-standing class.
pub open spec fn stray_discriminant_items(lib: LibraryView) -> Seq<Seq<DiagnosticView>> {
    Seq::new(
        lib.classes.len(),
        |i: int|
            match lib.classes[i].json_discriminant_value {
                Some(value) => seq![stray_discriminant_finding(value)],
                None => Seq::empty(),
            },
    )
}

/// One finding for every free-standing class that names a discriminant.
pub open spec fn stray_discriminant_findings(lib: LibraryView) -> Seq<DiagnosticView> {
    concat(stray_discriminant_items(lib))
}

/// No free-standing class names a discriminant.
pub fn json_discrimminant_non_union_class(lib: &Library) -> (out: Vec<Diagnostic>)
    ensures
        views(out@) == stray_discriminant_findings(lib@),
{
    let mut out = nothing();
    let mut i: usize = 0;
    while i < lib.classes.len()
        invariant
            i <= lib.classes.len(),
            views(out@) == concat_upto(stray_discriminant_items(lib@), i as int),
        decreases lib.classes.len() - i,
    {
        let more = match &lib.classes[i].json_discriminant_value {
            Some(value) => only(
                Diagnostic::captioned(
                    Severity::Error,
                    "Non-union class has `json-discriminant-value`",
                    value.span,
                    "Remove this",
                    Some(
                        String::from_str(
                            "Only classes that are part of a union have a json discriminant, so this value is meaningless",
                        ),
                    ),
                ),
            ),
            None => nothing(),
        };
        extend(&mut out, more);
        i = i + 1;
    }
    out
}

// JSON keys are unique within a class.
/// Where the key of `field` is written: its own key if it names one,
/// else its name.
pub open spec fn json_key_span(field: FieldView) -> Span {
    match field.json_key {
        Some(key) => key.span,
        None => field.name.span,
    }
}

/// The finding about two fields that are encoded under one key. It points
/// at both and names the key.
pub open spec fn duplicate_key_finding(
    key: Seq<char>,
    first: FieldView,
    second: FieldView,
) -> DiagnosticView {
    finding_between(
        Severity::Error,
        "Multiple fields have the same json key"@,
        captioned_label(json_key_span(first), "first field"@),
        captioned_label(json_key_span(second), "second field"@),
        Some(
            "Fields `"@ + first.name.value + "` and `"@ + second.name.value
                + "` are both encoded under the key `"@ + key + "`"@,
        ),
    )
}

/// What the rule finds about fields `i` and `j` of `class`, given the key
/// of each field of the class.
pub open spec fn key_pair(class: ClassView, keys: Seq<Seq<char>>, i: int, j: int) -> Seq<DiagnosticView> {
    if i < j && keys[i] == keys[j] {
        seq![duplicate_key_finding(keys[i], class.fields[i], class.fields[j])]
    } else {
        Seq::empty()
    }
}

/// What the rule finds about field `i` of `class` and each of its fields.
pub open spec fn key_pair_items(class: ClassView, keys: Seq<Seq<char>>, i: int) -> Seq<Seq<DiagnosticView>> {
    Seq::new(class.fields.len(), |j: int| key_pair(class, keys, i, j))
}

/// What the rule finds about each field of `class` and the fields behind
/// it.
pub open spec fn key_class_items(
    class: ClassView,
    keys: Seq<Seq<char>>,
) -> Seq<Seq<DiagnosticView>> {
    Seq::new(class.fields.len(), |i: int| concat(key_pair_items(class, keys, i)))
}

/// What the rule finds about one class, given the key of each of its
/// fields: one finding for every two fields with the same key, by the
/// first field and then by the second.
pub open spec fn duplicate_keys_in(class: ClassView, keys: Seq<Seq<char>>) -> Seq<DiagnosticView> {
    concat(key_class_items(class, keys))
}

/// The key of each field of `class`.
pub open spec fn class_keys(lib: LibraryView, class: ClassView) -> Seq<Seq<char>> {
    Seq::new(class.fields.len(), |i: int| lib.json_key(class, class.fields[i]))
}

/// What the rule finds about each class.
pub open spec fn duplicate_key_items(lib: LibraryView) -> Seq<Seq<DiagnosticView>> {
    Seq::new(
        lib.every_class().len(),
        |c: int| duplicate_keys_in(lib.every_class()[c], class_keys(lib, lib.every_class()[c])),
    )
}

/// One finding for every two fields of one class that are encoded under
/// the same key: class by class, by the first field and then by the
/// second.
pub open spec fn duplicate_key_findings(lib: LibraryView) -> Seq<DiagnosticView> {
    concat(duplicate_key_items(lib))
}

fn key_span(field: &Field) -> (span: Span)
    ensures
        span == json_key_span(field@),
{
    match &field.json_key {
        Some(key) => key.span,
        None => field.name.span,
    }
}

/// The characters of each text.
pub open spec fn key_texts(keys: Seq<String>) -> Seq<Seq<char>> {
    Seq::new(keys.len(), |i: int| keys[i]@)
}

fn keys_of_class(lib: &Library, class: &Class) -> (keys: Vec<String>)
    ensures
        key_texts(keys@) == class_keys(lib@, class@),
{
    let mut keys: Vec<String> = Vec::new();
    let mut i: usize = 0;
    while i < class.fields.len()
        invariant
            i <= class.fields.len(),
            keys@.len() == i,
            forall|k: int|
                0 <= k < i ==> (#[trigger] keys@[k])@ == lib@.json_key(class@, class.fields@[k]@),
        decreases class.fields.len() - i,
    {
        keys.push(lib.json_key_for(class, &class.fields[i]));
        i = i + 1;
    }
    assert(key_texts(keys@) =~= class_keys(lib@, class@));
    keys
}

fn duplicate_keys_with(class: &Class, keys: &Vec<String>, i: usize) -> (out: Vec<Diagnostic>)
    requires
        keys.len() == class.fields.len(),
        i < class.fields.len(),
    ensures
        views(out@) == concat(key_pair_items(class@, key_texts(keys@), i as int)),
{
    let mut out = nothing();
    let mut j: usize = 0;
    while j < class.fields.len()
        invariant
            j <= class.fields.len(),
            i < class.fields.len(),
            keys.len() == class.fields.len(),
            views(out@) == concat_upto(
                key_pair_items(class@, key_texts(keys@), i as int),
                j as int,
            ),
        decreases class.fields.len() - j,
    {
        let more = if i < j && keys[i] == keys[j] {
            let mut help = String::from_str("Fields `");
            help.append(class.fields[i].name.value.as_str());
            help.append("` and `");
            help.append(class.fields[j].name.value.as_str());
            help.append("` are both encoded under the key `");
            help.append(keys[i].as_str());
            help.append("`");
            only(
                Diagnostic::between(
                    Severity::Error,
                    "Multiple fields have the same json key",
                    Label::captioned(key_span(&class.fields[i]), "first field"),
                    Label::captioned(key_span(&class.fields[j]), "second field"),
                    Some(help),
                ),
            )
        } else {
            nothing()
        };
        assert(views(more@) == key_pair(class@, key_texts(keys@), i as int, j as int));
        extend(&mut out, more);
        j = j + 1;
    }
    out
}

/// What the rule finds about one class, given the key of each of its
/// fields.
pub fn duplicate_keys_among(class: &Class, keys: &Vec<String>) -> (out: Vec<Diagnostic>)
    requires
        keys.len() == class.fields.len(),
    ensures
        views(out@) == duplicate_keys_in(class@, key_texts(keys@)),
{
    let mut out = nothing();
    let mut i: usize = 0;
    while i < class.fields.len()
        invariant
            i <= class.fields.len(),
            keys.len() == class.fields.len(),
            views(out@) == concat_upto(key_class_items(class@, key_texts(keys@)), i as int),
        decreases class.fields.len() - i,
    {
        let more = duplicate_keys_with(class, keys, i);
        extend(&mut out, more);
        i = i + 1;
    }
    out
}

fn duplicate_keys_of(lib: &Library, class: &Class) -> (out: Vec<Diagnostic>)
    ensures
        views(out@) == duplicate_keys_in(class@, class_keys(lib@, class@)),
{
    let keys = keys_of_class(lib, class);
    assert(keys@.len() == key_texts(keys@).len());
    duplicate_keys_among(class, &keys)
}

/// No two fields of one class are encoded under the same key.
pub fn duplicate_json_keys(lib: &Library) -> (out: Vec<Diagnostic>)
    ensures
        views(out@) == duplicate_key_findings(lib@),
{
    let classes = lib.all_classes();
    let mut out = nothing();
    let mut c: usize = 0;
    while c < classes.len()
        invariant
            c <= classes.len(),
            refers_to(classes@, lib@.every_class()),
            views(out@) == concat_upto(duplicate_key_items(lib@), c as int),
        decreases classes.len() - c,
    {
        let more = duplicate_keys_of(lib, classes[c]);
        extend(&mut out, more);
        c = c + 1;
    }
    out
}

// Field types can be read, and maps are keyed by strings.
/// The finding about a type that the generator cannot work with.
pub open spec fn field_type_finding(span: Span, reason: Seq<char>) -> DiagnosticView {
    finding_at(Severity::Error, "Invalid Field Type"@, span, Some(reason))
}

/// Whether the type is the scalar `String`.
pub open spec fn is_string(ty: TyView) -> bool {
    ty.kind == TyKindView::Simple("String"@)
}

/// The finding about a map that is not keyed by `String`. It points at
/// the key.
pub open spec fn map_key_finding(key: TyView) -> DiagnosticView {
    field_type_finding(key.span, "Only `String` is supported as a Map key type"@)
}

/// What the rule finds about a type that was read: every map in it has to
/// be keyed by `String`. The findings come map by map, an outer map
/// before the maps in its key and these before the maps in its value.
pub open spec fn map_key_findings(ty: TyView) -> Seq<DiagnosticView>
    decreases ty,
{
    match ty.kind {
        TyKindView::Simple(_) => Seq::empty(),
        TyKindView::Nullable(inner) => map_key_findings(*inner),
        TyKindView::List(inner) => map_key_findings(*inner),
        TyKindView::SetOf(inner) => map_key_findings(*inner),
        TyKindView::MapOf { key, value } => (if is_string(*key) {
            Seq::empty()
        } else {
            seq![map_key_finding(*key)]
        }) + map_key_findings(*key) + map_key_findings(*value),
    }
}

/// Whether every map in the type is keyed by `String`.
pub open spec fn string_keyed(ty: TyView) -> bool
    decreases ty,
{
    match ty.kind {
        TyKindView::Simple(_) => true,
        TyKindView::Nullable(inner) => string_keyed(*inner),
        TyKindView::List(inner) => string_keyed(*inner),
        TyKindView::SetOf(inner) => string_keyed(*inner),
        TyKindView::MapOf { key, value } => is_string(*key) && string_keyed(*value),
    }
}

/// What the rule finds about one field: where its annotation cannot be
/// read, why and that; else what it finds about the type.
pub open spec fn field_type_findings_of(field: FieldView) -> Seq<DiagnosticView> {
    if !fits(field.ty.value, field.ty.span.start as int) {
        seq![field_type_finding(field.ty.span, "Failed to parse type"@)]
    } else {
        match parsed(field.ty.value, field.ty.span.start as int) {
            Err(error) => seq![
                parse_diagnostic(error),
                field_type_finding(field.ty.span, "Failed to parse type"@),
            ],
            Ok(ty) => map_key_findings(ty),
        }
    }
}

/// What the rule finds about each field.
pub open spec fn field_type_items(lib: LibraryView) -> Seq<Seq<DiagnosticView>> {
    Seq::new(lib.every_field().len(), |i: int| field_type_findings_of(lib.every_field()[i]))
}

/// The findings about the types of all fields, field by field.
pub open spec fn field_type_findings(lib: LibraryView) -> Seq<DiagnosticView> {
    concat(field_type_items(lib))
}

fn unreadable(field: &Field) -> (finding: Diagnostic)
    ensures
        finding@ == field_type_finding(field.ty.span, "Failed to parse type"@),
{
    Diagnostic::at(
        Severity::Error,
        "Invalid Field Type",
        field.ty.span,
        Some(String::from_str("Failed to parse type")),
    )
}

/// What the rule finds about a type that was read: every map in it has to
/// be keyed by `String`.
pub fn check_map_keys(ty: &Ty) -> (out: Vec<Diagnostic>)
    ensures
        views(out@) == map_key_findings(ty@),
    decreases ty,
{
    match &ty.kind {
        TyKind::Simple(_) => nothing(),
        TyKind::Nullable(inner) => check_map_keys(inner),
        TyKind::List(inner) => check_map_keys(inner),
        TyKind::SetOf(inner) => check_map_keys(inner),
        TyKind::MapOf { key, value } => {
            let keyed_by_string = match &key.kind {
                TyKind::Simple(name) => same_text(name.as_str(), "String"),
                _ => false,
            };
            assert(keyed_by_string == is_string(key@));
            let mut out = if keyed_by_string {
                nothing()
            } else {
                only(
                    Diagnostic::at(
                        Severity::Error,
                        "Invalid Field Type",
                        key.span,
                        Some(String::from_str("Only `String` is supported as a Map key type")),
                    ),
                )
            };
            extend(&mut out, check_map_keys(key));
            extend(&mut out, check_map_keys(value));
            out
        },
    }
}

fn check_field_type(field: &Field) -> (out: Vec<Diagnostic>)
    ensures
        views(out@) == field_type_findings_of(field@),
{
    if !check_fits(field.ty.value.as_str(), field.ty.span.start) {
        return only(unreadable(field));
    }
    match parse(field.ty.value.as_str(), field.ty.span.start) {
        Err(error) => {
            let mut out = only(parse_error_diagnostic(error));
            extend(&mut out, only(unreadable(field)));
            assert(views(out@) =~= field_type_findings_of(field@));
            out
        },
        Ok(ty) => check_map_keys(&ty),
    }
}

/// The annotation of every field can be read, and every map that it
/// denotes is keyed by `String`.
pub fn invalid_field_types(lib: &Library) -> (out: Vec<Diagnostic>)
    ensures
        views(out@) == field_type_findings(lib@),
{
    let fields = lib.all_fields();
    let mut out = nothing();
    let mut i: usize = 0;
    while i < fields.len()
        invariant
            i <= fields.len(),
            refers_to(fields@, lib@.every_field()),
            views(out@) == concat_upto(field_type_items(lib@), i as int),
        decreases fields.len() - i,
    {
        let more = check_field_type(fields[i]);
        extend(&mut out, more);
        i = i + 1;
    }
    out
}

// The running tool is recent enough.
/// The version requirement that the document states, if it states one.
pub open spec fn minimum_version(lib: LibraryView) -> Option<TextView> {
    match lib.meta {
        Some(meta) => meta.version,
        None => None,
    }
}

/// The finding about a requirement that is none.
pub open spec fn not_semver_finding(span: Span) -> DiagnosticView {
    finding_captioned(
        Severity::Error,
        "This version is not a valid semantic version"@,
        span,
        "Not valid semantic version"@,
        None,
    )
}

/// The warning about a tool that is older than the document asks for. It
/// names both versions as they are spelled.
pub open spec fn incompatible_finding(required: TextView, current: Seq<char>) -> DiagnosticView {
    finding_captioned(
        Severity::Warning,
        "This config requires `dart-typegen` version "@ + required.value
            + " (or any semver-compatible version), but the current version is "@ + current,
        required.span,
        "Version defined here"@,
        None,
    )
}

/// What the rule finds: nothing where the document states no
/// requirement; an error where what it states is no requirement; a
/// warning where the running tool does not satisfy it.
pub open spec fn version_findings(lib: LibraryView, current: Seq<char>) -> Seq<DiagnosticView> {
    match minimum_version(lib) {
        None => Seq::empty(),
        Some(required) => if !requirement_parses(required.value) {
            seq![not_semver_finding(required.span)]
        } else if !requirement_admits(required.value, current) {
            seq![incompatible_finding(required, current)]
        } else {
            Seq::empty()
        },
    }
}

/// What the rule finds, given what the check of the requirement against
/// the running tool came to: `None` where what the document states is no
/// requirement, else whether the tool satisfies it.
pub open spec fn version_verdict(
    required: TextView,
    current: Seq<char>,
    admits: Option<bool>,
) -> Seq<DiagnosticView> {
    match admits {
        None => seq![not_semver_finding(required.span)],
        Some(false) => seq![incompatible_finding(required, current)],
        Some(true) => Seq::empty(),
    }
}

/// What the rule finds, given what the check of the requirement against
/// the running tool came to.
pub fn judge_version(
    required: &SpannedScalar<String>,
    current: &str,
    admits: Option<bool>,
) -> (out: Vec<Diagnostic>)
    ensures
        views(out@) == version_verdict(required@, current@, admits),
{
    match admits {
        None => only(
            Diagnostic::captioned(
                Severity::Error,
                "This version is not a valid semantic version",
                required.span,
                "Not valid semantic version",
                None,
            ),
        ),
        Some(false) => {
            let mut message = String::from_str("This config requires `dart-typegen` version ");
            message.append(required.value.as_str());
            message.append(" (or any semver-compatible version), but the current version is ");
            message.append(current);
            only(
                Diagnostic::captioned(
                    Severity::Warning,
                    message.as_str(),
                    required.span,
                    "Version defined here",
                    None,
                ),
            )
        },
        Some(true) => nothing(),
    }
}

/// The running tool satisfies the version requirement of the document,
/// if it states one.
pub fn version_too_low(lib: &Library, current: &ToolVersion) -> (out: Vec<Diagnostic>)
    ensures
        views(out@) == version_findings(lib@, current@),
{
    let required = match &lib.meta {
        Some(meta) => match &meta.version {
            Some(version) => version,
            None => {
                return nothing();
            },
        },
        None => {
            return nothing();
        },
    };
    let version = current.as_str();
    let admits = check_requirement(required.value.as_str(), version);
    judge_version(required, version, admits)
}

} // verus!
