//! What holds of every valid library.

use crate::casing::follows_case;
use crate::codegen::ready::{
    class_ready, enum_ready, field_ready, field_ty, fields_ready, library_ready, literal_ready,
    type_reads, union_ready,
};
use crate::diagnostic::{DiagnosticView, only_warnings, Severity};
use crate::model::Library;
use crate::model::options::RenameCase;
use crate::model::util::{fields_upto, members_upto, raw_values_upto};
use crate::model::view::{ClassView, FieldView, LibraryView, UnionView};
use crate::ty::{TyKindView, TyView};
use crate::validate::collect::{concat, concat_upto, lemma_concat_holds_part};
use crate::validate::rules::{
    both_defaults_findings, both_defaults_items, casing_findings, class_casing_items, class_keys,
    duplicate_field_class_items, duplicate_field_findings, duplicate_field_items,
    duplicate_key_findings, duplicate_key_items, duplicate_type_findings, duplicate_type_items,
    empty_enum_findings, empty_enum_items, empty_union_findings, empty_union_items,
    enum_casing_items, field_clashes, field_type_findings, field_type_items, is_string,
    key_class_items, key_pair_items, map_key_finding, map_key_findings, name_clashes, opted_out,
    radix_findings, radix_items, stray_discriminant_findings, stray_discriminant_items,
    string_keyed, union_casing_items, version_findings,
};
use crate::validate::{findings, valid};
use vstd::prelude::*;

verus! {

/// Where two lists of findings hold only warnings together, each does.
pub proof fn lemma_split_only_warnings(a: Seq<DiagnosticView>, b: Seq<DiagnosticView>)
    requires
        only_warnings(a + b),
    ensures
        only_warnings(a),
        only_warnings(b),
{
    assert forall|i: int| 0 <= i < a.len() implies (#[trigger] a[i]).severity
        == Severity::Warning by {
        assert((a + b)[i] == a[i]);
    }
    assert forall|i: int| 0 <= i < b.len() implies (#[trigger] b[i]).severity
        == Severity::Warning by {
        assert((a + b)[a.len() + i] == b[i]);
    }
}

/// Where the whole holds only warnings, each part does.
pub proof fn lemma_part_only_warnings(parts: Seq<Seq<DiagnosticView>>, i: int)
    requires
        only_warnings(concat(parts)),
        0 <= i < parts.len(),
    ensures
        only_warnings(parts[i]),
{
    assert forall|k: int| 0 <= k < parts[i].len() implies (#[trigger] parts[i][k]).severity
        == Severity::Warning by {
        lemma_concat_holds_part(parts, parts.len() as int, i, k);
    }
}

/// In a valid library no rule finds an error.
pub proof fn lemma_valid_rule_by_rule(lib: LibraryView, current: Seq<char>)
    requires
        valid(lib, current),
    ensures
        only_warnings(casing_findings(lib)),
        only_warnings(duplicate_type_findings(lib)),
        only_warnings(duplicate_field_findings(lib)),
        only_warnings(empty_union_findings(lib)),
        only_warnings(both_defaults_findings(lib)),
        only_warnings(radix_findings(lib)),
        only_warnings(empty_enum_findings(lib)),
        only_warnings(stray_discriminant_findings(lib)),
        only_warnings(duplicate_key_findings(lib)),
        only_warnings(field_type_findings(lib)),
        only_warnings(version_findings(lib, current)),
{
    let r1 = casing_findings(lib);
    let r2 = duplicate_type_findings(lib);
    let r3 = duplicate_field_findings(lib);
    let r4 = empty_union_findings(lib);
    let r5 = both_defaults_findings(lib);
    let r6 = radix_findings(lib);
    let r7 = empty_enum_findings(lib);
    let r8 = stray_discriminant_findings(lib);
    let r9 = duplicate_key_findings(lib);
    let r10 = field_type_findings(lib);
    let r11 = version_findings(lib, current);
    lemma_split_only_warnings(r1 + r2 + r3 + r4 + r5 + r6 + r7 + r8 + r9 + r10, r11);
    lemma_split_only_warnings(r1 + r2 + r3 + r4 + r5 + r6 + r7 + r8 + r9, r10);
    lemma_split_only_warnings(r1 + r2 + r3 + r4 + r5 + r6 + r7 + r8, r9);
    lemma_split_only_warnings(r1 + r2 + r3 + r4 + r5 + r6 + r7, r8);
    lemma_split_only_warnings(r1 + r2 + r3 + r4 + r5 + r6, r7);
    lemma_split_only_warnings(r1 + r2 + r3 + r4 + r5, r6);
    lemma_split_only_warnings(r1 + r2 + r3 + r4, r5);
    lemma_split_only_warnings(r1 + r2 + r3, r4);
    lemma_split_only_warnings(r1 + r2, r3);
    lemma_split_only_warnings(r1, r2);
}

/// In a valid library no two of the classes, unions and enums have the
/// same name.
pub proof fn lemma_valid_type_names_unique(lib: LibraryView, current: Seq<char>)
    requires
        valid(lib, current),
    ensures
        forall|i: int, j: int|
            0 <= i < j < lib.every_type_name().len() ==> (#[trigger] lib.every_type_name()[i]).value
                != (#[trigger] lib.every_type_name()[j]).value,
{
    lemma_valid_rule_by_rule(lib, current);
    let names = lib.every_type_name();
    assert forall|i: int, j: int| 0 <= i < j < names.len() implies (#[trigger] names[i]).value
        != (#[trigger] names[j]).value by {
        if names[i].value == names[j].value {
            assert(name_clashes(names, i));
            lemma_part_only_warnings(duplicate_type_items(lib), i);
            assert(duplicate_type_items(lib)[i][0].severity == Severity::Error);
        }
    }
}

/// In a valid library no two fields of one class have the same name.
pub proof fn lemma_valid_field_names_unique(lib: LibraryView, current: Seq<char>)
    requires
        valid(lib, current),
    ensures
        forall|c: int, i: int, j: int|
            0 <= c < lib.every_class().len() && 0 <= i < j < lib.every_class()[c].fields.len()
                ==> (#[trigger] lib.every_class()[c].fields[i]).name.value
                != (#[trigger] lib.every_class()[c].fields[j]).name.value,
{
    lemma_valid_rule_by_rule(lib, current);
    assert forall|c: int, i: int, j: int|
        0 <= c < lib.every_class().len() && 0 <= i < j
            < lib.every_class()[c].fields.len() implies (
    #[trigger] lib.every_class()[c].fields[i]).name.value
        != (#[trigger] lib.every_class()[c].fields[j]).name.value by {
        let class = lib.every_class()[c];
        if class.fields[i].name.value == class.fields[j].name.value {
            assert(field_clashes(class.fields, i));
            lemma_part_only_warnings(duplicate_field_items(lib), c);
            lemma_part_only_warnings(duplicate_field_class_items(class), i);
            assert(duplicate_field_class_items(class)[i][0].severity == Severity::Error);
        }
    }
}

/// In a valid library no two fields of one class are encoded under the
/// same key.
pub proof fn lemma_valid_json_keys_unique(lib: LibraryView, current: Seq<char>)
    requires
        valid(lib, current),
    ensures
        forall|c: int, i: int, j: int|
            0 <= c < lib.every_class().len() && 0 <= i < j < lib.every_class()[c].fields.len()
                ==> lib.json_key(
                lib.every_class()[c],
                #[trigger] lib.every_class()[c].fields[i],
            ) != lib.json_key(lib.every_class()[c], #[trigger] lib.every_class()[c].fields[j]),
{
    lemma_valid_rule_by_rule(lib, current);
    assert forall|c: int, i: int, j: int|
        0 <= c < lib.every_class().len() && 0 <= i < j
            < lib.every_class()[c].fields.len() implies lib.json_key(
        lib.every_class()[c],
        #[trigger] lib.every_class()[c].fields[i],
    ) != lib.json_key(lib.every_class()[c], #[trigger] lib.every_class()[c].fields[j]) by {
        let class = lib.every_class()[c];
        if lib.json_key(class, class.fields[i]) == lib.json_key(class, class.fields[j]) {
            let keys = class_keys(lib, class);
            lemma_part_only_warnings(duplicate_key_items(lib), c);
            lemma_part_only_warnings(key_class_items(class, keys), i);
            lemma_part_only_warnings(key_pair_items(class, keys, i), j);
            assert(key_pair_items(class, keys, i)[j][0].severity == Severity::Error);
        }
    }
}

/// In a valid library every class that did not opt out, every union and
/// every enum has a PascalCase name.
pub proof fn lemma_valid_names_pascal_case(lib: LibraryView, current: Seq<char>)
    requires
        valid(lib, current),
    ensures
        forall|c: int|
            0 <= c < lib.every_class().len() && !opted_out(#[trigger] lib.every_class()[c])
                ==> follows_case(lib.every_class()[c].name.value, RenameCase::Pascal),
        forall|u: int|
            0 <= u < lib.unions.len() ==> follows_case(
                (#[trigger] lib.unions[u]).name.value,
                RenameCase::Pascal,
            ),
        forall|e: int|
            0 <= e < lib.enums.len() ==> follows_case(
                (#[trigger] lib.enums[e]).name.value,
                RenameCase::Pascal,
            ),
{
    lemma_valid_rule_by_rule(lib, current);
    lemma_split_only_warnings(
        concat(class_casing_items(lib)) + concat(union_casing_items(lib)),
        concat(enum_casing_items(lib)),
    );
    lemma_split_only_warnings(concat(class_casing_items(lib)), concat(union_casing_items(lib)));
    assert forall|c: int|
        0 <= c < lib.every_class().len() && !opted_out(
            #[trigger] lib.every_class()[c],
        ) implies follows_case(lib.every_class()[c].name.value, RenameCase::Pascal) by {
        lemma_part_only_warnings(class_casing_items(lib), c);
        if !follows_case(lib.every_class()[c].name.value, RenameCase::Pascal) {
            assert(class_casing_items(lib)[c][0].severity == Severity::Error);
        }
    }
    assert forall|u: int| 0 <= u < lib.unions.len() implies follows_case(
        (#[trigger] lib.unions[u]).name.value,
        RenameCase::Pascal,
    ) by {
        lemma_part_only_warnings(union_casing_items(lib), u);
        if !follows_case(lib.unions[u].name.value, RenameCase::Pascal) {
            assert(union_casing_items(lib)[u][0].severity == Severity::Error);
        }
    }
    assert forall|e: int| 0 <= e < lib.enums.len() implies follows_case(
        (#[trigger] lib.enums[e]).name.value,
        RenameCase::Pascal,
    ) by {
        lemma_part_only_warnings(enum_casing_items(lib), e);
        if !follows_case(lib.enums[e].name.value, RenameCase::Pascal) {
            assert(enum_casing_items(lib)[e][0].severity == Severity::Error);
        }
    }
}

/// In a valid library every union has a member and every enum a variant.
pub proof fn lemma_valid_nothing_empty(lib: LibraryView, current: Seq<char>)
    requires
        valid(lib, current),
    ensures
        forall|u: int| 0 <= u < lib.unions.len() ==> (#[trigger] lib.unions[u]).classes.len() > 0,
        forall|e: int| 0 <= e < lib.enums.len() ==> (#[trigger] lib.enums[e]).variants.len() > 0,
{
    lemma_valid_rule_by_rule(lib, current);
    assert forall|u: int| 0 <= u < lib.unions.len() implies (
    #[trigger] lib.unions[u]).classes.len() > 0 by {
        lemma_part_only_warnings(empty_union_items(lib), u);
        if lib.unions[u].classes.len() == 0 {
            assert(empty_union_items(lib)[u][0].severity == Severity::Error);
        }
    }
    assert forall|e: int| 0 <= e < lib.enums.len() implies (
    #[trigger] lib.enums[e]).variants.len() > 0 by {
        lemma_part_only_warnings(empty_enum_items(lib), e);
        if lib.enums[e].variants.len() == 0 {
            assert(empty_enum_items(lib)[e][0].severity == Severity::Error);
        }
    }
}

/// Each member of one of the first `n` unions is among their members.
pub proof fn lemma_member_listed(unions: Seq<UnionView>, n: int, u: int, k: int)
    requires
        0 <= u < n <= unions.len(),
        0 <= k < unions[u].classes.len(),
    ensures
        members_upto(unions, n).contains(unions[u].classes[k]),
    decreases n,
{
    let whole = members_upto(unions, n);
    let before = members_upto(unions, n - 1);
    if u == n - 1 {
        assert(whole[before.len() + k] == unions[u].classes[k]);
    } else {
        lemma_member_listed(unions, n - 1, u, k);
        let at = choose|at: int| 0 <= at < before.len() && before[at] == unions[u].classes[k];
        assert(whole[at] == unions[u].classes[k]);
    }
}

/// Each field of one of the first `n` classes is among their fields.
pub proof fn lemma_field_listed(classes: Seq<ClassView>, n: int, c: int, f: int)
    requires
        0 <= c < n <= classes.len(),
        0 <= f < classes[c].fields.len(),
    ensures
        fields_upto(classes, n).contains(classes[c].fields[f]),
    decreases n,
{
    let whole = fields_upto(classes, n);
    let before = fields_upto(classes, n - 1);
    if c == n - 1 {
        assert(whole[before.len() + f] == classes[c].fields[f]);
    } else {
        lemma_field_listed(classes, n - 1, c, f);
        let at = choose|at: int| 0 <= at < before.len() && before[at] == classes[c].fields[f];
        assert(whole[at] == classes[c].fields[f]);
    }
}

/// The literal default of each of the first `n` fields is among their
/// literal defaults.
pub proof fn lemma_raw_value_listed(fields: Seq<FieldView>, n: int, f: int)
    requires
        0 <= f < n <= fields.len(),
        fields[f].defaults_to is Some,
    ensures
        raw_values_upto(fields, n).contains(fields[f].defaults_to->0),
    decreases n,
{
    let whole = raw_values_upto(fields, n);
    let before = raw_values_upto(fields, n - 1);
    if f == n - 1 {
        assert(whole[before.len() as int] == fields[f].defaults_to->0);
    } else {
        lemma_raw_value_listed(fields, n - 1, f);
        let at = choose|at: int| 0 <= at < before.len() && before[at] == fields[f].defaults_to->0;
        assert(whole[at] == fields[f].defaults_to->0);
    }
}

/// A type in which the rule finds nothing keys every map by `String`.
pub proof fn lemma_no_finding_string_keyed(ty: TyView)
    requires
        only_warnings(map_key_findings(ty)),
    ensures
        string_keyed(ty),
    decreases ty,
{
    match ty.kind {
        TyKindView::Simple(_) => {},
        TyKindView::Nullable(inner) => {
            lemma_no_finding_string_keyed(*inner);
        },
        TyKindView::List(inner) => {
            lemma_no_finding_string_keyed(*inner);
        },
        TyKindView::SetOf(inner) => {
            lemma_no_finding_string_keyed(*inner);
        },
        TyKindView::MapOf { key, value } => {
            let own = if is_string(*key) {
                Seq::<DiagnosticView>::empty()
            } else {
                seq![map_key_finding(*key)]
            };
            lemma_split_only_warnings(own + map_key_findings(*key), map_key_findings(*value));
            lemma_split_only_warnings(own, map_key_findings(*key));
            if !is_string(*key) {
                assert(own[0].severity == Severity::Error);
            }
            lemma_no_finding_string_keyed(*value);
        },
    }
}

/// In a valid library every map that the type of a field denotes is keyed
/// by `String`.
pub proof fn lemma_valid_maps_string_keyed(lib: LibraryView, current: Seq<char>)
    requires
        valid(lib, current),
    ensures
        forall|c: int, f: int|
            0 <= c < lib.every_class().len() && 0 <= f < lib.every_class()[c].fields.len()
                ==> string_keyed(field_ty(#[trigger] lib.every_class()[c].fields[f])),
{
    lemma_valid_rule_by_rule(lib, current);
    lemma_valid_fields_ready(lib, current);
    let classes = lib.every_class();
    let fields = lib.every_field();
    assert forall|c: int, f: int|
        0 <= c < classes.len() && 0 <= f < classes[c].fields.len() implies string_keyed(
        field_ty(#[trigger] classes[c].fields[f]),
    ) by {
        let field = classes[c].fields[f];
        assert(field_ready(classes[c].fields[f]));
        lemma_field_listed(classes, classes.len() as int, c, f);
        let at = choose|at: int| 0 <= at < fields.len() && fields[at] == field;
        lemma_part_only_warnings(field_type_items(lib), at);
        lemma_no_finding_string_keyed(field_ty(field));
    }
}

/// In a valid library code can be generated for every field of every
/// class: its type can be read, it has at most one default, and a literal
/// default can be written in Dart.
#[verifier::rlimit(30)]
pub proof fn lemma_valid_fields_ready(lib: LibraryView, current: Seq<char>)
    requires
        valid(lib, current),
    ensures
        forall|c: int|
            0 <= c < lib.every_class().len() ==> fields_ready(
                (#[trigger] lib.every_class()[c]).fields,
            ),
{
    lemma_valid_rule_by_rule(lib, current);
    let classes = lib.every_class();
    let fields = lib.every_field();
    assert forall|c: int| 0 <= c < classes.len() implies fields_ready(
        (#[trigger] classes[c]).fields,
    ) by {
        assert forall|f: int| 0 <= f < classes[c].fields.len() implies field_ready(
            #[trigger] classes[c].fields[f],
        ) by {
            let field = classes[c].fields[f];
            lemma_field_listed(classes, classes.len() as int, c, f);
            let at = choose|at: int| 0 <= at < fields.len() && fields[at] == field;
            lemma_part_only_warnings(field_type_items(lib), at);
            if !type_reads(field) {
                assert(field_type_items(lib)[at][0].severity == Severity::Error);
            }
            lemma_part_only_warnings(both_defaults_items(lib), at);
            if field.defaults_to is Some && field.defaults_to_dart is Some {
                assert(both_defaults_items(lib)[at][0].severity == Severity::Error);
            }
            if field.defaults_to is Some {
                lemma_raw_value_listed(fields, fields.len() as int, at);
                let values = lib.every_raw_value();
                let v = choose|v: int| 0 <= v < values.len() && values[v] == field.defaults_to->0;
                lemma_part_only_warnings(radix_items(lib), v);
                if field.defaults_to->0.literal.has_unsupported_radix() {
                    assert(radix_items(lib)[v][0].severity == Severity::Error);
                }
            }
        }
    }
}

/// Whether the literals that no rule looks at can be written in Dart: the
/// discriminants of the members of unions and the encoded values of the
/// variants of enums.
pub open spec fn unchecked_literals_ready(lib: LibraryView) -> bool {
    &&& forall|u: int, k: int|
        0 <= u < lib.unions.len() && 0 <= k < lib.unions[u].classes.len() ==> literal_ready(
            (#[trigger] lib.unions[u].classes[k]).json_discriminant_value,
        )
    &&& forall|e: int| 0 <= e < lib.enums.len() ==> enum_ready(#[trigger] lib.enums[e])
}

/// Code can be generated for every valid library whose remaining
/// literals can be written in Dart.
#[verifier::rlimit(30)]
pub proof fn lemma_valid_is_ready(lib: LibraryView, current: Seq<char>)
    requires
        valid(lib, current),
        unchecked_literals_ready(lib),
    ensures
        library_ready(lib),
{
    lemma_valid_rule_by_rule(lib, current);
    lemma_valid_fields_ready(lib, current);
    let all = lib.every_class();
    assert forall|i: int| 0 <= i < lib.classes.len() implies class_ready(
        #[trigger] lib.classes[i],
    ) by {
        assert(all[i] == lib.classes[i]);
        lemma_part_only_warnings(stray_discriminant_items(lib), i);
        if lib.classes[i].json_discriminant_value is Some {
            assert(stray_discriminant_items(lib)[i][0].severity == Severity::Error);
        }
    }
    assert forall|u: int| 0 <= u < lib.unions.len() implies union_ready(
        #[trigger] lib.unions[u],
    ) by {
        assert forall|k: int| 0 <= k < lib.unions[u].classes.len() implies class_ready(
            #[trigger] lib.unions[u].classes[k],
        ) by {
            let class = lib.unions[u].classes[k];
            lemma_member_listed(lib.unions, lib.unions.len() as int, u, k);
            let members = lib.member_classes();
            let at = choose|at: int| 0 <= at < members.len() && members[at] == class;
            assert(all[lib.classes.len() + at] == class);
        }
    }
}

/// Whether every finding points at a place in the document.
pub open spec fn all_labelled(found: Seq<DiagnosticView>) -> bool {
    forall|i: int| 0 <= i < found.len() ==> (#[trigger] found[i]).labels.len() >= 1
}

proof fn lemma_sum_labelled(a: Seq<DiagnosticView>, b: Seq<DiagnosticView>)
    requires
        all_labelled(a),
        all_labelled(b),
    ensures
        all_labelled(a + b),
{
    assert forall|i: int| 0 <= i < (a + b).len() implies (#[trigger] (a + b)[i]).labels.len()
        >= 1 by {
        if i < a.len() {
            assert((a + b)[i] == a[i]);
        } else {
            assert((a + b)[i] == b[i - a.len()]);
        }
    }
}

proof fn lemma_concat_labelled(parts: Seq<Seq<DiagnosticView>>, n: int)
    requires
        0 <= n <= parts.len(),
        forall|i: int| 0 <= i < n ==> all_labelled(#[trigger] parts[i]),
    ensures
        all_labelled(concat_upto(parts, n)),
    decreases n,
{
    if n > 0 {
        lemma_concat_labelled(parts, n - 1);
        lemma_sum_labelled(concat_upto(parts, n - 1), parts[n - 1]);
    }
}

proof fn lemma_duplicate_fields_labelled(lib: LibraryView)
    ensures
        all_labelled(duplicate_field_findings(lib)),
{
    let items = duplicate_field_items(lib);
    assert forall|c: int| 0 <= c < items.len() implies all_labelled(#[trigger] items[c]) by {
        let per_field = duplicate_field_class_items(lib.every_class()[c]);
        lemma_concat_labelled(per_field, per_field.len() as int);
    }
    lemma_concat_labelled(items, items.len() as int);
}

proof fn lemma_duplicate_keys_labelled(lib: LibraryView)
    ensures
        all_labelled(duplicate_key_findings(lib)),
{
    let items = duplicate_key_items(lib);
    assert forall|c: int| 0 <= c < items.len() implies all_labelled(#[trigger] items[c]) by {
        let class = lib.every_class()[c];
        let keys = class_keys(lib, class);
        let per_first = key_class_items(class, keys);
        assert forall|i: int| 0 <= i < per_first.len() implies all_labelled(
            #[trigger] per_first[i],
        ) by {
            let per_second = key_pair_items(class, keys, i);
            lemma_concat_labelled(per_second, per_second.len() as int);
        }
        lemma_concat_labelled(per_first, per_first.len() as int);
    }
    lemma_concat_labelled(items, items.len() as int);
}

proof fn lemma_map_keys_labelled(ty: TyView)
    ensures
        all_labelled(map_key_findings(ty)),
    decreases ty,
{
    match ty.kind {
        TyKindView::Simple(_) => {},
        TyKindView::Nullable(inner) => {
            lemma_map_keys_labelled(*inner);
        },
        TyKindView::List(inner) => {
            lemma_map_keys_labelled(*inner);
        },
        TyKindView::SetOf(inner) => {
            lemma_map_keys_labelled(*inner);
        },
        TyKindView::MapOf { key, value } => {
            let own = if is_string(*key) {
                Seq::<DiagnosticView>::empty()
            } else {
                seq![map_key_finding(*key)]
            };
            lemma_map_keys_labelled(*key);
            lemma_map_keys_labelled(*value);
            lemma_sum_labelled(own, map_key_findings(*key));
            lemma_sum_labelled(own + map_key_findings(*key), map_key_findings(*value));
        },
    }
}

proof fn lemma_field_types_labelled(lib: LibraryView)
    ensures
        all_labelled(field_type_findings(lib)),
{
    let items = field_type_items(lib);
    assert forall|i: int| 0 <= i < items.len() implies all_labelled(#[trigger] items[i]) by {
        let field = lib.every_field()[i];
        if type_reads(field) {
            lemma_map_keys_labelled(field_ty(field));
        }
    }
    lemma_concat_labelled(items, items.len() as int);
}

/// Every finding points at one place in the document at least.
pub proof fn lemma_every_finding_is_labelled(lib: LibraryView, current: Seq<char>)
    ensures
        all_labelled(findings(lib, current)),
{
    let r1a = class_casing_items(lib);
    let r1b = union_casing_items(lib);
    let r1c = enum_casing_items(lib);
    lemma_concat_labelled(r1a, r1a.len() as int);
    lemma_concat_labelled(r1b, r1b.len() as int);
    lemma_concat_labelled(r1c, r1c.len() as int);
    lemma_sum_labelled(concat(r1a), concat(r1b));
    lemma_sum_labelled(concat(r1a) + concat(r1b), concat(r1c));
    let r1 = casing_findings(lib);
    let r2 = duplicate_type_findings(lib);
    lemma_concat_labelled(duplicate_type_items(lib), duplicate_type_items(lib).len() as int);
    let r3 = duplicate_field_findings(lib);
    lemma_duplicate_fields_labelled(lib);
    let r4 = empty_union_findings(lib);
    lemma_concat_labelled(empty_union_items(lib), empty_union_items(lib).len() as int);
    let r5 = both_defaults_findings(lib);
    lemma_concat_labelled(both_defaults_items(lib), both_defaults_items(lib).len() as int);
    let r6 = radix_findings(lib);
    lemma_concat_labelled(radix_items(lib), radix_items(lib).len() as int);
    let r7 = empty_enum_findings(lib);
    lemma_concat_labelled(empty_enum_items(lib), empty_enum_items(lib).len() as int);
    let r8 = stray_discriminant_findings(lib);
    lemma_concat_labelled(
        stray_discriminant_items(lib),
        stray_discriminant_items(lib).len() as int,
    );
    let r9 = duplicate_key_findings(lib);
    lemma_duplicate_keys_labelled(lib);
    let r10 = field_type_findings(lib);
    lemma_field_types_labelled(lib);
    let r11 = version_findings(lib, current);
    lemma_sum_labelled(r1, r2);
    lemma_sum_labelled(r1 + r2, r3);
    lemma_sum_labelled(r1 + r2 + r3, r4);
    lemma_sum_labelled(r1 + r2 + r3 + r4, r5);
    lemma_sum_labelled(r1 + r2 + r3 + r4 + r5, r6);
    lemma_sum_labelled(r1 + r2 + r3 + r4 + r5 + r6, r7);
    lemma_sum_labelled(r1 + r2 + r3 + r4 + r5 + r6 + r7, r8);
    lemma_sum_labelled(r1 + r2 + r3 + r4 + r5 + r6 + r7 + r8, r9);
    lemma_sum_labelled(r1 + r2 + r3 + r4 + r5 + r6 + r7 + r8 + r9, r10);
    lemma_sum_labelled(r1 + r2 + r3 + r4 + r5 + r6 + r7 + r8 + r9 + r10, r11);
}

/// Validating is repeatable: in two libraries that say the same, the
/// rules find the same, in the same order.
pub proof fn lemma_same_schema_same_findings(a: &Library, b: &Library, current: Seq<char>)
    requires
        a@ == b@,
    ensures
        findings(a@, current) == findings(b@, current),
{
}

} // verus!
