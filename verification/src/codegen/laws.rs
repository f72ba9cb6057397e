//! What holds of the text that is generated.

use crate::codegen::enumeration::enum_text;
use crate::codegen::immutable::immutable_class_text;
use crate::codegen::json::{discriminant_entry_text, to_json_entries_text, to_json_text};
use crate::codegen::mutable::{builder_ty_text, mutable_class_text};
use crate::codegen::union::{
    decode_arm_text, decode_arms_text, decode_switch_text, members_text, modifiers_text,
    union_annotations, union_body_text, union_class_text, unknown_arm_text,
};
use crate::codegen::util::{optional_doc_text, optional_line_text};
use crate::codegen::{
    classes_text, declarations_text, enums_text, generated_text, preamble_end_text, unions_text,
    verbatim_text,
};
use crate::model::Library;
use crate::model::util::quoted;
use crate::model::view::{LibraryView, UnionView};
use crate::ty::{ty_text, TyKindView, TyView};
use crate::validate::rules::string_keyed;
use vstd::prelude::*;

verus! {

/// Whether `piece` stands somewhere in `text`.
pub open spec fn holds(text: Seq<char>, piece: Seq<char>) -> bool {
    exists|before: Seq<char>, after: Seq<char>| text == before + piece + after
}

/// Whether `text` begins with `piece`.
pub open spec fn begins_with(text: Seq<char>, piece: Seq<char>) -> bool {
    exists|after: Seq<char>| text == piece + after
}

/// Whether `text` ends with `piece`.
pub open spec fn ends_with(text: Seq<char>, piece: Seq<char>) -> bool {
    exists|before: Seq<char>| text == before + piece
}

/// The arms for the first `n` members hold the arm of each of them.
pub proof fn lemma_arms_hold_each(lib: LibraryView, union: UnionView, n: int, k: int)
    requires
        0 <= k < n <= union.classes.len(),
    ensures
        holds(decode_arms_text(lib, union, n), decode_arm_text(lib, union, union.classes[k])),
    decreases n,
{
    let arms = decode_arms_text(lib, union, n);
    let arm = decode_arm_text(lib, union, union.classes[k]);
    if k == n - 1 {
        let before = decode_arms_text(lib, union, n - 1);
        assert(arms =~= before + arm + Seq::<char>::empty());
    } else {
        lemma_arms_hold_each(lib, union, n - 1, k);
        let shorter = decode_arms_text(lib, union, n - 1);
        let (before, after) = choose|before: Seq<char>, after: Seq<char>|
            shorter == before + arm + after;
        let last = decode_arm_text(lib, union, union.classes[n - 1]);
        assert(arms =~= before + arm + (after + last));
    }
}

/// The decoder of a union and the encoders of its members agree on the
/// discriminant.
///
/// The decoder switches on what the encoded map holds under the
/// discriminant key of the union. It has an arm for every member, on the
/// discriminant value of that member, and behind all of these the arm
/// that refuses every other value. The encoder of every member ends with
/// the entry that puts the discriminant value of that member under the
/// same key.
#[verifier::rlimit(30)]
pub proof fn lemma_union_decodes_what_members_encode(lib: LibraryView, union: UnionView, k: int)
    requires
        0 <= k < union.classes.len(),
    ensures
        holds(
            decode_switch_text(lib, union),
            "switch (json["@ + quoted(lib.discriminant_key(union)) + "]) {\n"@
                + decode_arms_text(lib, union, union.classes.len() as int),
        ),
        holds(
            decode_arms_text(lib, union, union.classes.len() as int),
            lib.discriminant_value(union, union.classes[k]) + " => "@
                + union.classes[k].name.value + ".fromJson(json),\n"@,
        ),
        ends_with(decode_switch_text(lib, union), unknown_arm_text() + "};\n"@),
        ends_with(
            to_json_text(lib, union.classes[k], Some(union)),
            quoted(lib.discriminant_key(union)) + ": "@ + lib.discriminant_value(
                union,
                union.classes[k],
            ) + "\n"@ + "};\n"@,
        ),
{
    let class = union.classes[k];
    let n = union.classes.len() as int;
    let key = quoted(lib.discriminant_key(union));
    let value = lib.discriminant_value(union, class);
    let arms = decode_arms_text(lib, union, n);
    lemma_arms_hold_each(lib, union, n, k);
    let head = "factory "@ + union.name.value + ".fromJson(Map<String, dynamic> json) => "@;
    assert("factory "@ + union.name.value
        + ".fromJson(Map<String, dynamic> json) => switch (json["@ =~= head + "switch (json["@)
        by {
        reveal_strlit(".fromJson(Map<String, dynamic> json) => switch (json[");
        reveal_strlit(".fromJson(Map<String, dynamic> json) => ");
        reveal_strlit("switch (json[");
        assert(".fromJson(Map<String, dynamic> json) => switch (json["@
            =~= ".fromJson(Map<String, dynamic> json) => "@ + "switch (json["@);
    }
    assert(decode_switch_text(lib, union) =~= head + ("switch (json["@ + key + "]) {\n"@ + arms) + (
    unknown_arm_text() + "};\n"@));
    assert(decode_switch_text(lib, union) =~= (head + "switch (json["@ + key + "]) {\n"@ + arms) + (
    unknown_arm_text() + "};\n"@));
    let start = "@override\n"@ + "Map<String, dynamic> toJson() => {\n"@ + to_json_entries_text(
        lib,
        class,
        class.fields.len() as int,
    );
    assert(discriminant_entry_text(lib, class, Some(union)) == key + ": "@ + value + "\n"@);
    assert(to_json_text(lib, class, Some(union)) =~= start + (key + ": "@ + value + "\n"@
        + "};\n"@));
}

/// Whether the type names a class or a union of the library somewhere.
pub open spec fn names_builder(lib: LibraryView, ty: TyView) -> bool
    decreases ty,
{
    match ty.kind {
        TyKindView::Simple(name) => lib.has_builder(name),
        TyKindView::Nullable(inner) => names_builder(lib, *inner),
        TyKindView::List(inner) => names_builder(lib, *inner),
        TyKindView::SetOf(inner) => names_builder(lib, *inner),
        TyKindView::MapOf { key, value } => names_builder(lib, *value),
    }
}

/// A builder holds a field of a type that names no class and no union of
/// the library under the type that the value class holds it under,
/// provided that every map in the type is keyed by `String`.
pub proof fn lemma_plain_type_is_kept(lib: LibraryView, ty: TyView)
    requires
        !names_builder(lib, ty),
        string_keyed(ty),
    ensures
        builder_ty_text(lib, ty) == ty_text(ty),
    decreases ty,
{
    match ty.kind {
        TyKindView::Simple(name) => {},
        TyKindView::Nullable(inner) => {
            lemma_plain_type_is_kept(lib, *inner);
        },
        TyKindView::List(inner) => {
            lemma_plain_type_is_kept(lib, *inner);
        },
        TyKindView::SetOf(inner) => {
            lemma_plain_type_is_kept(lib, *inner);
        },
        TyKindView::MapOf { key, value } => {
            lemma_plain_type_is_kept(lib, *value);
            reveal_strlit("Map<String, ");
            reveal_strlit("Map<");
            reveal_strlit("String");
            reveal_strlit(", ");
            assert("Map<String, "@ =~= "Map<"@ + "String"@ + ", "@);
            assert(ty_text(*key) == "String"@);
        },
    }
}

/// Generating is repeatable: for two libraries that say the same, the
/// same source is generated, character by character.
pub proof fn lemma_same_schema_same_source(a: &Library, b: &Library)
    requires
        a@ == b@,
    ensures
        generated_text(a@) == generated_text(b@),
{
}

/// The value class of a free-standing class and, right behind it, its
/// builder stand among the first `n` classes, for each of these.
pub proof fn lemma_classes_hold_each(lib: LibraryView, n: int, k: int)
    requires
        0 <= k < n <= lib.classes.len(),
    ensures
        holds(
            classes_text(lib, n),
            immutable_class_text(lib, lib.classes[k], None) + mutable_class_text(
                lib,
                lib.classes[k],
                None,
            ),
        ),
    decreases n,
{
    let all = classes_text(lib, n);
    let pair = immutable_class_text(lib, lib.classes[k], None) + mutable_class_text(
        lib,
        lib.classes[k],
        None,
    );
    if k == n - 1 {
        assert(all =~= classes_text(lib, n - 1) + pair + Seq::<char>::empty());
    } else {
        lemma_classes_hold_each(lib, n - 1, k);
        let shorter = classes_text(lib, n - 1);
        let (before, after) = choose|before: Seq<char>, after: Seq<char>|
            shorter == before + pair + after;
        let last = immutable_class_text(lib, lib.classes[n - 1], None) + mutable_class_text(
            lib,
            lib.classes[n - 1],
            None,
        );
        assert(all =~= before + pair + (after + last));
    }
}

/// The value class of a member of a union and, right behind it, its
/// builder stand among the first `n` members, for each of these.
pub proof fn lemma_members_hold_each(lib: LibraryView, union: UnionView, n: int, k: int)
    requires
        0 <= k < n <= union.classes.len(),
    ensures
        holds(
            members_text(lib, union, n),
            immutable_class_text(lib, union.classes[k], Some(union)) + mutable_class_text(
                lib,
                union.classes[k],
                Some(union),
            ),
        ),
    decreases n,
{
    let all = members_text(lib, union, n);
    let pair = immutable_class_text(lib, union.classes[k], Some(union)) + mutable_class_text(
        lib,
        union.classes[k],
        Some(union),
    );
    if k == n - 1 {
        assert(all =~= members_text(lib, union, n - 1) + pair + Seq::<char>::empty());
    } else {
        lemma_members_hold_each(lib, union, n - 1, k);
        let shorter = members_text(lib, union, n - 1);
        let (before, after) = choose|before: Seq<char>, after: Seq<char>|
            shorter == before + pair + after;
        let last = immutable_class_text(lib, union.classes[n - 1], Some(union))
            + mutable_class_text(lib, union.classes[n - 1], Some(union));
        assert(all =~= before + pair + (after + last));
    }
}

/// What is generated for a union holds, behind its base classes, the
/// value class of each member with its builder right behind it.
pub proof fn lemma_union_holds_member(lib: LibraryView, union: UnionView, k: int)
    requires
        0 <= k < union.classes.len(),
    ensures
        holds(
            union_class_text(lib, union),
            immutable_class_text(lib, union.classes[k], Some(union)) + mutable_class_text(
                lib,
                union.classes[k],
                Some(union),
            ),
        ),
{
    reveal(union_class_text);
    let pair = immutable_class_text(lib, union.classes[k], Some(union)) + mutable_class_text(
        lib,
        union.classes[k],
        Some(union),
    );
    let members = members_text(lib, union, union.classes.len() as int);
    lemma_members_hold_each(lib, union, union.classes.len() as int, k);
    let (before, after) = choose|before: Seq<char>, after: Seq<char>|
        members == before + pair + after;
    let whole = union_class_text(lib, union);
    let head = optional_doc_text(union.docs) + optional_line_text(union_annotations(lib))
        + modifiers_text(lib, union) + " class "@ + union.name.value + " "@ + union_body_text(
        lib,
        union,
    );
    assert(whole =~= head + members);
    assert(whole =~= (head + before) + pair + after);
}

/// What is generated for each of the first `n` unions stands among what
/// is generated for all of these.
pub proof fn lemma_unions_hold_each(lib: LibraryView, n: int, k: int)
    requires
        0 <= k < n <= lib.unions.len(),
    ensures
        holds(unions_text(lib, n), union_class_text(lib, lib.unions[k])),
    decreases n,
{
    let all = unions_text(lib, n);
    let one = union_class_text(lib, lib.unions[k]);
    if k == n - 1 {
        assert(all =~= unions_text(lib, n - 1) + one + Seq::<char>::empty());
    } else {
        lemma_unions_hold_each(lib, n - 1, k);
        let shorter = unions_text(lib, n - 1);
        let (before, after) = choose|before: Seq<char>, after: Seq<char>|
            shorter == before + one + after;
        assert(all =~= before + one + (after + union_class_text(lib, lib.unions[n - 1])));
    }
}

/// The declaration of each of the first `n` enums stands among the
/// declarations of all of these.
pub proof fn lemma_enums_hold_each(lib: LibraryView, n: int, k: int)
    requires
        0 <= k < n <= lib.enums.len(),
    ensures
        holds(enums_text(lib, n), enum_text(lib, lib.enums[k])),
    decreases n,
{
    let all = enums_text(lib, n);
    let one = enum_text(lib, lib.enums[k]);
    if k == n - 1 {
        assert(all =~= enums_text(lib, n - 1) + one + Seq::<char>::empty());
    } else {
        lemma_enums_hold_each(lib, n - 1, k);
        let shorter = enums_text(lib, n - 1);
        let (before, after) = choose|before: Seq<char>, after: Seq<char>|
            shorter == before + one + after;
        assert(all =~= before + one + (after + enum_text(lib, lib.enums[n - 1])));
    }
}

/// The generated source is framed by the preamble and the postamble.
///
/// It begins with the preamble as it stands and ends with the postamble
/// as it stands. Between them stands what is generated from the
/// declarations: the classes, then the unions, then the enums, each in
/// the order in which they are declared, the value class of every
/// free-standing class with its builder right behind it.
pub proof fn lemma_source_is_framed(lib: LibraryView)
    ensures
        begins_with(generated_text(lib), verbatim_text(lib.preamble)),
        ends_with(generated_text(lib), verbatim_text(lib.postamble)),
        generated_text(lib) == verbatim_text(lib.preamble) + preamble_end_text(lib.preamble)
            + (classes_text(lib, lib.classes.len() as int) + unions_text(
            lib,
            lib.unions.len() as int,
        ) + enums_text(lib, lib.enums.len() as int)) + verbatim_text(lib.postamble),
        forall|k: int|
            0 <= k < lib.classes.len() ==> holds(
                classes_text(lib, lib.classes.len() as int),
                immutable_class_text(lib, #[trigger] lib.classes[k], None) + mutable_class_text(
                    lib,
                    lib.classes[k],
                    None,
                ),
            ),
{
    let text = generated_text(lib);
    let head = verbatim_text(lib.preamble);
    let tail = verbatim_text(lib.postamble);
    let middle = preamble_end_text(lib.preamble) + declarations_text(lib);
    assert(text =~= head + (middle + tail));
    assert(text =~= (head + middle) + tail);
    assert forall|k: int| 0 <= k < lib.classes.len() implies holds(
        classes_text(lib, lib.classes.len() as int),
        immutable_class_text(lib, #[trigger] lib.classes[k], None) + mutable_class_text(
            lib,
            lib.classes[k],
            None,
        ),
    ) by {
        lemma_classes_hold_each(lib, lib.classes.len() as int, k);
    }
}

} // verus!
