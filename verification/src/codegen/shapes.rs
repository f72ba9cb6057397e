//! What is generated for a field by the shape of its type: a list of sets
//! is compared and encoded list by list and set by set.

use crate::codegen::equals::{
    compares_natively, equals_expr_text, field_equals_text, field_equals_with, length_check_text,
};
use crate::codegen::json::{
    decode_expr_text, discriminant_entry_text, encode_expr_text, to_json_entries_text,
    to_json_entry_text, to_json_entry_with, to_json_text,
};
use crate::codegen::laws::{begins_with, ends_with, holds};
use crate::codegen::ready::field_ty;
use crate::ident::letters_of;
use crate::model::util::quoted;
use crate::model::view::{ClassView, FieldView, LibraryView, UnionView};
use crate::span::Span;
use crate::text::braced_text;
use crate::ty::grammar::parse_annotation;
use crate::ty::parse::parsed;
use crate::ty::written::{
    is_name, lemma_written_reads_back, punctuation_apart, same_kind, same_shape, writable,
};
use crate::ty::{ty_text, TyKindView, TyView};
use vstd::prelude::*;

verus! {

/// The entries for the first `n` fields hold the entry of each of them.
pub proof fn lemma_entries_hold_each(lib: LibraryView, class: ClassView, n: int, k: int)
    requires
        0 <= k < n <= class.fields.len(),
    ensures
        holds(to_json_entries_text(lib, class, n), to_json_entry_text(lib, class, class.fields[k])),
    decreases n,
{
    let all = to_json_entries_text(lib, class, n);
    let entry = to_json_entry_text(lib, class, class.fields[k]);
    if k == n - 1 {
        assert(all =~= to_json_entries_text(lib, class, n - 1) + entry + Seq::<char>::empty());
    } else {
        lemma_entries_hold_each(lib, class, n - 1, k);
        let shorter = to_json_entries_text(lib, class, n - 1);
        let (before, after) = choose|before: Seq<char>, after: Seq<char>|
            shorter == before + entry + after;
        let last = to_json_entry_text(lib, class, class.fields[n - 1]);
        assert(all =~= before + entry + (after + last));
    }
}

/// The `toJson` method of a class holds the entry of each of its fields.
#[verifier::rlimit(30)]
pub proof fn lemma_to_json_holds_entry(
    lib: LibraryView,
    class: ClassView,
    superclass: Option<UnionView>,
    k: int,
)
    requires
        0 <= k < class.fields.len(),
    ensures
        holds(to_json_text(lib, class, superclass), to_json_entry_text(lib, class, class.fields[k])),
{
    let entry = to_json_entry_text(lib, class, class.fields[k]);
    let entries = to_json_entries_text(lib, class, class.fields.len() as int);
    lemma_entries_hold_each(lib, class, class.fields.len() as int, k);
    let (before, after) = choose|before: Seq<char>, after: Seq<char>|
        entries == before + entry + after;
    let head = (if superclass is Some {
        "@override\n"@
    } else {
        Seq::empty()
    }) + "Map<String, dynamic> toJson() => {\n"@;
    let tail = discriminant_entry_text(lib, class, superclass) + "};\n"@;
    assert(to_json_text(lib, class, superclass) =~= (head + before) + entry + (after + tail));
}

/// No set reaches the encoded form: a set is encoded item by item into a
/// list, and decoded item by item from a list into a set.
pub proof fn lemma_sets_travel_as_lists(lib: LibraryView, expr: Seq<char>, ty: TyView)
    requires
        ty.kind is SetOf,
    ensures
        encode_expr_text(lib, expr, ty) == expr + ".map((elem) => "@ + encode_expr_text(
            lib,
            "elem"@,
            *ty.kind->SetOf_0,
        ) + ").toList()"@,
        ends_with(encode_expr_text(lib, expr, ty), ").toList()"@),
        decode_expr_text(lib, expr, ty) == "("@ + expr + " as List<dynamic>).map((elem) => "@
            + decode_expr_text(lib, "elem"@, *ty.kind->SetOf_0) + ").toSet()"@,
        ends_with(decode_expr_text(lib, expr, ty), ").toSet()"@),
{
}

/// Whether the type is a list of sets.
pub open spec fn list_of_sets(ty: TyView) -> bool {
    ty.kind is List && ty.kind->List_0.kind is SetOf
}

/// The type of the items of the sets of a list of sets.
pub open spec fn item_of(ty: TyView) -> TyView {
    *ty.kind->List_0.kind->SetOf_0
}

/// The comparison of two sets: they are of one length, and for every item
/// of the one there is an item of the other of which `items` holds.
pub open spec fn set_equals_text(
    a: Seq<char>,
    b: Seq<char>,
    suffix: Seq<char>,
    items: Seq<char>,
) -> Seq<char> {
    a + ".length == "@ + b + ".length && "@ + a + ".every((e"@ + suffix + ") => "@ + b
        + ".any((o"@ + suffix + ") => "@ + items + "))"@
}

/// The encoding of a list of sets: every set of the list is turned into a
/// list of its encoded items.
pub open spec fn list_of_sets_encoded_text(expr: Seq<char>, items: Seq<char>) -> Seq<char> {
    expr + ".map((elem) => "@ + ("elem"@ + ".map((elem) => "@ + items + ").toList()"@)
        + ").toList()"@
}

/// The loop that compares the items of two lists of sets of the given
/// name: item by item in order, each as a set, by length and then by
/// membership. `items` compares two items of the sets.
pub open spec fn list_of_sets_loop_text(name: Seq<char>, items: Seq<char>) -> Seq<char> {
    "for (var i = 0; i < "@ + name + ".length; i++)\n"@ + braced_text(
        "if (!("@ + set_equals_text(name + "[i]"@, "other."@ + name + "[i]"@, "_"@, items)
            + ")) { return false; }\n"@,
    )
}

/// A field whose type is a list of sets is compared by length first and
/// then item by item in order, each item as a set, by length and then by
/// membership; and it is encoded as a list of lists, so that no set
/// reaches the encoded form.
pub proof fn lemma_list_of_sets_by_shape(lib: LibraryView, name: Seq<char>, ty: TyView)
    requires
        list_of_sets(ty),
    ensures
        field_equals_with(name, ty) == length_check_text(name) + list_of_sets_loop_text(
            name,
            equals_expr_text("e"@ + "_"@, "o"@ + "_"@, item_of(ty), "_"@ + "_"@),
        ),
        begins_with(field_equals_with(name, ty), length_check_text(name)),
        encode_expr_text(lib, name, ty) == list_of_sets_encoded_text(
            name,
            encode_expr_text(lib, "elem"@, item_of(ty)),
        ),
{
    reveal_with_fuel(equals_expr_text, 2);
    reveal_with_fuel(encode_expr_text, 3);
    let inner = *ty.kind->List_0;
    let mine = name + "[i]"@;
    let theirs = "other."@ + name + "[i]"@;
    let items = equals_expr_text("e"@ + "_"@, "o"@ + "_"@, item_of(ty), "_"@ + "_"@);
    assert(!compares_natively(inner));
    assert(equals_expr_text(mine, theirs, inner, "_"@) == set_equals_text(
        mine,
        theirs,
        "_"@,
        items,
    ));
    assert(field_equals_with(name, ty) =~= length_check_text(name) + list_of_sets_loop_text(
        name,
        items,
    ));
}

/// What is generated for a field whose type is a list of sets.
///
/// The `toJson` method of the class holds the entry that puts the field
/// under its key as a list of lists: no set reaches the encoded form. The
/// operator `==` compares the two lengths first and leaves with false
/// where they differ; then it goes over the indices in order and compares
/// the two items as sets, by length and then by membership.
pub proof fn lemma_field_of_list_of_sets(
    lib: LibraryView,
    class: ClassView,
    superclass: Option<UnionView>,
    k: int,
)
    requires
        0 <= k < class.fields.len(),
        class.fields[k].to_json is None,
        list_of_sets(field_ty(class.fields[k])),
    ensures
        holds(
            to_json_text(lib, class, superclass),
            quoted(lib.json_key(class, class.fields[k])) + ": "@ + list_of_sets_encoded_text(
                class.fields[k].name.value,
                encode_expr_text(lib, "elem"@, item_of(field_ty(class.fields[k]))),
            ) + ",\n"@,
        ),
        field_equals_text(class.fields[k]) == length_check_text(class.fields[k].name.value)
            + list_of_sets_loop_text(
            class.fields[k].name.value,
            equals_expr_text(
                "e"@ + "_"@,
                "o"@ + "_"@,
                item_of(field_ty(class.fields[k])),
                "_"@ + "_"@,
            ),
        ),
        begins_with(
            field_equals_text(class.fields[k]),
            length_check_text(class.fields[k].name.value),
        ),
{
    let field = class.fields[k];
    lemma_to_json_holds_entry(lib, class, superclass, k);
    lemma_list_of_sets_by_shape(lib, field.name.value, field_ty(field));
}

/// A list of sets of `String`, read from nowhere in particular.
pub open spec fn list_of_sets_of_strings() -> TyView {
    let nowhere = Span { start: 0, end: 0 };
    TyView {
        span: nowhere,
        kind: TyKindView::List(
            Box::new(
                TyView {
                    span: nowhere,
                    kind: TyKindView::SetOf(
                        Box::new(TyView { span: nowhere, kind: TyKindView::Simple("String"@) }),
                    ),
                },
            ),
        ),
    }
}

/// The annotation `List<Set<String>>` denotes a list of sets of `String`,
/// wherever `String` is a name and the classification of characters
/// keeps spaces and punctuation apart from names.
pub proof fn lemma_list_set_string_is_read(base: int)
    requires
        punctuation_apart(),
        is_name("String"@),
    ensures
        match parsed("List<Set<String>>"@, base) {
            Ok(ty) => list_of_sets(ty) && item_of(ty).kind == TyKindView::Simple("String"@),
            Err(error) => false,
        },
{
    let written = list_of_sets_of_strings();
    reveal_with_fuel(writable, 3);
    reveal_with_fuel(ty_text, 3);
    reveal_with_fuel(same_kind, 3);
    reveal_with_fuel(same_shape, 3);
    assert(ty_text(written) =~= "List<Set<String>>"@) by {
        reveal_strlit("List<");
        reveal_strlit("Set<");
        reveal_strlit("String");
        reveal_strlit(">");
        reveal_strlit("List<Set<String>>");
    }
    lemma_written_reads_back(written, base);
    let read = parse_annotation(letters_of("List<Set<String>>"@), base)->Ok_0;
    assert(same_kind(written.kind, read.kind));
    assert(read.kind is List);
    assert(same_kind(written.kind->List_0.kind, read.kind->List_0.kind));
    assert(read.kind->List_0.kind is SetOf);
    assert(same_kind(
        written.kind->List_0.kind->SetOf_0.kind,
        read.kind->List_0.kind->SetOf_0.kind,
    ));
}

/// How a list of sets of scalars is encoded, for a field of the given
/// name.
pub open spec fn list_of_sets_of_scalars_entry_text(key: Seq<char>, name: Seq<char>) -> Seq<char> {
    quoted(key) + ": "@ + name + ".map((elem) => elem.map((elem) => elem).toList()).toList(),\n"@
}

/// How a list of sets of scalars is compared, for a field of the given
/// name: the lists by length and then item by item in order, each item
/// as a set, by length and then by membership.
pub open spec fn list_of_sets_of_scalars_equals_text(name: Seq<char>) -> Seq<char> {
    length_check_text(name) + list_of_sets_loop_text(name, "e_ == o_"@)
}

proof fn lemma_scalar_items_encoded(name: Seq<char>, key: Seq<char>)
    ensures
        quoted(key) + ": "@ + list_of_sets_encoded_text(name, "elem"@) + ",\n"@
            == list_of_sets_of_scalars_entry_text(key, name),
{
    reveal_strlit(".map((elem) => ");
    reveal_strlit("elem");
    reveal_strlit(").toList()");
    reveal_strlit(",\n");
    reveal_strlit(".map((elem) => elem.map((elem) => elem).toList()).toList(),\n");
    let tail = ".map((elem) => "@ + ("elem"@ + ".map((elem) => "@ + "elem"@ + ").toList()"@)
        + ").toList()"@ + ",\n"@;
    assert(tail =~= ".map((elem) => elem.map((elem) => elem).toList()).toList(),\n"@);
    assert(quoted(key) + ": "@ + list_of_sets_encoded_text(name, "elem"@) + ",\n"@ =~= quoted(key)
        + ": "@ + name + tail);
}

proof fn lemma_scalar_items_compared()
    ensures
        ("e"@ + "_"@) + " == "@ + ("o"@ + "_"@) == "e_ == o_"@,
{
    reveal_strlit("e");
    reveal_strlit("_");
    reveal_strlit(" == ");
    reveal_strlit("o");
    reveal_strlit("e_ == o_");
    assert(("e"@ + "_"@) + " == "@ + ("o"@ + "_"@) =~= "e_ == o_"@);
}

/// What is generated for a field of the given key whose type is a list
/// of sets of `String`, whatever annotation the type was read from.
///
/// The entry of the encoded map turns every set into a list. The
/// statements of `==` compare the two lengths with `!=` first and leave
/// with false where they differ; then they go over the indices in order
/// and compare the two items as sets, by length and then by membership.
pub proof fn lemma_list_of_sets_of_strings_by_shape(
    lib: LibraryView,
    key: Seq<char>,
    field: FieldView,
    ty: TyView,
)
    requires
        list_of_sets(ty),
        item_of(ty).kind == TyKindView::Simple("String"@),
        !lib.has_builder("String"@),
        !lib.has_enum("String"@),
        field.to_json is None,
    ensures
        to_json_entry_with(lib, key, field, ty) == list_of_sets_of_scalars_entry_text(
            key,
            field.name.value,
        ),
        field_equals_with(field.name.value, ty) == list_of_sets_of_scalars_equals_text(
            field.name.value,
        ),
        begins_with(field_equals_with(field.name.value, ty), length_check_text(field.name.value)),
{
    lemma_list_of_sets_by_shape(lib, field.name.value, ty);
    lemma_scalar_items_encoded(field.name.value, key);
    lemma_scalar_items_compared();
}

/// What is generated for a field that is declared as `List<Set<String>>`,
/// wherever `String` is a name, none that the library declares, and the
/// classification of characters keeps spaces and punctuation apart from
/// names.
///
/// The `toJson` method of the class holds the entry that puts the field
/// under its key with every set turned into a list. The operator `==`
/// compares the lists by length and then item by item in order, and the
/// sets by length and then by membership.
pub proof fn lemma_field_of_list_of_sets_of_strings(
    lib: LibraryView,
    class: ClassView,
    superclass: Option<UnionView>,
    k: int,
)
    requires
        punctuation_apart(),
        is_name("String"@),
        !lib.has_builder("String"@),
        !lib.has_enum("String"@),
        0 <= k < class.fields.len(),
        class.fields[k].to_json is None,
        class.fields[k].ty.value == "List<Set<String>>"@,
    ensures
        holds(
            to_json_text(lib, class, superclass),
            list_of_sets_of_scalars_entry_text(
                lib.json_key(class, class.fields[k]),
                class.fields[k].name.value,
            ),
        ),
        field_equals_text(class.fields[k]) == list_of_sets_of_scalars_equals_text(
            class.fields[k].name.value,
        ),
{
    let field = class.fields[k];
    lemma_list_set_string_is_read(field.ty.span.start as int);
    lemma_to_json_holds_entry(lib, class, superclass, k);
    lemma_list_of_sets_of_strings_by_shape(
        lib,
        lib.json_key(class, field),
        field,
        field_ty(field),
    );
}

} // verus!
