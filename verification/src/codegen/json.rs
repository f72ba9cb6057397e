//! JSON conversions.
//!
//! A class, union or enum of the library is converted by its own
//! `toJson` and `fromJson`. A list, a set or a map converts each of its
//! items; a set travels as a list. A nullable type converts what it holds
//! unless that is null.

use crate::codegen::ready::{
    class_ready, field_ready, field_ty, field_type, fields_ready, literal_ready,
};
use crate::codegen::util::{default_of, default_text};
use crate::context::Context;
use crate::model::util::quoted;
use crate::model::view::{ClassView, FieldView, LibraryView, union_of, UnionView};
use crate::model::{Class, Field, Union};
use crate::ty::{Ty, ty_text, TyKind, TyKindView, TyView};
use vstd::prelude::*;
use vstd::string::StringExecFns;

verus! {

/// The expression that encodes `expr`, of type `ty`.
pub open spec fn encode_expr_text(lib: LibraryView, expr: Seq<char>, ty: TyView) -> Seq<char>
    decreases ty,
{
    match ty.kind {
        TyKindView::Simple(name) => if lib.has_builder(name) || lib.has_enum(name) {
            expr + ".toJson()"@
        } else {
            expr
        },
        TyKindView::List(inner) => expr + ".map((elem) => "@ + encode_expr_text(
            lib,
            "elem"@,
            *inner,
        ) + ").toList()"@,
        TyKindView::SetOf(inner) => expr + ".map((elem) => "@ + encode_expr_text(
            lib,
            "elem"@,
            *inner,
        ) + ").toList()"@,
        TyKindView::MapOf { key, value } => expr + ".map((key, value) => MapEntry(key, "@
            + encode_expr_text(lib, "value"@, *value) + "))"@,
        TyKindView::Nullable(inner) => expr + " == null ? null : "@ + encode_expr_text(
            lib,
            "("@ + expr + " as "@ + ty_text(*inner) + ")"@,
            *inner,
        ),
    }
}

/// The expression that decodes `expr`, a decoded JSON value, into a value
/// of type `ty`.
pub open spec fn decode_expr_text(lib: LibraryView, expr: Seq<char>, ty: TyView) -> Seq<char>
    decreases ty,
{
    match ty.kind {
        TyKindView::Simple(name) => if lib.has_builder(name) {
            name + ".fromJson("@ + expr + " as Map<String, dynamic>)"@
        } else if lib.has_enum(name) {
            name + ".fromJson("@ + expr + ")"@
        } else {
            expr + " as "@ + name
        },
        TyKindView::List(inner) => "("@ + expr + " as List<dynamic>).map((elem) => "@
            + decode_expr_text(lib, "elem"@, *inner) + ").toList()"@,
        TyKindView::SetOf(inner) => "("@ + expr + " as List<dynamic>).map((elem) => "@
            + decode_expr_text(lib, "elem"@, *inner) + ").toSet()"@,
        TyKindView::MapOf { key, value } => "("@ + expr
            + " as Map<String, dynamic>).map((key, value) => MapEntry(key, "@ + decode_expr_text(
            lib,
            "value"@,
            *value,
        ) + "))"@,
        TyKindView::Nullable(inner) => expr + " == null ? null : "@ + decode_expr_text(
            lib,
            expr,
            *inner,
        ),
    }
}

/// The entry of the encoded map for one field, given its key and its
/// type: the key and the value, encoded by the field's own expression if
/// it names one, else as its type asks.
pub open spec fn to_json_entry_with(
    lib: LibraryView,
    key: Seq<char>,
    field: FieldView,
    ty: TyView,
) -> Seq<char> {
    match field.to_json {
        Some(custom) => quoted(key) + ": \n"@ + "// ignore: unnecessary_parenthesis\n"@ + "("@
            + custom.value + ")("@ + field.name.value + "),\n"@,
        None => quoted(key) + ": "@ + encode_expr_text(lib, field.name.value, ty) + ",\n"@,
    }
}

/// The entry of the encoded map for one field of `class`.
pub open spec fn to_json_entry_text(
    lib: LibraryView,
    class: ClassView,
    field: FieldView,
) -> Seq<char> {
    to_json_entry_with(lib, lib.json_key(class, field), field, field_ty(field))
}

/// The entries of the encoded map for the first `n` fields.
pub open spec fn to_json_entries_text(lib: LibraryView, class: ClassView, n: int) -> Seq<char>
    decreases n,
{
    if n <= 0 {
        Seq::empty()
    } else {
        to_json_entries_text(lib, class, n - 1) + to_json_entry_text(
            lib,
            class,
            class.fields[n - 1],
        )
    }
}

/// The entry that puts the discriminant value under the discriminant key.
pub open spec fn discriminant_entry_with(key: Seq<char>, value: Seq<char>) -> Seq<char> {
    quoted(key) + ": "@ + value + "\n"@
}

/// The entry by which a member of a union tells its decoder what it is.
pub open spec fn discriminant_entry_text(
    lib: LibraryView,
    class: ClassView,
    superclass: Option<UnionView>,
) -> Seq<char> {
    match superclass {
        Some(union) => discriminant_entry_with(
            lib.discriminant_key(union),
            lib.discriminant_value(union, class),
        ),
        None => Seq::empty(),
    }
}

/// The `toJson` method of a class.
pub open spec fn to_json_text(
    lib: LibraryView,
    class: ClassView,
    superclass: Option<UnionView>,
) -> Seq<char> {
    (if superclass is Some {
        "@override\n"@
    } else {
        Seq::empty()
    }) + "Map<String, dynamic> toJson() => {\n"@ + to_json_entries_text(
        lib,
        class,
        class.fields.len() as int,
    ) + discriminant_entry_text(lib, class, superclass) + "};\n"@
}

/// The expression that reads what the encoded map holds under `key`.
pub open spec fn json_lookup_text(key: Seq<char>) -> Seq<char> {
    "json["@ + quoted(key) + "]"@
}

/// What stands in for a value that the encoded map lacks under `key`: the
/// field's default, if it has one.
pub open spec fn default_guard_text(key: Seq<char>, field: FieldView) -> Seq<char> {
    match default_text(field) {
        Some(dart) => json_lookup_text(key) + " == null ? "@ + dart + " : "@,
        None => Seq::empty(),
    }
}

/// The argument by which the decoding factory sets one field, given the
/// key and the type of the field: what the encoded map holds under the
/// key, decoded by the field's own expression if it names one, else as
/// the type asks.
pub open spec fn from_json_entry_with(
    lib: LibraryView,
    key: Seq<char>,
    field: FieldView,
    ty: TyView,
) -> Seq<char> {
    field.name.value + ": "@ + default_guard_text(key, field) + (match field.from_json {
        Some(custom) => "\n// ignore: unnecessary_parenthesis\n("@ + custom.value + ")("@
            + json_lookup_text(key) + ")\n"@,
        None => decode_expr_text(lib, json_lookup_text(key), ty),
    }) + ",\n"@
}

/// The argument by which the decoding factory sets one field of `class`.
pub open spec fn from_json_entry_text(
    lib: LibraryView,
    class: ClassView,
    field: FieldView,
) -> Seq<char> {
    from_json_entry_with(lib, lib.json_key(class, field), field, field_ty(field))
}

/// The arguments by which the decoding factory sets the first `n` fields.
pub open spec fn from_json_entries_text(lib: LibraryView, class: ClassView, n: int) -> Seq<char>
    decreases n,
{
    if n <= 0 {
        Seq::empty()
    } else {
        from_json_entries_text(lib, class, n - 1) + from_json_entry_text(
            lib,
            class,
            class.fields[n - 1],
        )
    }
}

/// The `fromJson` factory of a class.
pub open spec fn from_json_text(lib: LibraryView, class: ClassView) -> Seq<char> {
    "factory "@ + class.name.value + ".fromJson(Map<String, dynamic> json) => "@
        + class.name.value + "(\n"@ + from_json_entries_text(
        lib,
        class,
        class.fields.len() as int,
    ) + ");\n"@
}

/// The entry that puts the discriminant value under the discriminant key.
pub fn discriminant_entry(key: &str, value: &str) -> (out: String)
    ensures
        out@ == discriminant_entry_with(key@, value@),
{
    let mut out = String::new();
    out.append("\"");
    out.append(key);
    out.append("\"");
    out.append(": ");
    out.append(value);
    out.append("\n");
    assert(out@ =~= discriminant_entry_with(key@, value@));
    out
}

impl Context {
    /// The expression that encodes `expr`, of type `ty`.
    pub fn write_encode_expr(&self, expr: &str, ty: &Ty) -> (out: String)
        ensures
            out@ == encode_expr_text(self.library@, expr@, ty@),
        decreases ty,
    {
        let mut out = String::new();
        match &ty.kind {
            TyKind::Simple(name) => {
                out.append(expr);
                if self.library.type_has_builder(name.as_str()) || self.library.declares_enum(
                    name.as_str(),
                ) {
                    out.append(".toJson()");
                }
            },
            TyKind::List(inner) => {
                let inner_text = self.write_encode_expr("elem", inner);
                out.append(expr);
                out.append(".map((elem) => ");
                out.append(inner_text.as_str());
                out.append(").toList()");
            },
            TyKind::SetOf(inner) => {
                let inner_text = self.write_encode_expr("elem", inner);
                out.append(expr);
                out.append(".map((elem) => ");
                out.append(inner_text.as_str());
                out.append(").toList()");
            },
            TyKind::MapOf { key, value } => {
                let value_text = self.write_encode_expr("value", value);
                out.append(expr);
                out.append(".map((key, value) => MapEntry(key, ");
                out.append(value_text.as_str());
                out.append("))");
            },
            TyKind::Nullable(inner) => {
                let inner_ty = inner.to_text();
                let mut cast = String::from_str("(");
                cast.append(expr);
                cast.append(" as ");
                cast.append(inner_ty.as_str());
                cast.append(")");
                let inner_text = self.write_encode_expr(cast.as_str(), inner);
                out.append(expr);
                out.append(" == null ? null : ");
                out.append(inner_text.as_str());
            },
        }
        assert(out@ =~= encode_expr_text(self.library@, expr@, ty@));
        out
    }

    /// The expression that decodes `expr`, a decoded JSON value, into a
    /// value of type `ty`.
    pub fn write_decode_expr(&self, expr: &str, ty: &Ty) -> (out: String)
        ensures
            out@ == decode_expr_text(self.library@, expr@, ty@),
        decreases ty,
    {
        let mut out = String::new();
        match &ty.kind {
            TyKind::Simple(name) => {
                if self.library.type_has_builder(name.as_str()) {
                    out.append(name.as_str());
                    out.append(".fromJson(");
                    out.append(expr);
                    out.append(" as Map<String, dynamic>)");
                } else if self.library.declares_enum(name.as_str()) {
                    out.append(name.as_str());
                    out.append(".fromJson(");
                    out.append(expr);
                    out.append(")");
                } else {
                    out.append(expr);
                    out.append(" as ");
                    out.append(name.as_str());
                }
            },
            TyKind::List(inner) => {
                let inner_text = self.write_decode_expr("elem", inner);
                out.append("(");
                out.append(expr);
                out.append(" as List<dynamic>).map((elem) => ");
                out.append(inner_text.as_str());
                out.append(").toList()");
            },
            TyKind::SetOf(inner) => {
                let inner_text = self.write_decode_expr("elem", inner);
                out.append("(");
                out.append(expr);
                out.append(" as List<dynamic>).map((elem) => ");
                out.append(inner_text.as_str());
                out.append(").toSet()");
            },
            TyKind::MapOf { key, value } => {
                let value_text = self.write_decode_expr("value", value);
                out.append("(");
                out.append(expr);
                out.append(" as Map<String, dynamic>).map((key, value) => MapEntry(key, ");
                out.append(value_text.as_str());
                out.append("))");
            },
            TyKind::Nullable(inner) => {
                let inner_text = self.write_decode_expr(expr, inner);
                out.append(expr);
                out.append(" == null ? null : ");
                out.append(inner_text.as_str());
            },
        }
        assert(out@ =~= decode_expr_text(self.library@, expr@, ty@));
        out
    }

    /// The entry of the encoded map for one field, given its key and
    /// its type.
    #[verifier::rlimit(30)]
    pub fn to_json_entry(&self, key: &str, field: &Field, ty: &Ty) -> (out: String)
        ensures
            out@ == to_json_entry_with(self.library@, key@, field@, ty@),
    {
        let mut out = String::new();
        out.append("\"");
        out.append(key);
        out.append("\"");
        match &field.to_json {
            Some(custom) => {
                out.append(": \n");
                out.append("// ignore: unnecessary_parenthesis\n");
                out.append("(");
                out.append(custom.value.as_str());
                out.append(")(");
                out.append(field.name.value.as_str());
                out.append("),\n");
            },
            None => {
                let value = self.write_encode_expr(field.name.value.as_str(), ty);
                out.append(": ");
                out.append(value.as_str());
                out.append(",\n");
            },
        }
        assert(out@ =~= to_json_entry_with(self.library@, key@, field@, ty@));
        out
    }

    /// The `toJson` method of a class: one entry for each field and, for
    /// a member of a union, the entry that tells the members apart.
    pub fn generate_to_json(&self, class: &Class, superclass: Option<&Union>) -> (out: String)
        requires
            class_ready(class@),
        ensures
            out@ == to_json_text(self.library@, class@, union_of(superclass)),
    {
        let mut entries = String::new();
        let mut i: usize = 0;
        while i < class.fields.len()
            invariant
                i <= class.fields.len(),
                fields_ready(class@.fields),
                entries@ == to_json_entries_text(self.library@, class@, i as int),
            decreases class.fields.len() - i,
        {
            assert(class@.fields[i as int] == class.fields@[i as int]@);
            assert(field_ready(class@.fields[i as int]));
            let key = self.library.json_key_for(class, &class.fields[i]);
            let ty = field_type(&class.fields[i]);
            let entry = self.to_json_entry(key.as_str(), &class.fields[i], &ty);
            entries.append(entry.as_str());
            i = i + 1;
        }
        let mut out = String::new();
        if superclass.is_some() {
            out.append("@override\n");
        }
        out.append("Map<String, dynamic> toJson() => {\n");
        out.append(entries.as_str());
        if let Some(union) = superclass {
            let key = self.library.discriminant_key_for(union);
            let value = self.library.discriminant_value_for(union, class);
            let entry = discriminant_entry(key.as_str(), value.as_str());
            out.append(entry.as_str());
        }
        out.append("};\n");
        assert(out@ =~= to_json_text(self.library@, class@, union_of(superclass)));
        out
    }

    /// The argument by which the decoding factory sets one field, given
    /// the key and the type of the field.
    #[verifier::rlimit(30)]
    pub fn from_json_entry(&self, key: &str, field: &Field, ty: &Ty) -> (out: String)
        requires
            literal_ready(field@.defaults_to),
        ensures
            out@ == from_json_entry_with(self.library@, key@, field@, ty@),
    {
        let mut lookup = String::from_str("json[");
        lookup.append("\"");
        lookup.append(key);
        lookup.append("\"");
        lookup.append("]");
        assert(lookup@ =~= json_lookup_text(key@));
        let mut out = String::new();
        out.append(field.name.value.as_str());
        out.append(": ");
        if let Some(dart) = default_of(field) {
            out.append(lookup.as_str());
            out.append(" == null ? ");
            out.append(dart.as_str());
            out.append(" : ");
        }
        match &field.from_json {
            Some(custom) => {
                out.append("\n// ignore: unnecessary_parenthesis\n(");
                out.append(custom.value.as_str());
                out.append(")(");
                out.append(lookup.as_str());
                out.append(")\n");
            },
            None => {
                let value = self.write_decode_expr(lookup.as_str(), ty);
                out.append(value.as_str());
            },
        }
        out.append(",\n");
        assert(out@ =~= from_json_entry_with(self.library@, key@, field@, ty@));
        out
    }

    /// The `fromJson` factory of a class: each field is looked up under
    /// its key and decoded; where the key is missing the field's default,
    /// if it has one, stands in.
    pub fn generate_from_json(&self, class: &Class) -> (out: String)
        requires
            class_ready(class@),
        ensures
            out@ == from_json_text(self.library@, class@),
    {
        let mut entries = String::new();
        let mut i: usize = 0;
        while i < class.fields.len()
            invariant
                i <= class.fields.len(),
                fields_ready(class@.fields),
                entries@ == from_json_entries_text(self.library@, class@, i as int),
            decreases class.fields.len() - i,
        {
            assert(class@.fields[i as int] == class.fields@[i as int]@);
            assert(field_ready(class@.fields[i as int]));
            let key = self.library.json_key_for(class, &class.fields[i]);
            let ty = field_type(&class.fields[i]);
            let entry = self.from_json_entry(key.as_str(), &class.fields[i], &ty);
            entries.append(entry.as_str());
            i = i + 1;
        }
        let mut out = String::new();
        out.append("factory ");
        out.append(class.name.value.as_str());
        out.append(".fromJson(Map<String, dynamic> json) => ");
        out.append(class.name.value.as_str());
        out.append("(\n");
        out.append(entries.as_str());
        out.append(");\n");
        assert(out@ =~= from_json_text(self.library@, class@));
        out
    }
}

} // verus!
