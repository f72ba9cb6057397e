//! Equality and hash codes.
//!
//! Both go by the shape of a field's type. A scalar or a nullable value is
//! compared with `==` and hashed with `hashCode`; an absent value hashes
//! as null. Lists are compared item by item, in order, and hashed in
//! order. Sets and maps are compared and hashed without regard to order.
//!
//! A field that is a list, a set or a map is compared by statements: the
//! two lengths first, then a loop over the items. What the loop does with
//! an item goes by the shape of the item: a scalar or a nullable item is
//! compared with `!=`, any other by an expression that compares it part
//! by part.

use crate::codegen::ready::{field_ready, field_ty, field_type, fields_ready};
use crate::context::Context;
use crate::model::view::{ClassView, FieldView};
use crate::model::{Class, Field};
use crate::text::{braced, braced_text};
use crate::ty::{Ty, TyKind, TyKindView, TyView};
use vstd::prelude::*;
use vstd::string::StringExecFns;

verus! {

/// Whether values of this shape are compared with `==`.
pub open spec fn compares_natively(ty: TyView) -> bool {
    ty.kind is Simple || ty.kind is Nullable
}

/// The value that map `map` holds under key `key`, as an expression of
/// type `ty`.
pub open spec fn map_value_text(map: Seq<char>, key: Seq<char>, ty: TyView) -> Seq<char> {
    if compares_natively(ty) {
        map + "["@ + key + "]"@
    } else {
        map + "["@ + key + "]!"@
    }
}

/// The expression that says whether `a` and `b`, both of type `ty`, are
/// equal. The variables it binds end in `suffix`.
pub open spec fn equals_expr_text(a: Seq<char>, b: Seq<char>, ty: TyView, suffix: Seq<char>) -> Seq<
    char,
>
    decreases ty,
{
    match ty.kind {
        TyKindView::Simple(_) => a + " == "@ + b,
        TyKindView::Nullable(_) => a + " == "@ + b,
        TyKindView::List(inner) => a + ".length == "@ + b
            + ".length && Iterable<int>.generate("@ + a + ".length).every((i"@ + suffix + ") => "@
            + equals_expr_text(
            a + "[i"@ + suffix + "]"@,
            b + "[i"@ + suffix + "]"@,
            *inner,
            suffix + "_"@,
        ) + ")"@,
        TyKindView::SetOf(inner) => a + ".length == "@ + b + ".length && "@ + a + ".every((e"@
            + suffix + ") => "@ + b + ".any((o"@ + suffix + ") => "@ + equals_expr_text(
            "e"@ + suffix,
            "o"@ + suffix,
            *inner,
            suffix + "_"@,
        ) + "))"@,
        TyKindView::MapOf { key, value } => a + ".length == "@ + b + ".length && "@ + a
            + ".keys.every((k"@ + suffix + ") => "@ + b + ".containsKey(k"@ + suffix + ") && "@
            + equals_expr_text(
            map_value_text(a, "k"@ + suffix, *value),
            map_value_text(b, "k"@ + suffix, *value),
            *value,
            suffix + "_"@,
        ) + ")"@,
    }
}

/// The expression that gives the hash code of `expr`, of type `ty`.
pub open spec fn hash_expr_text(expr: Seq<char>, ty: TyView) -> Seq<char>
    decreases ty,
{
    match ty.kind {
        TyKindView::Simple(_) => expr + ".hashCode"@,
        TyKindView::Nullable(_) => expr + "?.hashCode"@,
        TyKindView::List(inner) => "Object.hashAll("@ + expr + ".map((elem) => "@ + hash_expr_text(
            "elem"@,
            *inner,
        ) + "))"@,
        TyKindView::SetOf(inner) => "Object.hashAllUnordered("@ + expr + ".map((elem) => "@
            + hash_expr_text("elem"@, *inner) + "))"@,
        TyKindView::MapOf { key, value } => "Object.hashAllUnordered("@ + expr
            + ".entries.map((entry) => Object.hash(entry.key, "@ + hash_expr_text(
            "entry.value"@,
            *value,
        ) + ")))"@,
    }
}

/// The statement that leaves `==` with false where the lengths of the
/// field of that name differ.
pub open spec fn length_check_text(name: Seq<char>) -> Seq<char> {
    "if ("@ + name + ".length != other."@ + name + ".length) { return false; }\n"@
}

/// The statement that leaves `==` with false where `a` and `b`, both of
/// type `ty`, differ: by `!=` for a scalar or a nullable value, by shape
/// for any other.
pub open spec fn item_check_text(a: Seq<char>, b: Seq<char>, ty: TyView) -> Seq<char> {
    if compares_natively(ty) {
        "if ("@ + a + " != "@ + b + ") { return false; }\n"@
    } else {
        "if (!("@ + equals_expr_text(a, b, ty, "_"@) + ")) { return false; }\n"@
    }
}

/// The statement that leaves `==` with false where the other set of that
/// name lacks `elem`, an item of type `ty`: none that it contains, for a
/// scalar or a nullable item; none that equals it by shape, for any
/// other.
pub open spec fn member_check_text(name: Seq<char>, ty: TyView) -> Seq<char> {
    if compares_natively(ty) {
        "if (!other."@ + name + ".contains(elem)) { return false; }\n"@
    } else {
        "if (!other."@ + name + ".any((o) => "@ + equals_expr_text("elem"@, "o"@, ty, "_"@)
            + ")) { return false; }\n"@
    }
}

/// The statement that leaves `==` with false where the other map of that
/// name holds another value than `entry`, whose value is of type `ty`,
/// under the key of `entry`.
pub open spec fn entry_check_text(name: Seq<char>, ty: TyView) -> Seq<char> {
    if compares_natively(ty) {
        "if (entry.value != other."@ + name + "[entry.key]) { return false; }\n"@
    } else {
        "if (!(other."@ + name + ".containsKey(entry.key) && "@ + equals_expr_text(
            "entry.value"@,
            "other."@ + name + "[entry.key]!"@,
            ty,
            "_"@,
        ) + ")) { return false; }\n"@
    }
}

/// The statements that leave `==` with false where the field of that
/// name and of type `ty` differs.
///
/// A scalar or a nullable field is compared with `!=`. A list, a set or a
/// map is compared by length first; then a loop goes over the indices of
/// the list in order, over the items of the set, or over the entries of
/// the map, and compares what it comes by.
pub open spec fn field_equals_with(name: Seq<char>, ty: TyView) -> Seq<char> {
    match ty.kind {
        TyKindView::Simple(_) => "if ("@ + name + " != other."@ + name + ") { return false; }\n"@,
        TyKindView::Nullable(_) => "if ("@ + name + " != other."@ + name
            + ") { return false; }\n"@,
        TyKindView::List(inner) => length_check_text(name) + "for (var i = 0; i < "@ + name
            + ".length; i++)\n"@ + braced_text(
            item_check_text(name + "[i]"@, "other."@ + name + "[i]"@, *inner),
        ),
        TyKindView::SetOf(inner) => length_check_text(name) + "for (final elem in "@ + name
            + ")\n"@ + braced_text(member_check_text(name, *inner)),
        TyKindView::MapOf { key, value } => length_check_text(name) + "for (final entry in "@
            + name + ".entries)\n"@ + braced_text(entry_check_text(name, *value)),
    }
}

/// The statements that leave `==` with false where `field` differs.
pub open spec fn field_equals_text(field: FieldView) -> Seq<char> {
    field_equals_with(field.name.value, field_ty(field))
}

/// The statements that compare the first `n` fields.
pub open spec fn fields_equal_text(fields: Seq<FieldView>, n: int) -> Seq<char>
    decreases n,
{
    if n <= 0 {
        Seq::empty()
    } else {
        fields_equal_text(fields, n - 1) + field_equals_text(fields[n - 1])
    }
}

/// The operator `==` of a class: the same object, or an object of the
/// same class whose fields are all equal.
pub open spec fn equals_text(class: ClassView) -> Seq<char> {
    "@override\n bool operator ==(Object other)\n"@ + braced_text(
        "if (identical(this, other)) { return true;  }\n"@ + "if (other is! "@
            + class.name.value + ") { return false; }\n"@ + fields_equal_text(
            class.fields,
            class.fields.len() as int,
        ) + "return true;\n"@,
    )
}

/// The hash codes of the first `n` fields, one per line.
pub open spec fn hash_entries_text(fields: Seq<FieldView>, n: int) -> Seq<char>
    decreases n,
{
    if n <= 0 {
        Seq::empty()
    } else {
        hash_entries_text(fields, n - 1) + hash_expr_text(
            fields[n - 1].name.value,
            field_ty(fields[n - 1]),
        ) + ",\n"@
    }
}

/// The getter `hashCode` of a class: the hash codes of its fields, in the
/// order in which they are declared.
pub open spec fn hash_code_text(class: ClassView) -> Seq<char> {
    "@override\n int get hashCode => Object.hashAll([\n"@ + hash_entries_text(
        class.fields,
        class.fields.len() as int,
    ) + "]);\n"@
}

/// Equality and the hash code of a class.
pub open spec fn equals_and_hash_text(class: ClassView) -> Seq<char> {
    equals_text(class) + hash_code_text(class)
}

fn is_native(ty: &Ty) -> (native: bool)
    ensures
        native == compares_natively(ty@),
{
    match &ty.kind {
        TyKind::Simple(_) => true,
        TyKind::Nullable(_) => true,
        _ => false,
    }
}

/// The statement that leaves `==` with false where the lengths of the
/// field of that name differ.
pub fn length_check(name: &str) -> (out: String)
    ensures
        out@ == length_check_text(name@),
{
    let mut out = String::from_str("if (");
    out.append(name);
    out.append(".length != other.");
    out.append(name);
    out.append(".length) { return false; }\n");
    out
}

fn joined(a: &str, b: &str) -> (out: String)
    ensures
        out@ == a@ + b@,
{
    let mut out = String::from_str(a);
    out.append(b);
    out
}

fn map_value(map: &str, key: &str, ty: &Ty) -> (out: String)
    ensures
        out@ == map_value_text(map@, key@, ty@),
{
    let mut out = String::from_str(map);
    out.append("[");
    out.append(key);
    match &ty.kind {
        TyKind::Simple(_) => {
            out.append("]");
        },
        TyKind::Nullable(_) => {
            out.append("]");
        },
        _ => {
            out.append("]!");
        },
    }
    assert(out@ =~= map_value_text(map@, key@, ty@));
    out
}

impl Context {
    /// The expression that says whether `a` and `b`, both of type `ty`,
    /// are equal. The variables it binds end in `suffix`.
    pub fn write_equals_expr(&self, a: &str, b: &str, ty: &Ty, suffix: &str) -> (out: String)
        ensures
            out@ == equals_expr_text(a@, b@, ty@, suffix@),
        decreases ty,
    {
        let mut out = String::new();
        match &ty.kind {
            TyKind::Simple(_) => {
                out.append(a);
                out.append(" == ");
                out.append(b);
            },
            TyKind::Nullable(_) => {
                out.append(a);
                out.append(" == ");
                out.append(b);
            },
            TyKind::List(inner) => {
                let mut left = String::from_str(a);
                left.append("[i");
                left.append(suffix);
                left.append("]");
                let mut right = String::from_str(b);
                right.append("[i");
                right.append(suffix);
                right.append("]");
                let deeper = joined(suffix, "_");
                let inner_text = self.write_equals_expr(
                    left.as_str(),
                    right.as_str(),
                    inner,
                    deeper.as_str(),
                );
                out.append(a);
                out.append(".length == ");
                out.append(b);
                out.append(".length && Iterable<int>.generate(");
                out.append(a);
                out.append(".length).every((i");
                out.append(suffix);
                out.append(") => ");
                out.append(inner_text.as_str());
                out.append(")");
            },
            TyKind::SetOf(inner) => {
                let left = joined("e", suffix);
                let right = joined("o", suffix);
                let deeper = joined(suffix, "_");
                let inner_text = self.write_equals_expr(
                    left.as_str(),
                    right.as_str(),
                    inner,
                    deeper.as_str(),
                );
                out.append(a);
                out.append(".length == ");
                out.append(b);
                out.append(".length && ");
                out.append(a);
                out.append(".every((e");
                out.append(suffix);
                out.append(") => ");
                out.append(b);
                out.append(".any((o");
                out.append(suffix);
                out.append(") => ");
                out.append(inner_text.as_str());
                out.append("))");
            },
            TyKind::MapOf { key, value } => {
                let k = joined("k", suffix);
                let left = map_value(a, k.as_str(), value);
                let right = map_value(b, k.as_str(), value);
                let deeper = joined(suffix, "_");
                let inner_text = self.write_equals_expr(
                    left.as_str(),
                    right.as_str(),
                    value,
                    deeper.as_str(),
                );
                out.append(a);
                out.append(".length == ");
                out.append(b);
                out.append(".length && ");
                out.append(a);
                out.append(".keys.every((k");
                out.append(suffix);
                out.append(") => ");
                out.append(b);
                out.append(".containsKey(k");
                out.append(suffix);
                out.append(") && ");
                out.append(inner_text.as_str());
                out.append(")");
            },
        }
        assert(out@ =~= equals_expr_text(a@, b@, ty@, suffix@));
        out
    }

    /// The expression that gives the hash code of `expr`, of type `ty`.
    pub fn write_hash_for_field(&self, expr: &str, ty: &Ty) -> (out: String)
        ensures
            out@ == hash_expr_text(expr@, ty@),
        decreases ty,
    {
        let mut out = String::new();
        match &ty.kind {
            TyKind::Simple(_) => {
                out.append(expr);
                out.append(".hashCode");
            },
            TyKind::Nullable(_) => {
                out.append(expr);
                out.append("?.hashCode");
            },
            TyKind::List(inner) => {
                let inner_text = self.write_hash_for_field("elem", inner);
                out.append("Object.hashAll(");
                out.append(expr);
                out.append(".map((elem) => ");
                out.append(inner_text.as_str());
                out.append("))");
            },
            TyKind::SetOf(inner) => {
                let inner_text = self.write_hash_for_field("elem", inner);
                out.append("Object.hashAllUnordered(");
                out.append(expr);
                out.append(".map((elem) => ");
                out.append(inner_text.as_str());
                out.append("))");
            },
            TyKind::MapOf { key, value } => {
                let value_text = self.write_hash_for_field("entry.value", value);
                out.append("Object.hashAllUnordered(");
                out.append(expr);
                out.append(".entries.map((entry) => Object.hash(entry.key, ");
                out.append(value_text.as_str());
                out.append(")))");
            },
        }
        assert(out@ =~= hash_expr_text(expr@, ty@));
        out
    }

    /// The statement that leaves `==` with false where `a` and `b`, both
    /// of type `ty`, differ.
    pub fn item_check(&self, a: &str, b: &str, ty: &Ty) -> (out: String)
        ensures
            out@ == item_check_text(a@, b@, ty@),
    {
        let mut out = String::new();
        if is_native(ty) {
            out.append("if (");
            out.append(a);
            out.append(" != ");
            out.append(b);
            out.append(") { return false; }\n");
        } else {
            let test = self.write_equals_expr(a, b, ty, "_");
            out.append("if (!(");
            out.append(test.as_str());
            out.append(")) { return false; }\n");
        }
        assert(out@ =~= item_check_text(a@, b@, ty@));
        out
    }

    /// The statement that leaves `==` with false where the other set of
    /// that name lacks `elem`, an item of type `ty`.
    pub fn member_check(&self, name: &str, ty: &Ty) -> (out: String)
        ensures
            out@ == member_check_text(name@, ty@),
    {
        let mut out = String::new();
        out.append("if (!other.");
        out.append(name);
        if is_native(ty) {
            out.append(".contains(elem)) { return false; }\n");
        } else {
            let test = self.write_equals_expr("elem", "o", ty, "_");
            out.append(".any((o) => ");
            out.append(test.as_str());
            out.append(")) { return false; }\n");
        }
        assert(out@ =~= member_check_text(name@, ty@));
        out
    }

    /// The statement that leaves `==` with false where the other map of
    /// that name holds another value than `entry`, whose value is of type
    /// `ty`, under the key of `entry`.
    pub fn entry_check(&self, name: &str, ty: &Ty) -> (out: String)
        ensures
            out@ == entry_check_text(name@, ty@),
    {
        let mut out = String::new();
        if is_native(ty) {
            out.append("if (entry.value != other.");
            out.append(name);
            out.append("[entry.key]) { return false; }\n");
        } else {
            let mut theirs = String::from_str("other.");
            theirs.append(name);
            theirs.append("[entry.key]!");
            let test = self.write_equals_expr("entry.value", theirs.as_str(), ty, "_");
            out.append("if (!(other.");
            out.append(name);
            out.append(".containsKey(entry.key) && ");
            out.append(test.as_str());
            out.append(")) { return false; }\n");
        }
        assert(out@ =~= entry_check_text(name@, ty@));
        out
    }

    /// The statements that leave `==` with false where the field of that
    /// name and of type `ty` differs.
    pub fn field_equals_for(&self, name: &str, ty: &Ty) -> (out: String)
        ensures
            out@ == field_equals_with(name@, ty@),
    {
        let mut out = String::new();
        match &ty.kind {
            TyKind::Simple(_) => {
                out.append("if (");
                out.append(name);
                out.append(" != other.");
                out.append(name);
                out.append(") { return false; }\n");
            },
            TyKind::Nullable(_) => {
                out.append("if (");
                out.append(name);
                out.append(" != other.");
                out.append(name);
                out.append(") { return false; }\n");
            },
            TyKind::List(inner) => {
                let mine = joined(name, "[i]");
                let mut theirs = String::from_str("other.");
                theirs.append(name);
                theirs.append("[i]");
                let check = self.item_check(mine.as_str(), theirs.as_str(), inner);
                let lengths = length_check(name);
                out.append(lengths.as_str());
                out.append("for (var i = 0; i < ");
                out.append(name);
                out.append(".length; i++)\n");
                braced(&mut out, check.as_str());
            },
            TyKind::SetOf(inner) => {
                let check = self.member_check(name, inner);
                let lengths = length_check(name);
                out.append(lengths.as_str());
                out.append("for (final elem in ");
                out.append(name);
                out.append(")\n");
                braced(&mut out, check.as_str());
            },
            TyKind::MapOf { key, value } => {
                let check = self.entry_check(name, value);
                let lengths = length_check(name);
                out.append(lengths.as_str());
                out.append("for (final entry in ");
                out.append(name);
                out.append(".entries)\n");
                braced(&mut out, check.as_str());
            },
        }
        assert(out@ =~= field_equals_with(name@, ty@));
        out
    }

    /// The statements that leave `==` with false where `field` differs.
    pub fn generate_field_equals(&self, field: &Field) -> (out: String)
        requires
            field_ready(field@),
        ensures
            out@ == field_equals_text(field@),
    {
        let ty = field_type(field);
        self.field_equals_for(field.name.value.as_str(), &ty)
    }

    /// The operator `==` of a class.
    pub fn generate_equals(&self, class: &Class) -> (out: String)
        requires
            fields_ready(class@.fields),
        ensures
            out@ == equals_text(class@),
    {
        let mut checks = String::new();
        let mut i: usize = 0;
        while i < class.fields.len()
            invariant
                i <= class.fields.len(),
                fields_ready(class@.fields),
                checks@ == fields_equal_text(class@.fields, i as int),
            decreases class.fields.len() - i,
        {
            assert(class@.fields[i as int] == class.fields@[i as int]@);
            assert(field_ready(class@.fields[i as int]));
            let check = self.generate_field_equals(&class.fields[i]);
            checks.append(check.as_str());
            i = i + 1;
        }
        let mut body = String::new();
        body.append("if (identical(this, other)) { return true;  }\n");
        body.append("if (other is! ");
        body.append(class.name.value.as_str());
        body.append(") { return false; }\n");
        body.append(checks.as_str());
        body.append("return true;\n");
        let mut out = String::new();
        out.append("@override\n bool operator ==(Object other)\n");
        braced(&mut out, body.as_str());
        assert(out@ =~= equals_text(class@));
        out
    }

    /// The getter `hashCode` of a class.
    pub fn generate_hash_code(&self, class: &Class) -> (out: String)
        requires
            fields_ready(class@.fields),
        ensures
            out@ == hash_code_text(class@),
    {
        let mut entries = String::new();
        let mut i: usize = 0;
        while i < class.fields.len()
            invariant
                i <= class.fields.len(),
                fields_ready(class@.fields),
                entries@ == hash_entries_text(class@.fields, i as int),
            decreases class.fields.len() - i,
        {
            assert(class@.fields[i as int] == class.fields@[i as int]@);
            assert(field_ready(class@.fields[i as int]));
            let ghost before = entries@;
            let field = &class.fields[i];
            let ty = field_type(field);
            let entry = self.write_hash_for_field(field.name.value.as_str(), &ty);
            entries.append(entry.as_str());
            entries.append(",\n");
            assert(entries@ =~= before + hash_expr_text(field.name.value@, field_ty(field@))
                + ",\n"@);
            i = i + 1;
        }
        let mut out = String::new();
        out.append("@override\n int get hashCode => Object.hashAll([\n");
        out.append(entries.as_str());
        out.append("]);\n");
        assert(out@ =~= hash_code_text(class@));
        out
    }

    /// Equality and the hash code of a class.
    pub fn generate_equals_and_hash(&self, class: &Class) -> (out: String)
        requires
            fields_ready(class@.fields),
        ensures
            out@ == equals_and_hash_text(class@),
    {
        let mut out = self.generate_equals(class);
        let hash = self.generate_hash_code(class);
        out.append(hash.as_str());
        out
    }
}

} // verus!
