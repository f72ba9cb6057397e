//! Value classes.

use crate::codegen::equals::equals_and_hash_text;
use crate::codegen::json::{from_json_text, to_json_text};
use crate::codegen::ready::{class_ready, field_ready, field_ty, field_type, fields_ready};
use crate::codegen::util::{
    annotations, annotations_text, default_suffix, default_suffix_text, generates_equals,
    generates_to_string, optional_doc, optional_doc_text, required_keyword, required_text,
    wants_equals, wants_to_string,
};
use crate::context::Context;
use crate::model::view::{ClassView, FieldView, LibraryView, text_of, TextView, union_of, UnionView};
use crate::model::{Class, Union};
use crate::span::SpannedScalar;
use crate::text::{braced, braced_text};
use crate::ty::{Ty, ty_text, TyKind, TyKindView, TyView};
use vstd::prelude::*;
use vstd::string::StringExecFns;

verus! {

/// The expression that turns `expr`, of type `ty`, into a value of the
/// builder's type for `ty`: every class or union of the library in it is
/// converted to its builder.
pub open spec fn to_builder_expr_text(lib: LibraryView, expr: Seq<char>, ty: TyView) -> Seq<char>
    decreases ty,
{
    match ty.kind {
        TyKindView::Simple(name) => if lib.has_builder(name) {
            expr + ".toBuilder()"@
        } else {
            expr
        },
        TyKindView::List(inner) => expr + ".map((elem) => "@ + to_builder_expr_text(
            lib,
            "elem"@,
            *inner,
        ) + ").toList()"@,
        TyKindView::SetOf(inner) => expr + ".map((elem) => "@ + to_builder_expr_text(
            lib,
            "elem"@,
            *inner,
        ) + ").toSet()"@,
        TyKindView::MapOf { key, value } => expr + ".map((key, value) => MapEntry(key, "@
            + to_builder_expr_text(lib, "value"@, *value) + "))"@,
        TyKindView::Nullable(inner) => expr + " == null ? null : "@ + to_builder_expr_text(
            lib,
            "("@ + expr + " as "@ + ty_text(*inner) + ")"@,
            *inner,
        ),
    }
}

/// The annotations that the defaults give to every class.
pub open spec fn class_annotations(lib: LibraryView) -> Option<TextView> {
    match lib.defaults {
        Some(d) => match d.class {
            Some(c) => c.annotations,
            None => None,
        },
        None => None,
    }
}

/// The declaration of one field: its documentation, its type and its
/// name.
pub open spec fn field_decl_text(field: FieldView) -> Seq<char> {
    optional_doc_text(field.docs) + "final "@ + ty_text(field_ty(field)) + " "@
        + field.name.value + ";\n"@
}

/// The declarations of the first `n` fields.
pub open spec fn field_decls_text(fields: Seq<FieldView>, n: int) -> Seq<char>
    decreases n,
{
    if n <= 0 {
        Seq::empty()
    } else {
        field_decls_text(fields, n - 1) + field_decl_text(fields[n - 1])
    }
}

/// The constructor's parameter for one field.
pub open spec fn ctor_param_text(field: FieldView) -> Seq<char> {
    required_text(field) + " this."@ + field.name.value + default_suffix_text(field, "= "@)
        + ",\n"@
}

/// The constructor's parameters for the first `n` fields.
pub open spec fn ctor_params_text(fields: Seq<FieldView>, n: int) -> Seq<char>
    decreases n,
{
    if n <= 0 {
        Seq::empty()
    } else {
        ctor_params_text(fields, n - 1) + ctor_param_text(fields[n - 1])
    }
}

/// The constructor: every field is a named parameter, required unless it
/// has a default.
pub open spec fn constructor_text(class: ClassView, has_superclass: bool) -> Seq<char> {
    (if class.fields.len() == 0 {
        "const "@ + class.name.value + "()\n"@
    } else {
        "const "@ + class.name.value + "({\n"@ + ctor_params_text(
            class.fields,
            class.fields.len() as int,
        ) + "})\n"@
    }) + (if has_superclass {
        " : super();\n"@
    } else {
        ";\n"@
    })
}

/// The parameter of the `builder` factory for one field.
pub open spec fn factory_param_text(field: FieldView) -> Seq<char> {
    required_text(field) + " "@ + ty_text(field_ty(field)) + " "@ + field.name.value
        + default_suffix_text(field, " = "@) + ",\n"@
}

/// The parameters of the `builder` factory for the first `n` fields.
pub open spec fn factory_params_text(fields: Seq<FieldView>, n: int) -> Seq<char>
    decreases n,
{
    if n <= 0 {
        Seq::empty()
    } else {
        factory_params_text(fields, n - 1) + factory_param_text(fields[n - 1])
    }
}

/// The argument that hands one field to the builder's constructor.
pub open spec fn to_builder_arg_text(lib: LibraryView, field: FieldView) -> Seq<char> {
    field.name.value + ": "@ + to_builder_expr_text(lib, field.name.value, field_ty(field))
        + ",\n"@
}

/// The arguments that hand the first `n` fields to the builder's
/// constructor.
pub open spec fn to_builder_args_text(lib: LibraryView, fields: Seq<FieldView>, n: int) -> Seq<char>
    decreases n,
{
    if n <= 0 {
        Seq::empty()
    } else {
        to_builder_args_text(lib, fields, n - 1) + to_builder_arg_text(lib, fields[n - 1])
    }
}

/// The static `builder` factory: the constructor's parameters, handed to
/// the builder.
pub open spec fn builder_factory_text(lib: LibraryView, class: ClassView) -> Seq<char> {
    if class.fields.len() == 0 {
        "static "@ + class.name.value + "Builder builder() => "@ + class.name.value
            + "Builder();\n"@
    } else {
        "static "@ + class.name.value + "Builder builder({\n"@ + factory_params_text(
            class.fields,
            class.fields.len() as int,
        ) + "}) => "@ + class.name.value + "Builder(\n"@ + to_builder_args_text(
            lib,
            class.fields,
            class.fields.len() as int,
        ) + ");\n"@
    }
}

/// The `toBuilder` method.
pub open spec fn to_builder_method_text(lib: LibraryView, class: ClassView) -> Seq<char> {
    class.name.value + "Builder toBuilder() => "@ + class.name.value + "Builder(\n"@
        + to_builder_args_text(lib, class.fields, class.fields.len() as int) + ");\n"@
}

/// The part of the string conversion that shows field `i`.
pub open spec fn to_string_part_text(fields: Seq<FieldView>, i: int) -> Seq<char> {
    "\""@ + fields[i].name.value + ": $"@ + fields[i].name.value + (if i == fields.len() - 1 {
        Seq::empty()
    } else {
        ", "@
    }) + "\"\n"@
}

/// The parts of the string conversion that show the first `n` fields.
pub open spec fn to_string_parts_text(fields: Seq<FieldView>, n: int) -> Seq<char>
    decreases n,
{
    if n <= 0 {
        Seq::empty()
    } else {
        to_string_parts_text(fields, n - 1) + to_string_part_text(fields, n - 1)
    }
}

/// The string conversion of a class: its name and its fields.
pub open spec fn to_string_class_text(class: ClassView) -> Seq<char> {
    "@override\nString toString() => \""@ + class.name.value + "(\"\n"@ + to_string_parts_text(
        class.fields,
        class.fields.len() as int,
    ) + "\")\";\n"@
}

/// The extra text of a class body, followed by an empty line.
pub open spec fn extra_text(extra: Option<TextView>) -> Seq<char> {
    match extra {
        Some(e) => e.value + "\n"@ + "\n"@,
        None => Seq::empty(),
    }
}

/// `extends` and the name of the union that the class is a member of.
pub open spec fn extends_text(superclass: Option<UnionView>, ending: Seq<char>) -> Seq<char> {
    match superclass {
        Some(union) => "extends "@ + union.name.value + ending,
        None => Seq::empty(),
    }
}

/// What stands between the braces of a value class.
#[verifier::opaque]
pub open spec fn immutable_body_text(
    lib: LibraryView,
    class: ClassView,
    superclass: Option<UnionView>,
) -> Seq<char> {
    field_decls_text(class.fields, class.fields.len() as int) + "\n"@ + constructor_text(
        class,
        superclass is Some,
    ) + "\n"@ + builder_factory_text(lib, class) + to_builder_method_text(lib, class) + "\n"@
        + to_json_text(lib, class, superclass) + from_json_text(lib, class) + "\n"@
        + (if wants_to_string(lib) {
        to_string_class_text(class)
    } else {
        Seq::empty()
    }) + (if wants_equals(lib) {
        equals_and_hash_text(class)
    } else {
        Seq::empty()
    }) + extra_text(class.extra_dart)
}

/// The declaration of a value class.
#[verifier::opaque]
pub open spec fn immutable_class_text(
    lib: LibraryView,
    class: ClassView,
    superclass: Option<UnionView>,
) -> Seq<char> {
    optional_doc_text(class.docs) + annotations_text(class.annotations, class_annotations(lib))
        + "final class "@ + class.name.value + " "@ + extends_text(superclass, " "@) + braced_text(
        immutable_body_text(lib, class, superclass),
    )
}

/// The extra text of a class body, followed by an empty line.
pub fn extra_lines(extra: &Option<SpannedScalar<String>>) -> (out: String)
    ensures
        out@ == extra_text(text_of(*extra)),
{
    let mut out = String::new();
    if let Some(e) = extra {
        out.append(e.value.as_str());
        out.append("\n");
        out.append("\n");
    }
    assert(out@ =~= extra_text(text_of(*extra)));
    out
}

/// `extends` and the name of the union that the class is a member of.
pub fn extends_clause(superclass: Option<&Union>, ending: &str) -> (out: String)
    ensures
        out@ == extends_text(union_of(superclass), ending@),
{
    let mut out = String::new();
    if let Some(union) = superclass {
        out.append("extends ");
        out.append(union.name.value.as_str());
        out.append(ending);
    }
    assert(out@ =~= extends_text(union_of(superclass), ending@));
    out
}

#[verifier::rlimit(30)]
fn field_decls(class: &Class) -> (out: String)
    requires
        fields_ready(class@.fields),
    ensures
        out@ == field_decls_text(class@.fields, class.fields@.len() as int),
{
    let mut out = String::new();
    let mut i: usize = 0;
    while i < class.fields.len()
        invariant
            i <= class.fields.len(),
            fields_ready(class@.fields),
            out@ == field_decls_text(class@.fields, i as int),
        decreases class.fields.len() - i,
    {
        let field = &class.fields[i];
        assert(class@.fields[i as int] == class.fields@[i as int]@);
        assert(field_ready(class@.fields[i as int]));
        let ghost before = out@;
        let docs = optional_doc(&field.docs);
        let ty = field_type(field).to_text();
        out.append(docs.as_str());
        out.append("final ");
        out.append(ty.as_str());
        out.append(" ");
        out.append(field.name.value.as_str());
        out.append(";\n");
        assert(out@ =~= before + field_decl_text(field@));
        i = i + 1;
    }
    out
}

#[verifier::rlimit(30)]
fn constructor(class: &Class, has_superclass: bool) -> (out: String)
    requires
        fields_ready(class@.fields),
    ensures
        out@ == constructor_text(class@, has_superclass),
{
    let mut out = String::new();
    if class.fields.len() == 0 {
        out.append("const ");
        out.append(class.name.value.as_str());
        out.append("()\n");
    } else {
        let mut params = String::new();
        let mut i: usize = 0;
        while i < class.fields.len()
            invariant
                i <= class.fields.len(),
                fields_ready(class@.fields),
                params@ == ctor_params_text(class@.fields, i as int),
            decreases class.fields.len() - i,
        {
            let field = &class.fields[i];
            assert(class@.fields[i as int] == class.fields@[i as int]@);
            assert(field_ready(class@.fields[i as int]));
            let ghost before = params@;
            let required = required_keyword(field);
            let default = default_suffix(field, "= ");
            params.append(required.as_str());
            params.append(" this.");
            params.append(field.name.value.as_str());
            params.append(default.as_str());
            params.append(",\n");
            assert(params@ =~= before + ctor_param_text(field@));
            i = i + 1;
        }
        out.append("const ");
        out.append(class.name.value.as_str());
        out.append("({\n");
        out.append(params.as_str());
        out.append("})\n");
    }
    if has_superclass {
        out.append(" : super();\n");
    } else {
        out.append(";\n");
    }
    assert(out@ =~= constructor_text(class@, has_superclass));
    out
}

#[verifier::rlimit(30)]
fn factory_params(class: &Class) -> (out: String)
    requires
        fields_ready(class@.fields),
    ensures
        out@ == factory_params_text(class@.fields, class.fields@.len() as int),
{
    let mut out = String::new();
    let mut i: usize = 0;
    while i < class.fields.len()
        invariant
            i <= class.fields.len(),
            fields_ready(class@.fields),
            out@ == factory_params_text(class@.fields, i as int),
        decreases class.fields.len() - i,
    {
        let field = &class.fields[i];
        assert(class@.fields[i as int] == class.fields@[i as int]@);
        assert(field_ready(class@.fields[i as int]));
        let ghost before = out@;
        let required = required_keyword(field);
        let default = default_suffix(field, " = ");
        let ty = field_type(field).to_text();
        out.append(required.as_str());
        out.append(" ");
        out.append(ty.as_str());
        out.append(" ");
        out.append(field.name.value.as_str());
        out.append(default.as_str());
        out.append(",\n");
        assert(out@ =~= before + factory_param_text(field@));
        i = i + 1;
    }
    out
}

fn to_string_parts(class: &Class) -> (out: String)
    ensures
        out@ == to_string_parts_text(class@.fields, class.fields@.len() as int),
{
    let mut out = String::new();
    let mut i: usize = 0;
    while i < class.fields.len()
        invariant
            i <= class.fields.len(),
            out@ == to_string_parts_text(class@.fields, i as int),
        decreases class.fields.len() - i,
    {
        let field = &class.fields[i];
        let ghost before = out@;
        out.append("\"");
        out.append(field.name.value.as_str());
        out.append(": $");
        out.append(field.name.value.as_str());
        if i != class.fields.len() - 1 {
            out.append(", ");
        }
        out.append("\"\n");
        assert(out@ =~= before + to_string_part_text(class@.fields, i as int));
        i = i + 1;
    }
    out
}

impl Context {
    /// The expression that turns `expr`, of type `ty`, into a value of
    /// the builder's type for `ty`.
    pub fn write_to_builder_expr(&self, expr: &str, ty: &Ty) -> (out: String)
        ensures
            out@ == to_builder_expr_text(self.library@, expr@, ty@),
        decreases ty,
    {
        let mut out = String::new();
        match &ty.kind {
            TyKind::Simple(name) => {
                out.append(expr);
                if self.library.type_has_builder(name.as_str()) {
                    out.append(".toBuilder()");
                }
            },
            TyKind::List(inner) => {
                let inner_text = self.write_to_builder_expr("elem", inner);
                out.append(expr);
                out.append(".map((elem) => ");
                out.append(inner_text.as_str());
                out.append(").toList()");
            },
            TyKind::SetOf(inner) => {
                let inner_text = self.write_to_builder_expr("elem", inner);
                out.append(expr);
                out.append(".map((elem) => ");
                out.append(inner_text.as_str());
                out.append(").toSet()");
            },
            TyKind::MapOf { key, value } => {
                let value_text = self.write_to_builder_expr("value", value);
                out.append(expr);
                out.append(".map((key, value) => MapEntry(key, ");
                out.append(value_text.as_str());
                out.append("))");
            },
            TyKind::Nullable(inner) => {
                let inner_ty = inner.to_text();
                let mut cast = String::from_str("(");
                cast.append(expr);
                cast.append(" as ");
                cast.append(inner_ty.as_str());
                cast.append(")");
                let inner_text = self.write_to_builder_expr(cast.as_str(), inner);
                out.append(expr);
                out.append(" == null ? null : ");
                out.append(inner_text.as_str());
            },
        }
        assert(out@ =~= to_builder_expr_text(self.library@, expr@, ty@));
        out
    }

    #[verifier::rlimit(30)]
    fn to_builder_args(&self, class: &Class) -> (out: String)
        requires
            fields_ready(class@.fields),
        ensures
            out@ == to_builder_args_text(
                self.library@,
                class@.fields,
                class.fields@.len() as int,
            ),
    {
        let mut out = String::new();
        let mut i: usize = 0;
        while i < class.fields.len()
            invariant
                i <= class.fields.len(),
                fields_ready(class@.fields),
                out@ == to_builder_args_text(self.library@, class@.fields, i as int),
            decreases class.fields.len() - i,
        {
            let field = &class.fields[i];
            assert(class@.fields[i as int] == class.fields@[i as int]@);
            assert(field_ready(class@.fields[i as int]));
            let ghost before = out@;
            let ty = field_type(field);
            let expr = self.write_to_builder_expr(field.name.value.as_str(), &ty);
            out.append(field.name.value.as_str());
            out.append(": ");
            out.append(expr.as_str());
            out.append(",\n");
            assert(out@ =~= before + to_builder_arg_text(self.library@, field@));
            i = i + 1;
        }
        out
    }

    /// The static `builder` factory: the constructor's parameters, handed
    /// to the builder.
    pub fn generate_builder_factory(&self, class: &Class) -> (out: String)
        requires
            fields_ready(class@.fields),
        ensures
            out@ == builder_factory_text(self.library@, class@),
    {
        let mut out = String::new();
        if class.fields.len() == 0 {
            out.append("static ");
            out.append(class.name.value.as_str());
            out.append("Builder builder() => ");
            out.append(class.name.value.as_str());
            out.append("Builder();\n");
        } else {
            let params = factory_params(class);
            let args = self.to_builder_args(class);
            out.append("static ");
            out.append(class.name.value.as_str());
            out.append("Builder builder({\n");
            out.append(params.as_str());
            out.append("}) => ");
            out.append(class.name.value.as_str());
            out.append("Builder(\n");
            out.append(args.as_str());
            out.append(");\n");
        }
        assert(out@ =~= builder_factory_text(self.library@, class@));
        out
    }

    fn to_builder_method(&self, class: &Class) -> (out: String)
        requires
            fields_ready(class@.fields),
        ensures
            out@ == to_builder_method_text(self.library@, class@),
    {
        let args = self.to_builder_args(class);
        let mut out = String::new();
        out.append(class.name.value.as_str());
        out.append("Builder toBuilder() => ");
        out.append(class.name.value.as_str());
        out.append("Builder(\n");
        out.append(args.as_str());
        out.append(");\n");
        assert(out@ =~= to_builder_method_text(self.library@, class@));
        out
    }

    /// The string conversion of a class: its name and its fields.
    pub fn generate_to_string_class(&self, class: &Class) -> (out: String)
        ensures
            out@ == to_string_class_text(class@),
    {
        let parts = to_string_parts(class);
        let mut out = String::new();
        out.append("@override\nString toString() => \"");
        out.append(class.name.value.as_str());
        out.append("(\"\n");
        out.append(parts.as_str());
        out.append("\")\";\n");
        assert(out@ =~= to_string_class_text(class@));
        out
    }

    fn immutable_body(&self, class: &Class, superclass: Option<&Union>) -> (out: String)
        requires
            class_ready(class@),
        ensures
            out@ == immutable_body_text(self.library@, class@, union_of(superclass)),
    {
        proof {
            reveal(immutable_body_text);
        }
        let decls = field_decls(class);
        let ctor = constructor(class, superclass.is_some());
        let factory = self.generate_builder_factory(class);
        let to_builder = self.to_builder_method(class);
        let to_json = self.generate_to_json(class, superclass);
        let from_json = self.generate_from_json(class);
        let to_string = if generates_to_string(&self.library) {
            self.generate_to_string_class(class)
        } else {
            String::new()
        };
        let equals = if generates_equals(&self.library) {
            self.generate_equals_and_hash(class)
        } else {
            String::new()
        };
        let extra = extra_lines(&class.extra_dart);
        let mut out = String::new();
        out.append(decls.as_str());
        out.append("\n");
        out.append(ctor.as_str());
        out.append("\n");
        out.append(factory.as_str());
        out.append(to_builder.as_str());
        out.append("\n");
        out.append(to_json.as_str());
        out.append(from_json.as_str());
        out.append("\n");
        out.append(to_string.as_str());
        out.append(equals.as_str());
        out.append(extra.as_str());
        assert(out@ =~= immutable_body_text(self.library@, class@, union_of(superclass)));
        out
    }

    /// The declaration of a value class: its fields, its constructor, the
    /// conversions to a builder and to and from JSON and, unless switched
    /// off, the string conversion, equality and the hash code.
    #[verifier::rlimit(30)]
    pub fn codegen_immutable_class(&self, class: &Class, superclass: Option<&Union>) -> (out: String)
        requires
            class_ready(class@),
        ensures
            out@ == immutable_class_text(self.library@, class@, union_of(superclass)),
    {
        proof {
            reveal(immutable_class_text);
        }
        let docs = optional_doc(&class.docs);
        let none: Option<SpannedScalar<String>> = None;
        let shared = match &self.library.defaults {
            Some(d) => match &d.class {
                Some(c) => &c.annotations,
                None => &none,
            },
            None => &none,
        };
        let own = annotations(&class.annotations, shared);
        let extends = extends_clause(superclass, " ");
        let body = self.immutable_body(class, superclass);
        let mut out = String::new();
        out.append(docs.as_str());
        out.append(own.as_str());
        out.append("final class ");
        out.append(class.name.value.as_str());
        out.append(" ");
        out.append(extends.as_str());
        braced(&mut out, body.as_str());
        assert(out@ =~= immutable_class_text(self.library@, class@, union_of(superclass)));
        out
    }
}

} // verus!
