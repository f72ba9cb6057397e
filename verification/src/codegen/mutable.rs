//! Builder classes.

use crate::codegen::doc::{doc_comment_text, write_doc_comment};
use crate::codegen::immutable::{extends_clause, extends_text, extra_lines, extra_text};
use crate::codegen::ready::{field_ready, field_ty, field_type, fields_ready};
use crate::codegen::util::{annotations, annotations_text};
use crate::context::Context;
use crate::model::view::{ClassView, FieldView, LibraryView, TextView, union_of, UnionView};
use crate::model::{Class, Union};
use crate::span::SpannedScalar;
use crate::text::{braced, braced_text};
use crate::ty::{Ty, TyKind, TyKindView, TyView};
use vstd::prelude::*;
use vstd::string::StringExecFns;

verus! {

/// The type of a builder's field whose value class has a field of type
/// `ty`: the same type, with every class or union of the library replaced
/// by its builder.
pub open spec fn builder_ty_text(lib: LibraryView, ty: TyView) -> Seq<char>
    decreases ty,
{
    match ty.kind {
        TyKindView::Simple(name) => if lib.has_builder(name) {
            name + "Builder"@
        } else {
            name
        },
        TyKindView::List(inner) => "List<"@ + builder_ty_text(lib, *inner) + ">"@,
        TyKindView::SetOf(inner) => "Set<"@ + builder_ty_text(lib, *inner) + ">"@,
        TyKindView::MapOf { key, value } => "Map<String, "@ + builder_ty_text(lib, *value) + ">"@,
        TyKindView::Nullable(inner) => builder_ty_text(lib, *inner) + "?"@,
    }
}

/// The expression that turns `expr`, of the builder's type for `ty`, into
/// a value of type `ty`: every builder in it is built.
pub open spec fn build_expr_text(lib: LibraryView, expr: Seq<char>, ty: TyView) -> Seq<char>
    decreases ty,
{
    match ty.kind {
        TyKindView::Simple(name) => if lib.has_builder(name) {
            expr + ".build()"@
        } else {
            expr
        },
        TyKindView::List(inner) => expr + ".map((elem) => "@ + build_expr_text(
            lib,
            "elem"@,
            *inner,
        ) + ").toList()"@,
        TyKindView::SetOf(inner) => expr + ".map((elem) => "@ + build_expr_text(
            lib,
            "elem"@,
            *inner,
        ) + ").toSet()"@,
        TyKindView::MapOf { key, value } => expr + ".map((key, value) => MapEntry(key, "@
            + build_expr_text(lib, "value"@, *value) + "))"@,
        TyKindView::Nullable(inner) => expr + " == null ? null : "@ + build_expr_text(
            lib,
            "("@ + expr + " as "@ + builder_ty_text(lib, *inner) + ")"@,
            *inner,
        ),
    }
}

/// The annotations that the defaults give to every builder of a class.
pub open spec fn class_builder_annotations(lib: LibraryView) -> Option<TextView> {
    match lib.defaults {
        Some(d) => match d.class {
            Some(c) => c.builder_annotations,
            None => None,
        },
        None => None,
    }
}

/// The declarations of the first `n` fields of a builder.
pub open spec fn builder_field_decls_text(
    lib: LibraryView,
    fields: Seq<FieldView>,
    n: int,
) -> Seq<char>
    decreases n,
{
    if n <= 0 {
        Seq::empty()
    } else {
        builder_field_decls_text(lib, fields, n - 1) + builder_ty_text(
            lib,
            field_ty(fields[n - 1]),
        ) + " "@ + fields[n - 1].name.value + ";\n"@
    }
}

/// The parameters of a builder's constructor for the first `n` fields.
pub open spec fn builder_ctor_params_text(fields: Seq<FieldView>, n: int) -> Seq<char>
    decreases n,
{
    if n <= 0 {
        Seq::empty()
    } else {
        builder_ctor_params_text(fields, n - 1) + "required this."@ + fields[n - 1].name.value
            + ",\n"@
    }
}

/// The constructor of a builder: every field is a required named
/// parameter.
pub open spec fn builder_ctor_text(class: ClassView, has_superclass: bool) -> Seq<char> {
    (if class.fields.len() == 0 {
        class.name.value + "Builder()\n"@
    } else {
        class.name.value + "Builder({\n"@ + builder_ctor_params_text(
            class.fields,
            class.fields.len() as int,
        ) + "})"@
    }) + (if has_superclass {
        " : super();\n"@
    } else {
        ";\n"@
    })
}

/// The arguments by which `build` sets the first `n` fields.
pub open spec fn build_args_text(lib: LibraryView, fields: Seq<FieldView>, n: int) -> Seq<char>
    decreases n,
{
    if n <= 0 {
        Seq::empty()
    } else {
        build_args_text(lib, fields, n - 1) + fields[n - 1].name.value + ": "@ + build_expr_text(
            lib,
            fields[n - 1].name.value,
            field_ty(fields[n - 1]),
        ) + ",\n"@
    }
}

/// The `build` method of a builder.
pub open spec fn build_method_text(lib: LibraryView, class: ClassView) -> Seq<char> {
    class.name.value + " build() => "@ + class.name.value + "(\n"@ + build_args_text(
        lib,
        class.fields,
        class.fields.len() as int,
    ) + ");\n"@
}

/// What stands between the braces of a builder class.
#[verifier::opaque]
pub open spec fn mutable_body_text(lib: LibraryView, class: ClassView, has_superclass: bool) -> Seq<char> {
    builder_field_decls_text(lib, class.fields, class.fields.len() as int) + "\n"@
        + builder_ctor_text(class, has_superclass) + "\n"@ + build_method_text(lib, class)
        + extra_text(class.builder_extra_dart)
}

/// The declaration of the builder of a class.
#[verifier::opaque]
pub open spec fn mutable_class_text(
    lib: LibraryView,
    class: ClassView,
    superclass: Option<UnionView>,
) -> Seq<char> {
    doc_comment_text("Builder class for ["@ + class.name.value + "]"@) + annotations_text(
        class.builder_annotations,
        class_builder_annotations(lib),
    ) + "final class "@ + class.name.value
        + "Builder "@ + extends_text(superclass, "Builder "@) + braced_text(
        mutable_body_text(lib, class, superclass is Some),
    )
}

fn builder_ctor(class: &Class, has_superclass: bool) -> (out: String)
    ensures
        out@ == builder_ctor_text(class@, has_superclass),
{
    let mut out = String::new();
    if class.fields.len() == 0 {
        out.append(class.name.value.as_str());
        out.append("Builder()\n");
    } else {
        let mut params = String::new();
        let mut i: usize = 0;
        while i < class.fields.len()
            invariant
                i <= class.fields.len(),
                params@ == builder_ctor_params_text(class@.fields, i as int),
            decreases class.fields.len() - i,
        {
            let ghost before = params@;
            params.append("required this.");
            params.append(class.fields[i].name.value.as_str());
            params.append(",\n");
            assert(params@ =~= before + "required this."@ + class.fields@[i as int].name.value@
                + ",\n"@);
            i = i + 1;
        }
        out.append(class.name.value.as_str());
        out.append("Builder({\n");
        out.append(params.as_str());
        out.append("})");
    }
    if has_superclass {
        out.append(" : super();\n");
    } else {
        out.append(";\n");
    }
    assert(out@ =~= builder_ctor_text(class@, has_superclass));
    out
}

impl Context {
    /// The type of a builder's field whose value class has a field of
    /// type `ty`.
    pub fn write_builder_ty(&self, ty: &Ty) -> (out: String)
        ensures
            out@ == builder_ty_text(self.library@, ty@),
        decreases ty,
    {
        let mut out = String::new();
        match &ty.kind {
            TyKind::Simple(name) => {
                out.append(name.as_str());
                if self.library.type_has_builder(name.as_str()) {
                    out.append("Builder");
                }
            },
            TyKind::List(inner) => {
                let inner_text = self.write_builder_ty(inner);
                out.append("List<");
                out.append(inner_text.as_str());
                out.append(">");
            },
            TyKind::SetOf(inner) => {
                let inner_text = self.write_builder_ty(inner);
                out.append("Set<");
                out.append(inner_text.as_str());
                out.append(">");
            },
            TyKind::MapOf { key, value } => {
                let value_text = self.write_builder_ty(value);
                out.append("Map<String, ");
                out.append(value_text.as_str());
                out.append(">");
            },
            TyKind::Nullable(inner) => {
                let inner_text = self.write_builder_ty(inner);
                out.append(inner_text.as_str());
                out.append("?");
            },
        }
        assert(out@ =~= builder_ty_text(self.library@, ty@));
        out
    }

    /// The expression that turns `expr`, of the builder's type for `ty`,
    /// into a value of type `ty`.
    pub fn write_build_expr(&self, expr: &str, ty: &Ty) -> (out: String)
        ensures
            out@ == build_expr_text(self.library@, expr@, ty@),
        decreases ty,
    {
        let mut out = String::new();
        match &ty.kind {
            TyKind::Simple(name) => {
                out.append(expr);
                if self.library.type_has_builder(name.as_str()) {
                    out.append(".build()");
                }
            },
            TyKind::List(inner) => {
                let inner_text = self.write_build_expr("elem", inner);
                out.append(expr);
                out.append(".map((elem) => ");
                out.append(inner_text.as_str());
                out.append(").toList()");
            },
            TyKind::SetOf(inner) => {
                let inner_text = self.write_build_expr("elem", inner);
                out.append(expr);
                out.append(".map((elem) => ");
                out.append(inner_text.as_str());
                out.append(").toSet()");
            },
            TyKind::MapOf { key, value } => {
                let value_text = self.write_build_expr("value", value);
                out.append(expr);
                out.append(".map((key, value) => MapEntry(key, ");
                out.append(value_text.as_str());
                out.append("))");
            },
            TyKind::Nullable(inner) => {
                let inner_ty = self.write_builder_ty(inner);
                let mut cast = String::from_str("(");
                cast.append(expr);
                cast.append(" as ");
                cast.append(inner_ty.as_str());
                cast.append(")");
                let inner_text = self.write_build_expr(cast.as_str(), inner);
                out.append(expr);
                out.append(" == null ? null : ");
                out.append(inner_text.as_str());
            },
        }
        assert(out@ =~= build_expr_text(self.library@, expr@, ty@));
        out
    }

    fn builder_field_decls(&self, class: &Class) -> (out: String)
        requires
            fields_ready(class@.fields),
        ensures
            out@ == builder_field_decls_text(
                self.library@,
                class@.fields,
                class.fields@.len() as int,
            ),
    {
        let mut out = String::new();
        let mut i: usize = 0;
        while i < class.fields.len()
            invariant
                i <= class.fields.len(),
                fields_ready(class@.fields),
                out@ == builder_field_decls_text(self.library@, class@.fields, i as int),
            decreases class.fields.len() - i,
        {
            assert(class@.fields[i as int] == class.fields@[i as int]@);
            assert(field_ready(class@.fields[i as int]));
            let ghost before = out@;
            let field = &class.fields[i];
            let ty = field_type(field);
            let builder_ty = self.write_builder_ty(&ty);
            out.append(builder_ty.as_str());
            out.append(" ");
            out.append(field.name.value.as_str());
            out.append(";\n");
            assert(out@ =~= before + builder_ty_text(self.library@, field_ty(field@)) + " "@
                + field.name.value@ + ";\n"@);
            i = i + 1;
        }
        out
    }

    fn build_method(&self, class: &Class) -> (out: String)
        requires
            fields_ready(class@.fields),
        ensures
            out@ == build_method_text(self.library@, class@),
    {
        let mut args = String::new();
        let mut i: usize = 0;
        while i < class.fields.len()
            invariant
                i <= class.fields.len(),
                fields_ready(class@.fields),
                args@ == build_args_text(self.library@, class@.fields, i as int),
            decreases class.fields.len() - i,
        {
            assert(class@.fields[i as int] == class.fields@[i as int]@);
            assert(field_ready(class@.fields[i as int]));
            let ghost before = args@;
            let field = &class.fields[i];
            let ty = field_type(field);
            let expr = self.write_build_expr(field.name.value.as_str(), &ty);
            args.append(field.name.value.as_str());
            args.append(": ");
            args.append(expr.as_str());
            args.append(",\n");
            assert(args@ =~= before + field.name.value@ + ": "@ + build_expr_text(
                self.library@,
                field.name.value@,
                field_ty(field@),
            ) + ",\n"@);
            i = i + 1;
        }
        let mut out = String::new();
        out.append(class.name.value.as_str());
        out.append(" build() => ");
        out.append(class.name.value.as_str());
        out.append("(\n");
        out.append(args.as_str());
        out.append(");\n");
        assert(out@ =~= build_method_text(self.library@, class@));
        out
    }

    /// The declaration of the builder of a class: the fields of the
    /// class, each of the builder's type for it, a constructor that asks
    /// for all of them, and `build`.
    pub fn codegen_mutable_class(&self, class: &Class, superclass: Option<&Union>) -> (out: String)
        requires
            fields_ready(class@.fields),
        ensures
            out@ == mutable_class_text(self.library@, class@, union_of(superclass)),
    {
        proof {
            reveal(mutable_class_text);
            reveal(mutable_body_text);
        }
        let mut title = String::from_str("Builder class for [");
        title.append(class.name.value.as_str());
        title.append("]");
        let docs = write_doc_comment(title.as_str());
        let none: Option<SpannedScalar<String>> = None;
        let shared = match &self.library.defaults {
            Some(d) => match &d.class {
                Some(c) => &c.builder_annotations,
                None => &none,
            },
            None => &none,
        };
        let own = annotations(&class.builder_annotations, shared);
        let extends = extends_clause(superclass, "Builder ");
        let decls = self.builder_field_decls(class);
        let ctor = builder_ctor(class, superclass.is_some());
        let build = self.build_method(class);
        let extra = extra_lines(&class.builder_extra_dart);
        let mut body = String::new();
        body.append(decls.as_str());
        body.append("\n");
        body.append(ctor.as_str());
        body.append("\n");
        body.append(build.as_str());
        body.append(extra.as_str());
        assert(body@ =~= mutable_body_text(self.library@, class@, superclass is Some));
        let mut out = String::new();
        out.append(docs.as_str());
        out.append(own.as_str());
        out.append("final class ");
        out.append(class.name.value.as_str());
        out.append("Builder ");
        out.append(extends.as_str());
        braced(&mut out, body.as_str());
        assert(out@ =~= mutable_class_text(self.library@, class@, union_of(superclass)));
        out
    }
}

} // verus!
