//! What the generator takes for granted about a schema: every field's
//! type can be read, no field has two defaults, and every integer literal
//! that ends up in the output is decimal or hexadecimal.

use crate::context::Context;
use crate::model::value::Value;
use crate::model::view::{
    class_views, ClassView, EnumView, FieldView, LibraryView, UnionView, value_of_literal,
    ValueView,
};
use crate::model::{Class, Enum, Field};
use crate::ty::parse::{check_fits, fits, parse, parsed};
use crate::ty::{Ty, TyView};
use vstd::prelude::*;

verus! {

/// No literal, or one that can be written in Dart.
pub open spec fn literal_ready(value: Option<ValueView>) -> bool {
    value is Some ==> !value->0.literal.has_unsupported_radix()
}

/// Whether the annotation of `field` can be read.
pub open spec fn type_reads(field: FieldView) -> bool {
    &&& fits(field.ty.value, field.ty.span.start as int)
    &&& parsed(field.ty.value, field.ty.span.start as int) is Ok
}

/// Whether code can be generated for `field`.
pub open spec fn field_ready(field: FieldView) -> bool {
    &&& type_reads(field)
    &&& !(field.defaults_to is Some && field.defaults_to_dart is Some)
    &&& literal_ready(field.defaults_to)
}

/// The type of `field`.
pub open spec fn field_ty(field: FieldView) -> TyView {
    parsed(field.ty.value, field.ty.span.start as int)->Ok_0
}

/// Whether code can be generated for each of the fields.
pub open spec fn fields_ready(fields: Seq<FieldView>) -> bool {
    forall|i: int| 0 <= i < fields.len() ==> field_ready(#[trigger] fields[i])
}

/// Whether code can be generated for `class`.
pub open spec fn class_ready(class: ClassView) -> bool {
    literal_ready(class.json_discriminant_value) && fields_ready(class.fields)
}

/// Whether code can be generated for each of the classes.
pub open spec fn classes_ready(classes: Seq<ClassView>) -> bool {
    forall|i: int| 0 <= i < classes.len() ==> class_ready(#[trigger] classes[i])
}

/// Whether code can be generated for `union`.
pub open spec fn union_ready(union: UnionView) -> bool {
    classes_ready(union.classes)
}

/// Whether code can be generated for `enumeration`.
pub open spec fn enum_ready(enumeration: EnumView) -> bool {
    forall|i: int|
        0 <= i < enumeration.variants.len() ==> literal_ready(
            (#[trigger] enumeration.variants[i]).json_value,
        )
}

/// Whether code can be generated for `library`.
pub open spec fn library_ready(library: LibraryView) -> bool {
    &&& classes_ready(library.classes)
    &&& forall|i: int| 0 <= i < library.unions.len() ==> union_ready(#[trigger] library.unions[i])
    &&& forall|i: int| 0 <= i < library.enums.len() ==> enum_ready(#[trigger] library.enums[i])
}

/// No literal, or one that can be written in Dart.
pub fn is_literal_ready(value: &Option<Value>) -> (ok: bool)
    ensures
        ok == literal_ready(value_of_literal(*value)),
{
    match value {
        Some(v) => !v.literal.has_unsupported_radix(),
        None => true,
    }
}

/// Whether code can be generated for `field`.
pub fn is_field_ready(field: &Field) -> (ok: bool)
    ensures
        ok == field_ready(field@),
{
    if !check_fits(field.ty.value.as_str(), field.ty.span.start) {
        return false;
    }
    if parse(field.ty.value.as_str(), field.ty.span.start).is_err() {
        return false;
    }
    if field.defaults_to.is_some() && field.defaults_to_dart.is_some() {
        return false;
    }
    is_literal_ready(&field.defaults_to)
}

/// Whether code can be generated for `class`.
pub fn is_class_ready(class: &Class) -> (ok: bool)
    ensures
        ok == class_ready(class@),
{
    if !is_literal_ready(&class.json_discriminant_value) {
        return false;
    }
    let mut i: usize = 0;
    while i < class.fields.len()
        invariant
            i <= class.fields.len(),
            forall|j: int| 0 <= j < i ==> field_ready(#[trigger] class@.fields[j]),
        decreases class.fields.len() - i,
    {
        assert(class@.fields[i as int] == class.fields@[i as int]@);
        if !is_field_ready(&class.fields[i]) {
            return false;
        }
        i = i + 1;
    }
    true
}

fn are_classes_ready(classes: &Vec<Class>) -> (ok: bool)
    ensures
        ok == classes_ready(class_views(classes@)),
{
    let mut i: usize = 0;
    while i < classes.len()
        invariant
            i <= classes.len(),
            forall|j: int| 0 <= j < i ==> class_ready(#[trigger] class_views(classes@)[j]),
        decreases classes.len() - i,
    {
        assert(class_views(classes@)[i as int] == classes@[i as int]@);
        if !is_class_ready(&classes[i]) {
            return false;
        }
        i = i + 1;
    }
    true
}

/// Whether code can be generated for `enumeration`.
pub fn is_enum_ready(enumeration: &Enum) -> (ok: bool)
    ensures
        ok == enum_ready(enumeration@),
{
    let mut i: usize = 0;
    while i < enumeration.variants.len()
        invariant
            i <= enumeration.variants.len(),
            forall|j: int|
                0 <= j < i ==> literal_ready((#[trigger] enumeration@.variants[j]).json_value),
        decreases enumeration.variants.len() - i,
    {
        assert(enumeration@.variants[i as int] == enumeration.variants@[i as int]@);
        if !is_literal_ready(&enumeration.variants[i].json_value) {
            return false;
        }
        i = i + 1;
    }
    true
}

/// The type of `field`.
pub fn field_type(field: &Field) -> (ty: Ty)
    requires
        type_reads(field@),
    ensures
        ty@ == field_ty(field@),
{
    parse(field.ty.value.as_str(), field.ty.span.start).unwrap()
}

impl Context {
    /// Whether code can be generated for the document.
    pub fn can_generate(&self) -> (ok: bool)
        ensures
            ok == library_ready(self.library@),
    {
        if !are_classes_ready(&self.library.classes) {
            return false;
        }
        let mut u: usize = 0;
        while u < self.library.unions.len()
            invariant
                u <= self.library.unions.len(),
                forall|j: int| 0 <= j < u ==> union_ready(#[trigger] self.library@.unions[j]),
            decreases self.library.unions.len() - u,
        {
            assert(self.library@.unions[u as int] == self.library.unions@[u as int]@);
            if !are_classes_ready(&self.library.unions[u].classes) {
                return false;
            }
            u = u + 1;
        }
        let mut e: usize = 0;
        while e < self.library.enums.len()
            invariant
                e <= self.library.enums.len(),
                forall|j: int| 0 <= j < e ==> enum_ready(#[trigger] self.library@.enums[j]),
            decreases self.library.enums.len() - e,
        {
            assert(self.library@.enums[e as int] == self.library.enums@[e as int]@);
            if !is_enum_ready(&self.library.enums[e]) {
                return false;
            }
            e = e + 1;
        }
        true
    }
}

} // verus!
