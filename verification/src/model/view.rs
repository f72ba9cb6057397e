//! What a schema says, apart from how it is held in memory: text as
//! sequences of characters, lists as sequences.

use crate::model::meta::Meta;
use crate::model::options::{
    ClassOptions, Defaults, EnumOptions, FieldOptions, RenameCase, UnionOptions,
};
use crate::model::value::{Literal, Radix, Value};
use crate::model::{Class, Enum, EnumVariant, Field, Library, Union};
use crate::span::{Span, SpannedScalar};
use vstd::prelude::*;

verus! {

/// A text together with the place it was read from.
pub ghost struct TextView {
    pub value: Seq<char>,
    pub span: Span,
}

/// What a [`Literal`] says.
pub ghost enum LiteralView {
    Null,
    Bool(bool),
    Int(Radix, Seq<char>),
    Decimal(Seq<char>),
    Str(Seq<char>),
}

/// What a [`Value`] says.
pub ghost struct ValueView {
    pub span: Span,
    pub literal: LiteralView,
}

/// What a [`Field`] says.
pub ghost struct FieldView {
    pub name: TextView,
    pub ty: TextView,
    pub defaults_to: Option<ValueView>,
    pub defaults_to_dart: Option<TextView>,
    pub docs: Option<TextView>,
    pub to_json: Option<TextView>,
    pub from_json: Option<TextView>,
    pub json_key: Option<TextView>,
}

/// What a [`Class`] says.
pub ghost struct ClassView {
    pub span: Span,
    pub name: TextView,
    pub allow_non_pascal_case: Option<SpannedScalar<bool>>,
    pub fields: Seq<FieldView>,
    pub docs: Option<TextView>,
    pub json_key_case: Option<SpannedScalar<RenameCase>>,
    pub json_discriminant_value: Option<ValueView>,
    pub annotations: Option<TextView>,
    pub builder_annotations: Option<TextView>,
    pub extra_dart: Option<TextView>,
    pub builder_extra_dart: Option<TextView>,
}

/// What a [`Union`] says.
pub ghost struct UnionView {
    pub span: Span,
    pub name: TextView,
    pub sealed: Option<SpannedScalar<bool>>,
    pub json_discriminant: Option<TextView>,
    pub json_discriminant_value_case: Option<SpannedScalar<RenameCase>>,
    pub docs: Option<TextView>,
    pub classes: Seq<ClassView>,
    pub extra_dart: Seq<TextView>,
}

/// What an [`EnumVariant`] says.
pub ghost struct EnumVariantView {
    pub name: TextView,
    pub docs: Option<TextView>,
    pub json_value: Option<ValueView>,
}

/// What an [`Enum`] says.
pub ghost struct EnumView {
    pub span: Span,
    pub name: TextView,
    pub docs: Option<TextView>,
    pub annotations: Option<TextView>,
    pub extra_dart: Option<TextView>,
    pub variants: Seq<EnumVariantView>,
}

/// What a [`Meta`] says.
pub ghost struct MetaView {
    pub version: Option<TextView>,
}

/// What [`ClassOptions`] say.
pub ghost struct ClassOptionsView {
    pub annotations: Option<TextView>,
    pub builder_annotations: Option<TextView>,
}

/// What [`EnumOptions`] say.
pub ghost struct EnumOptionsView {
    pub annotations: Option<TextView>,
}

/// What [`UnionOptions`] say.
pub ghost struct UnionOptionsView {
    pub sealed: Option<SpannedScalar<bool>>,
    pub json_discriminant: Option<TextView>,
    pub annotations: Option<TextView>,
    pub builder_annotations: Option<TextView>,
}

/// What [`Defaults`] say.
pub ghost struct DefaultsView {
    pub generate_to_string: Option<SpannedScalar<bool>>,
    pub generate_equals: Option<SpannedScalar<bool>>,
    pub dart_format_language_version: Option<TextView>,
    pub class: Option<ClassOptionsView>,
    pub union: Option<UnionOptionsView>,
    pub enumeration: Option<EnumOptionsView>,
    pub field: Option<FieldOptions>,
}

/// What a [`Library`] says.
pub ghost struct LibraryView {
    pub preamble: Option<Seq<char>>,
    pub postamble: Option<Seq<char>>,
    pub meta: Option<MetaView>,
    pub defaults: Option<DefaultsView>,
    pub enums: Seq<EnumView>,
    pub classes: Seq<ClassView>,
    pub unions: Seq<UnionView>,
}

/// What each of the fields says.
pub open spec fn field_views(fields: Seq<Field>) -> Seq<FieldView> {
    Seq::new(fields.len(), |i: int| fields[i]@)
}

/// What each of the classes says.
pub open spec fn class_views(classes: Seq<Class>) -> Seq<ClassView> {
    Seq::new(classes.len(), |i: int| classes[i]@)
}

/// What each of the texts says.
pub open spec fn text_views(texts: Seq<SpannedScalar<String>>) -> Seq<TextView> {
    Seq::new(texts.len(), |i: int| texts[i]@)
}

/// What an optional text says.
pub open spec fn text_of(text: Option<SpannedScalar<String>>) -> Option<TextView> {
    match text {
        Some(t) => Some(t@),
        None => None,
    }
}

/// What an optional literal says.
pub open spec fn value_of_literal(value: Option<Value>) -> Option<ValueView> {
    match value {
        Some(v) => Some(v@),
        None => None,
    }
}

/// What an optional piece of verbatim text says.
pub open spec fn verbatim_of(text: Option<String>) -> Option<Seq<char>> {
    match text {
        Some(t) => Some(t@),
        None => None,
    }
}

/// What the union that a class may be a member of says.
pub open spec fn union_of(union: Option<&Union>) -> Option<UnionView> {
    match union {
        Some(u) => Some(u@),
        None => None,
    }
}

impl View for SpannedScalar<String> {
    type V = TextView;

    open spec fn view(&self) -> TextView {
        TextView { value: self.value@, span: self.span }
    }
}

impl View for Literal {
    type V = LiteralView;

    open spec fn view(&self) -> LiteralView {
        match *self {
            Literal::Null => LiteralView::Null,
            Literal::Bool(b) => LiteralView::Bool(b),
            Literal::Int(radix, digits) => LiteralView::Int(radix, digits@),
            Literal::Decimal(digits) => LiteralView::Decimal(digits@),
            Literal::Str(text) => LiteralView::Str(text@),
        }
    }
}

impl View for Value {
    type V = ValueView;

    open spec fn view(&self) -> ValueView {
        ValueView { span: self.span, literal: self.literal@ }
    }
}

impl View for Field {
    type V = FieldView;

    open spec fn view(&self) -> FieldView {
        FieldView {
            name: self.name@,
            ty: self.ty@,
            defaults_to: value_of_literal(self.defaults_to),
            defaults_to_dart: text_of(self.defaults_to_dart),
            docs: text_of(self.docs),
            to_json: text_of(self.to_json),
            from_json: text_of(self.from_json),
            json_key: text_of(self.json_key),
        }
    }
}

impl View for Class {
    type V = ClassView;

    open spec fn view(&self) -> ClassView {
        ClassView {
            span: self.span,
            name: self.name@,
            allow_non_pascal_case: self.allow_non_pascal_case,
            fields: field_views(self.fields@),
            docs: text_of(self.docs),
            json_key_case: self.json_key_case,
            json_discriminant_value: value_of_literal(self.json_discriminant_value),
            annotations: text_of(self.annotations),
            builder_annotations: text_of(self.builder_annotations),
            extra_dart: text_of(self.extra_dart),
            builder_extra_dart: text_of(self.builder_extra_dart),
        }
    }
}

impl View for Union {
    type V = UnionView;

    open spec fn view(&self) -> UnionView {
        UnionView {
            span: self.span,
            name: self.name@,
            sealed: self.sealed,
            json_discriminant: text_of(self.json_discriminant),
            json_discriminant_value_case: self.json_discriminant_value_case,
            docs: text_of(self.docs),
            classes: class_views(self.classes@),
            extra_dart: text_views(self.extra_dart@),
        }
    }
}

impl View for EnumVariant {
    type V = EnumVariantView;

    open spec fn view(&self) -> EnumVariantView {
        EnumVariantView {
            name: self.name@,
            docs: text_of(self.docs),
            json_value: value_of_literal(self.json_value),
        }
    }
}

impl View for Enum {
    type V = EnumView;

    open spec fn view(&self) -> EnumView {
        EnumView {
            span: self.span,
            name: self.name@,
            docs: text_of(self.docs),
            annotations: text_of(self.annotations),
            extra_dart: text_of(self.extra_dart),
            variants: Seq::new(self.variants@.len(), |i: int| self.variants@[i]@),
        }
    }
}

impl View for Meta {
    type V = MetaView;

    open spec fn view(&self) -> MetaView {
        MetaView { version: text_of(self.version) }
    }
}

impl View for ClassOptions {
    type V = ClassOptionsView;

    open spec fn view(&self) -> ClassOptionsView {
        ClassOptionsView {
            annotations: text_of(self.annotations),
            builder_annotations: text_of(self.builder_annotations),
        }
    }
}

impl View for EnumOptions {
    type V = EnumOptionsView;

    open spec fn view(&self) -> EnumOptionsView {
        EnumOptionsView { annotations: text_of(self.annotations) }
    }
}

impl View for UnionOptions {
    type V = UnionOptionsView;

    open spec fn view(&self) -> UnionOptionsView {
        UnionOptionsView {
            sealed: self.sealed,
            json_discriminant: text_of(self.json_discriminant),
            annotations: text_of(self.annotations),
            builder_annotations: text_of(self.builder_annotations),
        }
    }
}

impl View for Defaults {
    type V = DefaultsView;

    open spec fn view(&self) -> DefaultsView {
        DefaultsView {
            generate_to_string: self.generate_to_string,
            generate_equals: self.generate_equals,
            dart_format_language_version: text_of(self.dart_format_language_version),
            class: match self.class {
                Some(c) => Some(c@),
                None => None,
            },
            union: match self.union {
                Some(u) => Some(u@),
                None => None,
            },
            enumeration: match self.enumeration {
                Some(e) => Some(e@),
                None => None,
            },
            field: self.field,
        }
    }
}

impl View for Library {
    type V = LibraryView;

    open spec fn view(&self) -> LibraryView {
        LibraryView {
            preamble: verbatim_of(self.preamble),
            postamble: verbatim_of(self.postamble),
            meta: match self.meta {
                Some(m) => Some(m@),
                None => None,
            },
            defaults: match self.defaults {
                Some(d) => Some(d@),
                None => None,
            },
            enums: Seq::new(self.enums@.len(), |i: int| self.enums@[i]@),
            classes: class_views(self.classes@),
            unions: Seq::new(self.unions@.len(), |i: int| self.unions@[i]@),
        }
    }
}

impl LiteralView {
    /// An integer written in a base other than ten or sixteen.
    pub open spec fn has_unsupported_radix(self) -> bool {
        match self {
            LiteralView::Int(radix, _) => radix != Radix::Dec && radix != Radix::Hex,
            _ => false,
        }
    }
}

/// Whether `refs` holds references to items that say exactly what
/// `items` says, in order.
pub open spec fn refers_to<T: View>(refs: Seq<&T>, items: Seq<T::V>) -> bool {
    &&& refs.len() == items.len()
    &&& forall|i: int| 0 <= i < refs.len() ==> (#[trigger] refs[i])@ == items[i]
}

} // verus!
