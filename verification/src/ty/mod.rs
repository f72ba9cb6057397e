//! Type annotations: the tree they denote and the text they are written as.

pub mod grammar;
pub mod laws;
pub mod parse;
pub mod written;

use crate::span::Span;
use vstd::prelude::*;
use vstd::string::StringExecFns;

verus! {

/// A parsed type annotation, with the part of the document it was read
/// from.
#[derive(Debug, PartialEq, Eq)]
pub struct Ty {
    pub span: Span,
    pub kind: TyKind,
}

/// The five shapes a type can take.
#[derive(Debug, PartialEq, Eq)]
pub enum TyKind {
    Simple(String),
    Nullable(Box<Ty>),
    List(Box<Ty>),
    SetOf(Box<Ty>),
    MapOf { key: Box<Ty>, value: Box<Ty> },
}

/// What a [`Ty`] denotes.
pub ghost struct TyView {
    pub span: Span,
    pub kind: TyKindView,
}

/// What a [`TyKind`] denotes.
pub ghost enum TyKindView {
    Simple(Seq<char>),
    Nullable(Box<TyView>),
    List(Box<TyView>),
    SetOf(Box<TyView>),
    MapOf { key: Box<TyView>, value: Box<TyView> },
}

/// The tree that `ty` denotes.
pub open spec fn ty_view(ty: Ty) -> TyView
    decreases ty,
{
    TyView { span: ty.span, kind: kind_view(ty.kind) }
}

/// The shape that `kind` denotes.
pub open spec fn kind_view(kind: TyKind) -> TyKindView
    decreases kind,
{
    match kind {
        TyKind::Simple(name) => TyKindView::Simple(name@),
        TyKind::Nullable(inner) => TyKindView::Nullable(Box::new(ty_view(*inner))),
        TyKind::List(inner) => TyKindView::List(Box::new(ty_view(*inner))),
        TyKind::SetOf(inner) => TyKindView::SetOf(Box::new(ty_view(*inner))),
        TyKind::MapOf { key, value } => TyKindView::MapOf {
            key: Box::new(ty_view(*key)),
            value: Box::new(ty_view(*value)),
        },
    }
}

impl View for Ty {
    type V = TyView;

    open spec fn view(&self) -> TyView {
        ty_view(*self)
    }
}

impl View for TyKind {
    type V = TyKindView;

    open spec fn view(&self) -> TyKindView {
        kind_view(*self)
    }
}

/// The annotation that denotes `ty`, written without optional spaces or
/// commas.
pub open spec fn ty_text(ty: TyView) -> Seq<char>
    decreases ty,
{
    match ty.kind {
        TyKindView::Simple(name) => name,
        TyKindView::Nullable(inner) => ty_text(*inner) + "?"@,
        TyKindView::List(inner) => "List<"@ + ty_text(*inner) + ">"@,
        TyKindView::SetOf(inner) => "Set<"@ + ty_text(*inner) + ">"@,
        TyKindView::MapOf { key, value } => "Map<"@ + ty_text(*key) + ", "@ + ty_text(*value) + ">"@,
    }
}

impl Ty {
    /// The annotation that denotes this type, written without optional
    /// spaces or commas.
    pub fn to_text(&self) -> (text: String)
        ensures
            text@ == ty_text(self@),
        decreases self,
    {
        let mut out = String::new();
        match &self.kind {
            TyKind::Simple(name) => {
                out.append(name.as_str());
            },
            TyKind::Nullable(inner) => {
                let inner_text = inner.to_text();
                out.append(inner_text.as_str());
                out.append("?");
            },
            TyKind::List(inner) => {
                let inner_text = inner.to_text();
                out.append("List<");
                out.append(inner_text.as_str());
                out.append(">");
            },
            TyKind::SetOf(inner) => {
                let inner_text = inner.to_text();
                out.append("Set<");
                out.append(inner_text.as_str());
                out.append(">");
            },
            TyKind::MapOf { key, value } => {
                let key_text = key.to_text();
                let value_text = value.to_text();
                out.append("Map<");
                out.append(key_text.as_str());
                out.append(", ");
                out.append(value_text.as_str());
                out.append(">");
            },
        }
        assert(out@ =~= ty_text(self@));
        out
    }
}

impl Clone for Ty {
    fn clone(&self) -> (copy: Ty)
        ensures
            copy@ == self@,
        decreases self,
    {
        let kind = match &self.kind {
            TyKind::Simple(name) => TyKind::Simple(name.clone()),
            TyKind::Nullable(inner) => TyKind::Nullable(Box::new((**inner).clone())),
            TyKind::List(inner) => TyKind::List(Box::new((**inner).clone())),
            TyKind::SetOf(inner) => TyKind::SetOf(Box::new((**inner).clone())),
            TyKind::MapOf { key, value } => TyKind::MapOf {
                key: Box::new((**key).clone()),
                value: Box::new((**value).clone()),
            },
        };
        Ty { span: self.span, kind }
    }
}

impl Clone for TyKind {
    fn clone(&self) -> (copy: TyKind)
        ensures
            copy@ == self@,
    {
        match self {
            TyKind::Simple(name) => TyKind::Simple(name.clone()),
            TyKind::Nullable(inner) => TyKind::Nullable(Box::new((**inner).clone())),
            TyKind::List(inner) => TyKind::List(Box::new((**inner).clone())),
            TyKind::SetOf(inner) => TyKind::SetOf(Box::new((**inner).clone())),
            TyKind::MapOf { key, value } => TyKind::MapOf {
                key: Box::new((**key).clone()),
                value: Box::new((**value).clone()),
            },
        }
    }
}

} // verus!
