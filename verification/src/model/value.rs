//! Scalar literals as they appear in the schema document.

use crate::span::Span;
use vstd::prelude::*;

verus! {

/// The base an integer literal was written in.
#[derive(Debug, Clone, Copy, PartialEq, Eq, Hash, Structural)]
pub enum Radix {
    Bin,
    Oct,
    Dec,
    Hex,
}

/// A scalar literal. Numbers keep their digits as written, without the
/// radix prefix.
#[derive(Debug, Clone, PartialEq, Eq, Hash)]
pub enum Literal {
    Null,
    Bool(bool),
    Int(Radix, String),
    Decimal(String),
    Str(String),
}

/// A literal together with the place it was written.
#[derive(Debug, Clone, PartialEq, Eq, Hash)]
pub struct Value {
    pub span: Span,
    pub literal: Literal,
}

impl Literal {
    /// An integer written in a base other than ten or sixteen.
    pub open spec fn spec_has_unsupported_radix(&self) -> bool {
        self@.has_unsupported_radix()
    }

    /// An integer written in a base other than ten or sixteen.
    #[verifier::when_used_as_spec(spec_has_unsupported_radix)]
    pub fn has_unsupported_radix(&self) -> (b: bool)
        ensures
            b == self.spec_has_unsupported_radix(),
    {
        match self {
            Literal::Int(radix, _) => match radix {
                Radix::Dec => false,
                Radix::Hex => false,
                Radix::Bin => true,
                Radix::Oct => true,
            },
            _ => false,
        }
    }
}

} // verus!
