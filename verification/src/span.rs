//! Source positions: byte ranges into the schema document.

use vstd::prelude::*;

verus! {

/// A half-open byte range `start..end` of the schema document.
#[derive(Debug, Clone, Copy, PartialEq, Eq, Hash, Structural)]
pub struct Span {
    pub start: usize,
    pub end: usize,
}

/// A decoded scalar together with the place in the document it was read
/// from.
#[derive(Debug, Clone, Copy, PartialEq, Eq, Hash)]
pub struct SpannedScalar<T> {
    pub value: T,
    pub span: Span,
}

impl Span {
    /// The range from `start` up to, not including, `end`.
    pub fn new(start: usize, end: usize) -> (span: Span)
        ensures
            span == (Span { start, end }),
    {
        Span { start, end }
    }
}

impl<T> SpannedScalar<T> {
    /// Pairs a value with the place it came from.
    pub fn new(value: T, span: Span) -> (scalar: SpannedScalar<T>)
        ensures
            scalar.value == value,
            scalar.span == span,
    {
        SpannedScalar { value, span }
    }
}

} // verus!
