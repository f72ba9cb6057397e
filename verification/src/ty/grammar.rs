//! The grammar of type annotations, as a function from text to tree.
//!
//! ```text
//! type      := space* production '?'? space*
//! production:= 'List' space* '<' type ','? space* '>'
//!            | 'Set'  space* '<' type ','? space* '>'
//!            | 'Map'  space* '<' type ',' type ','? space* '>'
//!            | name
//! name      := name-start name-continue*
//! space     := ' ' | '\n' | '\t'
//! ```
//!
//! A container word that is not followed by `<` is an ordinary name. Once
//! the `<` has been seen the container production is the only one tried.

use crate::ident::{Letter, name_continue, name_start, text_of};
use crate::span::Span;
use crate::text::utf8_len;
use crate::ty::{TyKindView, TyView};
use vstd::prelude::*;

verus! {

/// What the grammar wanted at the place where it could not go on.
#[derive(Debug, Clone, Copy, PartialEq, Eq, Hash, Structural)]
pub enum Expected {
    /// The start of a type name.
    Name,
    /// The comma between the key and the value of a map.
    Comma,
    /// The closing bracket of a container, after its trailing comma.
    Close,
    /// A trailing comma or the closing bracket of a container.
    CommaOrClose,
    /// The end of the annotation.
    End,
}

/// Where reading an annotation stopped, as an index into its characters,
/// and what was wanted there.
#[derive(Debug, Clone, Copy, PartialEq, Eq, Hash, Structural)]
pub struct Failure {
    pub at: usize,
    pub expected: Expected,
}

/// Why an annotation could not be read: the bytes of the document at
/// which reading stopped, and what was wanted there.
#[derive(Debug, Clone, Copy, PartialEq, Eq, Hash, Structural)]
pub struct ParseError {
    pub span: Span,
    pub expected: Expected,
}

/// The error that reports `failure` in the annotation `s`.
pub open spec fn error_of(s: Seq<Letter>, base: int, failure: FailureAt) -> ParseError {
    ParseError { span: failure_span(s, base, failure.at), expected: failure.expected }
}

/// What a [`Failure`] says.
pub ghost struct FailureAt {
    pub at: int,
    pub expected: Expected,
}

impl View for Failure {
    type V = FailureAt;

    open spec fn view(&self) -> FailureAt {
        FailureAt { at: self.at as int, expected: self.expected }
    }
}

/// Result of reading one `type` of the grammar from some position on.
pub ghost enum Outcome {
    /// A type was read; `len` characters were consumed.
    Parsed { ty: TyView, len: nat },
    Failed { failure: FailureAt },
}

/// Result of reading one `production` of the grammar.
pub ghost enum Core {
    /// A production was read; it ends before index `end`.
    Done { kind: TyKindView, end: int },
    Stuck { failure: FailureAt },
}

/// Whether `c` is one of the characters that may stand between the parts
/// of an annotation.
pub open spec fn is_space(c: char) -> bool {
    c == ' ' || c == '\n' || c == '\t'
}

/// Number of spaces from index `i` on.
pub open spec fn spaces(s: Seq<Letter>, i: int) -> nat
    decreases s.len() - i,
{
    if 0 <= i < s.len() && is_space(s[i].c) {
        1 + spaces(s, i + 1)
    } else {
        0
    }
}

/// Number of characters from index `i` on that can continue a name.
pub open spec fn name_tail(s: Seq<Letter>, i: int) -> nat
    decreases s.len() - i,
{
    if 0 <= i < s.len() && name_continue(s[i]) {
        1 + name_tail(s, i + 1)
    } else {
        0
    }
}

/// Whether the character at index `i` is `c`.
pub open spec fn lit_at(s: Seq<Letter>, i: int, c: char) -> bool {
    0 <= i < s.len() && s[i].c == c
}

/// Whether `word` stands at index `i`.
pub open spec fn word_at(s: Seq<Letter>, i: int, word: Seq<char>) -> bool {
    &&& 0 <= i
    &&& i + word.len() <= s.len()
    &&& forall|k: int| 0 <= k < word.len() ==> (#[trigger] s[i + k]).c == word[k]
}

/// The word that names a list.
pub open spec fn word_list() -> Seq<char> {
    seq!['L', 'i', 's', 't']
}

/// The word that names a set.
pub open spec fn word_set() -> Seq<char> {
    seq!['S', 'e', 't']
}

/// The word that names a map.
pub open spec fn word_map() -> Seq<char> {
    seq!['M', 'a', 'p']
}

/// Index of the first character after `word` and the spaces behind it.
pub open spec fn after_word(s: Seq<Letter>, i: int, word: Seq<char>) -> int {
    i + word.len() + spaces(s, i + word.len())
}

/// Whether a container named `word` opens at index `i`: the word, spaces,
/// and `<`.
pub open spec fn opens(s: Seq<Letter>, i: int, word: Seq<char>) -> bool {
    word_at(s, i, word) && lit_at(s, after_word(s, i, word), '<')
}

/// The byte range of the characters `from..to` of an annotation whose
/// first byte is byte `base` of the document.
pub open spec fn span_of(s: Seq<Letter>, base: int, from: int, to: int) -> Span {
    Span {
        start: (base + utf8_len(text_of(s).take(from))) as usize,
        end: (base + utf8_len(text_of(s).take(to))) as usize,
    }
}

/// Reads the end of a container from index `i` on: an optional comma,
/// spaces, and `>`. Gives the index behind the `>`.
pub open spec fn close_at(s: Seq<Letter>, i: int) -> Result<int, FailureAt> {
    let comma = lit_at(s, i, ',');
    let j = if comma {
        i + 1
    } else {
        i
    };
    let k = j + spaces(s, j);
    if lit_at(s, k, '>') {
        Ok(k + 1)
    } else {
        Err(
            FailureAt {
                at: k,
                expected: if comma {
                    Expected::Close
                } else {
                    Expected::CommaOrClose
                },
            },
        )
    }
}

/// A container of the given kind whose contents end at index `i`.
pub open spec fn close(s: Seq<Letter>, i: int, kind: TyKindView) -> Core {
    match close_at(s, i) {
        Ok(end) => Core::Done { kind, end },
        Err(failure) => Core::Stuck { failure },
    }
}

/// Reads a name from index `i` on.
pub open spec fn name(s: Seq<Letter>, i: int) -> Core {
    if 0 <= i < s.len() && name_start(s[i]) {
        let end = i + 1 + name_tail(s, i + 1);
        Core::Done { kind: TyKindView::Simple(text_of(s.subrange(i, end))), end }
    } else {
        Core::Stuck { failure: FailureAt { at: i, expected: Expected::Name } }
    }
}

/// Finishes a `type` whose production started at index `from`: the span,
/// the optional `?`, and the spaces behind. `i` is where the type started.
pub open spec fn finish(s: Seq<Letter>, base: int, i: int, from: int, core: Core) -> Outcome {
    match core {
        Core::Stuck { failure } => Outcome::Failed { failure },
        Core::Done { kind, end } => {
            let plain = TyView { span: span_of(s, base, from, end), kind };
            if lit_at(s, end, '?') {
                Outcome::Parsed {
                    ty: TyView {
                        span: span_of(s, base, from, end + 1),
                        kind: TyKindView::Nullable(Box::new(plain)),
                    },
                    len: (end + 1 + spaces(s, end + 1) - i) as nat,
                }
            } else {
                Outcome::Parsed { ty: plain, len: (end + spaces(s, end) - i) as nat }
            }
        },
    }
}

/// Reads the rest of a list or a set whose item starts at index `start`:
/// the item and the end of the container.
pub open spec fn item_at(s: Seq<Letter>, base: int, start: int, set: bool) -> Core
    decreases s.len() - start, 2int,
{
    match parse_type(s, base, start) {
        Outcome::Failed { failure } => Core::Stuck { failure },
        Outcome::Parsed { ty, len } => close(
            s,
            start + len,
            if set {
                TyKindView::SetOf(Box::new(ty))
            } else {
                TyKindView::List(Box::new(ty))
            },
        ),
    }
}

/// Reads the rest of a map whose key starts at index `start`: the key, a
/// comma, the value and the end of the container.
pub open spec fn entry_at(s: Seq<Letter>, base: int, start: int) -> Core
    decreases s.len() - start, 2int,
{
    match parse_type(s, base, start) {
        Outcome::Failed { failure } => Core::Stuck { failure },
        Outcome::Parsed { ty: key, len: key_len } => {
            let comma = start + key_len;
            if lit_at(s, comma, ',') {
                match parse_type(s, base, comma + 1) {
                    Outcome::Failed { failure } => Core::Stuck { failure },
                    Outcome::Parsed { ty: value, len: value_len } => close(
                        s,
                        comma + 1 + value_len,
                        TyKindView::MapOf { key: Box::new(key), value: Box::new(value) },
                    ),
                }
            } else {
                Core::Stuck { failure: FailureAt { at: comma, expected: Expected::Comma } }
            }
        },
    }
}

/// Reads one `production` from index `i` on, behind any spaces there.
pub open spec fn production(s: Seq<Letter>, base: int, i: int) -> Core
    decreases s.len() - i, 0int,
{
    let from = i + spaces(s, i);
    if opens(s, from, word_list()) {
        item_at(s, base, after_word(s, from, word_list()) + 1, false)
    } else if opens(s, from, word_set()) {
        item_at(s, base, after_word(s, from, word_set()) + 1, true)
    } else if opens(s, from, word_map()) {
        entry_at(s, base, after_word(s, from, word_map()) + 1)
    } else {
        name(s, from)
    }
}

/// Reads one `type` from index `i` on. `base` is the byte of the document
/// at which the annotation starts.
pub open spec fn parse_type(s: Seq<Letter>, base: int, i: int) -> Outcome
    decreases s.len() - i, 1int,
{
    finish(s, base, i, i + spaces(s, i), production(s, base, i))
}

/// The bytes of the document at which reading stopped: the character at
/// index `at`, or the empty range behind the annotation.
pub open spec fn failure_span(s: Seq<Letter>, base: int, at: int) -> Span {
    if 0 <= at < s.len() {
        span_of(s, base, at, at + 1)
    } else {
        span_of(s, base, s.len() as int, s.len() as int)
    }
}

/// What to tell the reader of a finding about the place where reading
/// stopped.
pub open spec fn expected_text(expected: Expected) -> Seq<char> {
    match expected {
        Expected::Name => "expected a type name"@,
        Expected::Comma => "expected `,`"@,
        Expected::Close => "expected `>`"@,
        Expected::CommaOrClose => "expected `,` or `>`"@,
        Expected::End => "expected the end of the type"@,
    }
}

/// Reads a whole annotation: one `type` and nothing behind it.
pub open spec fn parse_annotation(s: Seq<Letter>, base: int) -> Result<TyView, FailureAt> {
    match parse_type(s, base, 0) {
        Outcome::Failed { failure } => Err(failure),
        Outcome::Parsed { ty, len } => if len == s.len() {
            Ok(ty)
        } else {
            Err(FailureAt { at: len as int, expected: Expected::End })
        },
    }
}

} // verus!
