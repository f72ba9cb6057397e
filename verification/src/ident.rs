//! Which characters may appear in a type name.

use crate::text::chars_of;
use vstd::prelude::*;

verus! {

/// Whether `c` can start an identifier: a character with the Unicode
/// property XID_Start, or an underscore.
pub uninterp spec fn ident_start(c: char) -> bool;

/// Whether `c` can continue an identifier: a character with the Unicode
/// property XID_Continue.
pub uninterp spec fn ident_continue(c: char) -> bool;

/// Calls `chumsky::text::Char::is_ident_start` on a `char`. The answer
/// depends on the character alone and is given the name [`ident_start`];
/// nothing else is claimed about it.
#[verifier::external_body]
pub(crate) fn is_ident_start(c: char) -> (b: bool)
    ensures
        b == ident_start(c),
{
    chumsky::text::Char::is_ident_start(&c)
}

/// Calls `chumsky::text::Char::is_ident_continue` on a `char`. The answer
/// depends on the character alone and is given the name
/// [`ident_continue`]; nothing else is claimed about it.
#[verifier::external_body]
pub(crate) fn is_ident_continue(c: char) -> (b: bool)
    ensures
        b == ident_continue(c),
{
    chumsky::text::Char::is_ident_continue(&c)
}

/// A character of an annotation, together with what is known about it as
/// a part of an identifier.
#[derive(Debug, Clone, Copy, PartialEq, Eq, Hash, Structural)]
pub struct Letter {
    pub c: char,
    /// Whether the character can start an identifier.
    pub ident_start: bool,
    /// Whether the character can continue an identifier.
    pub ident_continue: bool,
}

/// The character `c` with what [`ident_start`] and [`ident_continue`] say
/// about it.
pub open spec fn letter_of(c: char) -> Letter {
    Letter { c, ident_start: ident_start(c), ident_continue: ident_continue(c) }
}

/// The characters of `text`, each with what is known about it.
pub open spec fn letters_of(text: Seq<char>) -> Seq<Letter> {
    Seq::new(text.len(), |i: int| letter_of(text[i]))
}

/// The characters of `letters`.
pub open spec fn text_of(letters: Seq<Letter>) -> Seq<char> {
    Seq::new(letters.len(), |i: int| letters[i].c)
}

/// Whether the letter can start a type name: the start of an identifier,
/// or `$`.
pub open spec fn name_start(letter: Letter) -> bool {
    letter.ident_start || letter.c == '$'
}

/// Whether the letter can continue a type name: the continuation of an
/// identifier, or `$`.
pub open spec fn name_continue(letter: Letter) -> bool {
    letter.ident_continue || letter.c == '$'
}

/// The character `c` with what is known about it.
pub fn classify_char(c: char) -> (letter: Letter)
    ensures
        letter == letter_of(c),
{
    let ident_start = is_ident_start(c);
    let ident_continue = is_ident_continue(c);
    Letter { c, ident_start, ident_continue }
}

/// The characters of `text`, each with what is known about it.
pub fn classify(text: &str) -> (letters: Vec<Letter>)
    ensures
        letters@ == letters_of(text@),
{
    let chars = chars_of(text);
    let mut letters: Vec<Letter> = Vec::new();
    let mut i: usize = 0;
    while i < chars.len()
        invariant
            i <= chars.len(),
            chars@ == text@,
            letters@.len() == i,
            forall|j: int| 0 <= j < i ==> #[trigger] letters@[j] == letter_of(text@[j]),
        decreases chars.len() - i,
    {
        let letter = classify_char(chars[i]);
        letters.push(letter);
        i = i + 1;
    }
    assert(letters@ =~= letters_of(text@));
    letters
}

} // verus!
