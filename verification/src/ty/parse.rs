//! Reading type annotations.

use crate::ident::{classify, Letter, letters_of, name_continue, name_start, text_of};
use crate::span::Span;
use crate::text::{char_width, chars_of, lemma_utf8_len_prefix, push_char, utf8_len};
use crate::ty::grammar::{
    after_word, close_at, Core, error_of, Expected, Failure, finish, lit_at, name, name_tail, opens,
    Outcome, parse_annotation, parse_type, ParseError, production, spaces, word_at, word_list,
    word_map, word_set,
};
use crate::ty::{Ty, TyKind, TyView};
use vstd::prelude::*;

verus! {

/// `offsets[k]` is the byte of the document at which character `k` of the
/// annotation starts; the last entry is the byte behind the annotation.
pub open spec fn offsets_of(s: Seq<char>, base: int, offsets: Seq<usize>) -> bool {
    &&& offsets.len() == s.len() + 1
    &&& forall|k: int| 0 <= k <= s.len() ==> #[trigger] offsets[k] == base + utf8_len(s.take(k))
}

fn byte_offsets(letters: &Vec<Letter>, base: usize) -> (offsets: Vec<usize>)
    requires
        base + utf8_len(text_of(letters@)) <= usize::MAX,
    ensures
        offsets_of(text_of(letters@), base as int, offsets@),
{
    let ghost text = text_of(letters@);
    let mut offsets: Vec<usize> = Vec::new();
    let mut at: usize = base;
    let mut k: usize = 0;
    offsets.push(at);
    assert(text.take(0) =~= Seq::<char>::empty());
    while k < letters.len()
        invariant
            k <= letters.len(),
            text == text_of(letters@),
            base + utf8_len(text) <= usize::MAX,
            at == base + utf8_len(text.take(k as int)),
            offsets@.len() == k + 1,
            forall|j: int| 0 <= j <= k ==> #[trigger] offsets@[j] == base + utf8_len(text.take(j)),
        decreases letters.len() - k,
    {
        proof {
            lemma_utf8_len_prefix(text, k + 1);
            assert(text.take(k + 1).drop_last() =~= text.take(k as int));
        }
        at = at + char_width(letters[k].c);
        k = k + 1;
        offsets.push(at);
    }
    offsets
}

fn skip_spaces(letters: &Vec<Letter>, i: usize) -> (j: usize)
    requires
        i <= letters.len(),
    ensures
        j == i + spaces(letters@, i as int),
        j <= letters.len(),
    decreases letters.len() - i,
{
    if i < letters.len() && (letters[i].c == ' ' || letters[i].c == '\n' || letters[i].c == '\t') {
        skip_spaces(letters, i + 1)
    } else {
        i
    }
}

fn skip_name(letters: &Vec<Letter>, i: usize) -> (j: usize)
    requires
        i <= letters.len(),
    ensures
        j == i + name_tail(letters@, i as int),
        j <= letters.len(),
    decreases letters.len() - i,
{
    if i < letters.len() && is_name_continue(letters[i]) {
        skip_name(letters, i + 1)
    } else {
        i
    }
}

fn is_lit_at(letters: &Vec<Letter>, i: usize, c: char) -> (b: bool)
    ensures
        b == lit_at(letters@, i as int, c),
{
    i < letters.len() && letters[i].c == c
}

fn is_word_at(letters: &Vec<Letter>, i: usize, word: &Vec<char>) -> (b: bool)
    ensures
        b == word_at(letters@, i as int, word@),
{
    if word.len() > letters.len() || i > letters.len() - word.len() {
        return false;
    }
    let mut k: usize = 0;
    while k < word.len()
        invariant
            k <= word.len(),
            i + word.len() <= letters.len(),
            forall|j: int| 0 <= j < k ==> (#[trigger] letters@[i + j]).c == word@[j],
        decreases word.len() - k,
    {
        if letters[i + k].c != word[k] {
            assert(letters@[i + k].c != word@[k as int]);
            return false;
        }
        k = k + 1;
    }
    true
}

/// Where the contents of a container named `word` start, if one opens at
/// index `i`.
fn opens_at(letters: &Vec<Letter>, i: usize, word: &Vec<char>) -> (start: Option<usize>)
    requires
        i <= letters.len(),
    ensures
        start is Some <==> opens(letters@, i as int, word@),
        start is Some ==> start->0 == after_word(letters@, i as int, word@) + 1 && start->0
            <= letters.len(),
{
    if !is_word_at(letters, i, word) {
        return None;
    }
    let bracket = skip_spaces(letters, i + word.len());
    if is_lit_at(letters, bracket, '<') {
        Some(bracket + 1)
    } else {
        None
    }
}

fn close(letters: &Vec<Letter>, i: usize) -> (end: Result<usize, Failure>)
    requires
        i <= letters.len(),
    ensures
        match close_at(letters@, i as int) {
            Ok(e) => end == Ok::<usize, Failure>(e as usize) && e <= letters.len(),
            Err(failure) => end is Err && end->Err_0@ == failure,
        },
{
    let comma = is_lit_at(letters, i, ',');
    let j = if comma {
        i + 1
    } else {
        i
    };
    let k = skip_spaces(letters, j);
    if is_lit_at(letters, k, '>') {
        Ok(k + 1)
    } else {
        Err(
            Failure {
                at: k,
                expected: if comma {
                    Expected::Close
                } else {
                    Expected::CommaOrClose
                },
            },
        )
    }
}

fn copy_range(letters: &Vec<Letter>, from: usize, to: usize) -> (text: String)
    requires
        from <= to <= letters.len(),
    ensures
        text@ == text_of(letters@.subrange(from as int, to as int)),
{
    let mut text = String::new();
    let mut k = from;
    assert(text@ =~= text_of(letters@.subrange(from as int, k as int)));
    while k < to
        invariant
            from <= k <= to <= letters.len(),
            text@ == text_of(letters@.subrange(from as int, k as int)),
        decreases to - k,
    {
        push_char(&mut text, letters[k].c);
        assert(text_of(letters@.subrange(from as int, k + 1)) =~= text_of(
            letters@.subrange(from as int, k as int),
        ).push(letters@[k as int].c));
        k = k + 1;
    }
    text
}

fn is_name_start(letter: Letter) -> (b: bool)
    ensures
        b == name_start(letter),
{
    letter.ident_start || letter.c == '$'
}

fn is_name_continue(letter: Letter) -> (b: bool)
    ensures
        b == name_continue(letter),
{
    letter.ident_continue || letter.c == '$'
}

fn list_word() -> (word: Vec<char>)
    ensures
        word@ == word_list(),
{
    let word = vec!['L', 'i', 's', 't'];
    assert(word@ =~= word_list());
    word
}

fn set_word() -> (word: Vec<char>)
    ensures
        word@ == word_set(),
{
    let word = vec!['S', 'e', 't'];
    assert(word@ =~= word_set());
    word
}

fn map_word() -> (word: Vec<char>)
    ensures
        word@ == word_map(),
{
    let word = vec!['M', 'a', 'p'];
    assert(word@ =~= word_map());
    word
}

fn read_name(letters: &Vec<Letter>, i: usize) -> (core: Result<(TyKind, usize), Failure>)
    requires
        i <= letters.len(),
    ensures
        core_matches(core, name(letters@, i as int), letters@.len() as int),
{
    if i < letters.len() && is_name_start(letters[i]) {
        let end = skip_name(letters, i + 1);
        Ok((TyKind::Simple(copy_range(letters, i, end)), end))
    } else {
        Err(Failure { at: i, expected: Expected::Name })
    }
}

/// Whether what was read agrees with what the grammar gives.
pub open spec fn core_matches(got: Result<(TyKind, usize), Failure>, want: Core, len: int) -> bool {
    match want {
        Core::Done { kind, end } => got is Ok && got->Ok_0.0@ == kind && got->Ok_0.1 == end && end
            <= len,
        Core::Stuck { failure } => got is Err && got->Err_0@ == failure,
    }
}

/// Whether what was read agrees with what the grammar gives.
pub open spec fn outcome_matches(
    got: Result<(Ty, usize), Failure>,
    want: Outcome,
    i: int,
    len: int,
) -> bool {
    match want {
        Outcome::Parsed { ty, len: read } => got is Ok && got->Ok_0.0@ == ty && got->Ok_0.1 == i
            + read && i + read <= len,
        Outcome::Failed { failure } => got is Err && got->Err_0@ == failure,
    }
}

fn finish_type(
    letters: &Vec<Letter>,
    offsets: &Vec<usize>,
    Ghost(base): Ghost<int>,
    i: usize,
    from: usize,
    core: Result<(TyKind, usize), Failure>,
    Ghost(want): Ghost<Core>,
) -> (r: Result<(Ty, usize), Failure>)
    requires
        offsets_of(text_of(letters@), base, offsets@),
        i <= from <= letters.len(),
        core is Ok ==> from <= core->Ok_0.1,
        core_matches(core, want, letters@.len() as int),
    ensures
        outcome_matches(
            r,
            finish(letters@, base, i as int, from as int, want),
            i as int,
            letters@.len() as int,
        ),
{
    match core {
        Err(failure) => Err(failure),
        Ok((kind, end)) => {
            let ghost shape = kind@;
            let plain = Ty { span: Span { start: offsets[from], end: offsets[end] }, kind };
            assert(plain@ == TyView { span: plain.span, kind: shape });
            if is_lit_at(letters, end, '?') {
                let next = skip_spaces(letters, end + 1);
                Ok(
                    (
                        Ty {
                            span: Span { start: offsets[from], end: offsets[end + 1] },
                            kind: TyKind::Nullable(Box::new(plain)),
                        },
                        next,
                    ),
                )
            } else {
                let next = skip_spaces(letters, end);
                Ok((plain, next))
            }
        },
    }
}

fn close_container(letters: &Vec<Letter>, i: usize, kind: TyKind) -> (core: Result<
    (TyKind, usize),
    Failure,
>)
    requires
        i <= letters.len(),
    ensures
        core_matches(core, crate::ty::grammar::close(letters@, i as int, kind@), letters@.len() as int),
{
    match close(letters, i) {
        Ok(end) => Ok((kind, end)),
        Err(failure) => Err(failure),
    }
}

#[verifier::rlimit(30)]
fn parse_at(letters: &Vec<Letter>, offsets: &Vec<usize>, Ghost(base): Ghost<int>, i: usize) -> (r: Result<(Ty, usize), Failure>)
    requires
        offsets_of(text_of(letters@), base, offsets@),
        i <= letters.len(),
    ensures
        outcome_matches(r, parse_type(letters@, base, i as int), i as int, letters@.len() as int),
    decreases letters.len() - i,
{
    let from = skip_spaces(letters, i);
    let core: Result<(TyKind, usize), Failure>;
    let list_start = opens_at(letters, from, &list_word());
    let set_start = opens_at(letters, from, &set_word());
    let map_start = opens_at(letters, from, &map_word());
    if let Some(start) = list_start {
        match parse_at(letters, offsets, Ghost(base), start) {
            Err(failure) => {
                core = Err(failure);
            },
            Ok((inner, next)) => {
                core = close_container(letters, next, TyKind::List(Box::new(inner)));
            },
        }
    } else if let Some(start) = set_start {
        match parse_at(letters, offsets, Ghost(base), start) {
            Err(failure) => {
                core = Err(failure);
            },
            Ok((inner, next)) => {
                core = close_container(letters, next, TyKind::SetOf(Box::new(inner)));
            },
        }
    } else if let Some(start) = map_start {
        match parse_at(letters, offsets, Ghost(base), start) {
            Err(failure) => {
                core = Err(failure);
            },
            Ok((key, comma)) => {
                if is_lit_at(letters, comma, ',') {
                    match parse_at(letters, offsets, Ghost(base), comma + 1) {
                        Err(failure) => {
                            core = Err(failure);
                        },
                        Ok((value, next)) => {
                            core = close_container(
                                letters,
                                next,
                                TyKind::MapOf { key: Box::new(key), value: Box::new(value) },
                            );
                        },
                    }
                } else {
                    core = Err(Failure { at: comma, expected: Expected::Comma });
                }
            },
        }
    } else {
        core = read_name(letters, from);
    }
    finish_type(
        letters,
        offsets,
        Ghost(base),
        i,
        from,
        core,
        Ghost(production(letters@, base, i as int)),
    )
}

fn report(
    letters: &Vec<Letter>,
    offsets: &Vec<usize>,
    Ghost(base): Ghost<int>,
    failure: Failure,
) -> (error: ParseError)
    requires
        offsets_of(text_of(letters@), base, offsets@),
    ensures
        error == error_of(letters@, base, failure@),
{
    let last = letters.len();
    let span = if failure.at < last {
        Span { start: offsets[failure.at], end: offsets[failure.at + 1] }
    } else {
        Span { start: offsets[last], end: offsets[last] }
    };
    ParseError { span, expected: failure.expected }
}

/// Whether the annotation, laid into the document from byte `base` on,
/// ends at a byte that can still be counted.
pub open spec fn fits(text: Seq<char>, base: int) -> bool {
    base + utf8_len(text) <= usize::MAX
}

/// Whether the annotation, laid into the document from byte `base` on,
/// ends at a byte that can still be counted.
pub fn check_fits(text: &str, base: usize) -> (ok: bool)
    ensures
        ok == fits(text@, base as int),
{
    let chars = chars_of(text);
    let mut at: usize = base;
    let mut k: usize = 0;
    assert(chars@.take(0) =~= Seq::<char>::empty());
    while k < chars.len()
        invariant
            k <= chars.len(),
            chars@ == text@,
            at == base + utf8_len(chars@.take(k as int)),
        decreases chars.len() - k,
    {
        proof {
            lemma_utf8_len_prefix(chars@, k + 1);
            assert(chars@.take(k + 1).drop_last() =~= chars@.take(k as int));
        }
        let width = char_width(chars[k]);
        assert(utf8_len(chars@.take(k + 1)) == utf8_len(chars@.take(k as int)) + width);
        if width > usize::MAX - at {
            return false;
        }
        at = at + width;
        k = k + 1;
    }
    assert(chars@.take(k as int) =~= chars@);
    true
}

/// The tree that classified letters denote as a whole annotation, or why
/// they denote none.
pub open spec fn parsed_letters(letters: Seq<Letter>, base: int) -> Result<TyView, ParseError> {
    match parse_annotation(letters, base) {
        Ok(ty) => Ok(ty),
        Err(failure) => Err(error_of(letters, base, failure)),
    }
}

/// The tree that a whole annotation denotes, or why it denotes none.
pub open spec fn parsed(text: Seq<char>, base: int) -> Result<TyView, ParseError> {
    parsed_letters(letters_of(text), base)
}

/// Reads a whole type annotation whose characters have been classified.
/// `base` is the byte of the document at which the annotation starts; the
/// spans in the tree count from there.
pub fn parse_letters(letters: &Vec<Letter>, base: usize) -> (r: Result<Ty, ParseError>)
    requires
        fits(text_of(letters@), base as int),
    ensures
        match parsed_letters(letters@, base as int) {
            Ok(ty) => r is Ok && r->Ok_0@ == ty,
            Err(error) => r == Err::<Ty, ParseError>(error),
        },
{
    let offsets = byte_offsets(letters, base);
    match parse_at(letters, &offsets, Ghost(base as int), 0) {
        Err(failure) => Err(report(letters, &offsets, Ghost(base as int), failure)),
        Ok((ty, next)) => {
            if next == letters.len() {
                Ok(ty)
            } else {
                Err(
                    report(
                        letters,
                        &offsets,
                        Ghost(base as int),
                        Failure { at: next, expected: Expected::End },
                    ),
                )
            }
        },
    }
}

/// Reads a whole type annotation. `base` is the byte of the document at
/// which the annotation starts; the spans in the tree count from there.
pub fn parse(text: &str, base: usize) -> (r: Result<Ty, ParseError>)
    requires
        fits(text@, base as int),
    ensures
        match parsed(text@, base as int) {
            Ok(ty) => r is Ok && r->Ok_0@ == ty,
            Err(error) => r == Err::<Ty, ParseError>(error),
        },
{
    let letters = classify(text);
    assert(text_of(letters@) =~= text@);
    parse_letters(&letters, base)
}

} // verus!
