//! What holds of every tree that the grammar gives: its spans are the
//! bytes that its parts were read from.

use crate::ident::{Letter, letters_of, text_of};
use crate::text::{lemma_utf8_len_prefix, utf8_len, utf8_width};
use crate::ty::grammar::{
    after_word, close, close_at, Core, entry_at, failure_span, item_at, lit_at, name, name_tail,
    opens, Outcome, parse_annotation, parse_type, production, spaces, word_list, word_map, word_set,
};
use crate::ty::parse::{fits, parsed};
use crate::ty::{TyKindView, TyView};
use vstd::prelude::*;

verus! {

/// Whether the parts of a type of this shape, read from the bytes
/// `start..end`, lie in these bytes as they were written: a name covers
/// its own bytes; what is marked nullable lies before the `?`; the item of
/// a list or a set lies behind the word and `<` and before `>`; the key of
/// a map lies behind the word and `<`, its value behind the key and a
/// comma and before `>`.
pub open spec fn kind_nests(kind: TyKindView, start: int, end: int) -> bool
    decreases kind,
{
    match kind {
        TyKindView::Simple(name) => end - start == utf8_len(name),
        TyKindView::Nullable(inner) => inner.span.start == start && inner.span.end + 1 == end
            && kind_nests(inner.kind, start, end - 1),
        TyKindView::List(inner) => nests(*inner, start + 5, end - 1),
        TyKindView::SetOf(inner) => nests(*inner, start + 4, end - 1),
        TyKindView::MapOf { key, value } => nests(*key, start + 4, end - 1) && nests(
            *value,
            key.span.end + 1,
            end - 1,
        ),
    }
}

/// Whether the type was read from within the bytes `low..high`, and its
/// parts from within its own bytes.
pub open spec fn nests(ty: TyView, low: int, high: int) -> bool
    decreases ty,
{
    low <= ty.span.start <= ty.span.end <= high && kind_nests(
        ty.kind,
        ty.span.start as int,
        ty.span.end as int,
    )
}

/// The byte of the document at which letter `k` of the annotation starts.
pub open spec fn byte_at(s: Seq<Letter>, base: int, k: int) -> int {
    base + utf8_len(text_of(s).take(k))
}

/// The bytes before letter `j` are those before letter `i` and those of
/// the letters `i..j`.
pub proof fn lemma_bytes_add_up(s: Seq<Letter>, i: int, j: int)
    requires
        0 <= i <= j <= s.len(),
    ensures
        utf8_len(text_of(s).take(j)) == utf8_len(text_of(s).take(i)) + utf8_len(
            text_of(s.subrange(i, j)),
        ),
        utf8_len(text_of(s.subrange(i, j))) >= j - i,
    decreases j - i,
{
    let text = text_of(s);
    if i == j {
        assert(text_of(s.subrange(i, j)) =~= Seq::<char>::empty());
    } else {
        lemma_bytes_add_up(s, i, j - 1);
        assert(text.take(j).drop_last() =~= text.take(j - 1));
        assert(text_of(s.subrange(i, j)).drop_last() =~= text_of(s.subrange(i, j - 1)));
        assert(text.take(j).last() == text_of(s.subrange(i, j)).last());
    }
}

/// Letters further on start at later bytes, and none starts behind the
/// end of the annotation.
pub proof fn lemma_byte_at_grows(s: Seq<Letter>, base: int, i: int, j: int)
    requires
        0 <= i <= j <= s.len(),
    ensures
        byte_at(s, base, i) + (j - i) <= byte_at(s, base, j),
        byte_at(s, base, j) <= base + utf8_len(text_of(s)),
{
    lemma_bytes_add_up(s, i, j);
    lemma_utf8_len_prefix(text_of(s), j);
}

/// A letter that is a character of one byte is followed one byte on.
pub proof fn lemma_byte_behind(s: Seq<Letter>, base: int, i: int)
    requires
        0 <= i < s.len(),
        utf8_width(s[i].c) == 1,
    ensures
        byte_at(s, base, i + 1) == byte_at(s, base, i) + 1,
{
    let text = text_of(s);
    assert(text.take(i + 1).drop_last() =~= text.take(i));
}

/// The spaces from letter `i` on end within the annotation.
pub proof fn lemma_spaces_end(s: Seq<Letter>, i: int)
    requires
        0 <= i <= s.len(),
    ensures
        i + spaces(s, i) <= s.len(),
    decreases s.len() - i,
{
    if i < s.len() {
        lemma_spaces_end(s, i + 1);
    }
}

/// The name from letter `i` on ends within the annotation.
pub proof fn lemma_name_ends(s: Seq<Letter>, i: int)
    requires
        0 <= i <= s.len(),
    ensures
        i + name_tail(s, i) <= s.len(),
    decreases s.len() - i,
{
    if i < s.len() {
        lemma_name_ends(s, i + 1);
    }
}

/// Whether the annotation, laid into the document from byte `base` on,
/// ends at a byte that can still be counted.
pub open spec fn laid_out(s: Seq<Letter>, base: int) -> bool {
    0 <= base && base + utf8_len(text_of(s)) <= usize::MAX
}

/// What holds of one `production` that was read from letter `i` on.
pub open spec fn production_holds(s: Seq<Letter>, base: int, i: int) -> bool {
    match production(s, base, i) {
        Core::Done { kind, end } => i + spaces(s, i) < end <= s.len() && kind_nests(
            kind,
            byte_at(s, base, i + spaces(s, i)),
            byte_at(s, base, end),
        ),
        Core::Stuck { failure } => i <= failure.at <= s.len(),
    }
}

/// What holds of one `type` that was read from letter `i` on.
pub open spec fn type_holds(s: Seq<Letter>, base: int, i: int) -> bool {
    match parse_type(s, base, i) {
        Outcome::Parsed { ty, len } => i < i + len <= s.len() && nests(
            ty,
            byte_at(s, base, i),
            byte_at(s, base, i + len),
        ),
        Outcome::Failed { failure } => i <= failure.at <= s.len(),
    }
}

proof fn lemma_close_holds(s: Seq<Letter>, i: int, kind: TyKindView)
    requires
        0 <= i <= s.len(),
    ensures
        match close(s, i, kind) {
            Core::Done { kind: closed, end } => closed == kind && i < end <= s.len(),
            Core::Stuck { failure } => i <= failure.at <= s.len(),
        },
{
    let j = if lit_at(s, i, ',') {
        i + 1
    } else {
        i
    };
    lemma_spaces_end(s, j);
}

/// What holds of a name that was read from letter `from` on.
proof fn lemma_name_holds(s: Seq<Letter>, base: int, from: int)
    requires
        0 <= from <= s.len(),
    ensures
        match name(s, from) {
            Core::Done { kind, end } => from < end <= s.len() && kind_nests(
                kind,
                byte_at(s, base, from),
                byte_at(s, base, end),
            ),
            Core::Stuck { failure } => from <= failure.at <= s.len(),
        },
{
    if 0 <= from < s.len() && crate::ident::name_start(s[from]) {
        lemma_name_ends(s, from + 1);
        let end = from + 1 + name_tail(s, from + 1);
        lemma_bytes_add_up(s, from, end);
    }
}

/// What holds of a map whose word stands at letter `from` and whose key
/// was read from letter `start` on.
#[verifier::rlimit(50)]
proof fn lemma_map_holds(s: Seq<Letter>, base: int, from: int, start: int)
    requires
        0 <= from,
        from + 4 <= start <= s.len(),
        laid_out(s, base),
        type_holds(s, base, start),
        parse_type(s, base, start) is Parsed ==> type_holds(
            s,
            base,
            start + parse_type(s, base, start)->len + 1,
        ) || !lit_at(s, start + parse_type(s, base, start)->len, ','),
    ensures
        match entry_at(s, base, start) {
            Core::Done { kind, end } => from < end <= s.len() && kind_nests(
                kind,
                byte_at(s, base, from),
                byte_at(s, base, end),
            ),
            Core::Stuck { failure } => from <= failure.at <= s.len(),
        },
{
    lemma_byte_at_grows(s, base, from, start);
    match parse_type(s, base, start) {
        Outcome::Failed { failure } => {},
        Outcome::Parsed { ty: key, len: key_len } => {
            let comma = start + key_len;
            if lit_at(s, comma, ',') {
                lemma_byte_at_grows(s, base, comma, comma + 1);
                match parse_type(s, base, comma + 1) {
                    Outcome::Failed { failure } => {},
                    Outcome::Parsed { ty: value, len: value_len } => {
                        let kind = TyKindView::MapOf { key: Box::new(key), value: Box::new(value) };
                        let behind = comma + 1 + value_len;
                        lemma_close_holds(s, behind, kind);
                        match close_at(s, behind) {
                            Err(failure) => {},
                            Ok(end) => {
                                lemma_closing_bracket(s, base, behind, end);
                                lemma_nests_wider(
                                    key,
                                    byte_at(s, base, start),
                                    byte_at(s, base, comma),
                                    byte_at(s, base, from) + 4,
                                    byte_at(s, base, end) - 1,
                                );
                                lemma_nests_wider(
                                    value,
                                    byte_at(s, base, comma + 1),
                                    byte_at(s, base, behind),
                                    key.span.end + 1,
                                    byte_at(s, base, end) - 1,
                                );
                            },
                        }
                    },
                }
            }
        },
    }
}

/// Where a container opens, its contents start behind the word and `<`,
/// within the annotation.
proof fn lemma_opens_within(s: Seq<Letter>, from: int, word: Seq<char>)
    requires
        0 <= from,
        opens(s, from, word),
    ensures
        from + word.len() + 1 <= after_word(s, from, word) + 1 <= s.len(),
{
}

/// What holds of a production that is a list or a set.
#[verifier::rlimit(50)]
proof fn lemma_item_branch(s: Seq<Letter>, base: int, i: int, set: bool)
    requires
        0 <= i <= s.len(),
        laid_out(s, base),
        i + spaces(s, i) <= s.len(),
        opens(s, i + spaces(s, i), word_list()) || set,
        set ==> !opens(s, i + spaces(s, i), word_list()) && opens(
            s,
            i + spaces(s, i),
            word_set(),
        ),
        type_holds(
            s,
            base,
            after_word(
                s,
                i + spaces(s, i),
                if set {
                    word_set()
                } else {
                    word_list()
                },
            ) + 1,
        ),
    ensures
        production_holds(s, base, i),
{
    let from = i + spaces(s, i);
    let word = if set {
        word_set()
    } else {
        word_list()
    };
    assert(word_list().len() == 4);
    assert(word_set().len() == 3);
    lemma_opens_within(s, from, word);
    let start = after_word(s, from, word) + 1;
    lemma_container_holds(s, base, from, start, set);
    assert(production(s, base, i) == item_at(s, base, start, set));
}

/// What holds of a production that is a map.
#[verifier::rlimit(50)]
proof fn lemma_entry_branch(s: Seq<Letter>, base: int, i: int)
    requires
        0 <= i <= s.len(),
        laid_out(s, base),
        i + spaces(s, i) <= s.len(),
        !opens(s, i + spaces(s, i), word_list()),
        !opens(s, i + spaces(s, i), word_set()),
        opens(s, i + spaces(s, i), word_map()),
        type_holds(s, base, after_word(s, i + spaces(s, i), word_map()) + 1),
        ({
            let start = after_word(s, i + spaces(s, i), word_map()) + 1;
            parse_type(s, base, start) is Parsed ==> type_holds(
                s,
                base,
                start + parse_type(s, base, start)->len + 1,
            ) || !lit_at(s, start + parse_type(s, base, start)->len, ',')
        }),
    ensures
        production_holds(s, base, i),
{
    let from = i + spaces(s, i);
    assert(word_map().len() == 3);
    lemma_opens_within(s, from, word_map());
    let start = after_word(s, from, word_map()) + 1;
    lemma_map_holds(s, base, from, start);
    assert(production(s, base, i) == entry_at(s, base, start));
}

/// What holds of a production that is a name.
#[verifier::rlimit(50)]
proof fn lemma_name_branch(s: Seq<Letter>, base: int, i: int)
    requires
        0 <= i <= s.len(),
        i + spaces(s, i) <= s.len(),
        !opens(s, i + spaces(s, i), word_list()),
        !opens(s, i + spaces(s, i), word_set()),
        !opens(s, i + spaces(s, i), word_map()),
    ensures
        production_holds(s, base, i),
{
    let from = i + spaces(s, i);
    lemma_name_holds(s, base, from);
    assert(production(s, base, i) == name(s, from));
}

/// Every `production` that the grammar reads lies within the annotation,
/// and its parts lie in it as they were written.
#[verifier::rlimit(50)]
pub proof fn lemma_production_holds(s: Seq<Letter>, base: int, i: int)
    requires
        0 <= i <= s.len(),
        laid_out(s, base),
    ensures
        production_holds(s, base, i),
    decreases s.len() - i, 0int,
{
    lemma_spaces_end(s, i);
    let from = i + spaces(s, i);
    if opens(s, from, word_list()) {
        lemma_opens_within(s, from, word_list());
        lemma_type_holds(s, base, after_word(s, from, word_list()) + 1);
        lemma_item_branch(s, base, i, false);
    } else if opens(s, from, word_set()) {
        lemma_opens_within(s, from, word_set());
        lemma_type_holds(s, base, after_word(s, from, word_set()) + 1);
        lemma_item_branch(s, base, i, true);
    } else if opens(s, from, word_map()) {
        lemma_opens_within(s, from, word_map());
        let start = after_word(s, from, word_map()) + 1;
        lemma_type_holds(s, base, start);
        if parse_type(s, base, start) is Parsed {
            let comma = start + parse_type(s, base, start)->len;
            if lit_at(s, comma, ',') {
                lemma_type_holds(s, base, comma + 1);
            }
        }
        lemma_entry_branch(s, base, i);
    } else {
        lemma_name_branch(s, base, i);
    }
}

/// A type that lies within some bytes lies within any bytes around
/// these.
pub proof fn lemma_nests_wider(ty: TyView, low: int, high: int, lower: int, higher: int)
    requires
        nests(ty, low, high),
        lower <= low,
        high <= higher,
    ensures
        nests(ty, lower, higher),
{
}

/// The `>` that closes a container takes one byte behind everything
/// before it.
proof fn lemma_closing_bracket(s: Seq<Letter>, base: int, behind: int, end: int)
    requires
        0 <= behind <= s.len(),
        close_at(s, behind) == Ok::<int, crate::ty::grammar::FailureAt>(end),
    ensures
        behind < end <= s.len(),
        byte_at(s, base, behind) + 1 <= byte_at(s, base, end),
{
    let j = if lit_at(s, behind, ',') {
        behind + 1
    } else {
        behind
    };
    lemma_spaces_end(s, j);
    lemma_byte_at_grows(s, base, behind, end);
}

/// What holds of a list or a set whose word stands at letter `from` and
/// whose item was read from letter `start` on.
#[verifier::rlimit(50)]
proof fn lemma_container_holds(s: Seq<Letter>, base: int, from: int, start: int, set: bool)
    requires
        0 <= from,
        from + (if set {
            4int
        } else {
            5int
        }) <= start <= s.len(),
        laid_out(s, base),
        type_holds(s, base, start),
    ensures
        match item_at(s, base, start, set) {
            Core::Stuck { failure } => from <= failure.at <= s.len(),
            Core::Done { kind, end } => from < end <= s.len() && kind_nests(
                kind,
                byte_at(s, base, from),
                byte_at(s, base, end),
            ),
        },
{
    lemma_byte_at_grows(s, base, from, start);
    match parse_type(s, base, start) {
        Outcome::Failed { failure } => {},
        Outcome::Parsed { ty, len } => {
            let behind = start + len;
            let kind = if set {
                TyKindView::SetOf(Box::new(ty))
            } else {
                TyKindView::List(Box::new(ty))
            };
            lemma_close_holds(s, behind, kind);
            match close_at(s, behind) {
                Err(failure) => {},
                Ok(end) => {
                    lemma_closing_bracket(s, base, behind, end);
                    lemma_nests_wider(
                        ty,
                        byte_at(s, base, start),
                        byte_at(s, base, behind),
                        byte_at(s, base, from) + (if set {
                            4int
                        } else {
                            5int
                        }),
                        byte_at(s, base, end) - 1,
                    );
                },
            }
        },
    }
}

/// Every `type` that the grammar reads lies within the annotation, and
/// its parts lie in it as they were written.
#[verifier::rlimit(50)]
pub proof fn lemma_type_holds(s: Seq<Letter>, base: int, i: int)
    requires
        0 <= i <= s.len(),
        laid_out(s, base),
    ensures
        type_holds(s, base, i),
    decreases s.len() - i, 1int,
{
    lemma_production_holds(s, base, i);
    lemma_spaces_end(s, i);
    let from = i + spaces(s, i);
    match production(s, base, i) {
        Core::Stuck { failure } => {},
        Core::Done { kind, end } => {
            lemma_byte_at_grows(s, base, i, from);
            lemma_byte_at_grows(s, base, from, end);
            if lit_at(s, end, '?') {
                lemma_spaces_end(s, end + 1);
                lemma_byte_behind(s, base, end);
                lemma_byte_at_grows(s, base, end + 1, end + 1 + spaces(s, end + 1));
                lemma_byte_at_grows(s, base, 0, end + 1);
            } else {
                lemma_spaces_end(s, end);
                lemma_byte_at_grows(s, base, end, end + spaces(s, end));
                lemma_byte_at_grows(s, base, 0, end);
            }
        },
    }
}

/// The spans of a tree are the bytes that its parts were read from: the
/// tree lies within the bytes of the annotation, and its parts lie in it
/// as they were written. Where no tree is read, the place that is
/// reported lies within the bytes of the annotation too.
pub proof fn lemma_spans_are_exact(s: Seq<Letter>, base: int)
    requires
        laid_out(s, base),
    ensures
        match parse_annotation(s, base) {
            Ok(ty) => nests(ty, base, base + utf8_len(text_of(s))),
            Err(failure) => base <= failure_span(s, base, failure.at).start <= failure_span(
                s,
                base,
                failure.at,
            ).end <= base + utf8_len(text_of(s)),
        },
{
    lemma_type_holds(s, base, 0);
    assert(text_of(s).take(0) =~= Seq::<char>::empty());
    assert(text_of(s).take(s.len() as int) =~= text_of(s));
    match parse_annotation(s, base) {
        Ok(ty) => {},
        Err(failure) => {
            let at = failure.at;
            if 0 <= at < s.len() {
                lemma_byte_at_grows(s, base, 0, at);
                lemma_byte_at_grows(s, base, at, at + 1);
            }
        },
    }
}

/// The spans of the tree that an annotation denotes are the bytes that
/// its parts were read from, and an error points into the bytes of the
/// annotation.
pub proof fn lemma_parsed_spans_are_exact(text: Seq<char>, base: usize)
    requires
        fits(text, base as int),
    ensures
        match parsed(text, base as int) {
            Ok(ty) => nests(ty, base as int, base + utf8_len(text)),
            Err(error) => base <= error.span.start <= error.span.end <= base + utf8_len(text),
        },
{
    assert(text_of(letters_of(text)) =~= text);
    lemma_spans_are_exact(letters_of(text), base as int);
}

} // verus!
