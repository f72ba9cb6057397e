//! Reading back what was written: the annotation that a tree is written
//! as denotes that tree.

use crate::ident::{
    ident_continue, ident_start, Letter, letter_of, letters_of, name_continue, name_start,
};
use crate::ty::grammar::{
    after_word, close, Core, entry_at, is_space, item_at, lit_at, name, name_tail, opens, Outcome,
    parse_annotation, parse_type, production, spaces, word_at, word_list, word_map, word_set,
};
use crate::ty::{ty_text, TyKindView, TyView};
use vstd::prelude::*;

verus! {

/// Whether the classification of characters keeps spaces and punctuation
/// apart from names: no space starts or continues an identifier, and
/// none of `<`, `>`, `,` and `?` continues one.
pub open spec fn punctuation_apart() -> bool {
    &&& !ident_start(' ') && !ident_continue(' ')
    &&& !ident_start('\n') && !ident_continue('\n')
    &&& !ident_start('\t') && !ident_continue('\t')
    &&& !ident_continue('<')
    &&& !ident_continue('>')
    &&& !ident_continue(',')
    &&& !ident_continue('?')
}

/// Whether `text` is a name: a character that can start one, and then
/// characters that can continue one.
pub open spec fn is_name(text: Seq<char>) -> bool {
    &&& text.len() > 0
    &&& name_start(letter_of(text[0]))
    &&& forall|k: int| 1 <= k < text.len() ==> name_continue(letter_of(#[trigger] text[k]))
}

/// Whether the tree can be written as an annotation: its names are names,
/// and nothing is marked nullable twice.
pub open spec fn writable(ty: TyView) -> bool
    decreases ty,
{
    match ty.kind {
        TyKindView::Simple(text) => is_name(text),
        TyKindView::Nullable(inner) => !(inner.kind is Nullable) && writable(*inner),
        TyKindView::List(inner) => writable(*inner),
        TyKindView::SetOf(inner) => writable(*inner),
        TyKindView::MapOf { key, value } => writable(*key) && writable(*value),
    }
}

/// Whether two trees are the same but for where they were read from.
pub open spec fn same_shape(a: TyView, b: TyView) -> bool
    decreases a,
{
    same_kind(a.kind, b.kind)
}

/// Whether two shapes are the same but for where their parts were read
/// from.
pub open spec fn same_kind(a: TyKindView, b: TyKindView) -> bool
    decreases a,
{
    match a {
        TyKindView::Simple(text) => b == TyKindView::Simple(text),
        TyKindView::Nullable(inner) => b is Nullable && same_shape(*inner, *b->Nullable_0),
        TyKindView::List(inner) => b is List && same_shape(*inner, *b->List_0),
        TyKindView::SetOf(inner) => b is SetOf && same_shape(*inner, *b->SetOf_0),
        TyKindView::MapOf { key, value } => b is MapOf && same_shape(*key, *b->MapOf_key)
            && same_shape(*value, *b->MapOf_value),
    }
}

/// Whether every letter is classified as [`letter_of`] classifies its
/// character.
pub open spec fn truly(s: Seq<Letter>) -> bool {
    forall|k: int| 0 <= k < s.len() ==> #[trigger] s[k] == letter_of(s[k].c)
}

/// Whether `text` stands at letter `from` of `s`.
pub open spec fn written_at(s: Seq<Letter>, from: int, text: Seq<char>) -> bool {
    &&& 0 <= from
    &&& from + text.len() <= s.len()
    &&& forall|k: int| 0 <= k < text.len() ==> (#[trigger] s[from + k]).c == text[k]
}

/// Whether what was written ends at letter `end`: the annotation ends
/// there, or one of `>` and `,` stands there; or a `?`, where that may
/// follow.
pub open spec fn ends_at(s: Seq<Letter>, end: int, nullable: bool) -> bool {
    end == s.len() || (0 <= end < s.len() && (s[end].c == '>' || s[end].c == ',' || (nullable
        && s[end].c == '?')))
}

proof fn lemma_no_spaces(s: Seq<Letter>, i: int)
    requires
        0 <= i <= s.len(),
        i < s.len() ==> !is_space(s[i].c),
    ensures
        spaces(s, i) == 0,
{
}

proof fn lemma_name_runs(s: Seq<Letter>, from: int, end: int)
    requires
        0 <= from <= end <= s.len(),
        forall|k: int| from <= k < end ==> name_continue(#[trigger] s[k]),
        end < s.len() ==> !name_continue(s[end]),
    ensures
        name_tail(s, from) == end - from,
    decreases end - from,
{
    if from < end {
        lemma_name_runs(s, from + 1, end);
    }
}

/// A name that stands where one of the words for containers could stand
/// opens no container.
#[verifier::rlimit(50)]
proof fn lemma_name_opens_nothing(s: Seq<Letter>, from: int, text: Seq<char>, word: Seq<char>)
    requires
        punctuation_apart(),
        truly(s),
        is_name(text),
        written_at(s, from, text),
        ends_at(s, from + text.len(), true),
        word.len() == 3 || word.len() == 4,
        forall|k: int| 0 <= k < word.len() ==> word[k] != '>' && word[k] != ',' && word[k] != '?',
    ensures
        !opens(s, from, word),
{
    let n = text.len() as int;
    let w = word.len() as int;
    if word_at(s, from, word) {
        let at = from + w;
        if w < n {
            assert(s[from + w].c == text[w]);
            assert(name_continue(letter_of(text[w])));
            lemma_no_spaces(s, at);
        } else if w == n {
            lemma_no_spaces(s, at);
        } else {
            assert(s[from + n].c == word[n]);
        }
    }
}

/// What holds where a type that is not marked nullable was written behind
/// `lead` spaces from letter `i` on: the grammar reads it as a production
/// that ends where the writing ends.
pub open spec fn production_reads(
    s: Seq<Letter>,
    base: int,
    i: int,
    lead: int,
    ty: TyView,
) -> bool {
    match production(s, base, i) {
        Core::Done { kind, end } => end == i + lead + ty_text(ty).len() && same_kind(ty.kind, kind),
        Core::Stuck { failure } => false,
    }
}

/// What holds where a type was written behind `lead` spaces from letter
/// `i` on: the grammar reads it as a type, and reads nothing more.
pub open spec fn type_reads(s: Seq<Letter>, base: int, i: int, lead: int, ty: TyView) -> bool {
    match parse_type(s, base, i) {
        Outcome::Parsed { ty: read, len } => len == lead + ty_text(ty).len() && same_shape(ty, read),
        Outcome::Failed { failure } => false,
    }
}

/// Whether `lead` spaces stand from letter `i` on.
pub open spec fn led_by(s: Seq<Letter>, i: int, lead: int) -> bool {
    &&& 0 <= i
    &&& 0 <= lead
    &&& i + lead <= s.len()
    &&& forall|k: int| i <= k < i + lead ==> (#[trigger] s[k]).c == ' '
}

proof fn lemma_lead_is_skipped(s: Seq<Letter>, i: int, lead: int)
    requires
        led_by(s, i, lead),
        i + lead < s.len() ==> !is_space(s[i + lead].c),
    ensures
        spaces(s, i) == lead,
    decreases lead,
{
    if lead > 0 {
        lemma_lead_is_skipped(s, i + 1, lead - 1);
    }
}

/// What was written starts with a character that is no space.
proof fn lemma_starts_with_no_space(ty: TyView)
    requires
        punctuation_apart(),
        writable(ty),
    ensures
        ty_text(ty).len() > 0,
        !is_space(ty_text(ty)[0]),
    decreases ty,
{
    reveal_strlit("List<");
    reveal_strlit("Set<");
    reveal_strlit("Map<");
    match ty.kind {
        TyKindView::Simple(text) => {},
        TyKindView::Nullable(inner) => {
            lemma_starts_with_no_space(*inner);
        },
        TyKindView::List(inner) => {},
        TyKindView::SetOf(inner) => {},
        TyKindView::MapOf { key, value } => {},
    }
}

#[verifier::rlimit(50)]
proof fn lemma_simple_reads(s: Seq<Letter>, base: int, i: int, lead: int, ty: TyView)
    requires
        punctuation_apart(),
        truly(s),
        writable(ty),
        ty.kind is Simple,
        led_by(s, i, lead),
        written_at(s, i + lead, ty_text(ty)),
        ends_at(s, i + lead + ty_text(ty).len(), true),
    ensures
        production_reads(s, base, i, lead, ty),
{
    let text = ty.kind->Simple_0;
    let from = i + lead;
    let end = from + text.len();
    assert(s[from + 0].c == text[0]);
    lemma_lead_is_skipped(s, i, lead);
    lemma_name_opens_nothing(s, from, text, word_list());
    lemma_name_opens_nothing(s, from, text, word_set());
    lemma_name_opens_nothing(s, from, text, word_map());
    assert forall|k: int| from + 1 <= k < end implies name_continue(#[trigger] s[k]) by {
        assert(s[from + (k - from)].c == text[k - from]);
    }
    lemma_name_runs(s, from + 1, end);
    assert forall|k: int| 0 <= k < text.len() implies crate::ident::text_of(
        s.subrange(from, end),
    )[k] == text[k] by {
        assert(s[from + k].c == text[k]);
    }
    assert(crate::ident::text_of(s.subrange(from, end)) =~= text);
}

/// Whether the word stands at letter `from`, with `<` behind it.
pub open spec fn word_opens(s: Seq<Letter>, from: int, word: Seq<char>) -> bool {
    &&& 0 <= from
    &&& from + word.len() < s.len()
    &&& forall|k: int| 0 <= k < word.len() ==> (#[trigger] s[from + k]).c == word[k]
    &&& s[from + word.len()].c == '<'
}

proof fn lemma_word_opens(s: Seq<Letter>, from: int, word: Seq<char>)
    requires
        word_opens(s, from, word),
    ensures
        opens(s, from, word),
        after_word(s, from, word) == from + word.len(),
{
    lemma_no_spaces(s, from + word.len());
}

proof fn lemma_other_word(s: Seq<Letter>, from: int, word: Seq<char>)
    requires
        0 <= from < s.len(),
        word.len() > 0,
        s[from].c != word[0],
    ensures
        !opens(s, from, word),
{
    if word_at(s, from, word) {
        assert(s[from + 0].c == word[0]);
    }
}

/// A `>` closes the container whose contents end where it stands.
proof fn lemma_closes(s: Seq<Letter>, at: int, kind: TyKindView)
    requires
        0 <= at < s.len(),
        s[at].c == '>',
    ensures
        close(s, at, kind) == (Core::Done { kind, end: at + 1 }),
{
    lemma_no_spaces(s, at);
}

/// Behind its spaces, the production at letter `i` is the list or the set
/// whose word stands there.
#[verifier::rlimit(50)]
proof fn lemma_is_item(s: Seq<Letter>, base: int, i: int, lead: int, set: bool)
    requires
        led_by(s, i, lead),
        word_opens(
            s,
            i + lead,
            if set {
                word_set()
            } else {
                word_list()
            },
        ),
    ensures
        production(s, base, i) == item_at(
            s,
            base,
            i + lead + (if set {
                4int
            } else {
                5int
            }),
            set,
        ),
{
    let from = i + lead;
    let word = if set {
        word_set()
    } else {
        word_list()
    };
    assert(word_list().len() == 4 && word_list()[0] == 'L');
    assert(word_set().len() == 3 && word_set()[0] == 'S');
    assert(s[from + 0].c == word[0]);
    lemma_lead_is_skipped(s, i, lead);
    lemma_word_opens(s, from, word);
    if set {
        lemma_other_word(s, from, word_list());
    }
}

/// Behind its spaces, the production at letter `i` is the map whose word
/// stands there.
#[verifier::rlimit(50)]
proof fn lemma_is_entry(s: Seq<Letter>, base: int, i: int, lead: int)
    requires
        led_by(s, i, lead),
        word_opens(s, i + lead, word_map()),
    ensures
        production(s, base, i) == entry_at(s, base, i + lead + 4),
{
    let from = i + lead;
    assert(word_list().len() == 4 && word_list()[0] == 'L');
    assert(word_set().len() == 3 && word_set()[0] == 'S');
    assert(word_map().len() == 3 && word_map()[0] == 'M');
    assert(s[from + 0].c == word_map()[0]);
    lemma_lead_is_skipped(s, i, lead);
    lemma_word_opens(s, from, word_map());
    lemma_other_word(s, from, word_list());
    lemma_other_word(s, from, word_set());
}

/// What is read of a list or a set whose item was written from letter
/// `start` on, with `>` behind it.
#[verifier::rlimit(50)]
proof fn lemma_item_reads(s: Seq<Letter>, base: int, start: int, set: bool, inner: TyView)
    requires
        0 <= start,
        type_reads(s, base, start, 0, inner),
        start + ty_text(inner).len() < s.len(),
        s[start + ty_text(inner).len()].c == '>',
    ensures
        match item_at(s, base, start, set) {
            Core::Done { kind, end } => {
                &&& end == start + ty_text(inner).len() + 1
                &&& if set {
                    kind is SetOf && same_shape(inner, *kind->SetOf_0)
                } else {
                    kind is List && same_shape(inner, *kind->List_0)
                }
            },
            Core::Stuck { failure } => false,
        },
{
    match parse_type(s, base, start) {
        Outcome::Failed { failure } => {},
        Outcome::Parsed { ty: read, len } => {
            let kind = if set {
                TyKindView::SetOf(Box::new(read))
            } else {
                TyKindView::List(Box::new(read))
            };
            lemma_closes(s, start + len, kind);
        },
    }
}

/// What is read of a map whose key was written from letter `start` on,
/// with a comma, a space, the value and `>` behind it.
#[verifier::rlimit(50)]
proof fn lemma_entry_reads(s: Seq<Letter>, base: int, start: int, key: TyView, value: TyView)
    requires
        0 <= start,
        ({
            let comma = start + ty_text(key).len();
            let end = comma + 2 + ty_text(value).len();
            &&& type_reads(s, base, start, 0, key)
            &&& end < s.len()
            &&& s[comma].c == ','
            &&& type_reads(s, base, comma + 1, 1, value)
            &&& s[end].c == '>'
        }),
    ensures
        match entry_at(s, base, start) {
            Core::Done { kind, end } => {
                &&& end == start + ty_text(key).len() + 2 + ty_text(value).len() + 1
                &&& kind is MapOf
                &&& same_shape(key, *kind->MapOf_key)
                &&& same_shape(value, *kind->MapOf_value)
            },
            Core::Stuck { failure } => false,
        },
{
    match parse_type(s, base, start) {
        Outcome::Failed { failure } => {},
        Outcome::Parsed { ty: first, len: first_len } => {
            let comma = start + first_len;
            match parse_type(s, base, comma + 1) {
                Outcome::Failed { failure } => {},
                Outcome::Parsed { ty: second, len: second_len } => {
                    let kind = TyKindView::MapOf { key: Box::new(first), value: Box::new(second) };
                    lemma_closes(s, comma + 1 + second_len, kind);
                },
            }
        },
    }
}

/// Where a list or a set was written, its word stands with `<` behind
/// it, then its item, then `>`.
proof fn lemma_item_letters(s: Seq<Letter>, from: int, body: Seq<char>, set: bool)
    requires
        written_at(
            s,
            from,
            if set {
                "Set<"@ + body + ">"@
            } else {
                "List<"@ + body + ">"@
            },
        ),
    ensures
        word_opens(
            s,
            from,
            if set {
                word_set()
            } else {
                word_list()
            },
        ),
        written_at(
            s,
            from + (if set {
                4int
            } else {
                5int
            }),
            body,
        ),
        from + (if set {
            4int
        } else {
            5int
        }) + body.len() < s.len(),
        s[from + (if set {
            4int
        } else {
            5int
        }) + body.len()].c == '>',
{
    reveal_strlit("List<");
    reveal_strlit("Set<");
    reveal_strlit(">");
    let text = if set {
        "Set<"@ + body + ">"@
    } else {
        "List<"@ + body + ">"@
    };
    let n = body.len() as int;
    let w = if set {
        4int
    } else {
        5int
    };
    assert(text.len() == n + w + 1);
    assert forall|k: int| 0 <= k < w implies (#[trigger] s[from + k]).c == text[k] by {}
    assert forall|k: int| 0 <= k < n implies (#[trigger] s[from + w + k]).c == body[k] by {
        assert(s[from + (w + k)].c == text[w + k]);
    }
    assert(s[from + (w + n)].c == text[w + n]);
}

/// Where a map was written, its word stands with `<` behind it, then its
/// key, a comma, a space, its value, then `>`.
proof fn lemma_entry_letters(s: Seq<Letter>, from: int, first: Seq<char>, second: Seq<char>)
    requires
        written_at(s, from, "Map<"@ + first + ", "@ + second + ">"@),
    ensures
        word_opens(s, from, word_map()),
        written_at(s, from + 4, first),
        s[from + 4 + first.len()].c == ',',
        led_by(s, from + 4 + first.len() + 1, 1),
        written_at(s, from + 4 + first.len() + 2, second),
        from + 4 + first.len() + 2 + second.len() < s.len(),
        s[from + 4 + first.len() + 2 + second.len()].c == '>',
{
    reveal_strlit("Map<");
    reveal_strlit(", ");
    reveal_strlit(">");
    let text = "Map<"@ + first + ", "@ + second + ">"@;
    let n = first.len() as int;
    let m = second.len() as int;
    assert(text.len() == n + m + 7);
    assert forall|k: int| 0 <= k < 4 implies (#[trigger] s[from + k]).c == text[k] by {}
    assert forall|k: int| 0 <= k < n implies (#[trigger] s[from + 4 + k]).c == first[k] by {
        assert(s[from + (4 + k)].c == text[4 + k]);
    }
    assert(s[from + (4 + n)].c == text[4 + n]);
    assert(s[from + (5 + n)].c == text[5 + n]);
    assert forall|k: int| 0 <= k < m implies (#[trigger] s[from + 4 + n + 2 + k]).c
        == second[k] by {
        assert(s[from + (6 + n + k)].c == text[6 + n + k]);
    }
    assert(s[from + (6 + n + m)].c == text[6 + n + m]);
}

/// How long what a container is written as is.
proof fn lemma_text_len(ty: TyView)
    ensures
        match ty.kind {
            TyKindView::Simple(text) => ty_text(ty).len() == text.len(),
            TyKindView::Nullable(inner) => ty_text(ty).len() == ty_text(*inner).len() + 1,
            TyKindView::List(inner) => ty_text(ty).len() == ty_text(*inner).len() + 6,
            TyKindView::SetOf(inner) => ty_text(ty).len() == ty_text(*inner).len() + 5,
            TyKindView::MapOf { key, value } => ty_text(ty).len() == ty_text(*key).len() + ty_text(
                *value,
            ).len() + 7,
        },
{
    reveal_strlit("List<");
    reveal_strlit("Set<");
    reveal_strlit("Map<");
    reveal_strlit(", ");
    reveal_strlit(">");
    reveal_strlit("?");
}

/// A type that is not marked nullable and was written behind spaces is
/// read as the production that it is.
#[verifier::rlimit(50)]
pub proof fn lemma_production_reads(s: Seq<Letter>, base: int, i: int, lead: int, ty: TyView)
    requires
        punctuation_apart(),
        truly(s),
        writable(ty),
        !(ty.kind is Nullable),
        led_by(s, i, lead),
        written_at(s, i + lead, ty_text(ty)),
        ends_at(s, i + lead + ty_text(ty).len(), true),
    ensures
        production_reads(s, base, i, lead, ty),
    decreases ty, 0int,
{
    let from = i + lead;
    lemma_text_len(ty);
    match ty.kind {
        TyKindView::Simple(name) => {
            lemma_simple_reads(s, base, i, lead, ty);
        },
        TyKindView::Nullable(inner) => {},
        TyKindView::List(inner) => {
            lemma_item_letters(s, from, ty_text(*inner), false);
            lemma_type_reads(s, base, from + 5, 0, *inner);
            lemma_is_item(s, base, i, lead, false);
            lemma_item_reads(s, base, from + 5, false, *inner);
        },
        TyKindView::SetOf(inner) => {
            lemma_item_letters(s, from, ty_text(*inner), true);
            lemma_type_reads(s, base, from + 4, 0, *inner);
            lemma_is_item(s, base, i, lead, true);
            lemma_item_reads(s, base, from + 4, true, *inner);
        },
        TyKindView::MapOf { key, value } => {
            let comma = from + 4 + ty_text(*key).len();
            lemma_entry_letters(s, from, ty_text(*key), ty_text(*value));
            lemma_type_reads(s, base, from + 4, 0, *key);
            lemma_type_reads(s, base, comma + 1, 1, *value);
            lemma_is_entry(s, base, i, lead);
            lemma_entry_reads(s, base, from + 4, *key, *value);
        },
    }
}

/// A type that was written behind spaces, with nothing but the end of a
/// container or of the annotation behind it, is read as the type that it
/// is.
#[verifier::rlimit(50)]
pub proof fn lemma_type_reads(s: Seq<Letter>, base: int, i: int, lead: int, ty: TyView)
    requires
        punctuation_apart(),
        truly(s),
        writable(ty),
        led_by(s, i, lead),
        written_at(s, i + lead, ty_text(ty)),
        ends_at(s, i + lead + ty_text(ty).len(), false),
    ensures
        type_reads(s, base, i, lead, ty),
    decreases ty, 1int,
{
    reveal_strlit("?");
    let from = i + lead;
    let text = ty_text(ty);
    lemma_starts_with_no_space(ty);
    assert(s[from + 0].c == text[0]);
    lemma_lead_is_skipped(s, i, lead);
    match ty.kind {
        TyKindView::Nullable(inner) => {
            let body = ty_text(*inner);
            let n = body.len() as int;
            let end = from + n;
            assert(text.len() == n + 1);
            assert forall|k: int| 0 <= k < n implies (#[trigger] s[from + k]).c == body[k] by {
                assert(s[from + k].c == text[k]);
            }
            assert(s[from + n].c == text[n]);
            assert(s[end].c == '?');
            lemma_production_reads(s, base, i, lead, *inner);
            lemma_no_spaces(s, end + 1);
            match production(s, base, i) {
                Core::Stuck { failure } => {},
                Core::Done { kind, end: read_end } => {
                    assert(read_end == end);
                    assert(lit_at(s, end, '?'));
                    let read = parse_type(s, base, i)->ty;
                    assert(read.kind is Nullable);
                    assert(read.kind->Nullable_0.kind == kind);
                    assert(same_shape(*inner, *read.kind->Nullable_0));
                },
            }
        },
        _ => {
            let end = from + text.len();
            lemma_production_reads(s, base, i, lead, ty);
            lemma_no_spaces(s, end);
        },
    }
}

/// The annotation that a tree is written as denotes that tree.
///
/// This holds of every tree that can be written, wherever the
/// classification of characters keeps spaces and punctuation apart from
/// names.
pub proof fn lemma_written_reads_back(ty: TyView, base: int)
    requires
        punctuation_apart(),
        writable(ty),
    ensures
        match parse_annotation(letters_of(ty_text(ty)), base) {
            Ok(read) => same_shape(ty, read),
            Err(failure) => false,
        },
{
    let s = letters_of(ty_text(ty));
    lemma_type_reads(s, base, 0, 0, ty);
}

} // verus!
