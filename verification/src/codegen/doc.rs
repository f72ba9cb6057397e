//! Documentation comments.

use crate::text::{chars_of, push_char};
use vstd::prelude::*;
use vstd::string::StringExecFns;

verus! {

/// Whether `c` has the Unicode property White_Space.
pub uninterp spec fn white_space(c: char) -> bool;

/// Calls `char::is_whitespace`. The answer depends on the character alone
/// and is given the name [`white_space`]; nothing else is claimed about
/// it.
#[verifier::external_body]
fn is_white_space(c: char) -> (b: bool)
    ensures
        b == white_space(c),
{
    c.is_whitespace()
}

/// Number of characters from index `i` up to the next line feed.
pub open spec fn line_len(s: Seq<char>, i: int) -> nat
    decreases s.len() - i,
{
    if 0 <= i < s.len() && s[i] != '\n' {
        1 + line_len(s, i + 1)
    } else {
        0
    }
}

/// The line that starts at index `i`, without its line feed and without
/// the carriage return before that line feed.
pub open spec fn line_at(s: Seq<char>, i: int) -> Seq<char> {
    let end = i + line_len(s, i);
    if i < end < s.len() && s[end - 1] == '\r' {
        s.subrange(i, end - 1)
    } else {
        s.subrange(i, end)
    }
}

/// `lines` followed by the lines of `s` from index `i` on. A line feed at
/// the very end starts no further line.
pub open spec fn lines_onto(s: Seq<char>, i: int, lines: Seq<Seq<char>>) -> Seq<Seq<char>>
    decreases s.len() - i,
{
    if 0 <= i < s.len() {
        let end = i + line_len(s, i);
        if end < s.len() {
            lines_onto(s, end + 1, lines.push(line_at(s, i)))
        } else {
            lines.push(line_at(s, i))
        }
    } else {
        lines
    }
}

/// The lines of `s`.
pub open spec fn lines_of(s: Seq<char>) -> Seq<Seq<char>> {
    lines_onto(s, 0, Seq::empty())
}

/// Whether a line holds nothing but white space.
pub open spec fn blank(line: Seq<char>) -> bool {
    forall|k: int| 0 <= k < line.len() ==> white_space(#[trigger] line[k])
}

/// For each line, whether it is blank.
pub open spec fn blank_lines(lines: Seq<Seq<char>>) -> Seq<bool> {
    Seq::new(lines.len(), |i: int| blank(lines[i]))
}

/// Number of blank lines from line `i` on, up to the first that is not.
pub open spec fn leading_blank(blanks: Seq<bool>, i: int) -> nat
    decreases blanks.len() - i,
{
    if 0 <= i < blanks.len() && blanks[i] {
        1 + leading_blank(blanks, i + 1)
    } else {
        0
    }
}

/// Number of blank lines before line `j`, back to the last that is not,
/// and no further back than line `low`.
pub open spec fn trailing_blank(blanks: Seq<bool>, low: int, j: int) -> nat
    decreases j,
{
    if low < j <= blanks.len() && 0 < j && blanks[j - 1] {
        1 + trailing_blank(blanks, low, j - 1)
    } else {
        0
    }
}

/// The lines `low..n`, each as a line of a documentation comment.
pub open spec fn comment_lines(lines: Seq<Seq<char>>, low: int, n: int) -> Seq<char>
    decreases n,
{
    if n <= low || n <= 0 {
        Seq::empty()
    } else {
        comment_lines(lines, low, n - 1) + "/// "@ + lines[n - 1] + "\n"@
    }
}

/// The lines as a documentation comment, without the blank ones at the
/// start and at the end, each behind `/// `. `blanks` says of each line
/// whether it is blank.
pub open spec fn doc_lines_text(lines: Seq<Seq<char>>, blanks: Seq<bool>) -> Seq<char> {
    let low = leading_blank(blanks, 0) as int;
    let high = blanks.len() - trailing_blank(blanks, low, blanks.len() as int);
    comment_lines(lines, low, high)
}

/// `source` as a documentation comment: its lines, without the blank ones
/// at the start and at the end, each behind `/// `.
pub open spec fn doc_comment_text(source: Seq<char>) -> Seq<char> {
    doc_lines_text(lines_of(source), blank_lines(lines_of(source)))
}

/// The characters of each text.
pub open spec fn texts(lines: Seq<String>) -> Seq<Seq<char>> {
    Seq::new(lines.len(), |i: int| lines[i]@)
}

fn line_end(chars: &Vec<char>, i: usize) -> (end: usize)
    requires
        i <= chars.len(),
    ensures
        end == i + line_len(chars@, i as int),
        end <= chars.len(),
    decreases chars.len() - i,
{
    if i < chars.len() && chars[i] != '\n' {
        line_end(chars, i + 1)
    } else {
        i
    }
}

fn copy_line(chars: &Vec<char>, i: usize) -> (line: String)
    requires
        i <= chars.len(),
    ensures
        line@ == line_at(chars@, i as int),
{
    let end = line_end(chars, i);
    let stop = if i < end && end < chars.len() && chars[end - 1] == '\r' {
        end - 1
    } else {
        end
    };
    let mut line = String::new();
    let mut k = i;
    while k < stop
        invariant
            i <= k <= stop <= chars.len(),
            line@ == chars@.subrange(i as int, k as int),
        decreases stop - k,
    {
        push_char(&mut line, chars[k]);
        assert(chars@.subrange(i as int, k + 1) =~= chars@.subrange(i as int, k as int).push(
            chars@[k as int],
        ));
        k = k + 1;
    }
    line
}

/// The lines of `source`.
pub fn split_lines(source: &str) -> (lines: Vec<String>)
    ensures
        texts(lines@) == lines_of(source@),
{
    let chars = chars_of(source);
    let mut lines: Vec<String> = Vec::new();
    let mut i: usize = 0;
    assert(texts(lines@) =~= Seq::<Seq<char>>::empty());
    while i < chars.len()
        invariant
            i <= chars.len(),
            chars@ == source@,
            lines_onto(chars@, i as int, texts(lines@)) == lines_of(source@),
        decreases chars.len() - i,
    {
        let end = line_end(&chars, i);
        let line = copy_line(&chars, i);
        let ghost before = texts(lines@);
        lines.push(line);
        assert(texts(lines@) =~= before.push(line_at(chars@, i as int)));
        if end < chars.len() {
            i = end + 1;
        } else {
            return lines;
        }
    }
    lines
}

/// Whether a line holds nothing but white space.
pub fn is_blank(line: &str) -> (b: bool)
    ensures
        b == blank(line@),
{
    let chars = chars_of(line);
    let mut k: usize = 0;
    while k < chars.len()
        invariant
            k <= chars.len(),
            chars@ == line@,
            forall|j: int| 0 <= j < k ==> white_space(#[trigger] chars@[j]),
        decreases chars.len() - k,
    {
        if !is_white_space(chars[k]) {
            return false;
        }
        k = k + 1;
    }
    true
}

fn skip_blank(blanks: &Vec<bool>, i: usize) -> (j: usize)
    requires
        i <= blanks.len(),
    ensures
        j == i + leading_blank(blanks@, i as int),
        j <= blanks.len(),
    decreases blanks.len() - i,
{
    if i < blanks.len() && blanks[i] {
        skip_blank(blanks, i + 1)
    } else {
        i
    }
}

fn skip_blank_back(blanks: &Vec<bool>, low: usize, j: usize) -> (k: usize)
    requires
        j <= blanks.len(),
    ensures
        k == j - trailing_blank(blanks@, low as int, j as int),
        k <= j,
    decreases j,
{
    if low < j && blanks[j - 1] {
        skip_blank_back(blanks, low, j - 1)
    } else {
        j
    }
}

/// The lines as a documentation comment, without the blank ones at the
/// start and at the end, each behind `/// `. `blanks` says of each line
/// whether it is blank.
pub fn write_doc_lines(lines: &Vec<String>, blanks: &Vec<bool>) -> (out: String)
    requires
        blanks.len() == lines.len(),
    ensures
        out@ == doc_lines_text(texts(lines@), blanks@),
{
    let low = skip_blank(blanks, 0);
    let high = skip_blank_back(blanks, low, blanks.len());
    let mut out = String::new();
    let mut n: usize = low;
    if high <= low {
        assert(out@ =~= comment_lines(texts(lines@), low as int, high as int));
        return out;
    }
    assert(out@ =~= comment_lines(texts(lines@), low as int, n as int));
    while n < high
        invariant
            low <= n <= high <= lines.len(),
            out@ == comment_lines(texts(lines@), low as int, n as int),
        decreases high - n,
    {
        let ghost before = out@;
        out.append("/// ");
        out.append(lines[n].as_str());
        out.append("\n");
        n = n + 1;
        assert(out@ =~= before + "/// "@ + texts(lines@)[n - 1] + "\n"@);
    }
    out
}

/// `source` as a documentation comment: its lines, without the blank ones
/// at the start and at the end, each behind `/// `.
pub fn write_doc_comment(source: &str) -> (out: String)
    ensures
        out@ == doc_comment_text(source@),
{
    let lines = split_lines(source);
    let mut blanks: Vec<bool> = Vec::new();
    let mut i: usize = 0;
    while i < lines.len()
        invariant
            i <= lines.len(),
            blanks@.len() == i,
            forall|k: int| 0 <= k < i ==> #[trigger] blanks@[k] == blank(texts(lines@)[k]),
        decreases lines.len() - i,
    {
        let is = is_blank(lines[i].as_str());
        blanks.push(is);
        i = i + 1;
    }
    assert(blanks@ =~= blank_lines(texts(lines@)));
    write_doc_lines(&lines, &blanks)
}

} // verus!
