//! Putting findings together.

use crate::diagnostic::{Diagnostic, DiagnosticView, views};
use vstd::prelude::*;

verus! {

/// The first `n` parts, one behind the other.
pub open spec fn concat_upto<T>(parts: Seq<Seq<T>>, n: int) -> Seq<T>
    decreases n,
{
    if n <= 0 {
        Seq::empty()
    } else {
        concat_upto(parts, n - 1) + parts[n - 1]
    }
}

/// All parts, one behind the other.
pub open spec fn concat<T>(parts: Seq<Seq<T>>) -> Seq<T> {
    concat_upto(parts, parts.len() as int)
}

/// Every item of one of the first `n` parts is an item of the whole.
pub proof fn lemma_concat_holds_part<T>(parts: Seq<Seq<T>>, n: int, i: int, k: int)
    requires
        0 <= i < n <= parts.len(),
        0 <= k < parts[i].len(),
    ensures
        concat_upto(parts, n).contains(parts[i][k]),
    decreases n,
{
    let whole = concat_upto(parts, n);
    let before = concat_upto(parts, n - 1);
    if i == n - 1 {
        assert(whole[before.len() + k] == parts[i][k]);
    } else {
        lemma_concat_holds_part(parts, n - 1, i, k);
        let at = choose|at: int| 0 <= at < before.len() && before[at] == parts[i][k];
        assert(whole[at] == parts[i][k]);
    }
}

/// Adds `more` behind `out`.
pub fn extend(out: &mut Vec<Diagnostic>, more: Vec<Diagnostic>)
    ensures
        views(final(out)@) == views(old(out)@) + views(more@),
{
    let ghost added = more@;
    let mut more = more;
    out.append(&mut more);
    assert(views(out@) =~= views(old(out)@) + views(added));
}

/// No finding.
pub fn nothing() -> (out: Vec<Diagnostic>)
    ensures
        views(out@) == Seq::<DiagnosticView>::empty(),
{
    let out: Vec<Diagnostic> = Vec::new();
    assert(views(out@) =~= Seq::<DiagnosticView>::empty());
    out
}

/// The one finding.
pub fn only(finding: Diagnostic) -> (out: Vec<Diagnostic>)
    ensures
        views(out@) == seq![finding@],
{
    let mut out: Vec<Diagnostic> = Vec::new();
    out.push(finding);
    assert(views(out@) =~= seq![finding@]);
    out
}

} // verus!
