//! The validator: a fixed set of rules, each of which looks at the whole
//! schema and reports everything it finds. No rule stops another.

pub mod collect;
pub mod laws;
pub mod rules;

use crate::context::Context;
use crate::diagnostic::{Diagnostic, DiagnosticView, only_warnings, Severity, views};
use crate::model::view::LibraryView;
use crate::validate::collect::extend;
use crate::validate::rules::{
    both_defaults_findings, casing_findings, duplicate_field_findings, duplicate_field_names,
    duplicate_json_keys, duplicate_key_findings, duplicate_type_findings, duplicate_type_names,
    empty_enum, empty_enum_findings, empty_union, empty_union_findings, field_type_findings,
    field_with_both_defaults, incorrect_type_name_case, invalid_field_types, invalid_int_literal,
    json_discrimminant_non_union_class, radix_findings, stray_discriminant_findings,
    version_findings, version_too_low,
};
use crate::version::ToolVersion;
use vstd::prelude::*;

verus! {

/// All findings of one run that did not pass.
#[derive(Debug, Clone, PartialEq, Eq)]
pub struct MultiError {
    pub errors: Vec<Diagnostic>,
}

/// Everything the rules find in a library, rule by rule.
pub open spec fn findings(lib: LibraryView, current: Seq<char>) -> Seq<DiagnosticView> {
    casing_findings(lib) + duplicate_type_findings(lib) + duplicate_field_findings(lib)
        + empty_union_findings(lib) + both_defaults_findings(lib) + radix_findings(lib)
        + empty_enum_findings(lib) + stray_discriminant_findings(lib) + duplicate_key_findings(lib)
        + field_type_findings(lib) + version_findings(lib, current)
}

/// Whether a run with these findings passes: there are none, or all of
/// them are warnings and warnings are not denied.
pub open spec fn passes(found: Seq<DiagnosticView>, deny_warnings: bool) -> bool {
    found.len() == 0 || (!deny_warnings && only_warnings(found))
}

/// Whether a library is valid for a tool of the given version: no rule
/// finds an error in it.
pub open spec fn valid(lib: LibraryView, current: Seq<char>) -> bool {
    only_warnings(findings(lib, current))
}

/// Whether every finding is only a warning.
pub fn all_warnings(found: &Vec<Diagnostic>) -> (all: bool)
    ensures
        all == only_warnings(views(found@)),
{
    let mut i: usize = 0;
    while i < found.len()
        invariant
            i <= found.len(),
            forall|k: int| 0 <= k < i ==> (#[trigger] views(found@)[k]).severity == Severity::Warning,
        decreases found.len() - i,
    {
        if !found[i].is_warning() {
            assert(views(found@)[i as int].severity != Severity::Warning);
            return false;
        }
        i = i + 1;
    }
    true
}

/// Decides a run from what the rules found: it passes, with the warnings
/// to show, or fails with everything that was found.
pub fn decide(found: Vec<Diagnostic>, deny_warnings: bool) -> (r: Result<
    Vec<Diagnostic>,
    MultiError,
>)
    ensures
        passes(views(found@), deny_warnings) ==> r == Ok::<Vec<Diagnostic>, MultiError>(found),
        !passes(views(found@), deny_warnings) ==> r == Err::<Vec<Diagnostic>, MultiError>(
            MultiError { errors: found },
        ),
{
    if found.len() == 0 {
        return Ok(found);
    }
    if !deny_warnings && all_warnings(&found) {
        return Ok(found);
    }
    Err(MultiError { errors: found })
}

impl Context {
    /// Runs every rule and gives everything they find, rule by rule.
    pub fn collect_errors(&self, current: &ToolVersion) -> (out: Vec<Diagnostic>)
        ensures
            views(out@) == findings(self.library@, current@),
    {
        let lib = &self.library;
        let mut out = incorrect_type_name_case(lib);
        extend(&mut out, duplicate_type_names(lib));
        extend(&mut out, duplicate_field_names(lib));
        extend(&mut out, empty_union(lib));
        extend(&mut out, field_with_both_defaults(lib));
        extend(&mut out, invalid_int_literal(lib));
        extend(&mut out, empty_enum(lib));
        extend(&mut out, json_discrimminant_non_union_class(lib));
        extend(&mut out, duplicate_json_keys(lib));
        extend(&mut out, invalid_field_types(lib));
        extend(&mut out, version_too_low(lib, current));
        out
    }

    /// Validates the document for a tool of the given version. Where
    /// nothing is found, or only warnings and these are not denied, the
    /// run passes with the warnings to show. Otherwise it fails with
    /// everything that was found.
    pub fn validate(&self, deny_warnings: bool, current: &ToolVersion) -> (r: Result<
        Vec<Diagnostic>,
        MultiError,
    >)
        ensures
            passes(findings(self.library@, current@), deny_warnings) ==> r is Ok && views(r->Ok_0@)
                == findings(self.library@, current@),
            !passes(findings(self.library@, current@), deny_warnings) ==> r is Err && views(
                r->Err_0.errors@,
            ) == findings(self.library@, current@),
    {
        decide(self.collect_errors(current), deny_warnings)
    }
}

} // verus!
