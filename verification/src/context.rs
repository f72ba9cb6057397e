//! A schema document that has been read: its text and what it declares.

use crate::diagnostic::{Diagnostic, DiagnosticView, Label, plain_label, Severity};
use crate::model::Library;
use crate::span::SpannedScalar;
use crate::ty::Ty;
use crate::ty::grammar::{Expected, expected_text, ParseError};
use crate::ty::parse::{fits, parse, parsed};
use vstd::prelude::*;
use vstd::string::StringExecFns;

verus! {

/// A schema document together with where it came from.
#[derive(Debug, Clone, PartialEq, Eq)]
pub struct Context {
    /// Where the document was read from, if it was read from a file.
    pub path: Option<String>,
    /// The text of the document.
    pub text: String,
    /// What the document declares.
    pub library: Library,
}

/// The finding that reports an annotation that could not be read.
pub open spec fn parse_diagnostic(error: ParseError) -> DiagnosticView {
    DiagnosticView {
        severity: Severity::Error,
        message: "Failed to parse Dart type"@,
        labels: seq![plain_label(error.span)],
        help: Some(expected_text(error.expected)),
    }
}

/// What to tell the reader of a finding about the place where reading
/// stopped.
pub fn describe_expected(expected: Expected) -> (text: String)
    ensures
        text@ == expected_text(expected),
{
    match expected {
        Expected::Name => String::from_str("expected a type name"),
        Expected::Comma => String::from_str("expected `,`"),
        Expected::Close => String::from_str("expected `>`"),
        Expected::CommaOrClose => String::from_str("expected `,` or `>`"),
        Expected::End => String::from_str("expected the end of the type"),
    }
}

/// The finding that reports an annotation that could not be read.
pub fn parse_error_diagnostic(error: ParseError) -> (diagnostic: Diagnostic)
    ensures
        diagnostic@ == parse_diagnostic(error),
{
    let mut labels: Vec<Label> = Vec::new();
    labels.push(Label::plain(error.span));
    let diagnostic = Diagnostic {
        severity: Severity::Error,
        message: String::from_str("Failed to parse Dart type"),
        labels,
        help: Some(describe_expected(error.expected)),
    };
    assert(diagnostic@.labels =~= seq![plain_label(error.span)]);
    diagnostic
}

impl Context {
    /// A document that was not read from a file.
    pub fn in_memory(text: String, library: Library) -> (context: Context)
        ensures
            context.path is None,
            context.text == text,
            context.library == library,
    {
        Context { path: None, text, library }
    }

    /// The name under which the document is shown in findings.
    pub open spec fn source_name_text(&self) -> Seq<char> {
        match self.path {
            Some(path) => path@,
            None => "<memory>"@,
        }
    }

    /// The name under which the document is shown in findings: its path,
    /// or `<memory>`.
    pub fn source_name(&self) -> (name: String)
        ensures
            name@ == self.source_name_text(),
    {
        match &self.path {
            Some(path) => path.clone(),
            None => String::from_str("<memory>"),
        }
    }

    /// Reads a type annotation of the document. Gives the tree and no
    /// finding, or no tree and the finding that says where reading
    /// stopped.
    pub fn parse_ty(&self, value: &SpannedScalar<String>) -> (r: (Option<Ty>, Vec<Diagnostic>))
        requires
            fits(value.value@, value.span.start as int),
        ensures
            match parsed(value.value@, value.span.start as int) {
                Ok(ty) => r.0 is Some && r.0->0@ == ty && r.1@.len() == 0,
                Err(error) => r.0 is None && r.1@.len() == 1 && r.1@[0]@ == parse_diagnostic(error),
            },
    {
        let mut findings: Vec<Diagnostic> = Vec::new();
        match parse(value.value.as_str(), value.span.start) {
            Ok(ty) => (Some(ty), findings),
            Err(error) => {
                findings.push(parse_error_diagnostic(error));
                (None, findings)
            },
        }
    }
}

} // verus!
