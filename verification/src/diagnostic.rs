//! Findings about a schema document.

use crate::span::Span;
use vstd::prelude::*;

verus! {

/// How serious a finding is.
#[derive(Debug, Clone, Copy, PartialEq, Eq, Hash, Structural)]
pub enum Severity {
    Error,
    Warning,
}

/// A place in the document that a finding points at, with an optional
/// caption.
#[derive(Debug, Clone, PartialEq, Eq)]
pub struct Label {
    pub span: Span,
    pub text: Option<String>,
}

/// One finding: what is wrong, where, and how to mend it.
#[derive(Debug, Clone, PartialEq, Eq)]
pub struct Diagnostic {
    pub severity: Severity,
    pub message: String,
    pub labels: Vec<Label>,
    pub help: Option<String>,
}

/// What a [`Label`] says.
pub ghost struct LabelView {
    pub span: Span,
    pub text: Option<Seq<char>>,
}

/// What a [`Diagnostic`] says.
pub ghost struct DiagnosticView {
    pub severity: Severity,
    pub message: Seq<char>,
    pub labels: Seq<LabelView>,
    pub help: Option<Seq<char>>,
}

/// The characters of an optional text.
pub open spec fn text_view(text: Option<String>) -> Option<Seq<char>> {
    match text {
        Some(t) => Some(t@),
        None => None,
    }
}

impl View for Label {
    type V = LabelView;

    open spec fn view(&self) -> LabelView {
        LabelView { span: self.span, text: text_view(self.text) }
    }
}

impl View for Diagnostic {
    type V = DiagnosticView;

    open spec fn view(&self) -> DiagnosticView {
        DiagnosticView {
            severity: self.severity,
            message: self.message@,
            labels: Seq::new(self.labels@.len(), |i: int| self.labels@[i]@),
            help: text_view(self.help),
        }
    }
}

/// What a list of diagnostics says, in order.
pub open spec fn views(diagnostics: Seq<Diagnostic>) -> Seq<DiagnosticView> {
    Seq::new(diagnostics.len(), |i: int| diagnostics[i]@)
}

/// A label without a caption.
pub open spec fn plain_label(span: Span) -> LabelView {
    LabelView { span, text: None }
}

/// A label with a caption.
pub open spec fn captioned_label(span: Span, caption: Seq<char>) -> LabelView {
    LabelView { span, text: Some(caption) }
}

impl Label {
    /// A label without a caption.
    pub fn plain(span: Span) -> (label: Label)
        ensures
            label@ == plain_label(span),
    {
        Label { span, text: None }
    }

    /// A label with a caption.
    pub fn captioned(span: Span, caption: &str) -> (label: Label)
        ensures
            label@ == captioned_label(span, caption@),
    {
        Label { span, text: Some(caption.to_owned()) }
    }
}

/// A finding that points at one place, without a caption.
pub open spec fn finding_at(
    severity: Severity,
    message: Seq<char>,
    span: Span,
    help: Option<Seq<char>>,
) -> DiagnosticView {
    DiagnosticView { severity, message, labels: seq![plain_label(span)], help }
}

/// A finding that points at one place, with a caption.
pub open spec fn finding_captioned(
    severity: Severity,
    message: Seq<char>,
    span: Span,
    caption: Seq<char>,
    help: Option<Seq<char>>,
) -> DiagnosticView {
    DiagnosticView { severity, message, labels: seq![captioned_label(span, caption)], help }
}

/// A finding that points at two places, each with a caption.
pub open spec fn finding_between(
    severity: Severity,
    message: Seq<char>,
    first: LabelView,
    second: LabelView,
    help: Option<Seq<char>>,
) -> DiagnosticView {
    DiagnosticView { severity, message, labels: seq![first, second], help }
}

/// Whether every finding is only a warning.
pub open spec fn only_warnings(findings: Seq<DiagnosticView>) -> bool {
    forall|i: int| 0 <= i < findings.len() ==> (#[trigger] findings[i]).severity == Severity::Warning
}

impl Diagnostic {
    /// A finding that points at one place, without a caption.
    pub fn at(severity: Severity, message: &str, span: Span, help: Option<String>) -> (finding: Diagnostic)
        ensures
            finding@ == finding_at(severity, message@, span, text_view(help)),
    {
        let mut labels: Vec<Label> = Vec::new();
        labels.push(Label::plain(span));
        let finding = Diagnostic { severity, message: message.to_owned(), labels, help };
        assert(finding@.labels =~= seq![plain_label(span)]);
        finding
    }

    /// A finding that points at one place, with a caption.
    pub fn captioned(
        severity: Severity,
        message: &str,
        span: Span,
        caption: &str,
        help: Option<String>,
    ) -> (finding: Diagnostic)
        ensures
            finding@ == finding_captioned(severity, message@, span, caption@, text_view(help)),
    {
        let mut labels: Vec<Label> = Vec::new();
        labels.push(Label::captioned(span, caption));
        let finding = Diagnostic { severity, message: message.to_owned(), labels, help };
        assert(finding@.labels =~= seq![captioned_label(span, caption@)]);
        finding
    }

    /// A finding that points at two places.
    pub fn between(
        severity: Severity,
        message: &str,
        first: Label,
        second: Label,
        help: Option<String>,
    ) -> (finding: Diagnostic)
        ensures
            finding@ == finding_between(severity, message@, first@, second@, text_view(help)),
    {
        let mut labels: Vec<Label> = Vec::new();
        labels.push(first);
        labels.push(second);
        let finding = Diagnostic { severity, message: message.to_owned(), labels, help };
        assert(finding@.labels =~= seq![first@, second@]);
        finding
    }

    /// Whether the finding is only a warning.
    pub open spec fn spec_is_warning(&self) -> bool {
        self.severity == Severity::Warning
    }

    /// Whether the finding is only a warning.
    #[verifier::when_used_as_spec(spec_is_warning)]
    pub fn is_warning(&self) -> (b: bool)
        ensures
            b == (self@.severity == Severity::Warning),
            b == self.spec_is_warning(),
    {
        self.severity == Severity::Warning
    }
}

} // verus!
