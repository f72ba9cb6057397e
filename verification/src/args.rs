//! What the tool was asked to do.

use crate::codegen::generated_text;
use crate::codegen::ready::library_ready;
use crate::context::Context;
use crate::diagnostic::{Diagnostic, views};
use crate::validate::{findings, MultiError, passes};
use crate::version::ToolVersion;
use vstd::prelude::*;

verus! {

/// The arguments of one invocation.
#[derive(Debug, Clone, PartialEq, Eq)]
pub struct Args {
    pub cmd: Cmd,
    /// Whether warnings fail the run as errors do.
    pub deny_warnings: bool,
}

/// The subcommands.
#[derive(Debug, Clone, PartialEq, Eq)]
pub enum Cmd {
    /// Read the schema document at the given path and report what is
    /// wrong with it.
    Validate { path: String },
    /// Generate the Dart source for the schema document at the given
    /// path, into the given file or else onto the standard output.
    Generate { path: String, output: Option<String> },
}

impl Cmd {
    /// The path of the schema document that the command works on.
    pub fn path(&self) -> (path: &String)
        ensures
            path == match *self {
                Cmd::Validate { path } => path,
                Cmd::Generate { path, output } => path,
            },
    {
        match self {
            Cmd::Validate { path } => path,
            Cmd::Generate { path, output } => path,
        }
    }
}

/// What a run that passed has to show for it.
#[derive(Debug, Clone, PartialEq, Eq)]
pub struct Outcome {
    /// The warnings to show.
    pub warnings: Vec<Diagnostic>,
    /// The generated source, not yet formatted, where generating was
    /// asked for.
    pub dart: Option<String>,
}

/// Why a run did not pass.
#[derive(Debug, Clone, PartialEq, Eq)]
pub enum RunError {
    /// The document is not valid, or it has warnings and these are
    /// denied.
    Invalid(MultiError),
    /// The document holds a literal that cannot be written in Dart.
    Unwritable,
}

/// Whether the command asks for source to be generated.
pub open spec fn wants_source(cmd: &Cmd) -> bool {
    *cmd is Generate
}

/// Runs a command on a document that has been read: validates it and,
/// where that passes and the command asks for it, generates the source.
pub fn run(args: &Args, context: &Context, current: &ToolVersion) -> (r: Result<Outcome, RunError>)
    ensures
        !passes(findings(context.library@, current@), args.deny_warnings) ==> r is Err
            && r->Err_0 is Invalid && views(r->Err_0->Invalid_0.errors@) == findings(
            context.library@,
            current@,
        ),
        passes(findings(context.library@, current@), args.deny_warnings) && wants_source(&args.cmd)
            && !library_ready(context.library@) ==> r == Err::<Outcome, RunError>(
            RunError::Unwritable,
        ),
        passes(findings(context.library@, current@), args.deny_warnings) && !(wants_source(
            &args.cmd,
        ) && !library_ready(context.library@)) ==> r is Ok && views(r->Ok_0.warnings@) == findings(
            context.library@,
            current@,
        ) && (r->Ok_0.dart is Some <==> wants_source(&args.cmd)) && (r->Ok_0.dart is Some
            ==> r->Ok_0.dart->0@ == generated_text(context.library@)),
{
    let warnings = match context.validate(args.deny_warnings, current) {
        Ok(warnings) => warnings,
        Err(errors) => {
            return Err(RunError::Invalid(errors));
        },
    };
    match &args.cmd {
        Cmd::Validate { path } => Ok(Outcome { warnings, dart: None }),
        Cmd::Generate { path, output } => match context.generate() {
            Some(dart) => Ok(Outcome { warnings, dart: Some(dart) }),
            None => Err(RunError::Unwritable),
        },
    }
}

} // verus!
