use vstd::prelude::*;

use crate::args::Invocation;
use crate::message::not_found_message;
use crate::message::not_found_text;

verus! {

/// What the filesystem check found at the supplied path. Only a regular file
/// passes; a directory, a special file or nothing at all are all rejected.
#[derive(Clone, Copy, PartialEq, Eq, Structural, Debug)]
pub enum PathStatus {
    /// The path names an existing regular file.
    Regular,
    /// The path names an existing directory.
    Directory,
    /// The path names nothing that exists (or nothing the check can reach).
    Missing,
}

/// The action the program takes once the path has been checked.
pub enum Action {
    /// Print the diagnostic line on standard output and end normally.
    Report { message: String },
    /// Try to open the file at this path for reading, releasing the handle at once.
    OpenTarget { path: String },
}

/// The mathematical shape of an `Action`: its payload as a character sequence.
pub enum ActionModel {
    Report { message: Seq<char> },
    OpenTarget { path: Seq<char> },
}

impl View for Action {
    type V = ActionModel;

    open spec fn view(&self) -> ActionModel {
        match self {
            Action::Report { message } => ActionModel::Report { message: message@ },
            Action::OpenTarget { path } => ActionModel::OpenTarget { path: path@ },
        }
    }
}

/// What the program does for each check result: open a regular file at the very
/// path supplied, and report every other status with the diagnostic line.
pub open spec fn plan(path: Seq<char>, status: PathStatus) -> ActionModel {
    match status {
        PathStatus::Regular => ActionModel::OpenTarget { path },
        PathStatus::Directory => ActionModel::Report { message: not_found_text(path) },
        PathStatus::Missing => ActionModel::Report { message: not_found_text(path) },
    }
}

/// Decides the next step from the result of the filesystem check.
pub fn plan_after_check(inv: &Invocation, status: PathStatus) -> (r: Action)
    ensures
        r@ == plan(inv.path@, status),
{
    match status {
        PathStatus::Regular => Action::OpenTarget { path: inv.path.clone() },
        PathStatus::Directory => Action::Report { message: not_found_message(inv.path.as_str()) },
        PathStatus::Missing => Action::Report { message: not_found_message(inv.path.as_str()) },
    }
}

/// The outcome of the open attempt, as the library sees it.
#[derive(Clone, Copy, PartialEq, Eq, Structural, Debug)]
pub enum OpenOutcome {
    /// A read handle was obtained (and is released immediately).
    Opened,
    /// The open failed: permissions, or the file vanished after the check.
    Failed,
}

/// How the process ends after the open attempt.
pub enum Termination {
    /// End normally, with exit status 0 and no further output.
    Normal,
    /// Abort with this diagnostic and a non-zero status.
    Fatal { diagnostic: String },
}

/// Decides how the run ends from the outcome of the open attempt: a successful
/// open ends the run normally, a failed one is fatal, with no retry.
pub fn conclude(outcome: OpenOutcome) -> (r: Termination)
    ensures
        outcome is Opened <==> r is Normal,
        outcome is Failed ==> (r matches Termination::Fatal { diagnostic } && diagnostic@
            == "Unable to open file"@),
{
    match outcome {
        OpenOutcome::Opened => Termination::Normal,
        OpenOutcome::Failed => Termination::Fatal {
            diagnostic: String::from_str("Unable to open file"),
        },
    }
}

/// A directory is treated exactly as a missing file: the planned action,
/// diagnostic line included, is the same for both.
pub proof fn lemma_directory_like_missing(path: Seq<char>)
    ensures
        plan(path, PathStatus::Directory) == plan(path, PathStatus::Missing),
{
}

/// A file handle is requested only for a regular file, and then at the very
/// path supplied; every other status produces the diagnostic line instead.
pub proof fn lemma_open_only_regular(path: Seq<char>, status: PathStatus)
    ensures
        (plan(path, status) matches ActionModel::OpenTarget { path: target } ==> status
            is Regular && target == path),
        status !is Regular ==> (plan(path, status) matches ActionModel::Report { message }
            && message == not_found_text(path)),
{
}

} // verus!
