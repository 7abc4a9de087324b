//! How a finished command is judged: its exit status, the pass/fail outcome
//! recorded for it, and the error reported for a non-zero or abnormal exit.

use vstd::prelude::*;
use vstd::string::StringExecFns;

use crate::text::{push_signed_decimal, signed_dec_digits};

verus! {

/// The exit status of a finished child process, reduced to what the
/// orchestrator reads from it: the numeric exit code, or `None` when the
/// process was terminated abnormally (for example by a signal).
#[derive(Clone, Copy, Debug, PartialEq, Eq, Structural)]
pub struct ExitStatus {
    /// `Some(code)` for a normal exit, `None` for abnormal termination.
    pub code: Option<i32>,
}

/// The text describing an exit status in diagnostic lines.
pub open spec fn spec_status_description(status: ExitStatus) -> Seq<char> {
    match status.code {
        Some(code) => "exit status: "@ + signed_dec_digits(code as int),
        None => "terminated abnormally"@,
    }
}

impl ExitStatus {
    /// Whether this status counts as success: a normal exit with code zero.
    pub open spec fn spec_success(self) -> bool {
        self.code == Some(0i32)
    }

    /// Whether this status counts as success: a normal exit with code zero.
    pub fn success(&self) -> (r: bool)
        ensures
            r == self.spec_success(),
    {
        match self.code {
            Some(code) => code == 0,
            None => false,
        }
    }

    /// The human-readable description of this status.
    pub fn description(&self) -> (r: String)
        ensures
            r@ == spec_status_description(*self),
    {
        match self.code {
            Some(code) => {
                let mut out = String::from_str("exit status: ");
                push_signed_decimal(&mut out, code);
                out
            },
            None => String::from_str("terminated abnormally"),
        }
    }
}

/// The result recorded for one command once it has finished (or failed to
/// start): its label, whether it succeeded, and a description of its status.
#[derive(Debug)]
pub struct ExitOutcome {
    /// The label the command ran under.
    pub label: String,
    /// Whether the command exited with status zero.
    pub success: bool,
    /// A description of the exit status, for diagnostics.
    pub status_description: String,
}

/// Builds the outcome recorded for a command with the given label and exit
/// status.
pub fn exit_outcome(label: &String, status: ExitStatus) -> (r: ExitOutcome)
    ensures
        r.label@ == label@,
        r.success == status.spec_success(),
        r.status_description@ == spec_status_description(status),
{
    ExitOutcome { label: label.clone(), success: status.success(), status_description: status.description() }
}

/// Resolves a finished command's status: `Ok` for a successful exit, and
/// otherwise the error naming the command's label and its status.
pub fn completion_result(label: &String, status: ExitStatus) -> (r: Result<(), ExitStatusError>)
    ensures
        status.spec_success() ==> r is Ok,
        !status.spec_success() ==> (r matches Err(e) && e.label@ == label@ && e.status == status),
{
    if status.success() {
        Ok(())
    } else {
        Err(ExitStatusError { status, label: label.clone() })
    }
}

/// An error indicating that a command exited with a non-zero status.
#[derive(Debug)]
pub struct ExitStatusError {
    /// The exit status of the command.
    pub status: ExitStatus,
    /// The label of the command that failed.
    pub label: String,
}

impl ExitStatusError {
    /// The diagnostic line for this error: the failing command's label, a
    /// space, then its raw exit status.
    pub fn message(&self) -> (r: String)
        ensures
            r@ == self.label@ + " command exited with non-zero status: "@
                + spec_status_description(self.status),
    {
        let mut out = self.label.clone();
        out.append(" command exited with non-zero status: ");
        let description = self.status.description();
        out.append(description.as_str());
        proof {
            assert(out@ =~= self.label@ + " command exited with non-zero status: "@
                + spec_status_description(self.status));
        }
        out
    }
}

} // verus!
