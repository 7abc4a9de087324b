//! Validation of the label-related run options: these checks are the setup
//! errors that must be reported before any command is launched.

use vstd::prelude::*;
use vstd::string::StringExecFns;

verus! {

/// A conflict among the run options, detected before any command launches.
#[derive(Clone, Copy, Debug, PartialEq, Eq, Structural)]
pub enum SetupError {
    /// `--no-label` and `--command-as-label` were both given.
    NoLabelWithCommandAsLabel,
    /// `--label` was given a number of times that matches neither zero nor
    /// the number of commands.
    LabelCountMismatch,
    /// `--no-label` was combined with `--label`.
    NoLabelWithLabels,
    /// `--command-as-label` was combined with `--label`.
    CommandAsLabelWithLabels,
}

impl SetupError {
    /// The diagnostic text for this conflict.
    pub fn message(&self) -> (r: String)
        ensures
            *self is NoLabelWithCommandAsLabel ==> r@ == "Cannot use both --no-label and --command-as-label"@,
            *self is LabelCountMismatch ==> r@ == "Number of labels must match number of commands"@,
            *self is NoLabelWithLabels ==> r@ == "Cannot use --no-label with --label"@,
            *self is CommandAsLabelWithLabels ==> r@ == "Cannot use --command-as-label with --label"@,
    {
        match self {
            SetupError::NoLabelWithCommandAsLabel => String::from_str(
                "Cannot use both --no-label and --command-as-label",
            ),
            SetupError::LabelCountMismatch => String::from_str(
                "Number of labels must match number of commands",
            ),
            SetupError::NoLabelWithLabels => String::from_str("Cannot use --no-label with --label"),
            SetupError::CommandAsLabelWithLabels => String::from_str(
                "Cannot use --command-as-label with --label",
            ),
        }
    }
}

/// The color decision: an explicit command-line choice wins; otherwise
/// color is on unless the disable-color environment variable is set.
pub fn resolve_color(flag: Option<bool>, env_no_color: bool) -> (r: bool)
    ensures
        r == match flag {
            Some(explicit) => explicit,
            None => !env_no_color,
        },
{
    match flag {
        Some(explicit) => explicit,
        None => !env_no_color,
    }
}

/// Whether the label options are free of conflicts: the label count is zero
/// or equal to the command count, and `--no-label`, `--command-as-label`
/// and `--label` are pairwise exclusive.
pub open spec fn label_options_ok(
    n_commands: nat,
    n_labels: nat,
    no_label: bool,
    command_as_label: bool,
) -> bool {
    &&& !(no_label && command_as_label)
    &&& (n_labels == 0 || n_labels == n_commands)
    &&& !(n_labels > 0 && no_label)
    &&& !(n_labels > 0 && command_as_label)
}

/// Checks the label options for conflicts, in the order the orchestrator
/// reports them. Returns `Ok` exactly when no conflict is present.
pub fn validate_label_options(
    n_commands: usize,
    n_labels: usize,
    no_label: bool,
    command_as_label: bool,
) -> (r: Result<(), SetupError>)
    ensures
        r is Ok <==> label_options_ok(n_commands as nat, n_labels as nat, no_label, command_as_label),
        r == Err::<(), SetupError>(SetupError::NoLabelWithCommandAsLabel) <==> (no_label
            && command_as_label),
        r == Err::<(), SetupError>(SetupError::LabelCountMismatch) <==> (!(no_label
            && command_as_label) && n_labels != 0 && n_labels != n_commands),
        r == Err::<(), SetupError>(SetupError::NoLabelWithLabels) <==> (!(no_label
            && command_as_label) && (n_labels == 0 || n_labels == n_commands) && n_labels > 0
            && no_label),
        r == Err::<(), SetupError>(SetupError::CommandAsLabelWithLabels) <==> (!(no_label
            && command_as_label) && (n_labels == 0 || n_labels == n_commands) && !(n_labels > 0
            && no_label) && n_labels > 0 && command_as_label),
{
    if no_label && command_as_label {
        Err(SetupError::NoLabelWithCommandAsLabel)
    } else if n_labels != 0 && n_labels != n_commands {
        Err(SetupError::LabelCountMismatch)
    } else if n_labels > 0 && no_label {
        Err(SetupError::NoLabelWithLabels)
    } else if n_labels > 0 && command_as_label {
        Err(SetupError::CommandAsLabelWithLabels)
    } else {
        Ok(())
    }
}

} // verus!
