//! A representation of one command to be run, and how it is turned into a
//! concrete process invocation.
//!
//! In subshell mode the command string is handed to `/bin/sh -c` verbatim;
//! otherwise it is split into a program and its arguments under POSIX shell
//! word-splitting rules, for which this module relies on the `shell_words`
//! crate.

use vstd::prelude::*;
use vstd::string::StringExecFns;

use crate::text::{dec_digits, push_decimal, seq_views};

verus! {

/// What `shell_words::split` makes of a command string: the sequence of
/// words, or `None` where the string is malformed (an unclosed quote).
pub uninterp spec fn shell_split(s: Seq<char>) -> Option<Seq<Seq<char>>>;

/// Relies on `shell_words::split`: POSIX-style shell word splitting, a
/// pure function of the command string alone; it fails exactly on strings
/// with an unclosed quote and never panics.
#[verifier::external_body]
fn split_shell_words(s: &str) -> (r: Option<Vec<String>>)
    ensures
        match r {
            Some(parts) => shell_split(s@) == Some(seq_views(parts@)),
            None => shell_split(s@) is None,
        },
{
    match shell_words::split(s) {
        Ok(parts) => Some(parts),
        Err(_) => None,
    }
}

/// Why a command could not be turned into a process invocation.
#[derive(Clone, Copy, Debug, PartialEq, Eq, Structural)]
pub enum LaunchError {
    /// The command string could not be split into shell words.
    CommandParse,
    /// The command string split into no words at all.
    EmptyCommand,
}

impl LaunchError {
    /// The diagnostic text for this error.
    pub fn message(&self) -> (r: String)
        ensures
            *self is CommandParse ==> r@ == "command could not be parsed"@,
            *self is EmptyCommand ==> r@ == "no command"@,
    {
        match self {
            LaunchError::CommandParse => String::from_str("command could not be parsed"),
            LaunchError::EmptyCommand => String::from_str("no command"),
        }
    }
}

/// A concrete process invocation: the program to execute and its argument
/// list.
#[derive(Debug)]
pub struct Invocation {
    /// The program to execute.
    pub program: String,
    /// The arguments handed to the program.
    pub args: Vec<String>,
}

/// A representation of a command to be run and streamed to stdout.
#[derive(Debug)]
pub struct Runnable {
    /// The label to prepend to each line of output.
    pub label: String,

    /// Whether to show the PID of the command after the label.
    pub show_pid: bool,

    /// The command and its arguments to run as a single string.
    ///
    /// If [use_subshell](Runnable::use_subshell) is true, this will be run
    /// in a subshell (/bin/sh). Otherwise, the command will be split into a
    /// command and its arguments.
    pub command: String,

    /// The working directory to run the command in.
    pub working_dir: Option<String>,

    /// Whether to run the command in a subshell (/bin/sh).
    pub use_subshell: bool,
}

impl Runnable {
    /// The process invocation for this command.
    ///
    /// In subshell mode this is always `/bin/sh -c <command>`. Otherwise
    /// the command string is split into shell words: the first word is the
    /// program, the rest are its arguments; a malformed or empty command
    /// string is a launch error.
    pub fn invocation(&self) -> (r: Result<Invocation, LaunchError>)
        ensures
            self.use_subshell ==> (r matches Ok(inv) && inv.program@ == "/bin/sh"@
                && seq_views(inv.args@) =~= seq!["-c"@, self.command@]),
            !self.use_subshell ==> match shell_split(self.command@) {
                None => r == Err::<Invocation, LaunchError>(LaunchError::CommandParse),
                Some(parts) => {
                    if parts.len() == 0 {
                        r == Err::<Invocation, LaunchError>(LaunchError::EmptyCommand)
                    } else {
                        (r matches Ok(inv) && inv.program@ == parts[0] && seq_views(inv.args@)
                            == parts.drop_first())
                    }
                },
            },
    {
        if self.use_subshell {
            let mut args: Vec<String> = Vec::new();
            args.push(String::from_str("-c"));
            args.push(self.command.clone());
            let inv = Invocation { program: String::from_str("/bin/sh"), args };
            proof {
                assert(seq_views(inv.args@) =~= seq!["-c"@, self.command@]);
            }
            Ok(inv)
        } else {
            match split_shell_words(self.command.as_str()) {
                None => Err(LaunchError::CommandParse),
                Some(parts) => {
                    if parts.len() == 0 {
                        Err(LaunchError::EmptyCommand)
                    } else {
                        let program = parts[0].clone();
                        let mut args: Vec<String> = Vec::new();
                        let mut k: usize = 1;
                        while k < parts.len()
                            invariant
                                1 <= k <= parts@.len(),
                                args@.len() == k - 1,
                                forall|i: int| 0 <= i < k - 1 ==> args@[i]@ == parts@[i + 1]@,
                            decreases parts@.len() - k,
                        {
                            args.push(parts[k].clone());
                            k = k + 1;
                        }
                        proof {
                            assert forall|i: int| 0 <= i < args@.len() implies seq_views(args@)[i]
                                == seq_views(parts@).drop_first()[i] by {
                                assert(args@[i]@ == parts@[i + 1]@);
                            }
                            assert(seq_views(args@) =~= seq_views(parts@).drop_first());
                        }
                        Ok(Invocation { program, args })
                    }
                },
            }
        }
    }

    /// The label the command's output actually runs under: the configured
    /// label, with `(PID: <pid>) ` appended when `show_pid` is set. The
    /// rewritten label is fixed before any output line is emitted and used
    /// consistently for the rest of the command's lifetime.
    pub fn effective_label(&self, pid: u32) -> (r: String)
        ensures
            self.show_pid ==> r@ == self.label@ + "(PID: "@ + dec_digits(pid as nat) + ") "@,
            !self.show_pid ==> r@ == self.label@,
    {
        if self.show_pid {
            let mut out = self.label.clone();
            out.append("(PID: ");
            push_decimal(&mut out, pid as u64);
            out.append(") ");
            proof {
                assert(out@ =~= self.label@ + "(PID: "@ + dec_digits(pid as nat) + ") "@);
            }
            out
        } else {
            self.label.clone()
        }
    }
}

} // verus!
