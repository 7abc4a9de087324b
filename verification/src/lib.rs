//! A verified core for a command-line process orchestrator.
//!
//! Given a list of shell command strings, the orchestrator runs them either
//! serially or concurrently, prefixes every output line with a per-command
//! label, tracks aggregate success and failure, and escalates interrupt
//! signals in two stages (grace period, then forced kill).
//!
//! This crate holds the decision logic of that orchestrator: option
//! validation, script-table expansion, label formatting, output
//! multiplexing, the serial and concurrent batch drivers, and the
//! signal-escalation state machine. The unverified shell around it performs
//! the actual process spawning, pipe reading and signal handling, and feeds
//! the results back into these verified types.

pub mod labels;
pub mod modes;
pub mod multiplex;
pub mod opts;
pub mod outcome;
pub mod runnable;
pub mod scripts;
pub mod signals;
pub mod text;

pub use labels::{collect_labels, resolve_labels, LabelOpts};
pub use modes::{run_concurrently, run_serially, BatchSummary, ConcurrentRun, SerialRun};
pub use multiplex::{label_line, track_command, CommandReport, Multiplexer};
pub use opts::{resolve_color, validate_label_options, SetupError};
pub use outcome::{completion_result, exit_outcome, ExitOutcome, ExitStatus, ExitStatusError};
pub use runnable::{Invocation, LaunchError, Runnable};
pub use scripts::{collect_npm_commands, ScriptError};
pub use signals::{SignalAction, SignalManager, SignalPhase, KILL_EXIT_CODE};
