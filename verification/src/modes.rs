//! The serial and concurrent batch drivers.
//!
//! A batch is a list of commands; the operating system decides whether each
//! one succeeds. The drivers here are the decision side of the two
//! execution modes: which command to launch next, when to stop, and how the
//! per-command outcomes aggregate into the batch result. The unverified
//! shell spawns the processes and feeds each outcome back in.
//!
//! `run_serially` and `run_concurrently` are the whole-batch forms: given
//! the sequence of per-command outcomes (for the concurrent mode, in
//! completion order), they drive the corresponding state machine over it
//! and return the batch summary.

use vstd::prelude::*;

verus! {

/// The position of the first failed outcome, or `None` when every outcome
/// succeeded.
pub open spec fn first_failure(outcomes: Seq<bool>) -> Option<int>
    decreases outcomes.len(),
{
    if outcomes.len() == 0 {
        None
    } else if !outcomes.first() {
        Some(0)
    } else {
        match first_failure(outcomes.drop_first()) {
            None => None,
            Some(k) => Some(k + 1),
        }
    }
}

/// How many outcomes a driver processes before halting: all of them when
/// `continue_on_failure` is set or none fails, otherwise exactly up to and
/// including the first failure.
pub open spec fn processed_count(outcomes: Seq<bool>, continue_on_failure: bool) -> int {
    if continue_on_failure {
        outcomes.len() as int
    } else {
        match first_failure(outcomes) {
            None => outcomes.len() as int,
            Some(k) => k + 1,
        }
    }
}

/// Whether a batch whose first `processed` outcomes were observed failed.
pub open spec fn batch_failed(outcomes: Seq<bool>, processed: int) -> bool {
    exists|i: int| 0 <= i < processed && !outcomes[i]
}

/// `first_failure` names the first failure: every outcome before it
/// succeeded, and the outcome at it (when there is one) failed.
pub proof fn lemma_first_failure_bounds(outcomes: Seq<bool>)
    ensures
        match first_failure(outcomes) {
            None => forall|i: int| 0 <= i < outcomes.len() ==> outcomes[i],
            Some(k) => 0 <= k < outcomes.len() && !outcomes[k] && forall|i: int|
                0 <= i < k ==> outcomes[i],
        },
    decreases outcomes.len(),
{
    if outcomes.len() > 0 && outcomes.first() {
        lemma_first_failure_bounds(outcomes.drop_first());
        match first_failure(outcomes.drop_first()) {
            None => {
                assert forall|i: int| 0 <= i < outcomes.len() implies outcomes[i] by {
                    if i > 0 {
                        assert(outcomes.drop_first()[i - 1]);
                    }
                }
            },
            Some(k) => {
                assert(!outcomes.drop_first()[k]);
                assert forall|i: int| 0 <= i < k + 1 implies outcomes[i] by {
                    if i > 0 {
                        assert(outcomes.drop_first()[i - 1]);
                    }
                }
            },
        }
    }
}

/// The converse: a position that fails, with only successes before it, is
/// the first failure.
pub proof fn lemma_first_failure_at(outcomes: Seq<bool>, k: int)
    requires
        0 <= k < outcomes.len(),
        !outcomes[k],
        forall|i: int| 0 <= i < k ==> outcomes[i],
    ensures
        first_failure(outcomes) == Some(k),
    decreases k,
{
    if k == 0 {
    } else {
        assert forall|i: int| 0 <= i < k - 1 implies outcomes.drop_first()[i] by {
            assert(outcomes[i + 1]);
        }
        assert(!outcomes.drop_first()[k - 1]);
        lemma_first_failure_at(outcomes.drop_first(), k - 1);
    }
}

/// The summary of one batch: how many commands were launched, how many
/// outcomes were waited for, and whether any observed outcome failed.
#[derive(Clone, Copy, Debug, PartialEq, Eq, Structural)]
pub struct BatchSummary {
    /// How many commands were started.
    pub launched: usize,
    /// How many outcomes were observed before the driver stopped.
    pub awaited: usize,
    /// Whether any observed outcome failed; the batch as a whole fails
    /// exactly when this is set.
    pub failed: bool,
}

/// The serial driver: commands are launched one at a time, each waited on
/// before the next is started. A failure halts the batch unless
/// `continue_on_failure` is set.
pub struct SerialRun {
    /// The number of commands in the batch.
    pub total: usize,
    /// Whether to keep launching after a failure.
    pub continue_on_failure: bool,
    /// How many commands have been launched (and, serially, waited on).
    pub launched: usize,
    /// Whether any outcome so far failed.
    pub failed: bool,
    /// Whether a failure has halted the batch.
    pub halted: bool,
}

impl SerialRun {
    /// A fresh serial driver for a batch of `total` commands.
    pub fn new(total: usize, continue_on_failure: bool) -> (r: SerialRun)
        ensures
            r.total == total,
            r.continue_on_failure == continue_on_failure,
            r.launched == 0,
            !r.failed,
            !r.halted,
    {
        SerialRun { total, continue_on_failure, launched: 0, failed: false, halted: false }
    }

    /// The index of the next command to launch, or `None` when the batch
    /// is finished: every command was launched, or a failure halted it.
    pub fn next_to_launch(&self) -> (r: Option<usize>)
        ensures
            r == if self.launched < self.total && !self.halted {
                Some(self.launched)
            } else {
                None::<usize>
            },
    {
        if self.launched < self.total && !self.halted {
            Some(self.launched)
        } else {
            None
        }
    }

    /// Records the outcome of the command just launched. On a failure the
    /// batch halts, unless `continue_on_failure` is set; the failure is
    /// recorded either way.
    pub fn record_outcome(&mut self, success: bool)
        requires
            old(self).launched < old(self).total,
            !old(self).halted,
        ensures
            final(self).total == old(self).total,
            final(self).continue_on_failure == old(self).continue_on_failure,
            final(self).launched == old(self).launched + 1,
            final(self).failed == (old(self).failed || !success),
            final(self).halted == (!success && !old(self).continue_on_failure),
    {
        self.launched = self.launched + 1;
        if !success {
            self.failed = true;
            if !self.continue_on_failure {
                self.halted = true;
            }
        }
    }
}

/// The concurrent driver: every command is launched up front, then the
/// outcomes are consumed in completion order. A failure stops consumption
/// unless `continue_on_failure` is set; the still-running siblings are not
/// killed by this path.
pub struct ConcurrentRun {
    /// The number of commands in the batch.
    pub total: usize,
    /// Whether to keep consuming outcomes after a failure.
    pub continue_on_failure: bool,
    /// How many commands have been launched.
    pub launched: usize,
    /// How many outcomes have been consumed.
    pub consumed: usize,
    /// Whether any consumed outcome failed.
    pub failed: bool,
    /// Whether a failure has stopped outcome consumption.
    pub halted: bool,
}

impl ConcurrentRun {
    /// A fresh concurrent driver for a batch of `total` commands.
    pub fn new(total: usize, continue_on_failure: bool) -> (r: ConcurrentRun)
        ensures
            r.total == total,
            r.continue_on_failure == continue_on_failure,
            r.launched == 0,
            r.consumed == 0,
            !r.failed,
            !r.halted,
    {
        ConcurrentRun {
            total,
            continue_on_failure,
            launched: 0,
            consumed: 0,
            failed: false,
            halted: false,
        }
    }

    /// The index of the next command to launch. Launching never stops
    /// early: every command is started before any outcome is consumed.
    pub fn next_to_launch(&self) -> (r: Option<usize>)
        ensures
            r == if self.launched < self.total {
                Some(self.launched)
            } else {
                None::<usize>
            },
    {
        if self.launched < self.total {
            Some(self.launched)
        } else {
            None
        }
    }

    /// Marks one more command as launched.
    pub fn mark_launched(&mut self)
        requires
            old(self).launched < old(self).total,
        ensures
            final(self).launched == old(self).launched + 1,
            final(self).total == old(self).total,
            final(self).continue_on_failure == old(self).continue_on_failure,
            final(self).consumed == old(self).consumed,
            final(self).failed == old(self).failed,
            final(self).halted == old(self).halted,
    {
        self.launched = self.launched + 1;
    }

    /// Whether the driver is still consuming outcomes.
    pub fn awaiting(&self) -> (r: bool)
        ensures
            r == (self.consumed < self.total && !self.halted),
    {
        self.consumed < self.total && !self.halted
    }

    /// Consumes the next outcome, in completion order. On a failure,
    /// consumption stops unless `continue_on_failure` is set; the failure
    /// is recorded either way.
    pub fn record_outcome(&mut self, success: bool)
        requires
            old(self).launched == old(self).total,
            old(self).consumed < old(self).total,
            !old(self).halted,
        ensures
            final(self).total == old(self).total,
            final(self).continue_on_failure == old(self).continue_on_failure,
            final(self).launched == old(self).launched,
            final(self).consumed == old(self).consumed + 1,
            final(self).failed == (old(self).failed || !success),
            final(self).halted == (!success && !old(self).continue_on_failure),
    {
        self.consumed = self.consumed + 1;
        if !success {
            self.failed = true;
            if !self.continue_on_failure {
                self.halted = true;
            }
        }
    }
}

/// Runs a batch serially: command `i` is launched only after commands
/// `0..i` all completed, and only if none of them halted the batch.
///
/// `outcomes[i]` is whether command `i` succeeds when it runs. The summary
/// counts exactly the commands that were launched (each of which, in the
/// serial mode, is also waited on), and the batch fails exactly when one
/// of them failed.
pub fn run_serially(outcomes: &Vec<bool>, continue_on_failure: bool) -> (r: BatchSummary)
    ensures
        r.launched == processed_count(outcomes@, continue_on_failure),
        r.awaited == r.launched,
        r.failed == batch_failed(outcomes@, r.launched as int),
{
    let mut run = SerialRun::new(outcomes.len(), continue_on_failure);
    while run.launched < run.total && !run.halted
        invariant
            run.total == outcomes@.len(),
            run.continue_on_failure == continue_on_failure,
            run.launched <= run.total,
            run.failed == batch_failed(outcomes@, run.launched as int),
            run.halted ==> !continue_on_failure && run.launched > 0 && !outcomes@[run.launched
                - 1] && (forall|i: int| 0 <= i < run.launched - 1 ==> outcomes@[i]),
            !run.halted ==> forall|i: int|
                0 <= i < run.launched ==> (continue_on_failure || outcomes@[i]),
        decreases run.total - run.launched,
    {
        let i = run.launched;
        let success = outcomes[i];
        run.record_outcome(success);
        proof {
            if !success {
                assert(!outcomes@[run.launched - 1]);
                assert(batch_failed(outcomes@, run.launched as int));
            } else if !batch_failed(outcomes@, run.launched as int - 1) {
                assert forall|j: int| 0 <= j < run.launched implies outcomes@[j] by {}
            }
        }
    }
    proof {
        if run.halted {
            lemma_first_failure_at(outcomes@, run.launched - 1);
        } else {
            assert(run.launched == run.total);
            if !continue_on_failure {
                match first_failure(outcomes@) {
                    None => {},
                    Some(k) => {
                        lemma_first_failure_bounds(outcomes@);
                        assert(!outcomes@[k]);
                    },
                }
            }
        }
    }
    BatchSummary { launched: run.launched, awaited: run.launched, failed: run.failed }
}

/// Runs a batch concurrently: every command is launched before any outcome
/// is consumed, and the outcomes arrive in completion order.
///
/// `outcomes[j]` is the `j`-th outcome to complete. All commands are
/// launched; consumption stops at the first failure unless
/// `continue_on_failure` is set, and the batch fails exactly when a
/// consumed outcome failed.
pub fn run_concurrently(outcomes: &Vec<bool>, continue_on_failure: bool) -> (r: BatchSummary)
    ensures
        r.launched == outcomes@.len(),
        r.awaited == processed_count(outcomes@, continue_on_failure),
        r.failed == batch_failed(outcomes@, r.awaited as int),
{
    let mut run = ConcurrentRun::new(outcomes.len(), continue_on_failure);
    while run.launched < run.total
        invariant
            run.total == outcomes@.len(),
            run.launched <= run.total,
            run.consumed == 0,
            !run.failed,
            !run.halted,
            run.continue_on_failure == continue_on_failure,
        decreases run.total - run.launched,
    {
        run.mark_launched();
    }
    while run.awaiting()
        invariant
            run.total == outcomes@.len(),
            run.launched == run.total,
            run.continue_on_failure == continue_on_failure,
            run.consumed <= run.total,
            run.failed == batch_failed(outcomes@, run.consumed as int),
            run.halted ==> !continue_on_failure && run.consumed > 0 && !outcomes@[run.consumed
                - 1] && (forall|i: int| 0 <= i < run.consumed - 1 ==> outcomes@[i]),
            !run.halted ==> forall|i: int|
                0 <= i < run.consumed ==> (continue_on_failure || outcomes@[i]),
        decreases run.total - run.consumed,
    {
        let success = outcomes[run.consumed];
        run.record_outcome(success);
        proof {
            if !success {
                assert(!outcomes@[run.consumed - 1]);
                assert(batch_failed(outcomes@, run.consumed as int));
            } else if !batch_failed(outcomes@, run.consumed as int - 1) {
                assert forall|j: int| 0 <= j < run.consumed implies outcomes@[j] by {}
            }
        }
    }
    proof {
        if run.halted {
            lemma_first_failure_at(outcomes@, run.consumed - 1);
        } else {
            assert(run.consumed == run.total);
            if !continue_on_failure {
                match first_failure(outcomes@) {
                    None => {},
                    Some(k) => {
                        lemma_first_failure_bounds(outcomes@);
                        assert(!outcomes@[k]);
                    },
                }
            }
        }
    }
    BatchSummary { launched: run.launched, awaited: run.consumed, failed: run.failed }
}

/// With `continue_on_failure` unset, a failing command at position `k`
/// (the first failure) means exactly the commands `0..=k` are processed,
/// and the batch fails.
pub proof fn lemma_halt_at_first_failure(outcomes: Seq<bool>, k: int)
    requires
        0 <= k < outcomes.len(),
        !outcomes[k],
        forall|i: int| 0 <= i < k ==> outcomes[i],
    ensures
        processed_count(outcomes, false) == k + 1,
        batch_failed(outcomes, processed_count(outcomes, false)),
{
    lemma_first_failure_at(outcomes, k);
}

/// With `continue_on_failure` set, every command is processed, and the
/// batch fails exactly when at least one outcome failed.
pub proof fn lemma_continue_on_failure_processes_all(outcomes: Seq<bool>)
    ensures
        processed_count(outcomes, true) == outcomes.len(),
        batch_failed(outcomes, processed_count(outcomes, true)) <==> exists|i: int|
            0 <= i < outcomes.len() && !outcomes[i],
{
}

} // verus!
