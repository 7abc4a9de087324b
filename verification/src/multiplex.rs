//! Output multiplexing: every line a command writes is prefixed with the
//! command's label and then either printed immediately (streaming mode) or
//! buffered and flushed as one contiguous block after the command exits
//! (aggregate mode).

use vstd::prelude::*;
use vstd::string::StringExecFns;

use crate::outcome::{exit_outcome, ExitOutcome, ExitStatus};
use crate::text::seq_views;

verus! {

/// Each line of `lines`, prefixed with `label`.
pub open spec fn labeled_lines(label: Seq<char>, lines: Seq<Seq<char>>) -> Seq<Seq<char>> {
    lines.map_values(|line: Seq<char>| label + line)
}

/// Prefixes one output line with a command's label.
pub fn label_line(label: &String, line: &String) -> (r: String)
    ensures
        r@ == label@ + line@,
{
    let mut out = label.clone();
    out.append(line.as_str());
    out
}

/// A labeled line begins with its label.
pub proof fn lemma_labeled_line_starts_with_label(label: Seq<char>, line: Seq<char>)
    ensures
        (label + line).len() >= label.len(),
        (label + line).subrange(0, label.len() as int) == label,
{
    assert((label + line).subrange(0, label.len() as int) =~= label);
}

/// The per-command multiplexer: turns raw output lines into labeled lines,
/// printing them at once in streaming mode and buffering them in aggregate
/// mode. The buffer belongs to this command alone, so the block flushed
/// from it can never contain another command's lines.
pub struct Multiplexer {
    /// The label prefixed to each line (already PID-augmented, if requested).
    pub label: String,
    /// Whether output is buffered until the command exits.
    pub aggregate: bool,
    /// The buffered lines (aggregate mode only), in capture order. Written
    /// only through [`Multiplexer::accept_line`], read out once by
    /// [`Multiplexer::into_block`].
    pub buffer: Vec<String>,
}

impl Multiplexer {
    /// The lines buffered so far, in the order they were accepted.
    pub open spec fn buffered(self) -> Seq<Seq<char>> {
        seq_views(self.buffer@)
    }

    /// A fresh multiplexer with an empty buffer.
    pub fn new(label: String, aggregate: bool) -> (r: Multiplexer)
        ensures
            r.label == label,
            r.aggregate == aggregate,
            r.buffered() == Seq::<Seq<char>>::empty(),
    {
        let r = Multiplexer { label, aggregate, buffer: Vec::new() };
        proof {
            assert(r.buffered() =~= Seq::<Seq<char>>::empty());
        }
        r
    }

    /// Accepts one line of the command's output.
    ///
    /// In streaming mode the labeled line is returned, to be printed
    /// immediately; in aggregate mode it is appended to the buffer and
    /// nothing is printed.
    pub fn accept_line(&mut self, line: &String) -> (out: Option<String>)
        ensures
            final(self).label == old(self).label,
            final(self).aggregate == old(self).aggregate,
            old(self).aggregate ==> out is None && final(self).buffered() == old(
                self,
            ).buffered().push(old(self).label@ + line@),
            !old(self).aggregate ==> (out matches Some(printed) && printed@ == old(self).label@
                + line@) && final(self).buffered() == old(self).buffered(),
    {
        let labeled = label_line(&self.label, line);
        if self.aggregate {
            self.buffer.push(labeled);
            proof {
                assert(self.buffered() =~= old(self).buffered().push(
                    old(self).label@ + line@,
                ));
            }
            None
        } else {
            Some(labeled)
        }
    }

    /// Hands out the buffered lines as one block, consuming the
    /// multiplexer. The flush happens only after the owning command has
    /// exited, so the block is printed contiguously.
    pub fn into_block(self) -> (block: Vec<String>)
        ensures
            seq_views(block@) == self.buffered(),
    {
        self.buffer
    }
}

/// What one supervised command produced, as observed by the operator: the
/// lines printed while it ran, the block printed after it exited, the
/// diagnostic for a failure, and the recorded outcome.
pub struct CommandReport {
    /// Labeled lines printed immediately (streaming mode; empty otherwise).
    pub streamed: Vec<String>,
    /// Labeled lines printed as one contiguous block after exit (aggregate
    /// mode; empty otherwise).
    pub block: Vec<String>,
    /// The diagnostic line for a non-zero or abnormal exit, if any.
    pub diagnostic: Option<String>,
    /// The pass/fail outcome recorded for the command.
    pub outcome: ExitOutcome,
}

/// Supervises one command's output and completion: accepts every line the
/// command wrote (stdout and stderr, in the order they were captured),
/// then resolves its exit status into an outcome.
///
/// In streaming mode every line is printed immediately, prefixed with the
/// label; in aggregate mode the lines form one contiguous block, flushed
/// only after the command exited. Either way the report holds exactly the
/// command's own lines, each labeled, and a failing status yields one
/// diagnostic line naming the label and the status.
pub fn track_command(label: &String, aggregate: bool, lines: &Vec<String>, status: ExitStatus) -> (r:
    CommandReport)
    ensures
        !aggregate ==> seq_views(r.streamed@) == labeled_lines(label@, seq_views(lines@))
            && r.block@.len() == 0,
        aggregate ==> r.streamed@.len() == 0 && seq_views(r.block@) == labeled_lines(
            label@,
            seq_views(lines@),
        ),
        r.outcome.success == status.spec_success(),
        r.outcome.label@ == label@,
        status.spec_success() ==> r.diagnostic is None,
        !status.spec_success() ==> (r.diagnostic matches Some(d) && d@ == label@
            + crate::outcome::spec_status_description(status)),
{
    let mut mux = Multiplexer::new(label.clone(), aggregate);
    let mut streamed: Vec<String> = Vec::new();
    let mut k: usize = 0;
    while k < lines.len()
        invariant
            k <= lines@.len(),
            mux.label@ == label@,
            mux.aggregate == aggregate,
            aggregate ==> streamed@.len() == 0 && mux.buffered() == labeled_lines(
                label@,
                seq_views(lines@.take(k as int)),
            ),
            !aggregate ==> mux.buffered().len() == 0 && seq_views(streamed@) == labeled_lines(
                label@,
                seq_views(lines@.take(k as int)),
            ),
        decreases lines@.len() - k,
    {
        let printed = mux.accept_line(&lines[k]);
        match printed {
            Some(line) => streamed.push(line),
            None => {},
        }
        k = k + 1;
        proof {
            assert(seq_views(lines@.take(k as int)) =~= seq_views(
                lines@.take(k as int - 1),
            ).push(lines@[k - 1]@));
            assert(labeled_lines(label@, seq_views(lines@.take(k as int))) =~= labeled_lines(
                label@,
                seq_views(lines@.take(k as int - 1)),
            ).push(label@ + lines@[k - 1]@));
            if aggregate {
            } else {
                assert(seq_views(streamed@) =~= labeled_lines(
                    label@,
                    seq_views(lines@.take(k as int)),
                ));
            }
        }
    }
    proof {
        assert(lines@.take(lines@.len() as int) =~= lines@);
    }
    let success = status.success();
    let diagnostic = if success {
        None
    } else {
        let mut d = label.clone();
        let description = status.description();
        d.append(description.as_str());
        Some(d)
    };
    let outcome = exit_outcome(label, status);
    let block = mux.into_block();
    CommandReport { streamed, block, diagnostic, outcome }
}

/// The round trip of one command: a command that writes `n` lines in all
/// (stdout and stderr together) produces exactly `n` labeled lines, each
/// beginning with its label and carrying the raw line after it.
pub proof fn lemma_round_trip(label: Seq<char>, lines: Seq<Seq<char>>)
    ensures
        labeled_lines(label, lines).len() == lines.len(),
        forall|i: int| 0 <= i < lines.len() ==> #[trigger] labeled_lines(label, lines)[i] == label
            + lines[i],
        forall|i: int| 0 <= i < lines.len() ==> #[trigger] labeled_lines(label, lines)[i].subrange(
            0,
            label.len() as int,
        ) == label,
{
    assert forall|i: int| 0 <= i < lines.len() implies #[trigger] labeled_lines(label, lines)[i]
        .subrange(0, label.len() as int) == label by {
        lemma_labeled_line_starts_with_label(label, lines[i]);
    }
}

} // verus!
