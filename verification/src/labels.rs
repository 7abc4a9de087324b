//! Label formatting: every command gets a bracketed, padded, optionally
//! colored label that is prefixed to each of its output lines.
//!
//! The base label for command `i` is the command string itself (under
//! `--command-as-label`), the `i`-th provided label (under `--label`), or
//! the decimal index `i`. All labels are padded to the width of the widest
//! one, wrapped in brackets, and followed by one space; with color enabled,
//! command `i` is wrapped in the ANSI escape for color `31 + i % 6`.

use vstd::prelude::*;
use vstd::string::{StrSliceExecFns, StringExecFns};

use crate::text::{dec_digits, decimal_string, push_decimal, push_spaces, seq_views};

verus! {

/// The options for label construction.
pub struct LabelOpts {
    /// Use each command string as its own label.
    pub command_as_label: bool,
    /// Wrap each label in a per-command ANSI color escape.
    pub color: bool,
    /// The labels given on the command line (empty, or one per command).
    pub provided_labels: Vec<String>,
}

/// The unpadded label for command `i`.
pub open spec fn base_label(
    commands: Seq<Seq<char>>,
    provided: Seq<Seq<char>>,
    command_as_label: bool,
    i: int,
) -> Seq<char> {
    if command_as_label {
        commands[i]
    } else if i < provided.len() {
        provided[i]
    } else {
        dec_digits(i as nat)
    }
}

/// The unpadded labels for all commands.
pub open spec fn base_labels(
    commands: Seq<Seq<char>>,
    provided: Seq<Seq<char>>,
    command_as_label: bool,
) -> Seq<Seq<char>> {
    Seq::new(commands.len(), |i: int| base_label(commands, provided, command_as_label, i))
}

/// The length of the longest label (zero when there are none).
pub open spec fn max_len(labels: Seq<Seq<char>>) -> nat
    decreases labels.len(),
{
    if labels.len() == 0 {
        0
    } else {
        let rest = max_len(labels.drop_last());
        if labels.last().len() > rest {
            labels.last().len()
        } else {
            rest
        }
    }
}

/// No label is longer than the longest.
pub proof fn lemma_max_len_bounds(labels: Seq<Seq<char>>)
    ensures
        forall|i: int| 0 <= i < labels.len() ==> #[trigger] labels[i].len() <= max_len(labels),
    decreases labels.len(),
{
    if labels.len() > 0 {
        lemma_max_len_bounds(labels.drop_last());
        assert forall|i: int| 0 <= i < labels.len() implies #[trigger] labels[i].len() <= max_len(
            labels,
        ) by {
            if i < labels.len() - 1 {
                assert(labels.drop_last()[i] == labels[i]);
            }
        }
    }
}

/// `n` spaces.
pub open spec fn spaces(n: nat) -> Seq<char> {
    Seq::new(n, |i: int| ' ')
}

/// A label padded to `width` and wrapped in brackets: `[<label><padding>] `.
pub open spec fn plain_wrapped(label: Seq<char>, width: nat) -> Seq<char>
    recommends
        label.len() <= width,
{
    "["@ + label + spaces((width - label.len()) as nat) + "] "@
}

/// The ANSI color number for command `i`: one of the six colors 31 to 36,
/// rotating by position.
pub open spec fn color_code(i: int) -> nat
    recommends
        i >= 0,
{
    (31 + (i % 6)) as nat
}

/// A padded, bracketed label wrapped in the color escape for command `i`.
pub open spec fn colored_wrapped(label: Seq<char>, width: nat, i: int) -> Seq<char>
    recommends
        label.len() <= width,
        i >= 0,
{
    "\x1b[0;"@ + dec_digits(color_code(i)) + "m["@ + label + spaces((width - label.len()) as nat)
        + "]\x1b[0m "@
}

/// The finished label prefix for command `i`.
pub open spec fn formatted_label(
    commands: Seq<Seq<char>>,
    provided: Seq<Seq<char>>,
    command_as_label: bool,
    color: bool,
    i: int,
) -> Seq<char> {
    let labels = base_labels(commands, provided, command_as_label);
    let width = max_len(labels);
    if color {
        colored_wrapped(labels[i], width, i)
    } else {
        plain_wrapped(labels[i], width)
    }
}

/// Builds the label prefix of every command: base label, padding to the
/// common width, brackets, one trailing space, and the per-command color
/// escape when color is enabled.
pub fn collect_labels(commands: &Vec<String>, opts: LabelOpts) -> (r: Vec<String>)
    ensures
        r@.len() == commands@.len(),
        forall|i: int| 0 <= i < commands@.len() ==> r@[i]@ == formatted_label(
            seq_views(commands@),
            seq_views(opts.provided_labels@),
            opts.command_as_label,
            opts.color,
            i,
        ),
{
    let ghost commands_v = seq_views(commands@);
    let ghost provided_v = seq_views(opts.provided_labels@);
    let ghost labels_v = base_labels(commands_v, provided_v, opts.command_as_label);

    let mut bases: Vec<String> = Vec::new();
    let mut i: usize = 0;
    while i < commands.len()
        invariant
            i <= commands@.len(),
            bases@.len() == i,
            commands_v == seq_views(commands@),
            provided_v == seq_views(opts.provided_labels@),
            labels_v == base_labels(commands_v, provided_v, opts.command_as_label),
            forall|j: int| 0 <= j < i ==> #[trigger] bases@[j]@ == labels_v[j],
        decreases commands@.len() - i,
    {
        let base = if opts.command_as_label {
            commands[i].clone()
        } else if i < opts.provided_labels.len() {
            opts.provided_labels[i].clone()
        } else {
            decimal_string(i as u64)
        };
        bases.push(base);
        i = i + 1;
    }

    let mut width: usize = 0;
    let mut k: usize = 0;
    while k < bases.len()
        invariant
            k <= bases@.len(),
            bases@.len() == labels_v.len(),
            forall|j: int| 0 <= j < bases@.len() ==> #[trigger] bases@[j]@ == labels_v[j],
            width == max_len(labels_v.take(k as int)),
        decreases bases@.len() - k,
    {
        let len = bases[k].as_str().unicode_len();
        proof {
            assert(labels_v.take(k as int + 1).drop_last() =~= labels_v.take(k as int));
            assert(labels_v.take(k as int + 1).last() == labels_v[k as int]);
        }
        if len > width {
            width = len;
        }
        k = k + 1;
    }
    proof {
        assert(labels_v.take(labels_v.len() as int) =~= labels_v);
        lemma_max_len_bounds(labels_v);
    }

    let mut out: Vec<String> = Vec::new();
    let mut i: usize = 0;
    while i < bases.len()
        invariant
            i <= bases@.len(),
            out@.len() == i,
            bases@.len() == labels_v.len(),
            labels_v.len() == commands_v.len(),
            commands_v == seq_views(commands@),
            provided_v == seq_views(opts.provided_labels@),
            labels_v == base_labels(commands_v, provided_v, opts.command_as_label),
            forall|j: int| 0 <= j < bases@.len() ==> #[trigger] bases@[j]@ == labels_v[j],
            width == max_len(labels_v),
            forall|j: int| 0 <= j < labels_v.len() ==> #[trigger] labels_v[j].len() <= width,
            forall|j: int| 0 <= j < i ==> #[trigger] out@[j]@ == formatted_label(
                commands_v,
                provided_v,
                opts.command_as_label,
                opts.color,
                j,
            ),
        decreases bases@.len() - i,
    {
        let len = bases[i].as_str().unicode_len();
        let pad = width - len;
        let mut label: String;
        if opts.color {
            label = String::from_str("\x1b[0;");
            let code: u64 = 31 + ((i as u64) % 6);
            push_decimal(&mut label, code);
            label.append("m[");
            label.append(bases[i].as_str());
            push_spaces(&mut label, pad);
            label.append("]\x1b[0m ");
            proof {
                assert(code as nat == color_code(i as int));
                assert(label@ =~= colored_wrapped(labels_v[i as int], width as nat, i as int));
            }
        } else {
            label = String::from_str("[");
            label.append(bases[i].as_str());
            push_spaces(&mut label, pad);
            label.append("] ");
            proof {
                assert(label@ =~= plain_wrapped(labels_v[i as int], width as nat));
            }
        }
        out.push(label);
        i = i + 1;
    }
    out
}

/// The labels a run uses: all empty under `--no-label`, and the formatted
/// per-command labels otherwise.
pub fn resolve_labels(commands: &Vec<String>, no_label: bool, opts: LabelOpts) -> (r: Vec<String>)
    ensures
        r@.len() == commands@.len(),
        no_label ==> forall|i: int| 0 <= i < r@.len() ==> #[trigger] r@[i]@ == Seq::<char>::empty(),
        !no_label ==> forall|i: int| 0 <= i < r@.len() ==> #[trigger] r@[i]@ == formatted_label(
            seq_views(commands@),
            seq_views(opts.provided_labels@),
            opts.command_as_label,
            opts.color,
            i,
        ),
{
    if no_label {
        let mut out: Vec<String> = Vec::new();
        let mut i: usize = 0;
        while i < commands.len()
            invariant
                i <= commands@.len(),
                out@.len() == i,
                forall|j: int| 0 <= j < i ==> #[trigger] out@[j]@ == Seq::<char>::empty(),
            decreases commands@.len() - i,
        {
            out.push(String::new());
            i = i + 1;
        }
        out
    } else {
        collect_labels(commands, opts)
    }
}

} // verus!
