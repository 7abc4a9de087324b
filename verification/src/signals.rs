//! The signal-escalation state machine: a first interrupt or terminate
//! signal opens a grace period for the children to exit on their own; a
//! second signal, or the grace period expiring, kills every registered
//! child process id and terminates the program with exit code 130.
//!
//! The machine only decides; the unverified shell observes the operating
//! system's signals and timers, feeds them in as events, and carries out
//! the returned actions (starting the timer, sending the kills, exiting).

use vstd::prelude::*;

verus! {

/// The exit code the program terminates with on the forced-kill path.
pub const KILL_EXIT_CODE: i32 = 130;

/// Where the escalation stands.
#[derive(Clone, Copy, Debug, PartialEq, Eq, Structural)]
pub enum SignalPhase {
    /// No signal received yet.
    Idle,
    /// One signal received; children have until the grace timer expires.
    GracePeriod,
    /// Terminal: the registered processes are being force-killed.
    Killing,
}

/// What the shell must do after handing an event to the machine.
#[derive(Debug)]
pub enum SignalAction {
    /// Log that the program is waiting for its children, and start the
    /// grace timer: after `grace_secs` seconds, feed a timeout event back.
    StartGraceTimer { grace_secs: u16 },
    /// Send a forceful, non-ignorable kill to every pid in `pids`, then
    /// terminate the whole program with `exit_code`.
    KillAll { pids: Vec<u32>, exit_code: i32 },
}

/// The phase the machine moves to when a signal arrives.
pub open spec fn phase_after_signal(phase: SignalPhase) -> SignalPhase {
    match phase {
        SignalPhase::Idle => SignalPhase::GracePeriod,
        _ => SignalPhase::Killing,
    }
}

/// Whether a signal arriving in `phase` kills the registered processes.
pub open spec fn signal_kills(phase: SignalPhase) -> bool {
    !(phase is Idle)
}

/// The process-wide signal state: the set of child process ids to kill on
/// escalation (append-only), the configured grace period, and the phase.
pub struct SignalManager {
    /// The current escalation phase.
    pub phase: SignalPhase,
    /// Every child process id launched so far. Ids are only ever added.
    pub pids: Vec<u32>,
    /// The grace period, in seconds, between the first signal and a forced
    /// kill.
    pub grace_secs: u16,
}

impl SignalManager {
    /// A fresh manager: idle, with no registered processes.
    pub fn new(grace_secs: u16) -> (r: SignalManager)
        ensures
            r.phase is Idle,
            r.pids@ == Seq::<u32>::empty(),
            r.grace_secs == grace_secs,
    {
        SignalManager { phase: SignalPhase::Idle, pids: Vec::new(), grace_secs }
    }

    /// Registers one more child process id. Registration only ever appends:
    /// no id is removed for the rest of the run, so escalation always
    /// targets the complete set.
    pub fn register(&mut self, pid: u32)
        ensures
            final(self).pids@ == old(self).pids@.push(pid),
            final(self).phase == old(self).phase,
            final(self).grace_secs == old(self).grace_secs,
    {
        self.pids.push(pid);
    }

    /// Feeds one interrupt/terminate signal to the machine.
    ///
    /// The first signal opens the grace period and starts the timer,
    /// killing nothing; any further signal escalates to `Killing`, and the
    /// returned action kills every registered pid and exits with
    /// [`KILL_EXIT_CODE`].
    pub fn on_signal(&mut self) -> (action: SignalAction)
        ensures
            final(self).phase == phase_after_signal(old(self).phase),
            final(self).pids@ == old(self).pids@,
            final(self).grace_secs == old(self).grace_secs,
            !signal_kills(old(self).phase) ==> (action matches SignalAction::StartGraceTimer {
                grace_secs,
            } && grace_secs == old(self).grace_secs),
            signal_kills(old(self).phase) ==> (action matches SignalAction::KillAll {
                pids,
                exit_code,
            } && pids@ == old(self).pids@ && exit_code == KILL_EXIT_CODE),
    {
        match self.phase {
            SignalPhase::Idle => {
                self.phase = SignalPhase::GracePeriod;
                SignalAction::StartGraceTimer { grace_secs: self.grace_secs }
            },
            _ => {
                self.phase = SignalPhase::Killing;
                SignalAction::KillAll { pids: self.pids.clone(), exit_code: KILL_EXIT_CODE }
            },
        }
    }

    /// Feeds the expiry of the grace timer to the machine. The timer only
    /// exists once a first signal has been received, so the machine cannot
    /// be idle here.
    ///
    /// Expiry during the grace period escalates to `Killing`, killing every
    /// registered pid; once the machine is already killing, a late expiry
    /// changes nothing.
    pub fn on_grace_timeout(&mut self) -> (action: Option<SignalAction>)
        requires
            !(old(self).phase is Idle),
        ensures
            final(self).phase is Killing,
            final(self).pids@ == old(self).pids@,
            final(self).grace_secs == old(self).grace_secs,
            old(self).phase is GracePeriod ==> (action matches Some(
                SignalAction::KillAll { pids, exit_code },
            ) && pids@ == old(self).pids@ && exit_code == KILL_EXIT_CODE),
            old(self).phase is Killing ==> action is None,
    {
        match self.phase {
            SignalPhase::GracePeriod => {
                self.phase = SignalPhase::Killing;
                Some(SignalAction::KillAll { pids: self.pids.clone(), exit_code: KILL_EXIT_CODE })
            },
            _ => None,
        }
    }
}

/// One interrupt signal moves the machine from `Idle` to `GracePeriod` and
/// kills nothing; a second signal, arriving while the grace period is open,
/// escalates to `Killing`, which does kill.
pub proof fn lemma_signal_escalation()
    ensures
        phase_after_signal(SignalPhase::Idle) is GracePeriod,
        !signal_kills(SignalPhase::Idle),
        phase_after_signal(SignalPhase::GracePeriod) is Killing,
        signal_kills(SignalPhase::GracePeriod),
{
}

} // verus!
