//! The boot supervisor: a state machine that orders application startup.
//! The embedding application performs the process creation, the connection
//! probes and the sleeps, and reports each result back; the supervisor
//! decides what happens next. Exactly one spawn is requested per boot, the
//! spawn always precedes the first probe, a failed spawn aborts boot before
//! any probe, and the readiness outcome is an explicit value the caller
//! must handle rather than a silently absorbed timeout.

use vstd::prelude::*;
use crate::poll::{PollState, Poller, ReadinessOutcome, ReadinessTarget};
use crate::spawn::{SidecarSpec, SpawnError};

verus! {

/// How a completed boot stands with respect to readiness: the wait was
/// switched off by configuration, or it ran and resolved.
#[derive(Clone, Copy, Debug, PartialEq, Eq, Structural)]
pub enum BootReadiness {
    Skipped,
    Observed(ReadinessOutcome),
}

/// The phases of one application boot, in the order they can occur. There
/// is no path from a terminal phase back to an earlier one, and no path to
/// `Polling` that does not pass through a successful spawn.
#[derive(Clone, Copy, Debug, PartialEq, Eq, Structural)]
pub enum BootPhase {
    /// Nothing has happened yet.
    Idle,
    /// The spawn was requested; its result has not been reported.
    AwaitingSpawn,
    /// The child is running and readiness probes are in progress.
    Polling,
    /// Boot is complete: the child was spawned, and the readiness wait
    /// either resolved or was skipped.
    Booted(BootReadiness),
    /// The spawn failed; boot is aborted. Fatal.
    Aborted(SpawnError),
}

/// The supervisor for one application boot: the launch request, the probe
/// target, whether boot blocks on readiness, and the current phase. The
/// probe counter records how many connection attempts were made.
#[derive(Debug)]
pub struct Supervisor {
    pub sidecar: SidecarSpec,
    pub target: ReadinessTarget,
    pub wait_for_readiness: bool,
    pub phase: BootPhase,
    pub poller: Poller,
    pub probes: u64,
}

impl Supervisor {
    /// The supervisor's invariant: its parts are well formed and agree on
    /// the budget; the phase and the poller tell the same story; no probe
    /// is ever counted before a successful spawn, and none after boot was
    /// aborted.
    pub open spec fn wf(self) -> bool {
        &&& self.sidecar.wf()
        &&& self.target.wf()
        &&& self.poller.wf()
        &&& self.poller.deadline_ms == self.target.deadline_ms
        &&& self.poller.interval_ms == self.target.interval_ms
        &&& self.phase is Polling ==> self.poller.state is Polling && self.wait_for_readiness
        &&& self.phase == BootPhase::Booted(BootReadiness::Observed(ReadinessOutcome::Ready))
            ==> self.poller.state is Ready
        &&& self.phase == BootPhase::Booted(BootReadiness::Observed(ReadinessOutcome::TimedOut))
            ==> self.poller.state is TimedOut
        &&& self.phase == BootPhase::Booted(BootReadiness::Skipped) ==> !self.wait_for_readiness
        &&& (self.phase is Idle || self.phase is AwaitingSpawn) ==> self.poller.elapsed_ms == 0
            && !(self.poller.state is Ready)
        &&& (self.phase is Idle || self.phase is AwaitingSpawn || self.phase is Aborted)
            ==> self.probes == 0
        &&& self.phase is Polling ==> self.probes <= self.poller.elapsed_ms
        &&& self.phase is Booted ==> self.probes <= self.poller.elapsed_ms + 1
    }

    /// A supervisor for one boot, idle, with a fresh poller and no probes
    /// made.
    pub fn new(sidecar: SidecarSpec, target: ReadinessTarget, wait_for_readiness: bool) -> (s:
        Supervisor)
        requires
            sidecar.wf(),
            target.wf(),
        ensures
            s.wf(),
            s.sidecar == sidecar,
            s.target == target,
            s.wait_for_readiness == wait_for_readiness,
            s.phase is Idle,
            s.probes == 0,
            s.poller.elapsed_ms == 0,
    {
        let poller = Poller::new(target.deadline_ms, target.interval_ms);
        Supervisor { sidecar, target, wait_for_readiness, phase: BootPhase::Idle, poller, probes: 0 }
    }

    /// Begins boot: the caller must now create the child process described
    /// by `sidecar` and report the result. Requested exactly once.
    pub fn start(&mut self)
        requires
            old(self).wf(),
            old(self).phase is Idle,
        ensures
            final(self).wf(),
            final(self).phase is AwaitingSpawn,
            final(self).sidecar == old(self).sidecar,
            final(self).target == old(self).target,
            final(self).wait_for_readiness == old(self).wait_for_readiness,
            final(self).poller == old(self).poller,
            final(self).probes == 0,
    {
        self.phase = BootPhase::AwaitingSpawn;
    }

    /// Records the outcome of the process creation. A failure aborts boot
    /// at once, with no probe ever made. A success moves on to readiness
    /// polling — unless the wait is switched off, or the deadline is zero,
    /// in which case the wait is already over, reported as timed out.
    pub fn on_spawn_result(&mut self, result: Result<(), SpawnError>)
        requires
            old(self).wf(),
            old(self).phase is AwaitingSpawn,
        ensures
            final(self).wf(),
            final(self).sidecar == old(self).sidecar,
            final(self).target == old(self).target,
            final(self).wait_for_readiness == old(self).wait_for_readiness,
            result matches Err(e) ==> final(self).phase == BootPhase::Aborted(e) && final(self).probes == 0,
            result is Ok && !old(self).wait_for_readiness ==> final(self).phase == BootPhase::Booted(BootReadiness::Skipped),
            result is Ok && old(self).wait_for_readiness && 0 < old(self).target.deadline_ms
                ==> final(self).phase is Polling && final(self).poller == old(self).poller,
            result is Ok && old(self).wait_for_readiness && old(self).target.deadline_ms == 0
                ==> final(self).phase == BootPhase::Booted(
                BootReadiness::Observed(ReadinessOutcome::TimedOut),
            ),
            result is Ok ==> final(self).probes == 0,
    {
        match result {
            Err(e) => {
                self.phase = BootPhase::Aborted(e);
            },
            Ok(()) => {
                if !self.wait_for_readiness {
                    self.phase = BootPhase::Booted(BootReadiness::Skipped);
                } else if self.target.deadline_ms == 0 {
                    self.phase = BootPhase::Booted(
                        BootReadiness::Observed(ReadinessOutcome::TimedOut),
                    );
                } else {
                    self.phase = BootPhase::Polling;
                }
            },
        }
    }

    /// Whether the caller should attempt one more connection probe against
    /// the target before reporting back.
    pub fn wants_probe(&self) -> (b: bool)
        ensures
            b == (self.phase is Polling),
    {
        match self.phase {
            BootPhase::Polling => true,
            _ => false,
        }
    }

    /// Records the outcome of one connection probe. A successful probe
    /// completes boot as `Ready`; a failed one costs one sleep interval and
    /// completes boot as `TimedOut` if that exhausts the budget.
    pub fn on_probe(&mut self, connected: bool)
        requires
            old(self).wf(),
            old(self).phase is Polling,
        ensures
            final(self).wf(),
            final(self).sidecar == old(self).sidecar,
            final(self).target == old(self).target,
            final(self).wait_for_readiness == old(self).wait_for_readiness,
            final(self).poller == old(self).poller.step_spec(connected),
            final(self).probes == old(self).probes + 1,
            connected ==> final(self).phase == BootPhase::Booted(
                BootReadiness::Observed(ReadinessOutcome::Ready),
            ),
            !connected && old(self).poller.elapsed_ms + old(self).poller.interval_ms < old(self).poller.deadline_ms ==> final(self).phase is Polling,
            !connected && old(self).poller.elapsed_ms + old(self).poller.interval_ms >= old(self).poller.deadline_ms ==> final(self).phase == BootPhase::Booted(
                BootReadiness::Observed(ReadinessOutcome::TimedOut),
            ),
    {
        let st = self.poller.step(connected);
        self.probes = self.probes + 1;
        match st {
            PollState::Polling => {},
            PollState::Ready => {
                self.phase = BootPhase::Booted(BootReadiness::Observed(ReadinessOutcome::Ready));
            },
            PollState::TimedOut => {
                self.phase = BootPhase::Booted(BootReadiness::Observed(ReadinessOutcome::TimedOut));
            },
        }
    }

    /// How boot ended, once it has: the readiness report after a successful
    /// spawn, or the fatal spawn error.
    pub fn boot_result(&self) -> (r: Option<Result<BootReadiness, SpawnError>>)
        ensures
            self.phase matches BootPhase::Booted(b) ==> r == Some(
                Ok::<BootReadiness, SpawnError>(b),
            ),
            self.phase matches BootPhase::Aborted(e) ==> r == Some(
                Err::<BootReadiness, SpawnError>(e),
            ),
            (self.phase is Idle || self.phase is AwaitingSpawn || self.phase is Polling) ==> r
                is None,
    {
        match self.phase {
            BootPhase::Booted(b) => Some(Ok(b)),
            BootPhase::Aborted(e) => Some(Err(e)),
            _ => None,
        }
    }

    /// Law: an aborted boot made no readiness probe at all — the spawn
    /// failure is reported before polling ever starts.
    pub proof fn lemma_aborted_boot_made_no_probes(self)
        requires
            self.wf(),
            self.phase is Aborted,
        ensures
            self.probes == 0,
    {
    }
}

} // verus!
