//! Bounded readiness polling: starting from a freshly spawned backend, the
//! poller decides after each connection probe whether the service is ready,
//! whether the deadline has passed, or whether to sleep one interval and
//! probe again. Time is modelled in milliseconds; the caller performs the
//! actual connection attempts and sleeps, and reports each probe's outcome.

use vstd::prelude::*;

verus! {

/// How a completed readiness wait ended: the service accepted a connection
/// before the deadline, or the deadline elapsed with no successful probe.
#[derive(Clone, Copy, Debug, PartialEq, Eq, Structural)]
pub enum ReadinessOutcome {
    Ready,
    TimedOut,
}

/// The poller's state: still probing, or resolved one way or the other.
/// There are exactly two terminal states and no re-entry once terminal.
#[derive(Clone, Copy, Debug, PartialEq, Eq, Structural)]
pub enum PollState {
    Polling,
    Ready,
    TimedOut,
}

/// Where and how long to probe: a host/port pair, a wall-clock budget for
/// the whole wait, and the fixed sleep between failed probes.
#[derive(Debug)]
pub struct ReadinessTarget {
    pub host: String,
    pub port: u16,
    pub deadline_ms: u64,
    pub interval_ms: u64,
}

impl ReadinessTarget {
    /// A target is well formed when the interval is positive (each failed
    /// probe advances time) and one interval past the deadline still fits
    /// in the millisecond counter.
    pub open spec fn wf(self) -> bool {
        &&& 1 <= self.interval_ms
        &&& self.deadline_ms + self.interval_ms <= u64::MAX
    }

    /// Builds a target, rejecting parameter combinations that are not well
    /// formed: a zero interval, or a deadline so large that the elapsed
    /// counter could overflow.
    pub fn new(host: String, port: u16, deadline_ms: u64, interval_ms: u64) -> (r: Option<
        ReadinessTarget,
    >)
        ensures
            r is Some <==> (1 <= interval_ms && deadline_ms + interval_ms <= u64::MAX),
            r matches Some(t) ==> t.host@ == host@ && t.port == port && t.deadline_ms
                == deadline_ms && t.interval_ms == interval_ms && t.wf(),
    {
        if interval_ms >= 1 && deadline_ms <= u64::MAX - interval_ms {
            Some(ReadinessTarget { host, port, deadline_ms, interval_ms })
        } else {
            None
        }
    }
}

impl Default for ReadinessTarget {
    /// The default probe target: the loopback backend port, a ten-second
    /// deadline and a tenth-of-a-second interval.
    fn default() -> (t: ReadinessTarget)
        ensures
            t.wf(),
            t.host@ == "127.0.0.1"@,
            t.port == 3001,
            t.deadline_ms == 10000,
            t.interval_ms == 100,
    {
        ReadinessTarget {
            host: String::from_str("127.0.0.1"),
            port: 3001,
            deadline_ms: 10000,
            interval_ms: 100,
        }
    }
}

/// The readiness poller. `elapsed_ms` counts simulated wall-clock time from
/// the start of polling: every failed probe costs one sleep interval, a
/// successful probe costs nothing. Probes themselves are instantaneous in
/// this model; their network cost is outside the budget, as is the spawn.
#[derive(Clone, Copy, Debug, PartialEq, Eq, Structural)]
pub struct Poller {
    pub deadline_ms: u64,
    pub interval_ms: u64,
    pub elapsed_ms: u64,
    pub state: PollState,
}

impl Poller {
    /// The poller's invariant. While polling, time is strictly inside the
    /// budget; a timeout is reported within one interval past the deadline;
    /// readiness is only ever reported inside the budget.
    pub open spec fn wf(self) -> bool {
        &&& 1 <= self.interval_ms
        &&& self.deadline_ms + self.interval_ms <= u64::MAX
        &&& self.state is Polling ==> self.elapsed_ms < self.deadline_ms
        &&& self.state is Ready ==> self.elapsed_ms < self.deadline_ms
        &&& self.state is TimedOut ==> self.deadline_ms <= self.elapsed_ms
            < self.deadline_ms + self.interval_ms
    }

    /// A fresh poller for the given budget. With a zero deadline the wait
    /// is over before the first probe: the poller is born timed out.
    pub fn new(deadline_ms: u64, interval_ms: u64) -> (p: Poller)
        requires
            1 <= interval_ms,
            deadline_ms + interval_ms <= u64::MAX,
        ensures
            p.wf(),
            p.deadline_ms == deadline_ms,
            p.interval_ms == interval_ms,
            p.elapsed_ms == 0,
            p.state is Polling <==> 0 < deadline_ms,
            p.state is TimedOut <==> deadline_ms == 0,
    {
        if deadline_ms == 0 {
            Poller { deadline_ms, interval_ms, elapsed_ms: 0, state: PollState::TimedOut }
        } else {
            Poller { deadline_ms, interval_ms, elapsed_ms: 0, state: PollState::Polling }
        }
    }

    /// Whether another connection probe should be attempted.
    pub fn should_probe(&self) -> (b: bool)
        ensures
            b == (self.state is Polling),
    {
        match self.state {
            PollState::Polling => true,
            _ => false,
        }
    }

    /// The poller one probe later: a successful probe resolves to `Ready` at
    /// the current instant; a failed one costs one sleep interval and times
    /// out if that exhausts the budget.
    pub open spec fn step_spec(self, connected: bool) -> Poller {
        if connected {
            Poller { state: PollState::Ready, ..self }
        } else {
            let bumped = (self.elapsed_ms + self.interval_ms) as u64;
            if bumped >= self.deadline_ms {
                Poller { elapsed_ms: bumped, state: PollState::TimedOut, ..self }
            } else {
                Poller { elapsed_ms: bumped, state: PollState::Polling, ..self }
            }
        }
    }

    /// Records the outcome of one connection probe and returns the state the
    /// poller is in afterwards.
    pub fn step(&mut self, connected: bool) -> (st: PollState)
        requires
            old(self).wf(),
            old(self).state is Polling,
        ensures
            final(self).wf(),
            *final(self) == old(self).step_spec(connected),
            st == final(self).state,
            connected ==> final(self).state is Ready && final(self).elapsed_ms == old(
                self,
            ).elapsed_ms,
            !connected ==> final(self).elapsed_ms == old(self).elapsed_ms + old(self).interval_ms,
            !connected ==> (final(self).state is Polling <==> old(self).elapsed_ms + old(
                self,
            ).interval_ms < old(self).deadline_ms),
            !connected ==> (final(self).state is TimedOut <==> old(self).elapsed_ms + old(
                self,
            ).interval_ms >= old(self).deadline_ms),
    {
        if connected {
            self.state = PollState::Ready;
        } else {
            self.elapsed_ms = self.elapsed_ms + self.interval_ms;
            if self.elapsed_ms >= self.deadline_ms {
                self.state = PollState::TimedOut;
            }
        }
        self.state
    }

    /// A pure model of a whole wait against a listener that starts accepting
    /// connections `bind_ms` after polling begins: a probe made at elapsed
    /// time `e` succeeds exactly when `bind_ms <= e`. The model runs the
    /// poller probe by probe until it resolves.
    pub open spec fn run_with_bind(self, bind_ms: u64) -> Poller
        decreases self.deadline_ms - self.elapsed_ms,
        when self.wf()
    {
        if self.state is Polling {
            if self.elapsed_ms >= bind_ms {
                self.step_spec(true)
            } else {
                let after = self.step_spec(false);
                if after.state is Polling {
                    after.run_with_bind(bind_ms)
                } else {
                    after
                }
            }
        } else {
            self
        }
    }

    /// Law: a listener that is already accepting connections when polling
    /// starts is seen by the very first probe, so the wait resolves `Ready`
    /// with no time spent sleeping.
    pub proof fn lemma_ready_on_first_probe(self, bind_ms: u64)
        requires
            self.wf(),
            self.state is Polling,
            self.elapsed_ms == 0,
            bind_ms == 0,
        ensures
            self.run_with_bind(bind_ms).state is Ready,
            self.run_with_bind(bind_ms).elapsed_ms == 0,
    {
    }

    /// Law: against a listener that never starts accepting connections
    /// before the deadline, every probe fails and the wait resolves
    /// `TimedOut`, at an elapsed time within one interval of the deadline.
    pub proof fn lemma_never_bound_times_out(self, bind_ms: u64)
        requires
            self.wf(),
            self.state is Polling,
            self.deadline_ms <= bind_ms,
        ensures
            self.run_with_bind(bind_ms).state is TimedOut,
            self.deadline_ms <= self.run_with_bind(bind_ms).elapsed_ms < self.deadline_ms
                + self.interval_ms,
        decreases self.deadline_ms - self.elapsed_ms,
    {
        let after = self.step_spec(false);
        if after.state is Polling {
            after.lemma_never_bound_times_out(bind_ms);
        }
    }

    /// Law: against a listener that starts accepting connections at
    /// `bind_ms`, with at least one whole interval left before the deadline,
    /// the wait resolves `Ready` within one interval of that instant — not
    /// at the deadline. The elapsed-time precondition is met by any fresh
    /// poller, whose elapsed time is zero.
    pub proof fn lemma_bind_before_deadline_ready_within_interval(self, bind_ms: u64)
        requires
            self.wf(),
            self.state is Polling,
            self.elapsed_ms < bind_ms + self.interval_ms,
            bind_ms + self.interval_ms <= self.deadline_ms,
        ensures
            self.run_with_bind(bind_ms).state is Ready,
            bind_ms <= self.run_with_bind(bind_ms).elapsed_ms < bind_ms + self.interval_ms,
        decreases self.deadline_ms - self.elapsed_ms,
    {
        if self.elapsed_ms < bind_ms {
            let after = self.step_spec(false);
            after.lemma_bind_before_deadline_ready_within_interval(bind_ms);
        }
    }

    /// Law: whenever the poller has timed out, the elapsed time lies within
    /// one poll interval of the configured deadline.
    pub proof fn lemma_timeout_within_one_interval(self)
        requires
            self.wf(),
            self.state is TimedOut,
        ensures
            self.deadline_ms <= self.elapsed_ms < self.deadline_ms + self.interval_ms,
    {
    }

    /// Law: readiness is only ever reported strictly inside the budget —
    /// never at or past the deadline.
    pub proof fn lemma_ready_within_deadline(self)
        requires
            self.wf(),
            self.state is Ready,
        ensures
            self.elapsed_ms < self.deadline_ms,
    {
    }

    /// The resolution, if the wait is over.
    pub fn outcome(&self) -> (o: Option<ReadinessOutcome>)
        ensures
            self.state is Polling ==> o is None,
            self.state is Ready ==> o == Some(ReadinessOutcome::Ready),
            self.state is TimedOut ==> o == Some(ReadinessOutcome::TimedOut),
    {
        match self.state {
            PollState::Polling => None,
            PollState::Ready => Some(ReadinessOutcome::Ready),
            PollState::TimedOut => Some(ReadinessOutcome::TimedOut),
        }
    }
}

} // verus!
