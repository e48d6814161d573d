//! The liveness monitor: a counter of elapsed ticks since the last contact
//! with the coordinator, and the two-phase state machine that decides when
//! to re-register.
//!
//! The monitor is ticked once per second by the embedder, independently of
//! request arrival. While the counter is at or below the timeout threshold a
//! tick counts up; the first tick past the threshold asks for exactly one
//! re-registration and blocks further requests until the attempt's outcome
//! is reported. The command dispatcher resets the counter on every inbound
//! request; the embedder must guard the shared monitor with a mutex, since
//! the tick loop and the request handler run concurrently.

use vstd::prelude::*;

verus! {

/// Ticks without inbound contact after which re-registration is due.
pub const TIMEOUT_THRESHOLD: u64 = 60;

/// The monitor's phase: counting up, or blocked on an in-flight
/// re-registration call.
#[derive(Clone, Copy, PartialEq, Eq, Structural, Debug)]
pub enum MonitorPhase {
    Watching,
    Reregistering,
}

/// What one tick asks the embedder to do.
#[derive(Clone, Copy, PartialEq, Eq, Structural, Debug)]
pub enum TickDecision {
    /// Below the threshold: nothing to do, the counter moved up.
    Counted,
    /// The threshold was exceeded: invoke the registration client once and
    /// report its outcome through `registration_result`.
    Reregister,
    /// A re-registration is already in flight: nothing to do.
    InFlight,
}

/// One tick of the monitor, over plain values: the new counter, the new
/// phase, and the decision.
pub open spec fn spec_tick(counter: u64, threshold: u64, phase: MonitorPhase) -> (
    u64,
    MonitorPhase,
    TickDecision,
) {
    match phase {
        MonitorPhase::Watching => if counter > threshold {
            (counter, MonitorPhase::Reregistering, TickDecision::Reregister)
        } else {
            ((counter + 1) as u64, MonitorPhase::Watching, TickDecision::Counted)
        },
        MonitorPhase::Reregistering => (counter, MonitorPhase::Reregistering, TickDecision::InFlight),
    }
}

/// How a reported re-registration outcome changes the monitor: the new
/// counter and the new phase. Success resets the counter; failure keeps it,
/// so the next tick retries (after the embedder's backoff). Either way the
/// monitor returns to watching — no outcome stops the serving loop.
pub open spec fn spec_registration_result(counter: u64, success: bool) -> (u64, MonitorPhase) {
    (if success { 0u64 } else { counter }, MonitorPhase::Watching)
}

/// The monitor of elapsed time since the coordinator was last heard from.
pub struct LivenessMonitor {
    counter: u64,
    threshold: u64,
    phase: MonitorPhase,
}

impl LivenessMonitor {
    /// Elapsed ticks since the last contact.
    pub closed spec fn spec_counter(&self) -> u64 {
        self.counter
    }

    /// The timeout threshold the counter is compared against.
    pub closed spec fn spec_threshold(&self) -> u64 {
        self.threshold
    }

    /// The monitor's phase.
    pub closed spec fn spec_phase(&self) -> MonitorPhase {
        self.phase
    }

    /// The counter never runs more than one past the threshold, and one more
    /// tick can always be counted without overflow.
    pub open spec fn wf(&self) -> bool {
        &&& self.spec_counter() <= self.spec_threshold() + 1
        &&& self.spec_threshold() < u64::MAX
    }

    /// A fresh monitor: watching, with nothing elapsed.
    pub fn new(threshold: u64) -> (m: LivenessMonitor)
        requires
            threshold < u64::MAX,
        ensures
            m.spec_counter() == 0,
            m.spec_threshold() == threshold,
            m.spec_phase() == MonitorPhase::Watching,
            m.wf(),
    {
        LivenessMonitor { counter: 0, threshold, phase: MonitorPhase::Watching }
    }

    /// The counter, for inspection.
    pub fn counter(&self) -> (c: u64)
        ensures
            c == self.spec_counter(),
    {
        self.counter
    }

    /// The phase, for inspection.
    pub fn phase(&self) -> (p: MonitorPhase)
        ensures
            p == self.spec_phase(),
    {
        self.phase
    }

    /// One tick of the monitor's own schedule.
    pub fn tick(&mut self) -> (d: TickDecision)
        requires
            old(self).wf(),
        ensures
            (final(self).spec_counter(), final(self).spec_phase(), d) == spec_tick(
                old(self).spec_counter(),
                old(self).spec_threshold(),
                old(self).spec_phase(),
            ),
            final(self).spec_threshold() == old(self).spec_threshold(),
            final(self).wf(),
    {
        match self.phase {
            MonitorPhase::Watching => {
                if self.counter > self.threshold {
                    self.phase = MonitorPhase::Reregistering;
                    TickDecision::Reregister
                } else {
                    self.counter = self.counter + 1;
                    TickDecision::Counted
                }
            },
            MonitorPhase::Reregistering => TickDecision::InFlight,
        }
    }

    /// Reports the outcome of the re-registration the monitor asked for.
    /// Returns whether the embedder should back off (sleep about one
    /// threshold window) before the next tick, to avoid hot-looping against
    /// an unreachable coordinator.
    pub fn registration_result(&mut self, success: bool) -> (backoff: bool)
        requires
            old(self).wf(),
            old(self).spec_phase() == MonitorPhase::Reregistering,
        ensures
            (final(self).spec_counter(), final(self).spec_phase()) == spec_registration_result(
                old(self).spec_counter(),
                success,
            ),
            final(self).spec_threshold() == old(self).spec_threshold(),
            final(self).wf(),
            backoff == !success,
    {
        self.phase = MonitorPhase::Watching;
        if success {
            self.counter = 0;
            false
        } else {
            true
        }
    }

    /// The dispatcher's observation of an inbound request: the coordinator's
    /// network reached us, so nothing has elapsed. Resets the counter and
    /// changes nothing else.
    pub fn observe_request(&mut self)
        requires
            old(self).wf(),
        ensures
            final(self).spec_counter() == 0,
            final(self).spec_threshold() == old(self).spec_threshold(),
            final(self).spec_phase() == old(self).spec_phase(),
            final(self).wf(),
    {
        self.counter = 0;
    }
}

/// The monitor after `n` consecutive ticks with no inbound request: the
/// counter and the phase.
pub open spec fn spec_run_ticks(counter: u64, threshold: u64, phase: MonitorPhase, n: nat) -> (
    u64,
    MonitorPhase,
)
    decreases n,
{
    if n == 0 {
        (counter, phase)
    } else {
        let prev = spec_run_ticks(counter, threshold, phase, (n - 1) as nat);
        let step = spec_tick(prev.0, threshold, prev.1);
        (step.0, step.1)
    }
}

/// How many of `n` consecutive ticks asked for a re-registration.
pub open spec fn spec_reregister_count(counter: u64, threshold: u64, phase: MonitorPhase, n: nat) -> nat
    decreases n,
{
    if n == 0 {
        0
    } else {
        let prev = spec_run_ticks(counter, threshold, phase, (n - 1) as nat);
        let step = spec_tick(prev.0, threshold, prev.1);
        spec_reregister_count(counter, threshold, phase, (n - 1) as nat) + if step.2
            == TickDecision::Reregister {
            1nat
        } else {
            0nat
        }
    }
}

/// After `n` consecutive ticks with no inbound request, a fresh monitor asks
/// for re-registration exactly once — never while `n` is within the timeout
/// threshold, and exactly once as soon as `n` exceeds it — and a successful
/// outcome resets the counter to zero.
pub proof fn lemma_timeout_reregisters_once(threshold: u64, n: nat)
    requires
        threshold < u64::MAX,
    ensures
        n <= threshold + 1 ==> {
            &&& spec_run_ticks(0, threshold, MonitorPhase::Watching, n).0 == n
            &&& spec_run_ticks(0, threshold, MonitorPhase::Watching, n).1 == MonitorPhase::Watching
            &&& spec_reregister_count(0, threshold, MonitorPhase::Watching, n) == 0
        },
        n > threshold + 1 ==> {
            &&& spec_run_ticks(0, threshold, MonitorPhase::Watching, n).1
                == MonitorPhase::Reregistering
            &&& spec_reregister_count(0, threshold, MonitorPhase::Watching, n) == 1
        },
        forall|c: u64| (#[trigger] spec_registration_result(c, true)).0 == 0,
    decreases n,
{
    if n > 0 {
        lemma_timeout_reregisters_once(threshold, (n - 1) as nat);
    }
}

} // verus!
