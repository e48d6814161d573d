//! The command dispatcher: interprets an inbound request's method and
//! payload, drives the state store and the pulse timer, and produces the
//! reply payload.
//!
//! `GET` reports the current state; `POST` with one of `ON`, `ON-PULSE`,
//! `OFF` sets it and echoes it; everything else is answered with the
//! sentinel `KO` and changes nothing. An `ON-PULSE` command additionally
//! asks the embedder to arm a one-shot timer that reverts the state to
//! `OFF` a fixed delay later.
//!
//! Each armed timer carries a generation token; arming any newer command
//! bumps the generation, so a stale timer's `OFF` write is a no-op. This
//! resolves the last-writer-wins hazard of an unconditional revert in
//! favour of the hardened design: a timer superseded by a later command has
//! no effect.

use vstd::prelude::*;
use crate::liveness::LivenessMonitor;
use crate::state::{spec_parse_state, parse_state, state_payload, ko_payload, ko_payload_vec, DeviceState};
use crate::store::StateStore;

verus! {

/// The method of an inbound request, as far as the dispatcher
/// distinguishes: `GET`, `POST`, or anything else.
#[derive(Clone, Copy, PartialEq, Eq, Structural, Debug)]
pub enum Method {
    Get,
    Post,
    Other,
}

/// A reply payload: a state's name, or the sentinel `KO`.
#[derive(Clone, Copy, PartialEq, Eq, Structural, Debug)]
pub enum Reply {
    State(DeviceState),
    Ko,
}

impl Reply {
    /// The payload bytes this reply is sent as.
    pub open spec fn spec_payload(&self) -> Seq<u8> {
        match self {
            Reply::State(s) => state_payload(*s),
            Reply::Ko => ko_payload(),
        }
    }

    /// Encodes the reply for the wire.
    pub fn payload(&self) -> (v: Vec<u8>)
        ensures
            v@ == self.spec_payload(),
    {
        match self {
            Reply::State(s) => s.payload(),
            Reply::Ko => ko_payload_vec(),
        }
    }
}

/// What the dispatcher decides for one request: the reply, the state to
/// write to the store (if any), and whether to arm a pulse timer.
#[derive(Clone, Copy, PartialEq, Eq, Structural, Debug)]
pub struct DispatchOutcome {
    pub reply: Reply,
    pub write: Option<DeviceState>,
    pub arm_pulse: bool,
}

/// The dispatch table, over plain values. `current` is the store's read
/// result; `None` stands for an unreadable store, answered `KO`.
pub open spec fn spec_dispatch(method: Method, payload: Seq<u8>, current: Option<DeviceState>) -> DispatchOutcome {
    match method {
        Method::Get => match current {
            Some(s) => DispatchOutcome { reply: Reply::State(s), write: None, arm_pulse: false },
            None => DispatchOutcome { reply: Reply::Ko, write: None, arm_pulse: false },
        },
        Method::Post => match spec_parse_state(payload) {
            Some(s) => DispatchOutcome {
                reply: Reply::State(s),
                write: Some(s),
                arm_pulse: s == DeviceState::OnPulse,
            },
            None => DispatchOutcome { reply: Reply::Ko, write: None, arm_pulse: false },
        },
        Method::Other => DispatchOutcome { reply: Reply::Ko, write: None, arm_pulse: false },
    }
}

/// Decides one request against the store's read result, without touching
/// any state: exactly the dispatch table.
pub fn dispatch(method: Method, payload: &[u8], current: Option<DeviceState>) -> (o: DispatchOutcome)
    ensures
        o == spec_dispatch(method, payload@, current),
{
    match method {
        Method::Get => match current {
            Some(s) => DispatchOutcome { reply: Reply::State(s), write: None, arm_pulse: false },
            None => DispatchOutcome { reply: Reply::Ko, write: None, arm_pulse: false },
        },
        Method::Post => match parse_state(payload) {
            Some(s) => DispatchOutcome {
                reply: Reply::State(s),
                write: Some(s),
                arm_pulse: s == DeviceState::OnPulse,
            },
            None => DispatchOutcome { reply: Reply::Ko, write: None, arm_pulse: false },
        },
        Method::Other => DispatchOutcome { reply: Reply::Ko, write: None, arm_pulse: false },
    }
}

/// One handled request, over plain values: the new state, the new pulse
/// generation, the reply, and the generation token of a timer to arm, if
/// any.
pub open spec fn spec_handle(state: DeviceState, generation: u64, method: Method, payload: Seq<u8>) -> (
    DeviceState,
    u64,
    Reply,
    Option<u64>,
) {
    let o = spec_dispatch(method, payload, Some(state));
    match o.write {
        Some(s) => (
            s,
            (generation + 1) as u64,
            o.reply,
            if o.arm_pulse {
                Some((generation + 1) as u64)
            } else {
                None
            },
        ),
        None => (state, generation, o.reply, None),
    }
}

/// The state after a pulse timer with token `token` fires: `OFF` if the
/// timer is still the most recently armed command, unchanged if it was
/// superseded.
pub open spec fn spec_pulse_fired(state: DeviceState, generation: u64, token: u64) -> DeviceState {
    if token == generation {
        DeviceState::Off
    } else {
        state
    }
}

/// What one handled request hands back to the embedder: the reply to send,
/// and the generation token of a pulse timer to arm, if any.
#[derive(Clone, Copy, PartialEq, Eq, Structural, Debug)]
pub struct RequestOutcome {
    pub reply: Reply,
    pub pulse: Option<u64>,
}

/// The device runtime: its state store and the generation counter that
/// invalidates superseded pulse timers.
pub struct Device {
    store: StateStore,
    generation: u64,
}

impl Device {
    /// The current device state.
    pub closed spec fn spec_state(&self) -> DeviceState {
        self.store.spec_state()
    }

    /// The generation of the most recently applied command.
    pub closed spec fn spec_generation(&self) -> u64 {
        self.generation
    }

    /// A device seeded with the coordinator's authoritative initial state.
    pub fn new(initial: DeviceState) -> (d: Device)
        ensures
            d.spec_state() == initial,
            d.spec_generation() == 0,
    {
        Device { store: StateStore::new(initial), generation: 0 }
    }

    /// The current state, for inspection and for mirroring to storage.
    pub fn state(&self) -> (s: DeviceState)
        ensures
            s == self.spec_state(),
    {
        self.store.read()
    }

    /// The current generation, for inspection.
    pub fn generation(&self) -> (g: u64)
        ensures
            g == self.spec_generation(),
    {
        self.generation
    }

    /// Handles one inbound request: dispatches it against the store,
    /// applies any write, and resets the liveness monitor's counter — every
    /// inbound request, valid or not, counts as contact (the reference
    /// behaviour; a stricter embedder could reset on valid requests only).
    pub fn handle_request(
        &mut self,
        monitor: &mut LivenessMonitor,
        method: Method,
        payload: &[u8],
    ) -> (r: RequestOutcome)
        requires
            old(self).spec_generation() < u64::MAX,
            old(monitor).wf(),
        ensures
            (final(self).spec_state(), final(self).spec_generation(), r.reply, r.pulse)
                == spec_handle(old(self).spec_state(), old(self).spec_generation(), method, payload@),
            final(monitor).spec_counter() == 0,
            final(monitor).spec_threshold() == old(monitor).spec_threshold(),
            final(monitor).spec_phase() == old(monitor).spec_phase(),
            final(monitor).wf(),
    {
        monitor.observe_request();
        let current = self.store.read();
        let o = dispatch(method, payload, Some(current));
        match o.write {
            Some(s) => {
                self.store.write(s);
                self.generation = self.generation + 1;
                RequestOutcome {
                    reply: o.reply,
                    pulse: if o.arm_pulse {
                        Some(self.generation)
                    } else {
                        None
                    },
                }
            },
            None => RequestOutcome { reply: o.reply, pulse: None },
        }
    }

    /// A pulse timer with token `token` fired: reverts the state to `OFF`
    /// unless a later command superseded the timer.
    pub fn pulse_fired(&mut self, token: u64)
        ensures
            final(self).spec_state() == spec_pulse_fired(
                old(self).spec_state(),
                old(self).spec_generation(),
                token,
            ),
            final(self).spec_generation() == old(self).spec_generation(),
    {
        if token == self.generation {
            self.store.write(DeviceState::Off);
        }
    }
}

/// A `POST` whose payload names no state is rejected with `KO` and changes
/// nothing: neither the state, nor the generation, and no timer is armed.
pub proof fn lemma_unknown_payload_rejected(
    state: DeviceState,
    generation: u64,
    payload: Seq<u8>,
)
    requires
        spec_parse_state(payload) is None,
    ensures
        spec_handle(state, generation, Method::Post, payload) == (
            state,
            generation,
            Reply::Ko,
            None::<u64>,
        ),
{
}

/// A request with any method other than `GET` or `POST` is rejected with
/// `KO` and changes nothing, whatever its payload.
pub proof fn lemma_unknown_method_rejected(
    state: DeviceState,
    generation: u64,
    payload: Seq<u8>,
)
    ensures
        spec_handle(state, generation, Method::Other, payload) == (
            state,
            generation,
            Reply::Ko,
            None::<u64>,
        ),
{
}

/// `POST ON` followed immediately by `GET` replies `ON`: the post echoes
/// `ON`, arms no timer, and the get reads the state the post wrote.
pub proof fn lemma_post_on_then_get(
    state: DeviceState,
    generation: u64,
    get_payload: Seq<u8>,
)
    ensures
        ({
            let posted = spec_handle(state, generation, Method::Post, crate::state::on_payload());
            &&& posted.2 == Reply::State(DeviceState::On)
            &&& posted.3 == None::<u64>
            &&& spec_handle(posted.0, posted.1, Method::Get, get_payload).2 == Reply::State(
                DeviceState::On,
            )
        }),
{
}

/// The pulse round trip. `POST ON-PULSE` echoes `ON-PULSE`, sets the state
/// to `ON-PULSE`, and arms a timer whose token is the new generation. A
/// `GET` before the timer fires replies `ON-PULSE`. When the timer fires
/// with no newer command in between, the state reverts to `OFF` and a `GET`
/// then replies `OFF`.
pub proof fn lemma_pulse_reverts(
    state: DeviceState,
    generation: u64,
    get_payload: Seq<u8>,
)
    ensures
        ({
            let posted = spec_handle(state, generation, Method::Post, crate::state::on_pulse_payload());
            &&& posted.0 == DeviceState::OnPulse
            &&& posted.2 == Reply::State(DeviceState::OnPulse)
            &&& posted.3 == Some(posted.1)
            &&& spec_handle(posted.0, posted.1, Method::Get, get_payload).2 == Reply::State(
                DeviceState::OnPulse,
            )
            &&& spec_pulse_fired(posted.0, posted.1, posted.1) == DeviceState::Off
            &&& spec_handle(DeviceState::Off, posted.1, Method::Get, get_payload).2 == Reply::State(
                DeviceState::Off,
            )
        }),
{
    assert(crate::state::on_payload().len() == 2);
    assert(crate::state::on_pulse_payload().len() == 8);
    assert(crate::state::off_payload().len() == 3);
}

/// A superseded pulse timer is a no-op: any command applied after the timer
/// was armed bumps the generation past the timer's token, so the timer's
/// firing leaves the state alone.
pub proof fn lemma_stale_pulse_is_noop(
    state: DeviceState,
    generation: u64,
    payload: Seq<u8>,
    token: u64,
)
    requires
        token <= generation < u64::MAX,
        spec_parse_state(payload) is Some,
    ensures
        ({
            let after = spec_handle(state, generation, Method::Post, payload);
            spec_pulse_fired(after.0, after.1, token) == after.0
        }),
{
}

} // verus!
