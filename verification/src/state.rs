//! The device's observable state and the payload strings that name it.
//!
//! The command endpoint speaks a fixed vocabulary of ASCII payloads:
//! `ON`, `ON-PULSE`, `OFF` for commands and persisted state, and the
//! sentinel `KO` for rejected requests.

use vstd::prelude::*;

verus! {

/// The device's observable status. Exactly these three values are ever
/// persisted, as the payload strings `ON`, `ON-PULSE` and `OFF`.
#[derive(Clone, Copy, PartialEq, Eq, Structural, Debug)]
pub enum DeviceState {
    Off,
    On,
    OnPulse,
}

/// Payload bytes of `ON`.
pub open spec fn on_payload() -> Seq<u8> {
    seq![79u8, 78u8]
}

/// Payload bytes of `ON-PULSE`.
pub open spec fn on_pulse_payload() -> Seq<u8> {
    seq![79u8, 78u8, 45u8, 80u8, 85u8, 76u8, 83u8, 69u8]
}

/// Payload bytes of `OFF`.
pub open spec fn off_payload() -> Seq<u8> {
    seq![79u8, 70u8, 70u8]
}

/// Payload bytes of the sentinel reply `KO`.
pub open spec fn ko_payload() -> Seq<u8> {
    seq![75u8, 79u8]
}

/// The payload string under which a state is reported and persisted.
pub open spec fn state_payload(s: DeviceState) -> Seq<u8> {
    match s {
        DeviceState::On => on_payload(),
        DeviceState::OnPulse => on_pulse_payload(),
        DeviceState::Off => off_payload(),
    }
}

/// Which state a payload names: `Some` exactly for `ON`, `ON-PULSE`, `OFF`.
pub open spec fn spec_parse_state(p: Seq<u8>) -> Option<DeviceState> {
    if p == on_payload() {
        Some(DeviceState::On)
    } else if p == on_pulse_payload() {
        Some(DeviceState::OnPulse)
    } else if p == off_payload() {
        Some(DeviceState::Off)
    } else {
        None
    }
}

/// `lit` occurs in `s` at position `i`.
pub open spec fn lit_at(s: Seq<u8>, i: int, lit: Seq<u8>) -> bool {
    &&& 0 <= i
    &&& i + lit.len() <= s.len()
    &&& s.subrange(i, i + lit.len()) == lit
}

/// Compares the bytes of `s` at position `i` against `lit`.
pub fn bytes_match_at(s: &[u8], i: usize, lit: &[u8]) -> (b: bool)
    ensures
        b == lit_at(s@, i as int, lit@),
{
    if i > s.len() || s.len() - i < lit.len() {
        return false;
    }
    let mut k: usize = 0;
    while k < lit.len()
        invariant
            k <= lit.len(),
            i + lit.len() <= s.len(),
            forall|j: int| 0 <= j < k ==> s@[i + j] == lit@[j],
        decreases lit.len() - k,
    {
        if s[i + k] != lit[k] {
            proof {
                assert(s@.subrange(i as int, i + lit@.len())[k as int] != lit@[k as int]);
            }
            return false;
        }
        k += 1;
    }
    proof {
        assert(s@.subrange(i as int, i + lit@.len()) =~= lit@);
    }
    true
}

/// Whole-payload equality against a literal.
pub fn payload_eq(p: &[u8], lit: &[u8]) -> (b: bool)
    ensures
        b == (p@ == lit@),
{
    if p.len() != lit.len() {
        proof {
            if p@ == lit@ {
                assert(p@.len() == lit@.len());
            }
        }
        return false;
    }
    let r = bytes_match_at(p, 0, lit);
    proof {
        assert(p@.subrange(0, lit@.len() as int) =~= p@);
    }
    r
}

/// The bytes of `ON`.
pub fn on_payload_vec() -> (v: Vec<u8>)
    ensures
        v@ == on_payload(),
{
    let mut v: Vec<u8> = Vec::new();
    v.push(79);
    v.push(78);
    proof {
        assert(v@ =~= on_payload());
    }
    v
}

/// The bytes of `ON-PULSE`.
pub fn on_pulse_payload_vec() -> (v: Vec<u8>)
    ensures
        v@ == on_pulse_payload(),
{
    let mut v: Vec<u8> = Vec::new();
    v.push(79);
    v.push(78);
    v.push(45);
    v.push(80);
    v.push(85);
    v.push(76);
    v.push(83);
    v.push(69);
    proof {
        assert(v@ =~= on_pulse_payload());
    }
    v
}

/// The bytes of `OFF`.
pub fn off_payload_vec() -> (v: Vec<u8>)
    ensures
        v@ == off_payload(),
{
    let mut v: Vec<u8> = Vec::new();
    v.push(79);
    v.push(70);
    v.push(70);
    proof {
        assert(v@ =~= off_payload());
    }
    v
}

/// The bytes of the sentinel `KO`.
pub fn ko_payload_vec() -> (v: Vec<u8>)
    ensures
        v@ == ko_payload(),
{
    let mut v: Vec<u8> = Vec::new();
    v.push(75);
    v.push(79);
    proof {
        assert(v@ =~= ko_payload());
    }
    v
}

impl DeviceState {
    /// The payload string under which this state is reported and persisted.
    pub fn payload(&self) -> (v: Vec<u8>)
        ensures
            v@ == state_payload(*self),
    {
        match self {
            DeviceState::On => on_payload_vec(),
            DeviceState::OnPulse => on_pulse_payload_vec(),
            DeviceState::Off => off_payload_vec(),
        }
    }
}

/// Parses a payload into the state it names; `Some` exactly for the three
/// strings of the vocabulary.
pub fn parse_state(p: &[u8]) -> (r: Option<DeviceState>)
    ensures
        r == spec_parse_state(p@),
{
    let on = on_payload_vec();
    if payload_eq(p, on.as_slice()) {
        return Some(DeviceState::On);
    }
    let on_pulse = on_pulse_payload_vec();
    if payload_eq(p, on_pulse.as_slice()) {
        return Some(DeviceState::OnPulse);
    }
    let off = off_payload_vec();
    if payload_eq(p, off.as_slice()) {
        return Some(DeviceState::Off);
    }
    None
}

} // verus!
