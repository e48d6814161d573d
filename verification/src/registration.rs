//! The registration client's pure half: interpreting the coordinator's
//! acknowledgment.
//!
//! The coordinator answers a registration request either with the sentinel
//! `KO` (a semantic rejection) or with an acknowledgment record carrying
//! the assigned identity and the authoritative initial state, written as a
//! JSON object with exactly the members `"id"` (an integer that fits a
//! signed 64-bit value) and `"state"` (a boolean), in either order, with
//! optional ASCII whitespace between tokens. Sending the request and
//! awaiting the reply is transport work and stays outside this crate; the
//! reply's bytes are handed in as plain values.

use vstd::prelude::*;
use crate::state::{lit_at, bytes_match_at, ko_payload, payload_eq, ko_payload_vec, DeviceState};

verus! {

/// JSON insignificant whitespace: space, tab, line feed, carriage return.
pub open spec fn is_ws(c: u8) -> bool {
    c == 32 || c == 9 || c == 10 || c == 13
}

/// An ASCII decimal digit.
pub open spec fn is_digit(c: u8) -> bool {
    48 <= c <= 57
}

/// The first position at or after `i` that holds no whitespace.
pub open spec fn skip_ws(s: Seq<u8>, i: int) -> int
    decreases s.len() - i when 0 <= i <= s.len()
{
    if i < s.len() && is_ws(s[i]) {
        skip_ws(s, i + 1)
    } else {
        i
    }
}

/// The first position at or after `i` that holds no digit.
pub open spec fn digits_end(s: Seq<u8>, i: int) -> int
    decreases s.len() - i when 0 <= i <= s.len()
{
    if i < s.len() && is_digit(s[i]) {
        digits_end(s, i + 1)
    } else {
        i
    }
}

pub proof fn lemma_digits_end_bounds(s: Seq<u8>, i: int)
    requires
        0 <= i <= s.len(),
    ensures
        i <= digits_end(s, i) <= s.len(),
        forall|k: int| i <= k < digits_end(s, i) ==> is_digit(s[k]),
    decreases s.len() - i,
{
    if i < s.len() && is_digit(s[i]) {
        lemma_digits_end_bounds(s, i + 1);
    }
}

/// The value of the decimal digit run `s[i..j)`.
pub open spec fn digits_value(s: Seq<u8>, i: int, j: int) -> int
    decreases j - i when i <= j
{
    if j <= i {
        0
    } else {
        digits_value(s, i, j - 1) * 10 + (s[j - 1] - 48)
    }
}

pub proof fn lemma_digits_value_nonneg(s: Seq<u8>, i: int, j: int)
    requires
        i <= j,
        forall|k: int| i <= k < j ==> is_digit(s[k]),
    ensures
        digits_value(s, i, j) >= 0,
    decreases j - i,
{
    if j > i {
        lemma_digits_value_nonneg(s, i, j - 1);
    }
}

/// A longer digit run never has a smaller value.
pub proof fn lemma_digits_value_monotone(s: Seq<u8>, i: int, j1: int, j2: int)
    requires
        i <= j1 <= j2,
        forall|k: int| i <= k < j2 ==> is_digit(s[k]),
    ensures
        digits_value(s, i, j2) >= digits_value(s, i, j1),
    decreases j2 - j1,
{
    if j2 > j1 {
        lemma_digits_value_monotone(s, i, j1, j2 - 1);
        lemma_digits_value_nonneg(s, i, j2 - 1);
    }
}

fn is_ws_byte(c: u8) -> (b: bool)
    ensures
        b == is_ws(c),
{
    c == 32 || c == 9 || c == 10 || c == 13
}

fn is_digit_byte(c: u8) -> (b: bool)
    ensures
        b == is_digit(c),
{
    48 <= c && c <= 57
}

/// Advances over whitespace.
fn skip_ws_exec(s: &[u8], i: usize) -> (r: usize)
    requires
        i <= s@.len(),
    ensures
        r as int == skip_ws(s@, i as int),
        i <= r <= s@.len(),
{
    let mut j = i;
    while j < s.len() && is_ws_byte(s[j])
        invariant
            i <= j <= s@.len(),
            skip_ws(s@, i as int) == skip_ws(s@, j as int),
        decreases s@.len() - j,
    {
        proof {
            assert(skip_ws(s@, j as int) == skip_ws(s@, j + 1));
        }
        j = j + 1;
    }
    j
}

/// Reads a run of decimal digits starting at `i` into a machine word.
/// `None` when there is no digit at `i`, or when the run's value does not
/// fit.
fn parse_digits(s: &[u8], i: usize) -> (r: Option<(u64, usize)>)
    requires
        i <= s@.len(),
    ensures
        ({
            let e = digits_end(s@, i as int);
            match r {
                Some(p) => i < p.1 && p.1 <= s@.len() && p.1 as int == e && p.0 as int
                    == digits_value(s@, i as int, e),
                None => e == i || digits_value(s@, i as int, e) > u64::MAX,
            }
        }),
{
    proof {
        lemma_digits_end_bounds(s@, i as int);
    }
    let mut j = i;
    let mut acc: u64 = 0;
    while j < s.len() && is_digit_byte(s[j])
        invariant
            i <= j <= s@.len(),
            digits_end(s@, i as int) == digits_end(s@, j as int),
            forall|k: int| i <= k < j ==> is_digit(s@[k]),
            acc as int == digits_value(s@, i as int, j as int),
        decreases s@.len() - j,
    {
        proof {
            assert(digits_end(s@, j as int) == digits_end(s@, j + 1));
        }
        let d: u64 = (s[j] - 48) as u64;
        let shifted = match acc.checked_mul(10) {
            Some(v) => v,
            None => {
                proof {
                    overflow_tail(s@, i as int, j as int, acc as int, d as int);
                }
                return None;
            },
        };
        let widened = match shifted.checked_add(d) {
            Some(v) => v,
            None => {
                proof {
                    overflow_tail(s@, i as int, j as int, acc as int, d as int);
                }
                return None;
            },
        };
        acc = widened;
        j = j + 1;
    }
    if j == i {
        None
    } else {
        Some((acc, j))
    }
}

/// When the accumulator would overflow at position `j`, the whole digit
/// run's value is out of range.
proof fn overflow_tail(s: Seq<u8>, i: int, j: int, acc: int, d: int)
    requires
        0 <= i <= j < s.len(),
        is_digit(s[j]),
        forall|k: int| i <= k < j ==> is_digit(s[k]),
        digits_end(s, i) == digits_end(s, j),
        acc == digits_value(s, i, j),
        d == s[j] - 48,
        acc * 10 + d > u64::MAX,
    ensures
        digits_value(s, i, digits_end(s, i)) > u64::MAX,
{
    lemma_digits_end_bounds(s, j + 1);
    assert(digits_end(s, j) == digits_end(s, j + 1));
    assert(digits_end(s, i) >= j + 1);
    assert(digits_value(s, i, j + 1) == acc * 10 + d);
    assert forall|k: int| i <= k < digits_end(s, i) implies is_digit(s[k]) by {
        if j + 1 <= k {
            assert(is_digit(s[k]));
        }
    }
    lemma_digits_value_monotone(s, i, j + 1, digits_end(s, i));
}

/// A signed decimal integer at `i`: an optional minus sign and a digit
/// run. `Some` exactly when there is at least one digit and the value fits
/// a signed 64-bit integer; the second component is the position after the
/// digits.
pub open spec fn spec_parse_int(s: Seq<u8>, i: int) -> Option<(int, int)> {
    let neg = i < s.len() && s[i] == 45;
    let st = if neg {
        i + 1
    } else {
        i
    };
    let e = digits_end(s, st);
    if e == st {
        None
    } else {
        let mag = digits_value(s, st, e);
        let v = if neg {
            -mag
        } else {
            mag
        };
        if i64::MIN <= v <= i64::MAX {
            Some((v, e))
        } else {
            None
        }
    }
}

/// Reads a signed decimal integer.
fn parse_int_exec(s: &[u8], i: usize) -> (r: Option<(i64, usize)>)
    requires
        i <= s@.len(),
    ensures
        match r {
            Some(p) => spec_parse_int(s@, i as int) == Some((p.0 as int, p.1 as int)) && i < p.1
                && p.1 <= s@.len(),
            None => spec_parse_int(s@, i as int) == None::<(int, int)>,
        },
{
    let neg = i < s.len() && s[i] == 45;
    let st = if neg {
        i + 1
    } else {
        i
    };
    proof {
        lemma_digits_end_bounds(s@, st as int);
    }
    match parse_digits(s, st) {
        None => {
            proof {
                let e = digits_end(s@, st as int);
                if e != st {
                    lemma_digits_end_bounds(s@, st as int);
                    lemma_digits_value_nonneg(s@, st as int, e);
                }
            }
            None
        },
        Some((mag, e)) => {
            if neg {
                if mag <= 9223372036854775807u64 {
                    Some((-(mag as i64), e))
                } else if mag == 9223372036854775808u64 {
                    Some((i64::MIN, e))
                } else {
                    None
                }
            } else {
                if mag <= 9223372036854775807u64 {
                    Some((mag as i64, e))
                } else {
                    None
                }
            }
        },
    }
}

/// The bytes of `"id"`, quotes included.
pub open spec fn id_key() -> Seq<u8> {
    seq![34u8, 105u8, 100u8, 34u8]
}

/// The bytes of `"state"`, quotes included.
pub open spec fn state_key() -> Seq<u8> {
    seq![34u8, 115u8, 116u8, 97u8, 116u8, 101u8, 34u8]
}

/// The bytes of `true`.
pub open spec fn true_lit() -> Seq<u8> {
    seq![116u8, 114u8, 117u8, 101u8]
}

/// The bytes of `false`.
pub open spec fn false_lit() -> Seq<u8> {
    seq![102u8, 97u8, 108u8, 115u8, 101u8]
}

fn id_key_vec() -> (v: Vec<u8>)
    ensures
        v@ == id_key(),
{
    let mut v: Vec<u8> = Vec::new();
    v.push(34);
    v.push(105);
    v.push(100);
    v.push(34);
    proof {
        assert(v@ =~= id_key());
    }
    v
}

fn state_key_vec() -> (v: Vec<u8>)
    ensures
        v@ == state_key(),
{
    let mut v: Vec<u8> = Vec::new();
    v.push(34);
    v.push(115);
    v.push(116);
    v.push(97);
    v.push(116);
    v.push(101);
    v.push(34);
    proof {
        assert(v@ =~= state_key());
    }
    v
}

fn true_lit_vec() -> (v: Vec<u8>)
    ensures
        v@ == true_lit(),
{
    let mut v: Vec<u8> = Vec::new();
    v.push(116);
    v.push(114);
    v.push(117);
    v.push(101);
    proof {
        assert(v@ =~= true_lit());
    }
    v
}

fn false_lit_vec() -> (v: Vec<u8>)
    ensures
        v@ == false_lit(),
{
    let mut v: Vec<u8> = Vec::new();
    v.push(102);
    v.push(97);
    v.push(108);
    v.push(115);
    v.push(101);
    proof {
        assert(v@ =~= false_lit());
    }
    v
}

/// A boolean literal at `i`.
pub open spec fn spec_parse_bool(s: Seq<u8>, i: int) -> Option<(bool, int)> {
    if lit_at(s, i, true_lit()) {
        Some((true, i + 4))
    } else if lit_at(s, i, false_lit()) {
        Some((false, i + 5))
    } else {
        None
    }
}

fn parse_bool_exec(s: &[u8], i: usize) -> (r: Option<(bool, usize)>)
    requires
        i <= s@.len(),
    ensures
        match r {
            Some(p) => spec_parse_bool(s@, i as int) == Some((p.0, p.1 as int)) && p.1 <= s@.len(),
            None => spec_parse_bool(s@, i as int) == None::<(bool, int)>,
        },
{
    let n = s.len();
    let t = true_lit_vec();
    if bytes_match_at(s, i, t.as_slice()) {
        proof {
            assert(true_lit().len() == 4);
            assert(i + 4 <= n);
        }
        return Some((true, i + 4));
    }
    let f = false_lit_vec();
    if bytes_match_at(s, i, f.as_slice()) {
        proof {
            assert(false_lit().len() == 5);
            assert(i + 5 <= n);
        }
        return Some((false, i + 5));
    }
    None
}

/// The `"id"` member at `i`: the key, a colon, and an integer, with
/// optional whitespace around the colon. `Some` holds the value and the
/// position after it.
pub open spec fn spec_parse_id_member(s: Seq<u8>, i: int) -> Option<(int, int)> {
    if !lit_at(s, i, id_key()) {
        None
    } else {
        let j = skip_ws(s, i + 4);
        if j < s.len() && s[j] == 58 {
            spec_parse_int(s, skip_ws(s, j + 1))
        } else {
            None
        }
    }
}

/// The `"state"` member at `i`: the key, a colon, and a boolean.
pub open spec fn spec_parse_state_member(s: Seq<u8>, i: int) -> Option<(bool, int)> {
    if !lit_at(s, i, state_key()) {
        None
    } else {
        let j = skip_ws(s, i + 7);
        if j < s.len() && s[j] == 58 {
            spec_parse_bool(s, skip_ws(s, j + 1))
        } else {
            None
        }
    }
}

fn parse_id_member(s: &[u8], i: usize) -> (r: Option<(i64, usize)>)
    requires
        i <= s@.len(),
    ensures
        match r {
            Some(p) => spec_parse_id_member(s@, i as int) == Some((p.0 as int, p.1 as int)) && p.1
                <= s@.len(),
            None => spec_parse_id_member(s@, i as int) == None::<(int, int)>,
        },
{
    let key = id_key_vec();
    if !bytes_match_at(s, i, key.as_slice()) {
        return None;
    }
    let n = s.len();
    proof {
        assert(id_key().len() == 4);
        assert(i + 4 <= n);
    }
    let j = skip_ws_exec(s, i + 4);
    if j < s.len() && s[j] == 58 {
        let k = skip_ws_exec(s, j + 1);
        parse_int_exec(s, k)
    } else {
        None
    }
}

fn parse_state_member(s: &[u8], i: usize) -> (r: Option<(bool, usize)>)
    requires
        i <= s@.len(),
    ensures
        match r {
            Some(p) => spec_parse_state_member(s@, i as int) == Some((p.0, p.1 as int)) && p.1
                <= s@.len(),
            None => spec_parse_state_member(s@, i as int) == None::<(bool, int)>,
        },
{
    let key = state_key_vec();
    if !bytes_match_at(s, i, key.as_slice()) {
        return None;
    }
    let n = s.len();
    proof {
        assert(state_key().len() == 7);
        assert(i + 7 <= n);
    }
    let j = skip_ws_exec(s, i + 7);
    if j < s.len() && s[j] == 58 {
        let k = skip_ws_exec(s, j + 1);
        parse_bool_exec(s, k)
    } else {
        None
    }
}

/// A comma at `i`, with optional whitespace before and after: `Some` holds
/// the position after the whitespace that follows it.
pub open spec fn spec_comma(s: Seq<u8>, i: int) -> Option<int> {
    let j = skip_ws(s, i);
    if j < s.len() && s[j] == 44 {
        Some(skip_ws(s, j + 1))
    } else {
        None
    }
}

fn comma_exec(s: &[u8], i: usize) -> (r: Option<usize>)
    requires
        i <= s@.len(),
    ensures
        match r {
            Some(p) => spec_comma(s@, i as int) == Some(p as int) && p <= s@.len(),
            None => spec_comma(s@, i as int) == None::<int>,
        },
{
    let j = skip_ws_exec(s, i);
    if j < s.len() && s[j] == 44 {
        Some(skip_ws_exec(s, j + 1))
    } else {
        None
    }
}

/// The coordinator's acknowledgment: the assigned identity and the
/// authoritative initial state.
#[derive(Clone, Copy, PartialEq, Eq, Structural, Debug)]
pub struct RegistrationResponse {
    pub id: i64,
    pub state: bool,
}

/// The closing brace at `i` and nothing but whitespace after it.
pub open spec fn spec_close(s: Seq<u8>, i: int, id: int, state: bool) -> Option<RegistrationResponse> {
    let j = skip_ws(s, i);
    if j < s.len() && s[j] == 125 && skip_ws(s, j + 1) == s.len() {
        Some(RegistrationResponse { id: id as i64, state })
    } else {
        None
    }
}

fn close_exec(s: &[u8], i: usize, id: i64, state: bool) -> (r: Option<RegistrationResponse>)
    requires
        i <= s@.len(),
    ensures
        r == spec_close(s@, i as int, id as int, state),
{
    let j = skip_ws_exec(s, i);
    if j < s.len() && s[j] == 125 {
        let k = skip_ws_exec(s, j + 1);
        if k == s.len() {
            Some(RegistrationResponse { id, state })
        } else {
            None
        }
    } else {
        None
    }
}

/// The acknowledgment grammar: optional whitespace, `{`, the `"id"` and
/// `"state"` members in either order separated by a comma, `}`, optional
/// whitespace, end of input.
pub open spec fn spec_parse_response(s: Seq<u8>) -> Option<RegistrationResponse> {
    let i0 = skip_ws(s, 0);
    if !(i0 < s.len() && s[i0] == 123) {
        None
    } else {
        let i1 = skip_ws(s, i0 + 1);
        match spec_parse_id_member(s, i1) {
            Some(p_id) => match spec_comma(s, p_id.1) {
                Some(i3) => match spec_parse_state_member(s, i3) {
                    Some(p_st) => spec_close(s, p_st.1, p_id.0, p_st.0),
                    None => None,
                },
                None => None,
            },
            None => match spec_parse_state_member(s, i1) {
                Some(p_st) => match spec_comma(s, p_st.1) {
                    Some(i3) => match spec_parse_id_member(s, i3) {
                        Some(p_id) => spec_close(s, p_id.1, p_id.0, p_st.0),
                        None => None,
                    },
                    None => None,
                },
                None => None,
            },
        }
    }
}

/// Parses the coordinator's acknowledgment: `Some` exactly for the texts
/// of the acknowledgment grammar, with the identity and initial state they
/// carry.
pub fn parse_registration_response(s: &[u8]) -> (r: Option<RegistrationResponse>)
    ensures
        r == spec_parse_response(s@),
{
    let i0 = skip_ws_exec(s, 0);
    if i0 == s.len() {
        return None;
    }
    if s[i0] != 123 {
        return None;
    }
    let i1 = skip_ws_exec(s, i0 + 1);
    match parse_id_member(s, i1) {
        Some((id, i2)) => match comma_exec(s, i2) {
            Some(i3) => match parse_state_member(s, i3) {
                Some((st, i4)) => close_exec(s, i4, id, st),
                None => None,
            },
            None => None,
        },
        None => match parse_state_member(s, i1) {
            Some((st, i2)) => match comma_exec(s, i2) {
                Some(i3) => match parse_id_member(s, i3) {
                    Some((id, i4)) => close_exec(s, i4, id, st),
                    None => None,
                },
                None => None,
            },
            None => None,
        },
    }
}

/// The registration request sent to the coordinator at startup and again
/// on every re-registration: the device's network identity and its static
/// capability flags. Constructed once and immutable thereafter; its JSON
/// encoding and transmission are the embedder's transport work.
#[derive(Clone, Debug)]
pub struct RegistrationRequest {
    pub ip_address: String,
    pub port: i16,
    pub online: bool,
    pub state: bool,
    pub pulse_capable: bool,
}

impl RegistrationRequest {
    /// The request a device announces itself with: online, initially off,
    /// and pulse-capable as read from the local marker.
    pub fn new(ip_address: String, port: i16, pulse_capable: bool) -> (r: RegistrationRequest)
        ensures
            r.ip_address@ == ip_address@,
            r.port == port,
            r.online == true,
            r.state == false,
            r.pulse_capable == pulse_capable,
    {
        RegistrationRequest { ip_address, port, online: true, state: false, pulse_capable }
    }
}

/// Why a (re)registration attempt yielded no acknowledgment.
#[derive(Clone, Copy, PartialEq, Eq, Structural, Debug)]
pub enum RegistrationError {
    /// The coordinator answered with the sentinel `KO`.
    Rejected,
    /// The transport could not deliver the request or a reply.
    Unreachable,
    /// A reply arrived but was not an acknowledgment of the grammar.
    Malformed,
}

/// How a registration attempt's raw outcome reads: `None` stands for a
/// transport-level failure, `Some` for the reply's payload bytes.
pub open spec fn spec_interpret_reply(reply: Option<Seq<u8>>) -> Result<
    RegistrationResponse,
    RegistrationError,
> {
    match reply {
        None => Err(RegistrationError::Unreachable),
        Some(p) => if p == ko_payload() {
            Err(RegistrationError::Rejected)
        } else {
            match spec_parse_response(p) {
                Some(resp) => Ok(resp),
                None => Err(RegistrationError::Malformed),
            }
        },
    }
}

/// Interprets a registration attempt's raw outcome: `None` for a transport
/// failure, `Some` for the reply's payload.
pub fn interpret_registration_reply(reply: Option<&Vec<u8>>) -> (r: Result<
    RegistrationResponse,
    RegistrationError,
>)
    ensures
        r == spec_interpret_reply(
            match reply {
                Some(v) => Some(v@),
                None => None,
            },
        ),
{
    match reply {
        None => Err(RegistrationError::Unreachable),
        Some(v) => {
            let ko = ko_payload_vec();
            if payload_eq(v.as_slice(), ko.as_slice()) {
                Err(RegistrationError::Rejected)
            } else {
                match parse_registration_response(v.as_slice()) {
                    Some(resp) => Ok(resp),
                    None => Err(RegistrationError::Malformed),
                }
            }
        },
    }
}

/// The state the coordinator's acknowledgment seeds: `ON` if its boolean
/// is true, else `OFF`.
pub open spec fn spec_initial_state(resp: RegistrationResponse) -> DeviceState {
    if resp.state {
        DeviceState::On
    } else {
        DeviceState::Off
    }
}

/// The authoritative initial device state carried by an acknowledgment.
pub fn initial_state(resp: &RegistrationResponse) -> (s: DeviceState)
    ensures
        s == spec_initial_state(*resp),
{
    if resp.state {
        DeviceState::On
    } else {
        DeviceState::Off
    }
}

/// What first boot does with the registration attempt's outcome.
#[derive(Clone, Copy, PartialEq, Eq, Structural, Debug)]
pub enum BootOutcome {
    /// Start serving, seeded with the acknowledgment.
    Start(RegistrationResponse, DeviceState),
    /// Do not start the server.
    Abort(RegistrationError),
}

/// First boot's policy: only an acknowledgment lets the server start, and
/// it seeds the initial state; a rejection, an unreachable coordinator or
/// a malformed reply is fatal — there is no safe default identity or
/// state.
pub open spec fn spec_first_boot(reply: Option<Seq<u8>>) -> BootOutcome {
    match spec_interpret_reply(reply) {
        Ok(resp) => BootOutcome::Start(resp, spec_initial_state(resp)),
        Err(e) => BootOutcome::Abort(e),
    }
}

/// Decides first boot from the registration attempt's raw outcome.
pub fn first_boot_decision(reply: Option<&Vec<u8>>) -> (d: BootOutcome)
    ensures
        d == spec_first_boot(
            match reply {
                Some(v) => Some(v@),
                None => None,
            },
        ),
{
    match interpret_registration_reply(reply) {
        Ok(resp) => {
            let s = initial_state(&resp);
            BootOutcome::Start(resp, s)
        },
        Err(e) => BootOutcome::Abort(e),
    }
}

/// Whether a re-registration attempt counts as renewed contact: any reply
/// at all does, the sentinel `KO` included — the coordinator was heard
/// from — while a transport failure does not. No outcome is fatal once
/// the server runs.
pub fn reregistration_succeeded(reply: Option<&Vec<u8>>) -> (s: bool)
    ensures
        s == (reply is Some),
{
    match reply {
        Some(_) => true,
        None => false,
    }
}

/// A `KO` acknowledgment is fatal exactly at first boot. Bootstrap answers
/// it by refusing to start the server; during re-registration the same
/// reply resolves the in-flight attempt and returns the monitor to
/// watching — the re-registration path has no outcome that stops the
/// serving loop.
pub proof fn lemma_ko_fatal_only_at_boot(counter: u64, success: bool)
    ensures
        spec_first_boot(Some(ko_payload())) == BootOutcome::Abort(RegistrationError::Rejected),
        crate::liveness::spec_registration_result(counter, success).1
            == crate::liveness::MonitorPhase::Watching,
{
}

} // verus!
