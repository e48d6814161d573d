use actuator_core::dispatch::{Device, Method, Reply};
use actuator_core::liveness::LivenessMonitor;
use actuator_core::registration::{
    first_boot_decision, initial_state, interpret_registration_reply, parse_registration_response,
    reregistration_succeeded, BootOutcome, RegistrationError, RegistrationRequest,
    RegistrationResponse,
};
use actuator_core::state::DeviceState;

fn parse(s: &str) -> Option<RegistrationResponse> {
    parse_registration_response(s.as_bytes())
}

#[test]
fn acknowledgment_with_true_state_boots_on() {
    let reply = b"{\"id\": 7, \"state\": true}".to_vec();
    let parsed = parse_registration_response(&reply);
    assert_eq!(parsed, Some(RegistrationResponse { id: 7, state: true }));

    match first_boot_decision(Some(&reply)) {
        BootOutcome::Start(resp, initial) => {
            assert_eq!(resp.id, 7);
            assert!(resp.state);
            assert_eq!(initial, DeviceState::On);
            assert_eq!(initial.payload(), b"ON".to_vec());

            let mut d = Device::new(initial);
            let mut m = LivenessMonitor::new(60);
            let g = d.handle_request(&mut m, Method::Get, b"");
            assert_eq!(g.reply, Reply::State(DeviceState::On));
        }
        BootOutcome::Abort(e) => panic!("boot must start, aborted with {:?}", e),
    }
}

#[test]
fn acknowledgment_with_false_state_boots_off() {
    let resp = RegistrationResponse { id: 3, state: false };
    assert_eq!(initial_state(&resp), DeviceState::Off);
}

#[test]
fn ko_at_first_boot_prevents_the_server_from_starting() {
    let reply = b"KO".to_vec();
    assert_eq!(
        first_boot_decision(Some(&reply)),
        BootOutcome::Abort(RegistrationError::Rejected)
    );
}

#[test]
fn ko_during_reregistration_leaves_the_server_running() {
    let reply = b"KO".to_vec();
    assert!(reregistration_succeeded(Some(&reply)));

    let mut m = LivenessMonitor::new(1);
    m.tick();
    m.tick();
    let _ = m.tick();
    let backoff = m.registration_result(reregistration_succeeded(Some(&reply)));
    assert!(!backoff);
    assert_eq!(m.counter(), 0);
}

#[test]
fn transport_failure_is_unreachable() {
    assert_eq!(
        first_boot_decision(None),
        BootOutcome::Abort(RegistrationError::Unreachable)
    );
    assert_eq!(
        interpret_registration_reply(None),
        Err(RegistrationError::Unreachable)
    );
    assert!(!reregistration_succeeded(None));
}

#[test]
fn malformed_acknowledgment_is_fatal_at_boot() {
    let reply = b"not json at all".to_vec();
    assert_eq!(
        first_boot_decision(Some(&reply)),
        BootOutcome::Abort(RegistrationError::Malformed)
    );
    let empty_object = b"{}".to_vec();
    assert_eq!(
        interpret_registration_reply(Some(&empty_object)),
        Err(RegistrationError::Malformed)
    );
}

#[test]
fn members_parse_in_either_order() {
    assert_eq!(
        parse("{\"state\": false, \"id\": -12}"),
        Some(RegistrationResponse { id: -12, state: false })
    );
    assert_eq!(
        parse("{\"id\":-12,\"state\":false}"),
        Some(RegistrationResponse { id: -12, state: false })
    );
}

#[test]
fn whitespace_is_insignificant() {
    assert_eq!(
        parse("  {\t\"id\" : 42 ,\n \"state\" : false }\r\n"),
        Some(RegistrationResponse { id: 42, state: false })
    );
    assert_eq!(
        parse("{\"id\":1,\"state\":true}"),
        Some(RegistrationResponse { id: 1, state: true })
    );
}

#[test]
fn incomplete_or_extra_members_are_rejected() {
    assert_eq!(parse("{\"id\": 7}"), None);
    assert_eq!(parse("{\"state\": true}"), None);
    assert_eq!(parse("{\"id\": 1, \"id\": 2}"), None);
    assert_eq!(parse("{\"state\": true, \"state\": false}"), None);
    assert_eq!(parse("{\"id\": 1, \"state\": true, \"extra\": 2}"), None);
    assert_eq!(parse("{}"), None);
    assert_eq!(parse(""), None);
}

#[test]
fn malformed_values_are_rejected() {
    assert_eq!(parse("{\"id\": x, \"state\": true}"), None);
    assert_eq!(parse("{\"id\": 1, \"state\": 1}"), None);
    assert_eq!(parse("{\"id\": -, \"state\": true}"), None);
    assert_eq!(parse("{\"id\": 1, \"state\": True}"), None);
    assert_eq!(parse("{\"id\": 1 \"state\": true}"), None);
    assert_eq!(parse("{\"id\": 1, \"state\": true} x"), None);
    assert_eq!(parse("{\"id\": 1, \"state\": true"), None);
}

#[test]
fn id_range_limits() {
    assert_eq!(
        parse("{\"id\": 9223372036854775807, \"state\": true}"),
        Some(RegistrationResponse { id: i64::MAX, state: true })
    );
    assert_eq!(
        parse("{\"id\": -9223372036854775808, \"state\": true}"),
        Some(RegistrationResponse { id: i64::MIN, state: true })
    );
    assert_eq!(parse("{\"id\": 9223372036854775808, \"state\": true}"), None);
    assert_eq!(parse("{\"id\": -9223372036854775809, \"state\": true}"), None);
    assert_eq!(parse("{\"id\": 99999999999999999999999, \"state\": true}"), None);
}

#[test]
fn registration_request_announces_online_and_off() {
    let r = RegistrationRequest::new(String::from("10.0.0.9"), 5684, true);
    assert_eq!(r.ip_address, "10.0.0.9");
    assert_eq!(r.port, 5684);
    assert!(r.online);
    assert!(!r.state);
    assert!(r.pulse_capable);
}

#[test]
fn ko_is_rejected_not_malformed() {
    let reply = b"KO".to_vec();
    assert_eq!(
        interpret_registration_reply(Some(&reply)),
        Err(RegistrationError::Rejected)
    );
}
