use actuator_core::dispatch::{dispatch, Device, Method, Reply};
use actuator_core::liveness::LivenessMonitor;
use actuator_core::state::{parse_state, DeviceState};

fn fresh(initial: DeviceState) -> (Device, LivenessMonitor) {
    (Device::new(initial), LivenessMonitor::new(60))
}

#[test]
fn post_on_then_get_returns_on() {
    let (mut d, mut m) = fresh(DeviceState::Off);
    let r = d.handle_request(&mut m, Method::Post, b"ON");
    assert_eq!(r.reply, Reply::State(DeviceState::On));
    assert_eq!(r.reply.payload(), b"ON".to_vec());
    assert_eq!(r.pulse, None);
    let g = d.handle_request(&mut m, Method::Get, b"");
    assert_eq!(g.reply, Reply::State(DeviceState::On));
}

#[test]
fn post_off_sets_off() {
    let (mut d, mut m) = fresh(DeviceState::On);
    let r = d.handle_request(&mut m, Method::Post, b"OFF");
    assert_eq!(r.reply, Reply::State(DeviceState::Off));
    assert_eq!(d.state(), DeviceState::Off);
    assert_eq!(r.pulse, None);
}

#[test]
fn unknown_post_payload_replies_ko_and_changes_nothing() {
    let (mut d, mut m) = fresh(DeviceState::On);
    let r = d.handle_request(&mut m, Method::Post, b"BLAH");
    assert_eq!(r.reply, Reply::Ko);
    assert_eq!(r.reply.payload(), b"KO".to_vec());
    assert_eq!(r.pulse, None);
    assert_eq!(d.state(), DeviceState::On);
}

#[test]
fn lowercase_payload_is_rejected() {
    let (mut d, mut m) = fresh(DeviceState::Off);
    let r = d.handle_request(&mut m, Method::Post, b"on");
    assert_eq!(r.reply, Reply::Ko);
    assert_eq!(d.state(), DeviceState::Off);
}

#[test]
fn unknown_method_replies_ko_and_changes_nothing() {
    let (mut d, mut m) = fresh(DeviceState::On);
    let r = d.handle_request(&mut m, Method::Other, b"ON");
    assert_eq!(r.reply, Reply::Ko);
    assert_eq!(r.pulse, None);
    assert_eq!(d.state(), DeviceState::On);
}

#[test]
fn pulse_round_trip() {
    let (mut d, mut m) = fresh(DeviceState::Off);
    let r = d.handle_request(&mut m, Method::Post, b"ON-PULSE");
    assert_eq!(r.reply, Reply::State(DeviceState::OnPulse));
    assert_eq!(r.reply.payload(), b"ON-PULSE".to_vec());
    let token = r.pulse.expect("a pulse timer must be armed");

    let before = d.handle_request(&mut m, Method::Get, b"");
    assert_eq!(before.reply, Reply::State(DeviceState::OnPulse));

    d.pulse_fired(token);
    let after = d.handle_request(&mut m, Method::Get, b"");
    assert_eq!(after.reply, Reply::State(DeviceState::Off));
}

#[test]
fn superseded_pulse_timer_is_a_no_op() {
    let (mut d, mut m) = fresh(DeviceState::Off);
    let r = d.handle_request(&mut m, Method::Post, b"ON-PULSE");
    let token = r.pulse.expect("a pulse timer must be armed");

    let _ = d.handle_request(&mut m, Method::Post, b"ON");
    d.pulse_fired(token);
    assert_eq!(d.state(), DeviceState::On);
}

#[test]
fn refreshed_pulse_timer_wins() {
    let (mut d, mut m) = fresh(DeviceState::Off);
    let first = d.handle_request(&mut m, Method::Post, b"ON-PULSE");
    let stale = first.pulse.unwrap();
    let second = d.handle_request(&mut m, Method::Post, b"ON-PULSE");
    let live = second.pulse.unwrap();

    d.pulse_fired(stale);
    assert_eq!(d.state(), DeviceState::OnPulse);
    d.pulse_fired(live);
    assert_eq!(d.state(), DeviceState::Off);
}

#[test]
fn every_request_resets_the_liveness_counter() {
    let (mut d, mut m) = fresh(DeviceState::Off);
    for _ in 0..5 {
        m.tick();
    }
    assert_eq!(m.counter(), 5);
    let _ = d.handle_request(&mut m, Method::Post, b"NOT-A-COMMAND");
    assert_eq!(m.counter(), 0);
}

#[test]
fn get_with_unreadable_store_replies_ko() {
    let o = dispatch(Method::Get, b"", None);
    assert_eq!(o.reply, Reply::Ko);
    assert_eq!(o.write, None);
    assert!(!o.arm_pulse);
}

#[test]
fn dispatch_table_rows() {
    let o = dispatch(Method::Get, b"", Some(DeviceState::On));
    assert_eq!(o.reply, Reply::State(DeviceState::On));
    assert_eq!(o.write, None);
    assert!(!o.arm_pulse);

    let o = dispatch(Method::Post, b"OFF", Some(DeviceState::On));
    assert_eq!(o.reply, Reply::State(DeviceState::Off));
    assert_eq!(o.write, Some(DeviceState::Off));
    assert!(!o.arm_pulse);

    let o = dispatch(Method::Post, b"ON-PULSE", Some(DeviceState::Off));
    assert_eq!(o.reply, Reply::State(DeviceState::OnPulse));
    assert_eq!(o.write, Some(DeviceState::OnPulse));
    assert!(o.arm_pulse);

    let o = dispatch(Method::Post, b"", Some(DeviceState::Off));
    assert_eq!(o.reply, Reply::Ko);
    assert_eq!(o.write, None);
}

#[test]
fn payload_vocabulary() {
    assert_eq!(parse_state(b"ON"), Some(DeviceState::On));
    assert_eq!(parse_state(b"ON-PULSE"), Some(DeviceState::OnPulse));
    assert_eq!(parse_state(b"OFF"), Some(DeviceState::Off));
    assert_eq!(parse_state(b""), None);
    assert_eq!(parse_state(b"ON "), None);
    assert_eq!(parse_state(b"ONPULSE"), None);
    assert_eq!(DeviceState::On.payload(), b"ON".to_vec());
    assert_eq!(DeviceState::OnPulse.payload(), b"ON-PULSE".to_vec());
    assert_eq!(DeviceState::Off.payload(), b"OFF".to_vec());
}
