use baby_rocs::sender::{
    sender_endpoints, EndpointPlan, GateAction, Interface, Protocol, TransmitGate,
};

const MS: u64 = 1_000_000;

#[test]
fn quiet_frames_send_nothing_while_closed() {
    let mut gate = TransmitGate::new(0);
    for t in 1..5 {
        assert_eq!(gate.step(false, false, t * 10 * MS, 100 * MS), GateAction::Hold);
        assert!(!gate.is_sending());
    }
    assert_eq!(gate.first_silent_ns, 0);
}

#[test]
fn loud_frame_opens_then_sends() {
    let mut gate = TransmitGate::new(0);
    assert_eq!(gate.step(false, true, 10 * MS, 100 * MS), GateAction::Open);
    assert!(gate.is_sending());
    assert_eq!(gate.step(false, true, 20 * MS, 100 * MS), GateAction::Send);
    assert_eq!(gate.first_silent_ns, 20 * MS);
}

#[test]
fn bypass_counts_as_loud() {
    let mut gate = TransmitGate::new(0);
    assert_eq!(gate.step(true, false, 10 * MS, 100 * MS), GateAction::Open);
    assert_eq!(gate.step(true, false, 500 * MS, 100 * MS), GateAction::Send);
}

#[test]
fn silence_shorter_than_timeout_keeps_sending() {
    let mut gate = TransmitGate::new(0);
    gate.step(false, true, 10 * MS, 100 * MS);
    for t in [20, 50, 109] {
        assert_eq!(gate.step(false, false, t * MS, 100 * MS), GateAction::Send);
        assert!(gate.is_sending());
    }
}

#[test]
fn silence_reaching_timeout_closes() {
    let mut gate = TransmitGate::new(0);
    gate.step(false, true, 10 * MS, 100 * MS);
    assert_eq!(gate.step(false, false, 60 * MS, 100 * MS), GateAction::Send);
    assert_eq!(gate.step(false, false, 110 * MS, 100 * MS), GateAction::Close);
    assert!(!gate.is_sending());
    assert_eq!(gate.step(false, false, 120 * MS, 100 * MS), GateAction::Hold);
    assert_eq!(gate.step(false, true, 130 * MS, 100 * MS), GateAction::Open);
}

#[test]
fn loud_frame_restarts_silence_clock() {
    let mut gate = TransmitGate::new(0);
    gate.step(false, true, 10 * MS, 100 * MS);
    gate.step(false, true, 90 * MS, 100 * MS);
    assert_eq!(gate.step(false, false, 150 * MS, 100 * MS), GateAction::Send);
    assert_eq!(gate.step(false, false, 190 * MS, 100 * MS), GateAction::Close);
}

#[test]
fn zero_timeout_closes_on_first_quiet_frame() {
    let mut gate = TransmitGate::new(0);
    gate.step(false, true, 10, 0);
    assert_eq!(gate.step(false, false, 10, 0), GateAction::Close);
}

#[test]
fn clock_reading_earlier_counts_as_no_silence() {
    let mut gate = TransmitGate::new(0);
    gate.step(false, true, 500, 100);
    assert_eq!(gate.step(false, false, 100, 100), GateAction::Send);
}

#[test]
fn endpoints_source_only() {
    assert_eq!(
        sender_endpoints(10001, None, None),
        vec![EndpointPlan {
            interface: Interface::AudioSource,
            protocol: Protocol::RtpRs8mSource,
            port: 10001
        }]
    );
}

#[test]
fn endpoints_in_connection_order() {
    assert_eq!(
        sender_endpoints(10001, Some(10002), Some(10003)),
        vec![
            EndpointPlan {
                interface: Interface::AudioSource,
                protocol: Protocol::RtpRs8mSource,
                port: 10001
            },
            EndpointPlan { interface: Interface::AudioControl, protocol: Protocol::Rtcp, port: 10003 },
            EndpointPlan {
                interface: Interface::AudioRepair,
                protocol: Protocol::Rs8mRepair,
                port: 10002
            },
        ]
    );
    assert_eq!(sender_endpoints(1, Some(2), None).len(), 2);
    assert_eq!(sender_endpoints(1, Some(2), None)[1].protocol, Protocol::Rs8mRepair);
}
