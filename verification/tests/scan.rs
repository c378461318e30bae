use dobby::message::{Delivery, Inbound, ProtocolViolation, Subscription};
use dobby::scan::{
    read_heartbeat, Discovery, FinishReason, ScanAction, ScanController, ScanEvent, ScanPhase,
};

fn heartbeat(topic: &str, payload: &str) -> Inbound {
    Inbound::Publish { topic: topic.to_string(), payload: payload.as_bytes().to_vec() }
}

fn message(elapsed_s: u64, inbound: Inbound) -> ScanEvent {
    ScanEvent::Message { elapsed_s, inbound }
}

fn scanning(root: &str, duration_s: u64) -> ScanController {
    let mut scan = ScanController::new(root, duration_s);
    assert_eq!(
        scan.step(ScanEvent::Begin),
        ScanAction::Subscribe(Subscription::to(format!("{}/+/heartbeat", root)))
    );
    assert_eq!(scan.step(ScanEvent::Subscribed), ScanAction::StartClock);
    assert_eq!(scan.phase(), ScanPhase::Scanning);
    scan
}

fn discovery(device: &str, uptime: u32, d: u64, h: u64, m: u64, s: u64) -> ScanAction {
    ScanAction::Announce(Discovery {
        device: device.to_string(),
        uptime,
        days: d,
        hours: h,
        minutes: m,
        seconds: s,
    })
}

#[test]
fn a_scan_goes_from_idle_to_subscribed_to_scanning() {
    let mut scan = ScanController::new("root", 10);
    assert_eq!(scan.phase(), ScanPhase::Idle);
    assert_eq!(scan.duration_s(), 10);
    assert!(scan.registry().is_empty());
    assert_eq!(
        scan.step(ScanEvent::Begin),
        ScanAction::Subscribe(Subscription {
            topic: "root/+/heartbeat".to_string(),
            delivery: Delivery::AtMostOnce
        })
    );
    assert_eq!(scan.phase(), ScanPhase::Subscribed);
    assert_eq!(scan.step(ScanEvent::Subscribed), ScanAction::StartClock);
    assert_eq!(scan.phase(), ScanPhase::Scanning);
    assert!(!scan.is_finished());
}

#[test]
fn three_heartbeats_discover_two_devices() {
    let mut scan = scanning("root", 3600);
    let actions = vec![
        scan.step(message(0, heartbeat("root/dev1/heartbeat", "1000"))),
        scan.step(message(1, heartbeat("root/dev2/heartbeat", "2000"))),
        scan.step(message(2, heartbeat("root/dev1/heartbeat", "5000"))),
    ];
    assert_eq!(
        actions,
        vec![
            discovery("dev1", 1000, 0, 0, 0, 1),
            discovery("dev2", 2000, 0, 0, 0, 2),
            ScanAction::Continue,
        ]
    );
    assert_eq!(scan.registry().device_names(), vec!["dev1", "dev2"]);
    assert_eq!(scan.registry().uptime_of("dev1"), Some(5000));
    assert_eq!(scan.registry().uptime_of("dev2"), Some(2000));
    assert_eq!(scan.registry().len(), 2);
    assert_eq!(scan.phase(), ScanPhase::Scanning);
}

#[test]
fn a_scan_of_zero_seconds_processes_nothing() {
    let mut scan = scanning("root", 0);
    assert_eq!(
        scan.step(message(0, heartbeat("root/dev1/heartbeat", "1000"))),
        ScanAction::Finish(FinishReason::TimeLimitReached)
    );
    assert!(scan.is_finished());
    assert!(scan.registry().is_empty());
    assert_eq!(
        scan.step(message(0, heartbeat("root/dev2/heartbeat", "2000"))),
        ScanAction::Rejected
    );
    assert!(scan.registry().is_empty());
}

#[test]
fn a_message_at_the_limit_is_dropped() {
    let mut scan = scanning("root", 10);
    assert_eq!(
        scan.step(message(9, heartbeat("root/dev1/heartbeat", "1000"))),
        discovery("dev1", 1000, 0, 0, 0, 1)
    );
    assert_eq!(
        scan.step(message(10, heartbeat("root/dev2/heartbeat", "2000"))),
        ScanAction::Finish(FinishReason::TimeLimitReached)
    );
    assert!(scan.is_finished());
    assert_eq!(scan.registry().device_names(), vec!["dev1"]);
    // the scan is over for good, whatever the clock says afterwards
    assert_eq!(
        scan.step(message(1, heartbeat("root/dev3/heartbeat", "3000"))),
        ScanAction::Rejected
    );
    assert_eq!(scan.registry().device_names(), vec!["dev1"]);
}

#[test]
fn the_clock_is_read_before_the_message() {
    let mut scan = scanning("root", 5);
    // late and malformed: the time limit wins, nothing is read
    assert_eq!(
        scan.step(message(5, heartbeat("root/dev1/heartbeat", "not a number"))),
        ScanAction::Finish(FinishReason::TimeLimitReached)
    );
    let mut scan = scanning("root", 5);
    assert_eq!(
        scan.step(message(7, Inbound::Other)),
        ScanAction::Finish(FinishReason::TimeLimitReached)
    );
    assert!(scan.is_finished());
}

#[test]
fn other_events_of_the_transport_are_passed_over() {
    let mut scan = scanning("root", 5);
    assert_eq!(scan.step(message(0, Inbound::Other)), ScanAction::Continue);
    assert_eq!(scan.phase(), ScanPhase::Scanning);
    assert!(scan.registry().is_empty());
}

#[test]
fn a_payload_that_is_no_number_aborts_the_scan() {
    let mut scan = scanning("root", 60);
    scan.step(message(0, heartbeat("root/dev1/heartbeat", "1000")));
    assert_eq!(
        scan.step(message(1, heartbeat("root/dev2/heartbeat", "soon"))),
        ScanAction::Abort(ProtocolViolation::UptimeNotANumber { payload: "soon".to_string() })
    );
    assert!(scan.is_finished());
    assert_eq!(scan.registry().device_names(), vec!["dev1"]);
    assert_eq!(
        scan.step(message(2, heartbeat("root/dev3/heartbeat", "3000"))),
        ScanAction::Rejected
    );
}

#[test]
fn a_payload_that_is_not_utf8_aborts_the_scan() {
    let mut scan = scanning("root", 60);
    let inbound =
        Inbound::Publish { topic: "root/dev1/heartbeat".to_string(), payload: vec![b'1', 0xFF] };
    assert_eq!(
        scan.step(message(0, inbound)),
        ScanAction::Abort(ProtocolViolation::UptimeNotANumber {
            payload: "1\u{FFFD}".to_string()
        })
    );
    assert!(scan.registry().is_empty());
}

#[test]
fn a_topic_without_a_device_aborts_the_scan() {
    let mut scan = scanning("root", 60);
    assert_eq!(
        scan.step(message(0, heartbeat("heartbeat", "1000"))),
        ScanAction::Abort(ProtocolViolation::TopicWithoutDevice { topic: "heartbeat".to_string() })
    );
    assert!(scan.is_finished());
}

#[test]
fn the_end_of_the_stream_ends_the_scan() {
    let mut scan = scanning("root", 60);
    scan.step(message(0, heartbeat("root/dev1/heartbeat", "1000")));
    assert_eq!(scan.step(ScanEvent::StreamEnded), ScanAction::Finish(FinishReason::StreamEnded));
    assert!(scan.is_finished());
    assert_eq!(scan.registry().uptime_of("dev1"), Some(1000));
}

#[test]
fn events_out_of_their_phase_are_rejected() {
    let mut scan = ScanController::new("root", 60);
    assert_eq!(scan.step(ScanEvent::Subscribed), ScanAction::Rejected);
    assert_eq!(
        scan.step(message(0, heartbeat("root/dev1/heartbeat", "1000"))),
        ScanAction::Rejected
    );
    assert_eq!(scan.step(ScanEvent::StreamEnded), ScanAction::Rejected);
    assert_eq!(scan.phase(), ScanPhase::Idle);
    assert!(scan.registry().is_empty());
    scan.step(ScanEvent::Begin);
    assert_eq!(scan.step(ScanEvent::Begin), ScanAction::Rejected);
    assert_eq!(scan.step(message(0, Inbound::Other)), ScanAction::Rejected);
    assert_eq!(scan.phase(), ScanPhase::Subscribed);
    scan.step(ScanEvent::Subscribed);
    assert_eq!(scan.step(ScanEvent::Begin), ScanAction::Rejected);
    assert_eq!(scan.step(ScanEvent::Subscribed), ScanAction::Rejected);
    assert_eq!(scan.phase(), ScanPhase::Scanning);
}

#[test]
fn a_decoded_heartbeat_is_taken_like_a_message() {
    let mut scan = scanning("root", 60);
    assert_eq!(
        scan.on_heartbeat(3, "root/dev1/heartbeat", "90061000"),
        discovery("dev1", 90_061_000, 1, 1, 1, 1)
    );
    assert_eq!(scan.on_heartbeat(4, "root/dev1/heartbeat", "90062000"), ScanAction::Continue);
    assert_eq!(
        scan.on_heartbeat(60, "root/dev2/heartbeat", "1"),
        ScanAction::Finish(FinishReason::TimeLimitReached)
    );
    assert_eq!(scan.on_heartbeat(0, "root/dev2/heartbeat", "1"), ScanAction::Rejected);
    assert_eq!(scan.registry().device_names(), vec!["dev1"]);
    assert_eq!(scan.registry().uptime_of("dev1"), Some(90_062_000));
}

#[test]
fn reading_a_heartbeat_gives_device_and_uptime() {
    assert_eq!(read_heartbeat("root/dev1/heartbeat", "1000"), Ok(("dev1".to_string(), 1000)));
    assert_eq!(
        read_heartbeat("root", "1000"),
        Err(ProtocolViolation::TopicWithoutDevice { topic: "root".to_string() })
    );
    assert_eq!(
        read_heartbeat("root/dev1/heartbeat", ""),
        Err(ProtocolViolation::UptimeNotANumber { payload: "".to_string() })
    );
    // the topic is looked at first
    assert_eq!(
        read_heartbeat("root", "x"),
        Err(ProtocolViolation::TopicWithoutDevice { topic: "root".to_string() })
    );
}

#[test]
fn violations_describe_themselves() {
    assert_eq!(
        ProtocolViolation::UptimeNotANumber { payload: "soon".to_string() }.describe(),
        "Uptime is not a number: soon"
    );
    assert_eq!(
        ProtocolViolation::WrongResponseFormat { response: "RESPONSE x".to_string() }.describe(),
        "Wrong response format: RESPONSE x"
    );
    assert_eq!(
        ProtocolViolation::TopicWithoutDevice { topic: "root".to_string() }.describe(),
        "Topic names no device: root"
    );
}
