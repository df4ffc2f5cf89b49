use bus_log_bridge::message::{BusMessage, LogRecord};
use bus_log_bridge::relay::{
    bus_to_log_step, log_to_bus_step, relay_bus_messages, relay_log_records,
};

fn bus_msg(subject: &str, payload: &[u8], back_ref: Option<&str>) -> BusMessage {
    BusMessage {
        subject: subject.to_owned(),
        payload: payload.to_vec(),
        back_ref: back_ref.map(|s| s.to_owned()),
    }
}

fn record(topic: &str, key: &str, value: &[u8]) -> LogRecord {
    LogRecord { topic: topic.to_owned(), key: key.to_owned(), value: value.to_vec() }
}

#[test]
fn untagged_bus_message_becomes_one_record() {
    let rec = bus_to_log_step(&bus_msg("orders", b"A", None)).expect("must forward");
    assert_eq!(rec.topic, "orders");
    assert_eq!(rec.key, "BusToLog");
    assert_eq!(rec.value, b"A".to_vec());
}

#[test]
fn peer_tagged_record_is_suppressed() {
    let out = log_to_bus_step(&record("orders", "BusToLog", b"A"));
    assert!(out.is_none());
}

#[test]
fn external_record_is_published_with_sentinel() {
    let msg = log_to_bus_step(&record("orders", "external", b"B")).expect("must publish");
    assert_eq!(msg.subject, "orders");
    assert_eq!(msg.payload, b"B".to_vec());
    assert_eq!(msg.back_ref.as_deref(), Some("LogToBus"));
}

#[test]
fn peer_tagged_bus_message_is_suppressed() {
    let out = bus_to_log_step(&bus_msg("orders", b"A", Some("LogToBus")));
    assert!(out.is_none());
}

#[test]
fn own_tag_is_never_suppressed() {
    // A bus message whose back-reference carries this direction's own
    // sentinel is not peer traffic and must still be forwarded.
    let rec = bus_to_log_step(&bus_msg("orders", b"A", Some("BusToLog"))).expect("must forward");
    assert_eq!(rec.key, "BusToLog");
    // Likewise a record keyed with the bus-publishing sentinel.
    let msg = log_to_bus_step(&record("orders", "LogToBus", b"C")).expect("must publish");
    assert_eq!(msg.payload, b"C".to_vec());
}

#[test]
fn sentinel_match_is_exact() {
    // A back-reference that merely resembles the sentinel is not
    // bridge traffic.
    assert!(bus_to_log_step(&bus_msg("orders", b"A", Some("logtobus"))).is_some());
    assert!(bus_to_log_step(&bus_msg("orders", b"A", Some("LogToBus2"))).is_some());
    assert!(log_to_bus_step(&record("orders", "bustolog", b"B")).is_some());
    assert!(log_to_bus_step(&record("orders", "BusToLog ", b"B")).is_some());
}

#[test]
fn round_trip_is_stopped_after_one_hop() {
    // Bus -> log, then the produced record back through the other
    // direction: dropped.
    let rec = bus_to_log_step(&bus_msg("orders", b"A", None)).expect("must forward");
    assert!(log_to_bus_step(&rec).is_none());
    // Log -> bus, then the published message back through the other
    // direction: dropped.
    let msg = log_to_bus_step(&record("orders", "external", b"B")).expect("must publish");
    assert!(bus_to_log_step(&msg).is_none());
}

#[test]
fn payload_bytes_survive_both_hops_unchanged() {
    let bytes: Vec<u8> = vec![0, 1, 2, 254, 255, 7];
    let rec = bus_to_log_step(&bus_msg("orders", &bytes, None)).expect("must forward");
    assert_eq!(rec.value, bytes);
    let msg = log_to_bus_step(&record("orders", "external", &bytes)).expect("must publish");
    assert_eq!(msg.payload, bytes);
}

#[test]
fn empty_payload_is_forwarded() {
    let rec = bus_to_log_step(&bus_msg("orders", b"", None)).expect("must forward");
    assert_eq!(rec.value, Vec::<u8>::new());
}

#[test]
fn batch_of_records_keeps_poll_order_and_drops_tagged() {
    let batch = vec![
        record("orders", "external", b"one"),
        record("orders", "BusToLog", b"bridge"),
        record("orders", "other", b"two"),
        record("orders", "BusToLog", b"bridge"),
        record("orders", "", b"three"),
    ];
    let out = relay_log_records(&batch);
    let payloads: Vec<&[u8]> = out.iter().map(|m| m.payload.as_slice()).collect();
    assert_eq!(payloads, vec![b"one".as_slice(), b"two".as_slice(), b"three".as_slice()]);
    for m in &out {
        assert_eq!(m.back_ref.as_deref(), Some("LogToBus"));
        assert_eq!(m.subject, "orders");
    }
}

#[test]
fn batch_of_messages_keeps_delivery_order_and_drops_tagged() {
    let batch = vec![
        bus_msg("orders", b"x", None),
        bus_msg("orders", b"echo", Some("LogToBus")),
        bus_msg("orders", b"y", Some("someone-else")),
    ];
    let out = relay_bus_messages(&batch);
    let values: Vec<&[u8]> = out.iter().map(|r| r.value.as_slice()).collect();
    assert_eq!(values, vec![b"x".as_slice(), b"y".as_slice()]);
    for r in &out {
        assert_eq!(r.key, "BusToLog");
    }
}

#[test]
fn empty_batches_forward_nothing() {
    assert!(relay_log_records(&Vec::new()).is_empty());
    assert!(relay_bus_messages(&Vec::new()).is_empty());
}

#[test]
fn crash_before_commit_duplicates_only_the_uncommitted_span() {
    // The broker committed offset 1; a run consumed records 1..3,
    // published them, and crashed before committing. On restart the
    // poll re-delivers everything from offset 1.
    let log = vec![
        record("orders", "external", b"r0"),
        record("orders", "external", b"r1"),
        record("orders", "BusToLog", b"bridge"),
        record("orders", "external", b"r3"),
    ];
    let crashed_attempt = relay_log_records(&log[1..3].to_vec());
    let restart_pass = relay_log_records(&log[1..].to_vec());
    let mut total: Vec<Vec<u8>> = Vec::new();
    for m in crashed_attempt.iter().chain(restart_pass.iter()) {
        total.push(m.payload.clone());
    }
    // r1 is published twice (duplicate, accepted), r3 once, the
    // bridge-tagged record never; nothing is lost.
    assert_eq!(
        total,
        vec![b"r1".to_vec(), b"r1".to_vec(), b"r3".to_vec()]
    );
}
