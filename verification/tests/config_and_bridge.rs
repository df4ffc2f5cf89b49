use bus_log_bridge::bridge::{BridgeState, Fault, TaskStatus};
use bus_log_bridge::config::{BridgeConfig, ConfigError};

#[test]
fn blank_endpoints_fall_back_to_localhost_defaults() {
    let c = BridgeConfig::new(String::new(), String::new(), "orders".to_owned())
        .expect("subject is non-empty");
    assert_eq!(c.bus_endpoint, "nats://localhost:4222");
    assert_eq!(c.log_endpoint, "localhost:9092");
    assert_eq!(c.subject, "orders");
}

#[test]
fn given_endpoints_are_kept() {
    let c = BridgeConfig::new(
        "nats://bus.example:4222".to_owned(),
        "log.example:9092".to_owned(),
        "orders".to_owned(),
    )
    .expect("subject is non-empty");
    assert_eq!(c.bus_endpoint, "nats://bus.example:4222");
    assert_eq!(c.log_endpoint, "log.example:9092");
}

#[test]
fn empty_subject_is_rejected() {
    let r = BridgeConfig::new("a".to_owned(), "b".to_owned(), String::new());
    match r {
        Err(e) => assert_eq!(e, ConfigError::EmptySubject),
        Ok(_) => panic!("an empty subject must be rejected"),
    }
}

#[test]
fn bridge_starts_with_both_tasks_running() {
    let s = BridgeState::new();
    assert_eq!(s.bus_to_log, TaskStatus::Running);
    assert_eq!(s.log_to_bus, TaskStatus::Running);
    assert!(!s.finished());
}

#[test]
fn fault_in_one_direction_leaves_the_other_running() {
    let mut s = BridgeState::new();
    s.fail_bus_to_log(Fault::Send);
    assert_eq!(s.bus_to_log, TaskStatus::Stopped(Fault::Send));
    assert_eq!(s.log_to_bus, TaskStatus::Running);
    assert!(!s.finished());

    let mut t = BridgeState::new();
    t.fail_log_to_bus(Fault::Poll);
    assert_eq!(t.log_to_bus, TaskStatus::Stopped(Fault::Poll));
    assert_eq!(t.bus_to_log, TaskStatus::Running);
    assert!(!t.finished());
}

#[test]
fn bridge_is_finished_only_when_both_tasks_stopped() {
    let mut s = BridgeState::new();
    s.fail_bus_to_log(Fault::Subscribe);
    assert!(!s.finished());
    s.fail_log_to_bus(Fault::Connect);
    assert!(s.finished());
}
