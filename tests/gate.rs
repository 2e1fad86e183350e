use silverscreen::commands::get_server_port;
use silverscreen::gate::{NotReady, ReadinessGate};

#[test]
fn get_before_set_is_not_ready() {
    let gate = ReadinessGate::new();
    assert_eq!(gate.get(), Err(NotReady));
    assert!(!gate.is_ready());
}

#[test]
fn get_after_set_returns_port() {
    for port in [0u16, 1, 80, 8080, 54321, 65535] {
        let mut gate = ReadinessGate::new();
        assert!(gate.set(port));
        assert_eq!(gate.get(), Ok(port));
        assert!(gate.is_ready());
    }
}

#[test]
fn only_first_set_is_observed() {
    let mut gate = ReadinessGate::new();
    assert!(gate.set(4000));
    assert!(!gate.set(5000));
    assert!(!gate.set(4000));
    assert!(!gate.set(65535));
    assert_eq!(gate.get(), Ok(4000));
}

#[test]
fn not_ready_message_text() {
    assert_eq!(NotReady.message(), "Server not ready yet");
}

#[test]
fn server_port_command_reports_not_ready() {
    let gate = ReadinessGate::new();
    assert_eq!(get_server_port(&gate), Err("Server not ready yet".to_string()));
}

#[test]
fn server_port_command_reports_port() {
    let mut gate = ReadinessGate::new();
    gate.set(8080);
    assert_eq!(get_server_port(&gate), Ok(8080));
}

#[test]
fn readers_see_a_consistent_port() {
    let mut gate = ReadinessGate::new();
    let before: Vec<Result<u16, NotReady>> = (0..100).map(|_| gate.get()).collect();
    gate.set(31337);
    let after: Vec<Result<u16, NotReady>> = (0..100).map(|_| gate.get()).collect();
    assert!(before.iter().all(|r| *r == Err(NotReady)));
    assert!(after.iter().all(|r| *r == Ok(31337)));
}
