use serial_bridge::config::{check_device_names_unique, SerialDeviceConfig};
use serial_bridge::dispatch::{dispatch, DispatchDecision};
use serial_bridge::logging::LogLevel;
use serial_bridge::orchestrator::{collect_outcomes, make_supervisors, SupervisorFailure};
use serial_bridge::serial::{SerialConnection, READ_BUFFER_SIZE};
use serial_bridge::supervisor::{
    SerialEvent, Supervisor, SupervisorAction, SupervisorPhase, BACKOFF_SECONDS,
};

fn device(name: &str, protocol: &str, network_port: u16, baud_rate: u32) -> SerialDeviceConfig {
    SerialDeviceConfig {
        device_name: name.to_string(),
        port: format!("/dev/{}", name),
        baud_rate,
        data_bits: 8,
        stop_bits: 1,
        parity: "none".to_string(),
        network_port,
        network_protocol: protocol.to_string(),
    }
}

#[test]
fn log_level_names() {
    assert_eq!(LogLevel::Error.to_string(), "error");
    assert_eq!(LogLevel::Warn.to_string(), "warn");
    assert_eq!(LogLevel::Info.to_string(), "info");
    assert_eq!(LogLevel::Debug.to_string(), "debug");
}

#[test]
fn reference_sizing_constants() {
    assert_eq!(READ_BUFFER_SIZE, 1024);
    assert_eq!(BACKOFF_SECONDS, 5);
}

#[test]
fn device_names_unique_accepts_distinct() {
    let devices = vec![
        device("sensor1", "tcp", 5000, 9600),
        device("sensor2", "udp", 5001, 19200),
    ];
    assert!(check_device_names_unique(&devices));
    assert!(check_device_names_unique(&Vec::new()));
    assert!(check_device_names_unique(&vec![device("only", "tcp", 5000, 9600)]));
}

#[test]
fn device_names_unique_rejects_duplicate() {
    let devices = vec![
        device("sensor1", "tcp", 5000, 9600),
        device("sensor2", "udp", 5001, 19200),
        device("sensor1", "udp", 5002, 38400),
    ];
    assert!(!check_device_names_unique(&devices));
}

#[test]
fn dispatch_tcp_forwards_payload_unchanged() {
    let d = dispatch(&device("sensor1", "tcp", 5000, 9600), vec![0x01, 0x02, 0x03]);
    match d {
        DispatchDecision::ForwardTcp { network_port, payload } => {
            assert_eq!(network_port, 5000);
            assert_eq!(payload, vec![0x01, 0x02, 0x03]);
        }
        _ => panic!("tcp payload must go to the TCP sink"),
    }
}

#[test]
fn dispatch_udp_forwards_empty_payload() {
    // A read may return zero bytes; the payload is still dispatched.
    let d = dispatch(&device("sensor1", "udp", 6000, 9600), Vec::new());
    match d {
        DispatchDecision::ForwardUdp { network_port, payload } => {
            assert_eq!(network_port, 6000);
            assert!(payload.is_empty());
        }
        _ => panic!("udp payload must go to the UDP sink"),
    }
}

#[test]
fn dispatch_unsupported_drops_with_one_diagnostic() {
    let d = dispatch(&device("plc7", "modbus-rtu", 5000, 9600), vec![0xFF]);
    match d {
        DispatchDecision::DropPayload { diagnostic } => {
            assert_eq!(diagnostic.device_name, "plc7");
            assert_eq!(diagnostic.protocol, "modbus-rtu");
        }
        _ => panic!("an unsupported protocol must never reach a sink"),
    }
}

#[test]
fn connection_starts_closed_and_records_outcomes() {
    let mut conn = SerialConnection::new("/dev/ttyUSB0", 9600);
    assert!(!conn.open);
    assert_eq!(conn.device_path, "/dev/ttyUSB0");
    assert_eq!(conn.baud_rate, 9600);
    assert!(conn.needs_reopen(true));
    conn.record_open_result(true);
    assert!(conn.open);
    conn.record_read_result(false);
    assert!(!conn.open);
    conn.record_open_result(true);
    conn.record_read_result(true);
    assert!(conn.open);
}

#[test]
fn reopen_is_idempotent_on_live_connection() {
    let mut conn = SerialConnection::new("/dev/ttyUSB0", 9600);
    conn.record_open_result(true);
    // Already open and live: no reopening I/O.
    assert!(!conn.needs_reopen(true));
    // A failed liveness probe forces a reopen even while a handle is held.
    assert!(conn.needs_reopen(false));
}

#[test]
fn retry_until_success_makes_n_plus_one_attempts() {
    let failures = 4;
    let mut sup = Supervisor::new(device("sensor1", "tcp", 5000, 9600));
    let mut attempts = 0;
    let mut backoffs = 0;
    if matches!(sup.initial_action(), SupervisorAction::EnsureOpen) {
        attempts += 1;
    }
    for _ in 0..failures {
        let a = sup.handle_event(SerialEvent::OpenFailed);
        assert!(matches!(a, SupervisorAction::Backoff));
        backoffs += 1;
        let a = sup.handle_event(SerialEvent::BackoffElapsed);
        assert!(matches!(a, SupervisorAction::EnsureOpen));
        attempts += 1;
    }
    let a = sup.handle_event(SerialEvent::OpenSucceeded);
    assert!(matches!(a, SupervisorAction::ReadPort));
    assert_eq!(attempts, failures + 1);
    // One backoff between each failed attempt and the next.
    assert_eq!(backoffs, failures);
}

#[test]
fn sensor1_payload_once_then_errors_forever() {
    // Device "sensor1", baud 9600, protocol tcp, destination port 5000; the
    // port yields [0x01, 0x02, 0x03] once and then errors on every read.
    let mut sup = Supervisor::new(device("sensor1", "tcp", 5000, 9600));
    assert!(matches!(sup.initial_action(), SupervisorAction::EnsureOpen));
    let a = sup.handle_event(SerialEvent::OpenSucceeded);
    assert!(matches!(a, SupervisorAction::ReadPort));
    let a = sup.handle_event(SerialEvent::ReadSucceeded { payload: vec![0x01, 0x02, 0x03] });
    match a {
        SupervisorAction::Dispatch {
            decision: DispatchDecision::ForwardTcp { network_port, payload },
        } => {
            assert_eq!(network_port, 5000);
            assert_eq!(payload, vec![0x01, 0x02, 0x03]);
        }
        _ => panic!("exactly one dispatch to the TCP sink for port 5000"),
    }
    let a = sup.handle_event(SerialEvent::DispatchCompleted);
    assert!(matches!(a, SupervisorAction::EnsureOpen));
    // Indefinite retry with backoff, never a terminal state.
    for _ in 0..8 {
        let a = sup.handle_event(SerialEvent::ReadFailed);
        assert!(matches!(a, SupervisorAction::Backoff));
        assert_eq!(sup.phase, SupervisorPhase::Disconnected);
        let a = sup.handle_event(SerialEvent::BackoffElapsed);
        assert!(matches!(a, SupervisorAction::EnsureOpen));
        let a = sup.handle_event(SerialEvent::OpenSucceeded);
        assert!(matches!(a, SupervisorAction::ReadPort));
    }
}

#[test]
fn unsupported_protocol_device_keeps_running() {
    // Every successful read produces a dropped-payload diagnostic, zero sink
    // invocations, and the loop never enters a failure state.
    let mut sup = Supervisor::new(device("plc7", "modbus-rtu", 5000, 9600));
    let a = sup.handle_event(SerialEvent::OpenSucceeded);
    assert!(matches!(a, SupervisorAction::ReadPort));
    for round in 0..5u8 {
        let a = sup.handle_event(SerialEvent::ReadSucceeded { payload: vec![round] });
        match a {
            SupervisorAction::Dispatch { decision: DispatchDecision::DropPayload { diagnostic } } => {
                assert_eq!(diagnostic.device_name, "plc7");
                assert_eq!(diagnostic.protocol, "modbus-rtu");
            }
            _ => panic!("an unsupported protocol must drop, not reach a sink"),
        }
        assert_eq!(sup.phase, SupervisorPhase::Connected);
        let a = sup.handle_event(SerialEvent::DispatchCompleted);
        assert!(matches!(a, SupervisorAction::EnsureOpen));
        let a = sup.handle_event(SerialEvent::OpenSucceeded);
        assert!(matches!(a, SupervisorAction::ReadPort));
    }
}

#[test]
fn zero_devices_spawn_nothing_and_no_error() {
    let sups = make_supervisors(Vec::new());
    assert!(sups.is_empty());
    let overall = collect_outcomes(&Vec::new());
    assert!(overall.is_ok());
}

#[test]
fn one_supervisor_per_device_in_order() {
    let sups = make_supervisors(vec![
        device("sensor1", "tcp", 5000, 9600),
        device("sensor2", "udp", 5001, 19200),
    ]);
    assert_eq!(sups.len(), 2);
    assert_eq!(sups[0].config.device_name, "sensor1");
    assert_eq!(sups[0].connection.device_path, "/dev/sensor1");
    assert_eq!(sups[0].connection.baud_rate, 9600);
    assert!(!sups[0].connection.open);
    assert_eq!(sups[1].config.device_name, "sensor2");
    assert_eq!(sups[1].phase, SupervisorPhase::Disconnected);
}

#[test]
fn collect_outcomes_propagates_first_failure() {
    let failure = |name: &str| SupervisorFailure {
        device_name: name.to_string(),
        message: "port vanished".to_string(),
    };
    let outcomes = vec![Ok(()), Err(failure("sensor2")), Err(failure("sensor3"))];
    match collect_outcomes(&outcomes) {
        Err(f) => {
            assert_eq!(f.device_name, "sensor2");
            assert_eq!(f.message, "port vanished");
        }
        Ok(()) => panic!("a failed supervisor must surface its failure"),
    }
    let all_ok: Vec<Result<(), SupervisorFailure>> = vec![Ok(()), Ok(())];
    assert!(collect_outcomes(&all_ok).is_ok());
}
