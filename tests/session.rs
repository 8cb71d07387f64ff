use doorkeeper::decoder::Verdict;
use doorkeeper::session::{holds_identifier, Action, Event, PeripheralAddress, Session, SessionState};

const TARGET: PeripheralAddress = PeripheralAddress(0x00, 0x13, 0xAA, 0x00, 0xBA, 0x0E);
const OTHER: PeripheralAddress = PeripheralAddress(0x00, 0x13, 0xAA, 0x00, 0xBA, 0x0F);
const CHARACTERISTIC: u16 = 0xFFE1;

fn subscribed() -> Session {
    let mut s = Session::new(TARGET, CHARACTERISTIC);
    s.handle(Event::Startup);
    s.handle(Event::DeviceDiscovered(TARGET));
    s.handle(Event::DeviceConnected(TARGET));
    s.handle(Event::CharacteristicsDiscovered(vec![0x2A00, CHARACTERISTIC]));
    assert_eq!(s.state, SessionState::Subscribed);
    s
}

#[test]
fn startup_starts_scan() {
    let mut s = Session::new(TARGET, CHARACTERISTIC);
    assert_eq!(s.state, SessionState::Idle);
    let actions = s.handle(Event::Startup);
    assert!(matches!(actions.as_slice(), [Action::StartScan]));
    assert_eq!(s.state, SessionState::Discovering);
    assert!(s.handle(Event::Startup).is_empty());
}

#[test]
fn discovery_of_target_connects() {
    let mut s = Session::new(TARGET, CHARACTERISTIC);
    s.handle(Event::Startup);
    assert!(s.handle(Event::DeviceDiscovered(OTHER)).is_empty());
    assert_eq!(s.state, SessionState::Discovering);
    let actions = s.handle(Event::DeviceDiscovered(TARGET));
    assert!(matches!(actions.as_slice(), [Action::Connect(a)] if *a == TARGET));
    assert_eq!(s.state, SessionState::Connecting);
}

#[test]
fn connection_resolves_then_subscribes() {
    let mut s = Session::new(TARGET, CHARACTERISTIC);
    s.handle(Event::Startup);
    s.handle(Event::DeviceDiscovered(TARGET));
    assert!(s.handle(Event::DeviceConnected(OTHER)).is_empty());
    let actions = s.handle(Event::DeviceConnected(TARGET));
    assert!(matches!(actions.as_slice(), [Action::DiscoverCharacteristics(a)] if *a == TARGET));
    assert_eq!(s.state, SessionState::CharacteristicsResolving);
    let actions = s.handle(Event::CharacteristicsDiscovered(vec![0x2A00, CHARACTERISTIC]));
    assert!(matches!(actions.as_slice(), [Action::Subscribe(0xFFE1)]));
    assert_eq!(s.state, SessionState::Subscribed);
}

#[test]
fn missing_characteristic_is_reported() {
    let mut s = Session::new(TARGET, CHARACTERISTIC);
    s.handle(Event::Startup);
    s.handle(Event::DeviceDiscovered(TARGET));
    s.handle(Event::DeviceConnected(TARGET));
    let actions = s.handle(Event::CharacteristicsDiscovered(vec![0x2A00, 0x2A01]));
    assert!(matches!(actions.as_slice(), [Action::ReportCharacteristicMissing]));
    assert_eq!(s.state, SessionState::Connected);
}

#[test]
fn disconnect_of_target_reconnects_and_clears_pending() {
    let mut s = subscribed();
    s.handle(Event::DeviceNotification("led:o".to_string()));
    assert_eq!(s.pending, "led:o");
    let actions = s.handle(Event::DeviceDisconnected(TARGET));
    assert!(matches!(actions.as_slice(), [Action::Connect(a)] if *a == TARGET));
    assert_eq!(s.state, SessionState::Connecting);
    assert_eq!(s.pending, "");
}

#[test]
fn disconnect_of_other_device_is_ignored() {
    let mut s = subscribed();
    s.handle(Event::DeviceNotification("led:o".to_string()));
    let actions = s.handle(Event::DeviceDisconnected(OTHER));
    assert!(actions.is_empty());
    assert_eq!(s.state, SessionState::Subscribed);
    assert_eq!(s.pending, "led:o");
}

#[test]
fn notification_delivers_lines() {
    let mut s = subscribed();
    let actions = s.handle(Event::DeviceNotification("hello\r\nbutton:up\nnoise:301:51:501:0:0\nby".to_string()));
    match actions.as_slice() {
        [Action::Deliver(lines)] => {
            assert_eq!(lines.len(), 3);
            assert_eq!(lines[0].text, "hello");
            assert_eq!(lines[0].verdict, Ok(Verdict::Report));
            assert_eq!(lines[1].verdict, Ok(Verdict::Silent));
            assert_eq!(lines[2].verdict, Ok(Verdict::Alert { duration_ms: 301 }));
        }
        other => panic!("unexpected actions {:?}", other),
    }
    assert_eq!(s.pending, "by");
}

#[test]
fn notification_while_not_subscribed_is_ignored() {
    let mut s = Session::new(TARGET, CHARACTERISTIC);
    s.handle(Event::Startup);
    assert!(s.handle(Event::DeviceNotification("hello\n".to_string())).is_empty());
    assert_eq!(s.pending, "");
}

#[test]
fn command_while_subscribed_is_logged_and_written() {
    let mut s = subscribed();
    let actions = s.handle(Event::OperatorCommand("led:on\n".to_string()));
    match actions.as_slice() {
        [Action::LogCommand(logged), Action::Write { characteristic, bytes }] => {
            assert_eq!(logged, "led:on\n");
            assert_eq!(*characteristic, CHARACTERISTIC);
            assert_eq!(bytes.as_slice(), b"led:on\n");
        }
        other => panic!("unexpected actions {:?}", other),
    }
    assert_eq!(s.state, SessionState::Subscribed);
}

#[test]
fn command_while_unsubscribed_is_only_logged() {
    let mut s = Session::new(TARGET, CHARACTERISTIC);
    s.handle(Event::Startup);
    let actions = s.handle(Event::OperatorCommand("buzzer:on\n".to_string()));
    assert!(matches!(actions.as_slice(), [Action::LogCommand(t)] if t == "buzzer:on\n"));
    let mut c = subscribed();
    c.handle(Event::ResolutionFailed);
    assert_eq!(c.state, SessionState::Connected);
    let actions = c.handle(Event::OperatorCommand("buzzer:on".to_string()));
    assert!(matches!(actions.as_slice(), [Action::LogCommand(t)] if t == "buzzer:on"));
}

#[test]
fn blank_command_is_ignored() {
    let mut s = subscribed();
    assert!(s.handle(Event::OperatorCommand(String::new())).is_empty());
    assert!(s.handle(Event::OperatorCommand("\r\n".to_string())).is_empty());
}

#[test]
fn failed_connect_waits_for_next_discovery() {
    let mut s = Session::new(TARGET, CHARACTERISTIC);
    s.handle(Event::Startup);
    s.handle(Event::DeviceDiscovered(TARGET));
    assert!(s.handle(Event::ConnectFailed).is_empty());
    assert_eq!(s.state, SessionState::Disconnected);
    let actions = s.handle(Event::DeviceDiscovered(TARGET));
    assert!(matches!(actions.as_slice(), [Action::Connect(a)] if *a == TARGET));
    assert_eq!(s.state, SessionState::Connecting);
}

#[test]
fn reconnect_starts_with_fresh_buffer() {
    let mut s = subscribed();
    s.handle(Event::DeviceNotification("nois".to_string()));
    s.handle(Event::DeviceDisconnected(TARGET));
    s.handle(Event::DeviceConnected(TARGET));
    s.handle(Event::CharacteristicsDiscovered(vec![CHARACTERISTIC]));
    let actions = s.handle(Event::DeviceNotification("hello\n".to_string()));
    match actions.as_slice() {
        [Action::Deliver(lines)] => {
            assert_eq!(lines.len(), 1);
            assert_eq!(lines[0].text, "hello");
        }
        other => panic!("unexpected actions {:?}", other),
    }
}

#[test]
fn identifier_lookup() {
    assert!(holds_identifier(&vec![1, 2, 0xFFE1], 0xFFE1));
    assert!(!holds_identifier(&vec![1, 2], 0xFFE1));
    assert!(!holds_identifier(&Vec::new(), 0xFFE1));
}
