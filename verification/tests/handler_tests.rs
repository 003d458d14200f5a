use rust_udp_utility::handler::{
    OpenAction, RecvAction, SendAction, SocketState, UdpHandler, RECV_BUFFER_LEN,
};
use rust_udp_utility::log::LogLevel;

fn opened(name: &str, debug: bool, now_ms: u64) -> UdpHandler {
    let mut h = UdpHandler::new(name, debug, now_ms);
    match h.open_localhost(9999, 100) {
        OpenAction::Bind { .. } => {}
        OpenAction::AlreadyOpen { .. } => panic!("fresh handler reported an open socket"),
    }
    h.open_succeeded("127.0.0.1:9999");
    h
}

#[test]
fn new_handler_has_defaults() {
    let h = UdpHandler::new("udp", true, 42);
    assert_eq!(h.socket, SocketState::Unopened);
    assert!(h.enable_debug_log);
    assert_eq!(h.last_send_ms, 42);
    assert_eq!(h.period_ms, 1);
    assert_eq!(h.destination_addr, "None");
    assert!(h.recv_destination_addr.is_none());
    assert_eq!(h.who(), "None");
}

#[test]
fn open_localhost_requests_loopback_bind() {
    let h = UdpHandler::new("udp", false, 0);
    match h.open_localhost(9999, 100) {
        OpenAction::Bind { request } => {
            assert_eq!(request.bind_addr, "127.0.0.1:9999");
            assert_eq!(request.timeout_ms, 100);
            assert!(request.connect_probe.is_none());
        }
        OpenAction::AlreadyOpen { .. } => panic!("fresh handler reported an open socket"),
    }
}

#[test]
fn open_auto_address_requests_wildcard_bind_with_probe() {
    let h = UdpHandler::new("udp", false, 0);
    match h.open_auto_address(250) {
        OpenAction::Bind { request } => {
            assert_eq!(request.bind_addr, "0.0.0.0:0");
            assert_eq!(request.timeout_ms, 250);
            assert_eq!(request.connect_probe.as_deref(), Some("8.8.8.8:80"));
        }
        OpenAction::AlreadyOpen { .. } => panic!("fresh handler reported an open socket"),
    }
}

#[test]
fn open_set_address_passes_address_through() {
    let h = UdpHandler::new("udp", false, 0);
    match h.open_set_address("192.168.11.65:64201", 7) {
        OpenAction::Bind { request } => {
            assert_eq!(request.bind_addr, "192.168.11.65:64201");
            assert_eq!(request.timeout_ms, 7);
            assert!(request.connect_probe.is_none());
        }
        OpenAction::AlreadyOpen { .. } => panic!("fresh handler reported an open socket"),
    }
}

#[test]
fn opening_twice_keeps_first_socket_and_behavior() {
    let mut h = opened("udp", false, 0);
    match h.open_localhost(12, 34) {
        OpenAction::AlreadyOpen { warn } => {
            assert_eq!(warn.level, LogLevel::Warn);
            assert_eq!(warn.text, "socket have already opened.");
        }
        OpenAction::Bind { .. } => panic!("second open must not rebind"),
    }
    match h.open_auto_address(1) {
        OpenAction::AlreadyOpen { .. } => {}
        OpenAction::Bind { .. } => panic!("second open must not rebind"),
    }
    assert_eq!(h.socket, SocketState::Open);
    h.set_destination("127.0.0.1:9998");
    match h.send(b"x", 10) {
        SendAction::Transmit { dest, .. } => assert_eq!(dest, "127.0.0.1:9998"),
        _ => panic!("send behavior changed after the ignored reopen"),
    }
    match h.recv() {
        RecvAction::Read { max_len } => assert_eq!(max_len, RECV_BUFFER_LEN),
        RecvAction::NotOpen { .. } => panic!("recv behavior changed after the ignored reopen"),
    }
}

#[test]
fn throttled_send_is_a_silent_noop() {
    let mut h = opened("udp", true, 100);
    h.set_send_period(50);
    // 100 + 50 has not elapsed at 149: no action, no log, no state change.
    let dest_before = h.destination_addr.clone();
    match h.send(b"data", 149) {
        SendAction::Throttled => {}
        _ => panic!("send fired before the period elapsed"),
    }
    assert_eq!(h.last_send_ms, 100);
    assert_eq!(h.destination_addr, dest_before);
    // At exactly 150 the period has elapsed and the window restarts.
    match h.send(b"data", 150) {
        SendAction::Transmit { .. } => {}
        _ => panic!("send did not fire once the period elapsed"),
    }
    assert_eq!(h.last_send_ms, 150);
}

#[test]
fn send_when_unopened_warns_after_period() {
    let mut h = UdpHandler::new("udp", false, 0);
    match h.send(b"data", 5) {
        SendAction::NotOpen { warn } => {
            assert_eq!(warn.level, LogLevel::Warn);
            assert_eq!(warn.text, "Socket is not opened.");
        }
        _ => panic!("due send on an unopened handler must warn"),
    }
    // The window restarts even though nothing was transmitted.
    assert_eq!(h.last_send_ms, 5);
    match h.send(b"data", 5) {
        SendAction::Throttled => {}
        _ => panic!("second send in the same window must be throttled"),
    }
}

#[test]
fn two_sends_within_period_transmit_once() {
    // debug=false, open at 9999 with timeout 100, destination set, period 10:
    // two sends 5 ms apart yield exactly one transmission.
    let mut h = UdpHandler::new("udp", false, 0);
    match h.open_localhost(9999, 100) {
        OpenAction::Bind { .. } => {}
        OpenAction::AlreadyOpen { .. } => panic!("fresh handler reported an open socket"),
    }
    h.open_succeeded("127.0.0.1:9999");
    h.set_destination("127.0.0.1:9998");
    h.set_send_period(10);
    let mut transmissions: u32 = 0;
    for now in [20u64, 25u64] {
        if let SendAction::Transmit { .. } = h.send(b"ping", now) {
            transmissions += 1;
        }
    }
    assert_eq!(transmissions, 1);
}

#[test]
fn burst_transmissions_stay_under_the_rate_bound() {
    let mut h = opened("udp", false, 0);
    h.set_destination("127.0.0.1:9998");
    h.set_send_period(10);
    // 46 sends, 2 ms apart, over a 90 ms burst: at most 90 / 10 + 1 = 10 fire.
    let mut transmissions: u64 = 0;
    let mut now: u64 = 1000;
    for _ in 0..46 {
        if let SendAction::Transmit { .. } = h.send(b"t", now) {
            transmissions += 1;
        }
        now += 2;
    }
    assert!(transmissions <= 10, "{transmissions} transmissions escaped the throttle");
    assert!(transmissions >= 1);
}

#[test]
fn transmit_carries_payload_and_destination_unchanged() {
    let mut h = opened("udp", false, 0);
    h.set_destination("10.0.0.1:7000");
    match h.send(b"Hello", 50) {
        SendAction::Transmit { dest, payload } => {
            assert_eq!(dest, "10.0.0.1:7000");
            assert_eq!(payload, b"Hello".to_vec());
        }
        _ => panic!("due send on an open socket must transmit"),
    }
}

#[test]
fn recv_without_socket_returns_sentinel() {
    let h = UdpHandler::new("udp", false, 0);
    match h.recv() {
        RecvAction::NotOpen { sentinel, warn } => {
            assert_eq!(sentinel, "None");
            assert_eq!(warn.level, LogLevel::Warn);
            assert_eq!(warn.text, "Socket is not opened.");
        }
        RecvAction::Read { .. } => panic!("recv on an unopened handler must not read"),
    }
}

#[test]
fn who_tracks_only_successful_receives() {
    let mut h = opened("udp", false, 0);
    assert_eq!(h.who(), "None");
    let (_, _) = h.recv_failed("timed out");
    assert_eq!(h.who(), "None");
    let (text, _) = h.recv_succeeded(b"abc", "127.0.0.1:64201");
    assert_eq!(text, "abc");
    assert_eq!(h.who(), "127.0.0.1:64201");
    let (sentinel, logs) = h.recv_failed("timed out");
    assert_eq!(sentinel, "None");
    assert_eq!(logs.len(), 2);
    assert_eq!(h.who(), "127.0.0.1:64201");
    let (_, _) = h.recv_succeeded(b"def", "127.0.0.1:64202");
    assert_eq!(h.who(), "127.0.0.1:64202");
}

#[test]
fn round_trip_of_a_datagram_between_two_handlers() {
    // Handler a sends to b's port; the transmitted payload, handed to b as
    // the received datagram, decodes to the identical string and b's who()
    // reports a's address.
    let mut a = UdpHandler::new("a", false, 0);
    match a.open_localhost(9001, 100) {
        OpenAction::Bind { .. } => {}
        OpenAction::AlreadyOpen { .. } => panic!("fresh handler reported an open socket"),
    }
    a.open_succeeded("127.0.0.1:9001");
    a.set_destination("127.0.0.1:9002");

    let mut b = UdpHandler::new("b", false, 0);
    match b.open_localhost(9002, 100) {
        OpenAction::Bind { .. } => {}
        OpenAction::AlreadyOpen { .. } => panic!("fresh handler reported an open socket"),
    }
    b.open_succeeded("127.0.0.1:9002");

    let (dest, payload) = match a.send(b"Hello", 10) {
        SendAction::Transmit { dest, payload } => (dest, payload),
        _ => panic!("due send on an open socket must transmit"),
    };
    assert_eq!(dest, "127.0.0.1:9002");
    match b.recv() {
        RecvAction::Read { .. } => {}
        RecvAction::NotOpen { .. } => panic!("open handler refused to read"),
    }
    let (text, _) = b.recv_succeeded(&payload, "127.0.0.1:9001");
    assert_eq!(text, "Hello");
    assert_eq!(b.who(), "127.0.0.1:9001");
}

#[test]
fn received_bytes_decode_lossily() {
    let mut h = opened("udp", false, 0);
    let (text, _) = h.recv_succeeded(&[0xff, b'h', b'i'], "127.0.0.1:1");
    assert_eq!(text, "\u{FFFD}hi");
    let (empty, _) = h.recv_succeeded(&[], "127.0.0.1:1");
    assert_eq!(empty, "");
}

#[test]
fn set_destination_overwrites_and_logs_when_debug() {
    let mut h = UdpHandler::new("udp", true, 0);
    let logs = h.set_destination("192.168.11.65:64201");
    assert_eq!(h.destination_addr, "192.168.11.65:64201");
    assert_eq!(logs.len(), 1);
    assert_eq!(logs[0].level, LogLevel::Info);
    assert_eq!(logs[0].text, "Set destination address : 192.168.11.65:64201");
    let mut quiet = UdpHandler::new("udp", false, 0);
    assert!(quiet.set_destination("1.2.3.4:5").is_empty());
    assert_eq!(quiet.destination_addr, "1.2.3.4:5");
}

#[test]
fn set_send_period_overwrites_and_logs_when_debug() {
    let mut h = UdpHandler::new("udp", true, 0);
    let logs = h.set_send_period(500);
    assert_eq!(h.period_ms, 500);
    assert_eq!(logs.len(), 1);
    assert_eq!(logs[0].level, LogLevel::Info);
    assert_eq!(logs[0].text, "Set send period : 500ms");
    let mut quiet = UdpHandler::new("udp", false, 0);
    assert!(quiet.set_send_period(7).is_empty());
    assert_eq!(quiet.period_ms, 7);
}

#[test]
fn open_outcome_logs() {
    let mut h = UdpHandler::new("udp", true, 0);
    match h.open_localhost(8080, 1) {
        OpenAction::Bind { .. } => {}
        OpenAction::AlreadyOpen { .. } => panic!("fresh handler reported an open socket"),
    }
    let logs = h.open_succeeded("127.0.0.1:8080");
    assert_eq!(logs.len(), 1);
    assert_eq!(logs[0].level, LogLevel::Info);
    assert_eq!(logs[0].text, "Open new socket on 127.0.0.1:8080");

    let quiet = UdpHandler::new("udp", false, 0);
    let errors = quiet.open_failed("Address already in use");
    assert_eq!(errors.len(), 2);
    assert_eq!(errors[0].level, LogLevel::Error);
    assert_eq!(errors[0].text, "Failed to open socket");
    assert_eq!(errors[1].level, LogLevel::Error);
    assert_eq!(errors[1].text, "Address already in use");
    assert_eq!(quiet.socket, SocketState::Unopened);
}

#[test]
fn send_outcome_logs() {
    let h = UdpHandler::new("udp", true, 0);
    let logs = h.send_succeeded(b"ping");
    assert_eq!(logs.len(), 1);
    assert_eq!(logs[0].level, LogLevel::Info);
    assert_eq!(logs[0].text, "Send buffer : ping");
    let quiet = UdpHandler::new("udp", false, 0);
    assert!(quiet.send_succeeded(b"ping").is_empty());
    let errors = quiet.send_failed("Network is unreachable");
    assert_eq!(errors.len(), 2);
    assert_eq!(errors[0].text, "Failed to send buffer.");
    assert_eq!(errors[1].text, "Network is unreachable");
}

#[test]
fn recv_failure_logs_and_sentinel() {
    let h = opened("udp", false, 0);
    let (sentinel, logs) = h.recv_failed("Resource temporarily unavailable");
    assert_eq!(sentinel, "None");
    assert_eq!(logs.len(), 2);
    assert_eq!(logs[0].level, LogLevel::Error);
    assert_eq!(logs[0].text, "Failed to recv value.");
    assert_eq!(logs[1].level, LogLevel::Error);
    assert_eq!(logs[1].text, "Resource temporarily unavailable");
}

#[test]
fn receive_debug_log_names_the_text() {
    let mut h = opened("udp", true, 0);
    let (text, logs) = h.recv_succeeded(b"telemetry", "127.0.0.1:2");
    assert_eq!(text, "telemetry");
    assert_eq!(logs.len(), 1);
    assert_eq!(logs[0].level, LogLevel::Info);
    assert_eq!(logs[0].text, "Receive : telemetry");
}
