use lora_link::conn::{ConnState, ConnectStart, DiscoveryNext, MAX_DISCOVERY_ROUNDS};
use lora_link::discovery::{select_device, Device};
use lora_link::error::{transport_result, LinkError};
use lora_link::gateway::{send_result, SendOutcome, SEND_DEADLINE_MS};

fn dev(name: &str, address: &str) -> Device {
    Device { name: name.to_string(), address: address.to_string() }
}

#[test]
fn new_state_is_idle() {
    let s = ConnState::new();
    assert!(!s.is_connecting());
    assert!(!s.is_connected());
    assert!(!s.is_disconnecting());
    assert!(!s.reconnect_enabled());
    assert_eq!(s.peer_address(), "");
    assert_eq!(s.peer_name(), "");
}

#[test]
fn concurrent_connects_start_once() {
    let mut s = ConnState::new();
    assert_eq!(s.begin_connect(&"radio".to_string()), ConnectStart::Discover);
    assert!(s.is_connecting());
    assert_eq!(s.begin_connect(&"radio".to_string()), ConnectStart::AlreadyActive);
    assert_eq!(s.begin_connect(&"other".to_string()), ConnectStart::AlreadyActive);
    assert_eq!(s.peer_name(), "radio");
    assert_eq!(s.connect_finished(Ok(())), Ok(()));
    assert!(s.is_connected());
    assert!(!s.is_connecting());
    assert!(s.reconnect_enabled());
    assert_eq!(s.begin_connect(&"radio".to_string()), ConnectStart::AlreadyActive);
}

#[test]
fn discovery_fails_after_five_rounds() {
    let mut s = ConnState::new();
    assert_eq!(s.begin_connect(&String::new()), ConnectStart::Discover);
    for round in 0..MAX_DISCOVERY_ROUNDS - 1 {
        assert_eq!(s.discovery_round(round, None), DiscoveryNext::Retry(round + 1));
        assert!(s.is_connecting());
    }
    assert_eq!(
        s.discovery_round(MAX_DISCOVERY_ROUNDS - 1, None),
        DiscoveryNext::Failed(LinkError::DiscoveryFailed)
    );
    assert!(!s.is_connecting());
    assert_eq!(s.peer_address(), "");
    assert_eq!(LinkError::DiscoveryFailed.message(), "lora failed to discover");
}

#[test]
fn discovered_address_is_cached() {
    let mut s = ConnState::new();
    assert_eq!(s.begin_connect(&"radio".to_string()), ConnectStart::Discover);
    assert_eq!(s.discovery_round(0, None), DiscoveryNext::Retry(1));
    assert_eq!(
        s.discovery_round(1, Some("AA:BB".to_string())),
        DiscoveryNext::Connect("AA:BB".to_string())
    );
    assert_eq!(s.peer_address(), "AA:BB");
    assert_eq!(s.connect_finished(Ok(())), Ok(()));
    s.begin_disconnect();
    s.finish_disconnect();
    assert_eq!(s.begin_connect(&"radio".to_string()), ConnectStart::Connect("AA:BB".to_string()));
}

#[test]
fn failed_connect_clears_connecting() {
    let mut s = ConnState::new();
    s.begin_connect(&String::new());
    s.discovery_round(0, Some("11:22".to_string()));
    assert_eq!(
        s.connect_finished(Err("no route".to_string())),
        Err(LinkError::Transport("no route".to_string()))
    );
    assert!(!s.is_connecting());
    assert!(!s.is_connected());
    assert!(!s.reconnect_enabled());
    assert_eq!(s.begin_connect(&String::new()), ConnectStart::Connect("11:22".to_string()));
}

#[test]
fn disconnect_clears_flags() {
    let mut s = ConnState::new();
    s.begin_connect(&String::new());
    s.discovery_round(0, Some("11:22".to_string()));
    s.connect_finished(Ok(())).unwrap();
    s.begin_disconnect();
    assert!(s.is_disconnecting());
    assert!(!s.is_connected());
    assert!(!s.is_connecting());
    assert!(!s.reconnect_enabled());
    s.finish_disconnect();
    assert!(!s.is_disconnecting());
    assert!(!s.is_connected());
}

#[test]
fn disconnect_while_connecting_clears_connecting() {
    let mut s = ConnState::new();
    s.begin_connect(&String::new());
    s.begin_disconnect();
    s.finish_disconnect();
    assert!(!s.is_connecting());
    assert_eq!(s.begin_connect(&String::new()), ConnectStart::Discover);
}

#[test]
fn drop_with_reconnect_enabled_reconnects_once() {
    let mut s = ConnState::new();
    s.begin_connect(&"radio".to_string());
    s.discovery_round(0, Some("AA".to_string()));
    s.connect_finished(Ok(())).unwrap();
    assert!(s.connectivity_changed(false));
    assert!(!s.is_connected());
    assert_eq!(s.begin_reconnect(), ConnectStart::Connect("AA".to_string()));
    assert_eq!(s.peer_name(), "radio");
    // a second reconnect scheduled meanwhile finds one in flight
    assert_eq!(s.begin_reconnect(), ConnectStart::AlreadyActive);
    assert!(!s.connectivity_changed(true));
    assert!(s.is_connected());
    assert!(!s.is_connecting());
}

#[test]
fn no_reconnect_after_disconnect() {
    let mut s = ConnState::new();
    s.begin_connect(&String::new());
    s.discovery_round(0, Some("AA".to_string()));
    s.connect_finished(Ok(())).unwrap();
    s.begin_disconnect();
    assert!(!s.connectivity_changed(false));
    s.finish_disconnect();
    assert!(!s.connectivity_changed(false));
    assert!(!s.connectivity_changed(true));
    assert!(!s.connectivity_changed(false));
    assert_eq!(s.begin_reconnect(), ConnectStart::Suppressed);
}

#[test]
fn named_filter_picks_matching_device() {
    let devs = vec![dev("other", "01"), dev("radio", "02"), dev("radio", "03")];
    assert_eq!(select_device(&devs, &"radio".to_string()), Some("02".to_string()));
    assert_eq!(select_device(&devs, &"missing".to_string()), None);
    assert_eq!(select_device(&devs, &"radi".to_string()), None);
}

#[test]
fn empty_filter_picks_first_device() {
    let devs = vec![dev("other", "01"), dev("radio", "02")];
    assert_eq!(select_device(&devs, &String::new()), Some("01".to_string()));
    assert_eq!(select_device(&Vec::new(), &String::new()), None);
}

#[test]
fn send_timeout_is_not_transport_error() {
    assert_eq!(SEND_DEADLINE_MS, 5000);
    let r = send_result(SendOutcome::DeadlineExpired);
    assert_eq!(r, Err(LinkError::Timeout));
    assert_eq!(r.unwrap_err().message(), "lora send timeout");
}

#[test]
fn send_transport_error_keeps_message() {
    let r = send_result(SendOutcome::Completed(Err("gatt busy".to_string())));
    assert_eq!(r, Err(LinkError::Transport("gatt busy".to_string())));
    assert_eq!(r.unwrap_err().message(), "gatt busy");
    assert_eq!(send_result(SendOutcome::Completed(Ok(()))), Ok(()));
    assert!(send_result(SendOutcome::DeadlineExpired).is_err());
}

#[test]
fn transport_result_maps_errors() {
    assert_eq!(transport_result(Ok(())), Ok(()));
    assert_eq!(
        transport_result(Err("x".to_string())),
        Err(LinkError::Transport("x".to_string()))
    );
}
