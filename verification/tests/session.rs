use lamp_control::discovery::DiscoveryError;
use lamp_control::session::DeviceSession;

#[test]
fn new_session_holds_no_address() {
    let session = DeviceSession::new();
    assert_eq!(session.get(), "");
}

#[test]
fn default_session_holds_no_address() {
    let session = DeviceSession::default();
    assert_eq!(session.get(), "");
}

#[test]
fn set_stores_the_address() {
    let mut session = DeviceSession::new();
    session.set("192.168.1.40".to_string());
    assert_eq!(session.get(), "192.168.1.40");
}

#[test]
fn second_set_overwrites_the_first() {
    let mut session = DeviceSession::new();
    session.set("192.168.1.40".to_string());
    session.set("192.168.1.41".to_string());
    assert_eq!(session.get(), "192.168.1.41");
}

#[test]
fn set_takes_any_text() {
    let mut session = DeviceSession::new();
    session.set("not an address".to_string());
    assert_eq!(session.get(), "not an address");
    session.set(String::new());
    assert_eq!(session.get(), "");
}

#[test]
fn get_does_not_change_the_session() {
    let mut session = DeviceSession::new();
    session.set("10.0.0.9".to_string());
    let first = session.get();
    let second = session.get();
    assert_eq!(first, "10.0.0.9");
    assert_eq!(second, "10.0.0.9");
}

#[test]
fn successful_discovery_is_stored() {
    let mut session = DeviceSession::new();
    let reply = session.connect(Ok("192.168.1.40".to_string()));
    assert_eq!(reply, Ok(()));
    assert_eq!(session.get(), "192.168.1.40");
}

#[test]
fn successful_discovery_replaces_the_address() {
    let mut session = DeviceSession::new();
    session.set("192.168.1.40".to_string());
    let reply = session.connect(Ok("192.168.1.77".to_string()));
    assert_eq!(reply, Ok(()));
    assert_eq!(session.get(), "192.168.1.77");
}

#[test]
fn failed_discovery_keeps_the_address() {
    let mut session = DeviceSession::new();
    session.set("192.168.1.40".to_string());
    let reply = session.connect(Err(DiscoveryError::BrowserError("channel closed".to_string())));
    assert_eq!(reply, Err("Mdns browser error: channel closed".to_string()));
    assert_eq!(session.get(), "192.168.1.40");
}

#[test]
fn failed_setup_keeps_the_address() {
    let mut session = DeviceSession::new();
    session.set("192.168.1.40".to_string());
    let reply = session.connect(Err(DiscoveryError::daemon_failure("no socket")));
    assert_eq!(reply, Err("Failed to create mdns deamon: no socket".to_string()));
    assert_eq!(session.get(), "192.168.1.40");
}

#[test]
fn failed_discovery_leaves_a_fresh_session_empty() {
    let mut session = DeviceSession::new();
    let reply = session.connect(Err(DiscoveryError::browse_failure("busy")));
    assert_eq!(reply, Err("Failed to create mdns browser: busy".to_string()));
    assert_eq!(session.get(), "");
}
