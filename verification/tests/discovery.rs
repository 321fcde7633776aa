use lamp_control::discovery::{on_event, resolve, service_type, DiscoveryError, DiscoveryEvent};

fn other(what: &str) -> DiscoveryEvent {
    DiscoveryEvent::OtherEvent(what.to_string())
}

fn resolved(addresses: &[&str]) -> DiscoveryEvent {
    DiscoveryEvent::Resolved(addresses.iter().map(|a| a.to_string()).collect())
}

fn error(reason: &str) -> DiscoveryEvent {
    DiscoveryEvent::Error(reason.to_string())
}

#[test]
fn browses_for_the_lamp_service() {
    assert_eq!(service_type(), "_lamp._tcp.local.");
}

#[test]
fn resolved_after_other_events_gives_first_address() {
    let events = vec![
        other("SearchStarted"),
        other("ServiceFound"),
        resolved(&["192.168.1.40", "192.168.1.41"]),
    ];
    assert_eq!(resolve(&events), Some(Ok("192.168.1.40".to_string())));
}

#[test]
fn resolved_with_one_address_gives_it() {
    let events = vec![resolved(&["10.1.2.3"])];
    assert_eq!(resolve(&events), Some(Ok("10.1.2.3".to_string())));
}

#[test]
fn error_ends_the_discovery() {
    let events = vec![error("receiver disconnected")];
    assert_eq!(
        resolve(&events),
        Some(Err(DiscoveryError::BrowserError("receiver disconnected".to_string())))
    );
}

#[test]
fn error_does_not_wait_for_later_events() {
    let events = vec![
        other("SearchStarted"),
        error("receiver disconnected"),
        resolved(&["192.168.1.40"]),
        other("SearchStopped"),
    ];
    assert_eq!(
        resolve(&events),
        Some(Err(DiscoveryError::BrowserError("receiver disconnected".to_string())))
    );
}

#[test]
fn nothing_after_a_resolved_service_counts() {
    let events = vec![
        resolved(&["192.168.1.40"]),
        error("receiver disconnected"),
        resolved(&["192.168.1.99"]),
    ];
    assert_eq!(resolve(&events), Some(Ok("192.168.1.40".to_string())));
}

#[test]
fn an_empty_address_list_after_the_end_is_never_read() {
    let events = vec![error("gone"), resolved(&[])];
    assert_eq!(
        resolve(&events),
        Some(Err(DiscoveryError::BrowserError("gone".to_string())))
    );
}

#[test]
fn stream_without_a_deciding_event_stays_open() {
    let events = vec![other("SearchStarted"), other("ServiceFound"), other("ServiceRemoved")];
    assert_eq!(resolve(&events), None);
}

#[test]
fn empty_stream_stays_open() {
    let events: Vec<DiscoveryEvent> = Vec::new();
    assert_eq!(resolve(&events), None);
}

#[test]
fn one_resolved_event_decides() {
    let event = resolved(&["192.168.1.40", "192.168.1.41"]);
    assert_eq!(on_event(&event), Some(Ok("192.168.1.40".to_string())));
}

#[test]
fn one_other_event_decides_nothing() {
    assert_eq!(on_event(&other("SearchStarted")), None);
}

#[test]
fn one_error_event_decides() {
    assert_eq!(
        on_event(&error("closed")),
        Some(Err(DiscoveryError::BrowserError("closed".to_string())))
    );
}

#[test]
fn events_fed_one_by_one_agree_with_the_stream() {
    let events = vec![other("a"), other("b"), resolved(&["10.0.0.1", "10.0.0.2"]), error("late")];
    let mut outcome = None;
    for event in &events {
        outcome = on_event(event);
        if outcome.is_some() {
            break;
        }
    }
    assert_eq!(outcome, resolve(&events));
    assert_eq!(outcome, Some(Ok("10.0.0.1".to_string())));
}

#[test]
fn daemon_failure_is_a_setup_error() {
    let failure = DiscoveryError::daemon_failure("Msg(\"bind failed\")");
    assert_eq!(
        failure,
        DiscoveryError::SetupError("Failed to create mdns deamon: Msg(\"bind failed\")".to_string())
    );
    assert_eq!(failure.message(), "Failed to create mdns deamon: Msg(\"bind failed\")");
}

#[test]
fn browse_failure_is_a_setup_error() {
    let failure = DiscoveryError::browse_failure("Again");
    assert_eq!(
        failure,
        DiscoveryError::SetupError("Failed to create mdns browser: Again".to_string())
    );
    assert_eq!(failure.message(), "Failed to create mdns browser: Again");
}

#[test]
fn setup_error_reads_as_recorded() {
    let failure = DiscoveryError::SetupError("no network".to_string());
    assert_eq!(failure.message(), "no network");
}

#[test]
fn browser_error_is_introduced() {
    let failure = DiscoveryError::BrowserError("Disconnected".to_string());
    assert_eq!(failure.message(), "Mdns browser error: Disconnected");
}

#[test]
fn browser_error_with_empty_reason() {
    let failure = DiscoveryError::BrowserError(String::new());
    assert_eq!(failure.message(), "Mdns browser error: ");
}
