//! Finding the lamp: what is browsed for, what each event of the browse
//! means, and which event ends it.

use vstd::prelude::*;
use crate::text::texts;

verus! {

/// One event of a browse for the lamp's service.
#[derive(Debug, PartialEq, Eq)]
pub enum DiscoveryEvent {
    /// The service was resolved; these are the addresses it advertises, in
    /// the order in which they were handed over.
    Resolved(Vec<String>),
    /// Anything else that a browse reports, with a description of it.
    OtherEvent(String),
    /// The browse broke down; the text says how.
    Error(String),
}

/// Why no address was found.
#[derive(Debug, PartialEq, Eq)]
pub enum DiscoveryError {
    /// The browse could not be started.
    SetupError(String),
    /// The browse was started and then broke down.
    BrowserError(String),
}

/// What a `DiscoveryEvent` holds.
pub ghost enum EventModel {
    Resolved(Seq<Seq<char>>),
    OtherEvent(Seq<char>),
    Error(Seq<char>),
}

/// What a `DiscoveryError` holds.
pub ghost enum ErrorModel {
    SetupError(Seq<char>),
    BrowserError(Seq<char>),
}

impl View for DiscoveryEvent {
    type V = EventModel;

    open spec fn view(&self) -> EventModel {
        match self {
            DiscoveryEvent::Resolved(addresses) => EventModel::Resolved(texts(addresses@)),
            DiscoveryEvent::OtherEvent(what) => EventModel::OtherEvent(what@),
            DiscoveryEvent::Error(reason) => EventModel::Error(reason@),
        }
    }
}

impl View for DiscoveryError {
    type V = ErrorModel;

    open spec fn view(&self) -> ErrorModel {
        match self {
            DiscoveryError::SetupError(reason) => ErrorModel::SetupError(reason@),
            DiscoveryError::BrowserError(reason) => ErrorModel::BrowserError(reason@),
        }
    }
}

/// How a discovery ended: with the lamp's address, or with the reason why
/// there is none.
pub type Resolution = Result<Seq<char>, ErrorModel>;

/// The service type that the lamp advertises.
pub open spec fn service_type_text() -> Seq<char> {
    "_lamp._tcp.local."@
}

/// What is said when the discovery daemon cannot be created, before the detail.
pub open spec fn daemon_failure_prefix() -> Seq<char> {
    "Failed to create mdns deamon: "@
}

/// What is said when the browse cannot be subscribed to, before the detail.
pub open spec fn browse_failure_prefix() -> Seq<char> {
    "Failed to create mdns browser: "@
}

/// What is said when a running browse breaks down, before the detail.
pub open spec fn browser_error_prefix() -> Seq<char> {
    "Mdns browser error: "@
}

/// A resolved service advertises at least one address. The other events are
/// always in order.
pub open spec fn advertises_address(event: EventModel) -> bool {
    event matches EventModel::Resolved(addresses) ==> addresses.len() > 0
}

/// What one event decides: a resolved service gives its first address, an
/// error ends the discovery as a failure, anything else decides nothing.
pub open spec fn verdict(event: EventModel) -> Option<Resolution> {
    match event {
        EventModel::Resolved(addresses) => Some(Ok(addresses[0])),
        EventModel::OtherEvent(_) => None,
        EventModel::Error(reason) => Some(Err(ErrorModel::BrowserError(reason))),
    }
}

/// What a stream of events decides: the verdict of its first event that has
/// one. `None` where no event of the stream decides anything.
pub open spec fn resolution(events: Seq<EventModel>) -> Option<Resolution>
    decreases events.len(),
{
    if events.len() == 0 {
        None
    } else if verdict(events[0]) is Some {
        verdict(events[0])
    } else {
        resolution(events.skip(1))
    }
}

/// The stream asks nothing impossible: the event that decides it, if there
/// is one, advertises an address. Events after that one are never looked at.
pub open spec fn admissible(events: Seq<EventModel>) -> bool
    decreases events.len(),
{
    if events.len() == 0 {
        true
    } else if verdict(events[0]) is Some {
        advertises_address(events[0])
    } else {
        admissible(events.skip(1))
    }
}

/// The events of a list, each by what it holds.
pub open spec fn event_models(events: Seq<DiscoveryEvent>) -> Seq<EventModel> {
    events.map_values(|e: DiscoveryEvent| e@)
}

/// An outcome of a discovery, by what it holds.
pub open spec fn resolution_of(outcome: Result<String, DiscoveryError>) -> Resolution {
    match outcome {
        Ok(address) => Ok(address@),
        Err(error) => Err(error@),
    }
}

/// An outcome that may still be open, by what it holds.
pub open spec fn open_resolution_of(outcome: Option<Result<String, DiscoveryError>>) -> Option<
    Resolution,
> {
    match outcome {
        Some(decided) => Some(resolution_of(decided)),
        None => None,
    }
}

/// The service type to browse for.
pub fn service_type() -> (name: &'static str)
    ensures
        name@ == service_type_text(),
{
    "_lamp._tcp.local."
}

impl DiscoveryError {
    /// The failure to report when the discovery daemon could not be created.
    pub fn daemon_failure(detail: &str) -> (error: DiscoveryError)
        ensures
            error@ == ErrorModel::SetupError(daemon_failure_prefix() + detail@),
    {
        let mut reason = String::from_str("Failed to create mdns deamon: ");
        reason.append(detail);
        DiscoveryError::SetupError(reason)
    }

    /// The failure to report when the browse could not be subscribed to.
    pub fn browse_failure(detail: &str) -> (error: DiscoveryError)
        ensures
            error@ == ErrorModel::SetupError(browse_failure_prefix() + detail@),
    {
        let mut reason = String::from_str("Failed to create mdns browser: ");
        reason.append(detail);
        DiscoveryError::SetupError(reason)
    }

    /// The message for a caller who is told no more than a text.
    pub open spec fn message_text(error: ErrorModel) -> Seq<char> {
        match error {
            ErrorModel::SetupError(reason) => reason,
            ErrorModel::BrowserError(reason) => browser_error_prefix() + reason,
        }
    }

    /// The message for a caller who is told no more than a text: a setup
    /// failure reads as it was recorded, a breakdown of the browse is
    /// introduced as one.
    pub fn message(&self) -> (text: String)
        ensures
            text@ == Self::message_text(self@),
    {
        match self {
            DiscoveryError::SetupError(reason) => reason.clone(),
            DiscoveryError::BrowserError(reason) => {
                let mut text = String::from_str("Mdns browser error: ");
                text.append(reason.as_str());
                text
            },
        }
    }
}

/// Decides on one event of the browse. `Some` ends the discovery with that
/// outcome, `None` means that the browse goes on.
pub fn on_event(event: &DiscoveryEvent) -> (outcome: Option<Result<String, DiscoveryError>>)
    requires
        advertises_address(event@),
    ensures
        open_resolution_of(outcome) == verdict(event@),
{
    match event {
        DiscoveryEvent::Resolved(addresses) => {
            assert(texts(addresses@)[0] == addresses@[0]@);
            Some(Ok(addresses[0].clone()))
        },
        DiscoveryEvent::OtherEvent(_) => None,
        DiscoveryEvent::Error(reason) => Some(Err(DiscoveryError::BrowserError(reason.clone()))),
    }
}

/// Runs a discovery over a recorded stream of events, taken in their order:
/// the first event that decides gives the outcome, and nothing after it is
/// looked at. `None` where the stream ends before any event has decided.
pub fn resolve(events: &Vec<DiscoveryEvent>) -> (outcome: Option<Result<String, DiscoveryError>>)
    requires
        admissible(event_models(events@)),
    ensures
        open_resolution_of(outcome) == resolution(event_models(events@)),
{
    let ghost all = event_models(events@);
    let mut i: usize = 0;
    proof {
        assert(all.skip(0) =~= all);
    }
    while i < events.len()
        invariant
            i <= events.len(),
            all == event_models(events@),
            admissible(all.skip(i as int)),
            resolution(all.skip(i as int)) == resolution(all),
        decreases events.len() - i,
    {
        proof {
            let rest = all.skip(i as int);
            assert(rest[0] == events@[i as int]@);
            assert(rest.skip(1) =~= all.skip(i as int + 1));
        }
        let decided = on_event(&events[i]);
        if decided.is_some() {
            return decided;
        }
        i += 1;
    }
    proof {
        assert(all.skip(events.len() as int) =~= Seq::<EventModel>::empty());
    }
    None
}

/// Every event of the stream is one that decides nothing.
pub open spec fn all_undecided(events: Seq<EventModel>) -> bool {
    forall|i: int| 0 <= i < events.len() ==> verdict(#[trigger] events[i]) is None
}

/// Events that decide nothing are passed over: the outcome is that of what
/// follows them.
pub proof fn undecided_events_are_passed_over(quiet: Seq<EventModel>, rest: Seq<EventModel>)
    requires
        all_undecided(quiet),
    ensures
        resolution(quiet + rest) == resolution(rest),
    decreases quiet.len(),
{
    if quiet.len() == 0 {
        assert(quiet + rest =~= rest);
    } else {
        let whole = quiet + rest;
        assert(whole[0] == quiet[0]);
        assert(whole.skip(1) =~= quiet.skip(1) + rest);
        assert forall|i: int| 0 <= i < quiet.skip(1).len() implies verdict(
            #[trigger] quiet.skip(1)[i],
        ) is None by {
            assert(quiet.skip(1)[i] == quiet[i + 1]);
        }
        undecided_events_are_passed_over(quiet.skip(1), rest);
    }
}

/// Once an event has decided, the outcome stands: no event that comes later
/// changes it.
pub proof fn first_decision_stands(events: Seq<EventModel>, later: Seq<EventModel>)
    requires
        resolution(events) is Some,
    ensures
        resolution(events + later) == resolution(events),
    decreases events.len(),
{
    let whole = events + later;
    assert(events.len() > 0);
    assert(whole[0] == events[0]);
    if verdict(events[0]) is None {
        assert(whole.skip(1) =~= events.skip(1) + later);
        first_decision_stands(events.skip(1), later);
    }
}

/// A resolved service that comes after events that decide nothing ends the
/// discovery with its first address, whatever comes after it.
pub proof fn resolved_service_gives_first_address(
    quiet: Seq<EventModel>,
    addresses: Seq<Seq<char>>,
    later: Seq<EventModel>,
)
    requires
        all_undecided(quiet),
        addresses.len() > 0,
    ensures
        admissible(quiet + seq![EventModel::Resolved(addresses)] + later),
        resolution(quiet + seq![EventModel::Resolved(addresses)] + later) == Some(
            Ok::<Seq<char>, ErrorModel>(addresses[0]),
        ),
{
    let tail = seq![EventModel::Resolved(addresses)] + later;
    assert(quiet + seq![EventModel::Resolved(addresses)] + later =~= quiet + tail);
    undecided_events_are_passed_over(quiet, tail);
    lemma_admissible_after_undecided(quiet, tail);
    assert(tail[0] == EventModel::Resolved(addresses));
}

/// An error that comes after events that decide nothing ends the discovery
/// as a failure of the browse, whatever comes after it.
pub proof fn error_ends_discovery(
    quiet: Seq<EventModel>,
    reason: Seq<char>,
    later: Seq<EventModel>,
)
    requires
        all_undecided(quiet),
    ensures
        admissible(quiet + seq![EventModel::Error(reason)] + later),
        resolution(quiet + seq![EventModel::Error(reason)] + later) == Some(
            Err::<Seq<char>, ErrorModel>(ErrorModel::BrowserError(reason)),
        ),
{
    let tail = seq![EventModel::Error(reason)] + later;
    assert(quiet + seq![EventModel::Error(reason)] + later =~= quiet + tail);
    undecided_events_are_passed_over(quiet, tail);
    lemma_admissible_after_undecided(quiet, tail);
    assert(tail[0] == EventModel::Error(reason));
}

/// A stream that begins with events that decide nothing is admissible where
/// what follows them is.
proof fn lemma_admissible_after_undecided(quiet: Seq<EventModel>, rest: Seq<EventModel>)
    requires
        all_undecided(quiet),
    ensures
        admissible(quiet + rest) == admissible(rest),
    decreases quiet.len(),
{
    if quiet.len() == 0 {
        assert(quiet + rest =~= rest);
    } else {
        let whole = quiet + rest;
        assert(whole[0] == quiet[0]);
        assert(whole.skip(1) =~= quiet.skip(1) + rest);
        assert forall|i: int| 0 <= i < quiet.skip(1).len() implies verdict(
            #[trigger] quiet.skip(1)[i],
        ) is None by {
            assert(quiet.skip(1)[i] == quiet[i + 1]);
        }
        lemma_admissible_after_undecided(quiet.skip(1), rest);
    }
}

} // verus!
