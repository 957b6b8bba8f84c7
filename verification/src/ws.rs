//! The lifecycle of one subscriber, from connect to disconnect, as a state
//! machine. The caller owns the transport and the hub; it reports what
//! happened and does what the machine answers.
//!
//! A subscriber is first sent one snapshot read at connect time, then
//! attached to the hub, and from then on forwarded every message that the
//! hub delivers. Falling behind is reported with the number of messages
//! that were missed, and is never a reason to disconnect.

use vstd::prelude::*;

verus! {

/// Where a subscriber stands.
#[derive(Clone, Copy, Debug, PartialEq, Eq, Structural)]
pub enum SocketPhase {
    /// Connected; the connect-time snapshot is being read.
    Connecting,
    /// The connect-time snapshot is on its way to the subscriber.
    Greeting,
    /// Attached to the hub and waiting for its next message.
    Listening,
    /// A message of the hub is on its way to the subscriber.
    Forwarding,
    /// Unregistered.
    Closed,
}

/// What the caller reports.
#[derive(Clone, Copy, Debug, PartialEq, Eq, Structural)]
pub enum SocketEvent {
    /// The connect-time snapshot was read and encoded.
    SnapshotReady,
    /// The connect-time snapshot could not be read or encoded.
    SnapshotUnavailable,
    /// The frame on its way was handed to the transport.
    Sent,
    /// The transport refused the frame on its way.
    SendFailed,
    /// The hub delivered a message.
    Published,
    /// The subscriber fell behind and the hub dropped this many messages.
    Lagged(u64),
    /// The hub is gone.
    HubClosed,
    /// The subscriber closed the transport.
    ClientGone,
}

/// What the caller is to do next.
#[derive(Clone, Copy, Debug, PartialEq, Eq, Structural)]
pub enum SocketAction {
    /// Send the connect-time snapshot.
    SendSnapshot,
    /// Attach to the hub and wait for its next message.
    Subscribe,
    /// Send the message that the hub just delivered.
    Forward,
    /// Note that this many messages were missed, and wait for the next.
    ReportLag(u64),
    /// Wait for the next message of the hub.
    Receive,
    /// Unregister this subscriber.
    Close,
    /// The event does not belong to this phase: go on as before.
    Ignore,
}

impl SocketEvent {
    /// An event that ends a subscription in some phase.
    pub open spec fn is_fatal(self) -> bool {
        self == SocketEvent::SendFailed || self == SocketEvent::HubClosed || self
            == SocketEvent::ClientGone
    }
}

/// The phase after an event, and what to do.
pub open spec fn next(phase: SocketPhase, event: SocketEvent) -> (SocketPhase, SocketAction) {
    match (phase, event) {
        (SocketPhase::Closed, _) => (SocketPhase::Closed, SocketAction::Close),
        (_, SocketEvent::ClientGone) => (SocketPhase::Closed, SocketAction::Close),
        (SocketPhase::Connecting, SocketEvent::SnapshotReady) => (
            SocketPhase::Greeting,
            SocketAction::SendSnapshot,
        ),
        (SocketPhase::Connecting, SocketEvent::SnapshotUnavailable) => (
            SocketPhase::Listening,
            SocketAction::Subscribe,
        ),
        (SocketPhase::Greeting, SocketEvent::Sent) => (
            SocketPhase::Listening,
            SocketAction::Subscribe,
        ),
        (SocketPhase::Greeting, SocketEvent::SendFailed) => (
            SocketPhase::Closed,
            SocketAction::Close,
        ),
        (SocketPhase::Listening, SocketEvent::Published) => (
            SocketPhase::Forwarding,
            SocketAction::Forward,
        ),
        (SocketPhase::Listening, SocketEvent::Lagged(missed)) => (
            SocketPhase::Listening,
            SocketAction::ReportLag(missed),
        ),
        (SocketPhase::Listening, SocketEvent::HubClosed) => (
            SocketPhase::Closed,
            SocketAction::Close,
        ),
        (SocketPhase::Forwarding, SocketEvent::Sent) => (
            SocketPhase::Listening,
            SocketAction::Receive,
        ),
        (SocketPhase::Forwarding, SocketEvent::SendFailed) => (
            SocketPhase::Closed,
            SocketAction::Close,
        ),
        (phase, _) => (phase, SocketAction::Ignore),
    }
}

impl SocketPhase {
    /// The phase of a subscriber that has just connected.
    pub fn start() -> (phase: SocketPhase)
        ensures
            phase == SocketPhase::Connecting,
    {
        SocketPhase::Connecting
    }

    /// The phase after an event, and what to do.
    pub fn step(self, event: SocketEvent) -> (result: (SocketPhase, SocketAction))
        ensures
            result == next(self, event),
    {
        match (self, event) {
            (SocketPhase::Closed, _) => (SocketPhase::Closed, SocketAction::Close),
            (_, SocketEvent::ClientGone) => (SocketPhase::Closed, SocketAction::Close),
            (SocketPhase::Connecting, SocketEvent::SnapshotReady) => (
                SocketPhase::Greeting,
                SocketAction::SendSnapshot,
            ),
            (SocketPhase::Connecting, SocketEvent::SnapshotUnavailable) => (
                SocketPhase::Listening,
                SocketAction::Subscribe,
            ),
            (SocketPhase::Greeting, SocketEvent::Sent) => (
                SocketPhase::Listening,
                SocketAction::Subscribe,
            ),
            (SocketPhase::Greeting, SocketEvent::SendFailed) => (
                SocketPhase::Closed,
                SocketAction::Close,
            ),
            (SocketPhase::Listening, SocketEvent::Published) => (
                SocketPhase::Forwarding,
                SocketAction::Forward,
            ),
            (SocketPhase::Listening, SocketEvent::Lagged(missed)) => (
                SocketPhase::Listening,
                SocketAction::ReportLag(missed),
            ),
            (SocketPhase::Listening, SocketEvent::HubClosed) => (
                SocketPhase::Closed,
                SocketAction::Close,
            ),
            (SocketPhase::Forwarding, SocketEvent::Sent) => (
                SocketPhase::Listening,
                SocketAction::Receive,
            ),
            (SocketPhase::Forwarding, SocketEvent::SendFailed) => (
                SocketPhase::Closed,
                SocketAction::Close,
            ),
            (phase, _) => (phase, SocketAction::Ignore),
        }
    }
}

/// The phase after a sequence of events.
pub open spec fn run(phase: SocketPhase, events: Seq<SocketEvent>) -> SocketPhase
    decreases events.len(),
{
    if events.len() == 0 {
        phase
    } else {
        next(run(phase, events.drop_last()), events.last()).0
    }
}

/// How many messages the hub delivered while the subscriber was waiting for
/// one, over a sequence of events.
pub open spec fn delivered(phase: SocketPhase, events: Seq<SocketEvent>) -> nat
    decreases events.len(),
{
    if events.len() == 0 {
        0
    } else {
        let before = delivered(phase, events.drop_last());
        if run(phase, events.drop_last()) == SocketPhase::Listening && events.last()
            == SocketEvent::Published {
            before + 1
        } else {
            before
        }
    }
}

/// How often an action was answered over a sequence of events.
pub open spec fn times(phase: SocketPhase, events: Seq<SocketEvent>, action: SocketAction) -> nat
    decreases events.len(),
{
    if events.len() == 0 {
        0
    } else {
        let before = times(phase, events.drop_last(), action);
        if next(run(phase, events.drop_last()), events.last()).1 == action {
            before + 1
        } else {
            before
        }
    }
}

/// A subscriber is unregistered exactly when it is told to close, and only
/// for a fatal event: falling behind never ends a subscription, and a closed
/// one stays closed.
pub proof fn law_only_fatal_events_close(phase: SocketPhase, event: SocketEvent)
    ensures
        next(phase, event).0 == SocketPhase::Closed <==> next(phase, event).1
            == SocketAction::Close,
        next(phase, event).0 == SocketPhase::Closed ==> phase == SocketPhase::Closed
            || event.is_fatal(),
        phase == SocketPhase::Closed ==> next(phase, event).0 == SocketPhase::Closed,
        forall|missed: u64|
            #[trigger] next(SocketPhase::Listening, SocketEvent::Lagged(missed)) == (
                SocketPhase::Listening,
                SocketAction::ReportLag(missed),
            ),
        next(phase, event).1 == SocketAction::Forward <==> phase == SocketPhase::Listening
            && event == SocketEvent::Published,
{
}

/// However far a subscriber falls behind, it stays registered as long as no
/// fatal event occurs, and every message that the hub delivers to it while
/// it waits is forwarded, once.
pub proof fn law_lagging_subscriber_keeps_receiving(phase: SocketPhase, events: Seq<SocketEvent>)
    requires
        phase != SocketPhase::Closed,
        forall|i: int| 0 <= i < events.len() ==> !(#[trigger] events[i]).is_fatal(),
    ensures
        run(phase, events) != SocketPhase::Closed,
        times(phase, events, SocketAction::Forward) == delivered(phase, events),
    decreases events.len(),
{
    if events.len() > 0 {
        let front = events.drop_last();
        assert forall|i: int| 0 <= i < front.len() implies !(#[trigger] front[i]).is_fatal() by {
        }
        law_lagging_subscriber_keeps_receiving(phase, front);
    }
}

/// From connect on, whatever is reported: the connect-time snapshot is sent
/// at most once and only before the subscriber is attached to the hub, the
/// subscriber is attached at most once, and nothing is forwarded to a
/// subscriber that was not attached.
pub proof fn law_snapshot_comes_first(events: Seq<SocketEvent>)
    ensures
        times(SocketPhase::Connecting, events, SocketAction::SendSnapshot) <= 1,
        times(SocketPhase::Connecting, events, SocketAction::Subscribe) <= 1,
        run(SocketPhase::Connecting, events) == SocketPhase::Connecting ==> times(
            SocketPhase::Connecting,
            events,
            SocketAction::SendSnapshot,
        ) == 0,
        run(SocketPhase::Connecting, events) == SocketPhase::Connecting || run(
            SocketPhase::Connecting,
            events,
        ) == SocketPhase::Greeting ==> times(
            SocketPhase::Connecting,
            events,
            SocketAction::Subscribe,
        ) == 0,
        run(SocketPhase::Connecting, events) == SocketPhase::Greeting ==> times(
            SocketPhase::Connecting,
            events,
            SocketAction::SendSnapshot,
        ) == 1,
        run(SocketPhase::Connecting, events) == SocketPhase::Listening || run(
            SocketPhase::Connecting,
            events,
        ) == SocketPhase::Forwarding ==> times(
            SocketPhase::Connecting,
            events,
            SocketAction::Subscribe,
        ) == 1,
        times(SocketPhase::Connecting, events, SocketAction::Subscribe) == 0 ==> times(
            SocketPhase::Connecting,
            events,
            SocketAction::Forward,
        ) == 0,
    decreases events.len(),
{
    if events.len() > 0 {
        law_snapshot_comes_first(events.drop_last());
    }
}

} // verus!
