//! The decisions of one websocket client session: forward each snapshot,
//! skip over lag, stop when the feed closes, a send fails or the client
//! leaves.

use vstd::prelude::*;

verus! {

/// What waiting on the snapshot feed gave.
#[derive(Debug, Clone, Copy, PartialEq, Eq, Structural)]
pub enum FeedEvent {
    /// A snapshot arrived.
    Snapshot,
    /// The session fell behind and the given number of snapshots were dropped.
    Lagged(u64),
    /// The feed was closed.
    Closed,
}

/// How forwarding one snapshot to the client went.
#[derive(Debug, Clone, Copy, PartialEq, Eq, Structural)]
pub enum ForwardOutcome {
    /// The snapshot was sent.
    Sent,
    /// The snapshot could not be turned into text; it is skipped.
    EncodeFailed,
    /// Sending to the client failed.
    SendFailed,
}

/// What a frame read from the client was.
#[derive(Debug, Clone, Copy, PartialEq, Eq, Structural)]
pub enum ClientFrame {
    /// A close frame.
    Close,
    /// Any other frame.
    Other,
    /// Reading failed.
    Error,
}

/// What the session does next.
#[derive(Debug, Clone, Copy, PartialEq, Eq, Structural)]
pub enum SessionStep {
    /// Send the snapshot that arrived.
    Forward,
    /// Wait for the next snapshot.
    Wait,
    /// End the session.
    Stop,
}

/// The step after an event of the feed.
pub open spec fn step_after_feed(e: FeedEvent) -> SessionStep {
    match e {
        FeedEvent::Snapshot => SessionStep::Forward,
        FeedEvent::Lagged(_) => SessionStep::Wait,
        FeedEvent::Closed => SessionStep::Stop,
    }
}

/// The step after forwarding a snapshot.
pub open spec fn step_after_forward(o: ForwardOutcome) -> SessionStep {
    match o {
        ForwardOutcome::Sent => SessionStep::Wait,
        ForwardOutcome::EncodeFailed => SessionStep::Wait,
        ForwardOutcome::SendFailed => SessionStep::Stop,
    }
}

/// Decides what to do with what the snapshot feed gave.
pub fn on_feed_event(e: FeedEvent) -> (s: SessionStep)
    ensures
        s == step_after_feed(e),
{
    match e {
        FeedEvent::Snapshot => SessionStep::Forward,
        FeedEvent::Lagged(_) => SessionStep::Wait,
        FeedEvent::Closed => SessionStep::Stop,
    }
}

/// Decides what to do once a snapshot was forwarded, or failed to be.
pub fn on_forward_outcome(o: ForwardOutcome) -> (s: SessionStep)
    ensures
        s == step_after_forward(o),
{
    match o {
        ForwardOutcome::Sent => SessionStep::Wait,
        ForwardOutcome::EncodeFailed => SessionStep::Wait,
        ForwardOutcome::SendFailed => SessionStep::Stop,
    }
}

/// Whether to keep reading from the client after a frame: a close frame or
/// a read error ends the reading.
pub fn keep_reading(f: ClientFrame) -> (b: bool)
    ensures
        b == (f == ClientFrame::Other),
{
    match f {
        ClientFrame::Other => true,
        _ => false,
    }
}

/// A session ends only when the feed closes or a send fails: lag and
/// snapshots that cannot be encoded never end it.
pub proof fn law_session_stops_only_on_close_or_send_failure(e: FeedEvent, o: ForwardOutcome)
    ensures
        step_after_feed(e) == SessionStep::Stop <==> e == FeedEvent::Closed,
        step_after_forward(o) == SessionStep::Stop <==> o == ForwardOutcome::SendFailed,
        step_after_feed(e) == SessionStep::Forward <==> e == FeedEvent::Snapshot,
        step_after_forward(o) != SessionStep::Forward,
{
}

} // verus!
