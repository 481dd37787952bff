//! One streaming connection: a client that is sent the events of its user
//! for as long as it stays connected.
//!
//! The task that serves a connection waits for events and for the keep-alive
//! timer, whichever comes first, and writes to the client. Here is what it
//! decides: where the connection goes from each state on each thing that can
//! happen.

use crate::auth::Rejection;
use crate::json::{json_document, render, rendered};
use crate::jwt::UserCliams;
use crate::notify::event::{event_read, event_written, EventModel, NotifyEvent};
use crate::types::RowID;
use vstd::prelude::*;

verus! {

/// Seconds between two keep-alive frames.
pub const KEEP_ALIVE_SECS: u64 = 1;

/// The text of a keep-alive frame.
pub fn keep_alive_text() -> (text: &'static str)
    ensures
        text@ == "keep-alive"@,
{
    "keep-alive"
}

/// An event as it is written to a client: the tag, and the whole entity as a
/// JSON text.
#[derive(Debug, Clone)]
pub struct Frame {
    pub event: &'static str,
    pub data: String,
}

/// The frame that is written for an event: its tag, and the text of its
/// document. There is none where a time in the event cannot be written, or
/// where the text of the document does not read back as the document.
pub open spec fn frame_of(event: EventModel) -> Option<(Seq<char>, Seq<char>)> {
    match event_written(event) {
        Some(doc) => match rendered(doc) {
            Some(data) => Some((event.tag(), data)),
            None => None,
        },
        None => None,
    }
}

/// The tag and the data of an optional frame, as texts.
pub open spec fn frame_view(frame: Option<Frame>) -> Option<(Seq<char>, Seq<char>)> {
    match frame {
        Some(frame) => Some((frame.event@, frame.data@)),
        None => None,
    }
}

/// Writes an event for a client. The data of the frame is a JSON text that a
/// client reads back as the event. `None` if the event cannot be written so.
pub fn frame(event: &NotifyEvent) -> (out: Option<Frame>)
    ensures
        frame_view(out) == frame_of(event@),
        out matches Some(frame) ==> frame.event@ == event@.tag() && (json_document(
            frame.data@,
        ) matches Some(doc) && event_read(doc) == Some(event@)),
{
    let doc = match event.to_json() {
        Some(doc) => doc,
        None => return None,
    };
    match render(&doc) {
        Some(data) => Some(Frame { event: event.name(), data }),
        None => None,
    }
}

/// Where a connection stands.
#[derive(Debug, Clone, Copy, PartialEq, Eq, Structural)]
pub enum StreamState {
    /// The client has connected; who it is is not known yet.
    Connecting,
    /// The client is this user; the subscription is being made.
    Authenticated(UserCliams),
    /// Events of this user are forwarded as they come.
    Streaming(UserCliams),
    /// The connection has ended, for good.
    Closed,
}

/// What can happen to a connection.
#[derive(Debug, Clone, Copy, PartialEq, Eq, Structural)]
pub enum StreamEvent {
    /// The credential was accepted as that of this user.
    Accepted(UserCliams),
    /// The credential was refused, or there was none.
    Refused(Rejection),
    /// The subscription to the channel of the user is there.
    Subscribed,
    /// An event has come from the subscription.
    Received,
    /// The subscription says that it skipped events: the client was too slow
    /// and the oldest ones were dropped.
    Lagged,
    /// The keep-alive timer has fired.
    Tick,
    /// Writing to the client failed: it has gone.
    WriteFailed,
    /// The subscription has ended.
    SubscriptionClosed,
}

/// What the task of a connection does next.
#[derive(Debug, Clone, Copy, PartialEq, Eq, Structural)]
pub enum StreamAction {
    /// Answer with the status of the rejection and end.
    Reject(Rejection),
    /// Subscribe to the channel of this user, which is made if need be.
    Subscribe(RowID),
    /// Wait for the next event or tick.
    Await,
    /// Write the event to the client, under its tag, then wait again.
    Forward,
    /// Write a keep-alive frame to the client, then wait again.
    KeepAlive,
    /// Let go of the subscription of this connection, and of nothing else: the
    /// channel of the user stays in the registry.
    Release,
    /// Nothing: the event means nothing in this state.
    Ignore,
}

/// The next state and the action of a connection.
pub open spec fn stream_step(state: StreamState, event: StreamEvent) -> (
    StreamState,
    StreamAction,
) {
    match state {
        StreamState::Connecting => match event {
            StreamEvent::Accepted(user) => (
                StreamState::Authenticated(user),
                StreamAction::Subscribe(user.uid),
            ),
            StreamEvent::Refused(rejection) => (
                StreamState::Closed,
                StreamAction::Reject(rejection),
            ),
            StreamEvent::WriteFailed => (StreamState::Closed, StreamAction::Ignore),
            _ => (StreamState::Connecting, StreamAction::Ignore),
        },
        StreamState::Authenticated(user) => match event {
            StreamEvent::Subscribed => (StreamState::Streaming(user), StreamAction::Await),
            StreamEvent::WriteFailed => (StreamState::Closed, StreamAction::Ignore),
            StreamEvent::SubscriptionClosed => (StreamState::Closed, StreamAction::Ignore),
            _ => (StreamState::Authenticated(user), StreamAction::Ignore),
        },
        StreamState::Streaming(user) => match event {
            StreamEvent::Received => (StreamState::Streaming(user), StreamAction::Forward),
            StreamEvent::Tick => (StreamState::Streaming(user), StreamAction::KeepAlive),
            StreamEvent::Lagged => (StreamState::Streaming(user), StreamAction::Await),
            StreamEvent::WriteFailed => (StreamState::Closed, StreamAction::Release),
            StreamEvent::SubscriptionClosed => (StreamState::Closed, StreamAction::Release),
            _ => (StreamState::Streaming(user), StreamAction::Ignore),
        },
        StreamState::Closed => (StreamState::Closed, StreamAction::Ignore),
    }
}

/// What verifying the credential of a connection gave, as an event.
pub open spec fn credential_event(verdict: Result<UserCliams, Rejection>) -> StreamEvent {
    match verdict {
        Ok(user) => StreamEvent::Accepted(user),
        Err(rejection) => StreamEvent::Refused(rejection),
    }
}

impl StreamState {
    /// The state in which a connection begins.
    pub fn new() -> (state: StreamState)
        ensures
            state == StreamState::Connecting,
    {
        StreamState::Connecting
    }

    /// Takes one event: gives the next state and what to do.
    pub fn step(self, event: StreamEvent) -> (next: (StreamState, StreamAction))
        ensures
            next == stream_step(self, event),
    {
        match self {
            StreamState::Connecting => match event {
                StreamEvent::Accepted(user) => (
                    StreamState::Authenticated(user),
                    StreamAction::Subscribe(user.uid),
                ),
                StreamEvent::Refused(rejection) => (
                    StreamState::Closed,
                    StreamAction::Reject(rejection),
                ),
                StreamEvent::WriteFailed => (StreamState::Closed, StreamAction::Ignore),
                _ => (StreamState::Connecting, StreamAction::Ignore),
            },
            StreamState::Authenticated(user) => match event {
                StreamEvent::Subscribed => (StreamState::Streaming(user), StreamAction::Await),
                StreamEvent::WriteFailed => (StreamState::Closed, StreamAction::Ignore),
                StreamEvent::SubscriptionClosed => (StreamState::Closed, StreamAction::Ignore),
                _ => (StreamState::Authenticated(user), StreamAction::Ignore),
            },
            StreamState::Streaming(user) => match event {
                StreamEvent::Received => (StreamState::Streaming(user), StreamAction::Forward),
                StreamEvent::Tick => (StreamState::Streaming(user), StreamAction::KeepAlive),
                StreamEvent::Lagged => (StreamState::Streaming(user), StreamAction::Await),
                StreamEvent::WriteFailed => (StreamState::Closed, StreamAction::Release),
                StreamEvent::SubscriptionClosed => (StreamState::Closed, StreamAction::Release),
                _ => (StreamState::Streaming(user), StreamAction::Ignore),
            },
            StreamState::Closed => (StreamState::Closed, StreamAction::Ignore),
        }
    }

    /// The event that the outcome of verifying the credential is.
    pub fn credential(verdict: Result<UserCliams, Rejection>) -> (event: StreamEvent)
        ensures
            event == credential_event(verdict),
    {
        match verdict {
            Ok(user) => StreamEvent::Accepted(user),
            Err(rejection) => StreamEvent::Refused(rejection),
        }
    }

    /// Whether the connection has ended.
    pub fn is_closed(&self) -> (yes: bool)
        ensures
            yes == (*self == StreamState::Closed),
    {
        match self {
            StreamState::Closed => true,
            _ => false,
        }
    }
}

/// A connection whose credential is refused ends at once, with the answer
/// that tells a missing credential from a refused one.
pub proof fn law_refused_connection_closes(rejection: Rejection)
    ensures
        stream_step(StreamState::Connecting, StreamEvent::Refused(rejection)).0
            == StreamState::Closed,
        stream_step(StreamState::Connecting, StreamEvent::Refused(rejection)).1
            == StreamAction::Reject(rejection),
{
}

/// A connection without any credential and one with a credential that is
/// refused both end at once, and with different answers: 401 for the first,
/// 403 for the second.
pub proof fn law_missing_and_invalid_are_told_apart()
    ensures
        stream_step(
            StreamState::Connecting,
            credential_event(Err(Rejection::MissingToken)),
        ).1 == StreamAction::Reject(Rejection::MissingToken),
        stream_step(
            StreamState::Connecting,
            credential_event(Err(Rejection::InvalidToken)),
        ).1 == StreamAction::Reject(Rejection::InvalidToken),
        Rejection::MissingToken.status_code() == 401,
        Rejection::InvalidToken.status_code() == 403,
{
}

/// A slow subscriber loses events and nothing else: its connection goes on.
pub proof fn law_lag_keeps_streaming(user: UserCliams)
    ensures
        stream_step(StreamState::Streaming(user), StreamEvent::Lagged).0 == StreamState::Streaming(
            user,
        ),
{
}

/// While it streams, a connection ends only when the client is gone or the
/// subscription ends, and then it lets go of its subscription.
pub proof fn law_streaming_ends_on_loss(user: UserCliams, event: StreamEvent)
    ensures
        stream_step(StreamState::Streaming(user), event).0 == StreamState::Closed <==> (event
            == StreamEvent::WriteFailed || event == StreamEvent::SubscriptionClosed),
        stream_step(StreamState::Streaming(user), event).0 == StreamState::Closed ==> stream_step(
            StreamState::Streaming(user),
            event,
        ).1 == StreamAction::Release,
{
}

/// A connection that has closed stays closed, whatever happens.
pub proof fn law_closed_for_good(event: StreamEvent)
    ensures
        stream_step(StreamState::Closed, event).0 == StreamState::Closed,
        stream_step(StreamState::Closed, event).1 == StreamAction::Ignore,
{
}

} // verus!
