//! The listener: the one task that takes change notifications from the
//! database and publishes them, one after the other.
//!
//! The task itself waits on the transport and is not part of this library.
//! Here is what it decides: where it goes from each state on each thing that
//! can happen, and what it does with a notification.

use crate::json::json_document;
use crate::notify::event::{
    change_of, chat_channel, chat_channel_name, message_channel, message_channel_name,
    notice_of, AppNotification, ParseError,
};
use crate::notify::registry::{reported, ChannelRegistry, Delivery};
use crate::types::RowID;
use vstd::prelude::*;

verus! {

/// Where the listener stands.
#[derive(Debug, Clone, Copy, PartialEq, Eq, Structural)]
pub enum ListenerState {
    /// The subscription to the transport is being opened.
    Starting,
    /// Notifications are taken as they come.
    Listening,
    /// The process is going down: what still comes is published, nothing new
    /// is waited for once the transport ends.
    Draining,
    /// The listener has ended, for good.
    Stopped,
}

/// What can happen to the listener.
#[derive(Debug, Clone, Copy, PartialEq, Eq, Structural)]
pub enum ListenerEvent {
    /// The subscription is open and both channels are listened on.
    Opened,
    /// The subscription could not be opened.
    OpenFailed,
    /// A notification has come.
    Notified,
    /// The transport handed out an error in place of a notification.
    TransportFailed,
    /// The transport has ended.
    TransportClosed,
    /// The process is going down.
    ShutdownRequested,
}

/// What the listener does next.
#[derive(Debug, Clone, Copy, PartialEq, Eq, Structural)]
pub enum ListenerAction {
    /// Wait for what comes next.
    Await,
    /// Read the notification and publish it; then wait again.
    Dispatch,
    /// Give up and report that no change can be delivered at all.
    ReportOpenFailure,
    /// Give up and report that the transport is lost. Nothing reconnects here.
    ReportTransportLoss,
    /// End quietly.
    Finish,
    /// Nothing: the event means nothing in this state.
    Ignore,
}

/// The next state and the action of the listener.
pub open spec fn listener_step(state: ListenerState, event: ListenerEvent) -> (
    ListenerState,
    ListenerAction,
) {
    match state {
        ListenerState::Starting => match event {
            ListenerEvent::Opened => (ListenerState::Listening, ListenerAction::Await),
            ListenerEvent::OpenFailed => (
                ListenerState::Stopped,
                ListenerAction::ReportOpenFailure,
            ),
            ListenerEvent::ShutdownRequested => (ListenerState::Stopped, ListenerAction::Finish),
            _ => (ListenerState::Starting, ListenerAction::Ignore),
        },
        ListenerState::Listening => match event {
            ListenerEvent::Notified => (ListenerState::Listening, ListenerAction::Dispatch),
            ListenerEvent::TransportFailed => (
                ListenerState::Stopped,
                ListenerAction::ReportTransportLoss,
            ),
            ListenerEvent::TransportClosed => (
                ListenerState::Stopped,
                ListenerAction::ReportTransportLoss,
            ),
            ListenerEvent::ShutdownRequested => (ListenerState::Draining, ListenerAction::Await),
            _ => (ListenerState::Listening, ListenerAction::Ignore),
        },
        ListenerState::Draining => match event {
            ListenerEvent::Notified => (ListenerState::Draining, ListenerAction::Dispatch),
            ListenerEvent::TransportFailed => (ListenerState::Stopped, ListenerAction::Finish),
            ListenerEvent::TransportClosed => (ListenerState::Stopped, ListenerAction::Finish),
            _ => (ListenerState::Draining, ListenerAction::Ignore),
        },
        ListenerState::Stopped => (ListenerState::Stopped, ListenerAction::Ignore),
    }
}

/// The two channels that the listener listens on.
pub open spec fn listened_channels() -> Seq<Seq<char>> {
    seq![chat_channel(), message_channel()]
}

/// The names of the channels to listen on, in mathematical form.
pub open spec fn names(channels: Seq<&'static str>) -> Seq<Seq<char>> {
    channels.map_values(|name: &'static str| name@)
}

impl ListenerState {
    /// The state in which a listener begins.
    pub fn new() -> (state: ListenerState)
        ensures
            state == ListenerState::Starting,
    {
        ListenerState::Starting
    }

    /// Takes one event: gives the next state and what to do.
    pub fn step(self, event: ListenerEvent) -> (next: (ListenerState, ListenerAction))
        ensures
            next == listener_step(self, event),
    {
        match self {
            ListenerState::Starting => match event {
                ListenerEvent::Opened => (ListenerState::Listening, ListenerAction::Await),
                ListenerEvent::OpenFailed => (
                    ListenerState::Stopped,
                    ListenerAction::ReportOpenFailure,
                ),
                ListenerEvent::ShutdownRequested => (
                    ListenerState::Stopped,
                    ListenerAction::Finish,
                ),
                _ => (ListenerState::Starting, ListenerAction::Ignore),
            },
            ListenerState::Listening => match event {
                ListenerEvent::Notified => (ListenerState::Listening, ListenerAction::Dispatch),
                ListenerEvent::TransportFailed => (
                    ListenerState::Stopped,
                    ListenerAction::ReportTransportLoss,
                ),
                ListenerEvent::TransportClosed => (
                    ListenerState::Stopped,
                    ListenerAction::ReportTransportLoss,
                ),
                ListenerEvent::ShutdownRequested => (
                    ListenerState::Draining,
                    ListenerAction::Await,
                ),
                _ => (ListenerState::Listening, ListenerAction::Ignore),
            },
            ListenerState::Draining => match event {
                ListenerEvent::Notified => (ListenerState::Draining, ListenerAction::Dispatch),
                ListenerEvent::TransportFailed => (ListenerState::Stopped, ListenerAction::Finish),
                ListenerEvent::TransportClosed => (ListenerState::Stopped, ListenerAction::Finish),
                _ => (ListenerState::Draining, ListenerAction::Ignore),
            },
            ListenerState::Stopped => (ListenerState::Stopped, ListenerAction::Ignore),
        }
    }

    /// Whether the listener has ended.
    pub fn is_stopped(&self) -> (yes: bool)
        ensures
            yes == (*self == ListenerState::Stopped),
    {
        match self {
            ListenerState::Stopped => true,
            _ => false,
        }
    }
}

/// The channels to listen on: the one for chats and the one for messages.
pub fn channels() -> (out: Vec<&'static str>)
    ensures
        names(out@) == listened_channels(),
{
    let mut out: Vec<&'static str> = Vec::new();
    out.push(chat_channel_name());
    out.push(message_channel_name());
    assert(names(out@) =~= listened_channels());
    out
}

/// Handles one notification: reads it, decides who is told what, and
/// publishes the event for each of them in turn.
///
/// A notification that cannot be read comes back as the error, for the log.
/// One that can is published to every user that it is for and that has a
/// channel; the report says what became of it for each. The registry is not
/// changed: nobody gets a channel by being sent something.
pub fn dispatch(registry: &ChannelRegistry, channel: &str, payload: &str) -> (out: Result<
    Vec<(RowID, Delivery)>,
    ParseError,
>)
    ensures
        match notice_of(change_of(channel@, json_document(payload@))) {
            Err(fault) => out matches Err(e) && e.fault == fault && e.channel@ == channel@
                && e.payload@ == payload@,
            Ok(notice) => out matches Ok(report) && reported(report@).no_duplicates()
                && reported(report@).to_set() == notice.0 && forall|i: int|
                0 <= i < report@.len() ==> ((#[trigger] report@[i]).1 is NoChannel
                    <==> !registry.registered().contains(report@[i].0)),
        },
{
    match AppNotification::from_notification(channel, payload) {
        Ok(note) => Ok(registry.deliver(&note)),
        Err(e) => Err(e),
    }
}

/// A listener that has stopped stays stopped, whatever happens.
pub proof fn law_stopped_for_good(event: ListenerEvent)
    ensures
        listener_step(ListenerState::Stopped, event).0 == ListenerState::Stopped,
        listener_step(ListenerState::Stopped, event).1 == ListenerAction::Ignore,
{
}

/// A notification never ends the listener: the state after it is the state
/// before it, whether the notification can be read or not.
pub proof fn law_notification_keeps_listening(state: ListenerState)
    ensures
        listener_step(state, ListenerEvent::Notified).0 == state,
        state == ListenerState::Listening ==> listener_step(state, ListenerEvent::Notified).1
            == ListenerAction::Dispatch,
{
}

/// While it listens, the listener ends only when the transport is lost, and
/// then it reports the loss.
pub proof fn law_transport_loss_is_reported(event: ListenerEvent)
    ensures
        listener_step(ListenerState::Listening, event).0 == ListenerState::Stopped <==> (event
            == ListenerEvent::TransportFailed || event == ListenerEvent::TransportClosed),
        listener_step(ListenerState::Listening, event).0 == ListenerState::Stopped
            ==> listener_step(ListenerState::Listening, event).1
            == ListenerAction::ReportTransportLoss,
{
}

} // verus!
