use chat::auth::Rejection;
use chat::jwt::UserCliams;
use chat::notify::event::{chat_channel_name, message_channel_name, ParseFault};
use chat::notify::listener::{channels, dispatch, ListenerAction, ListenerEvent, ListenerState};
use chat::notify::registry::{ChannelRegistry, Delivery, CHANNEL_CAPACITY};
use chat::notify::stream::{
    keep_alive_text, StreamAction, StreamEvent, StreamState, KEEP_ALIVE_SECS,
};
use chat::request::{
    fresh_request_id, request_id, request_id_header, server_time, server_time_header,
    RequestIdMaker, ServerTimeLayer,
};
use chat::server::chat::CreateChat;
use chat::server::message::CreateMessage;
use chat::types::ChatType;

const LISTENER_EVENTS: [ListenerEvent; 6] = [
    ListenerEvent::Opened,
    ListenerEvent::OpenFailed,
    ListenerEvent::Notified,
    ListenerEvent::TransportFailed,
    ListenerEvent::TransportClosed,
    ListenerEvent::ShutdownRequested,
];

fn stream_events() -> Vec<StreamEvent> {
    vec![
        StreamEvent::Accepted(UserCliams { uid: 1, ws_id: 1 }),
        StreamEvent::Refused(Rejection::InvalidToken),
        StreamEvent::Subscribed,
        StreamEvent::Received,
        StreamEvent::Lagged,
        StreamEvent::Tick,
        StreamEvent::WriteFailed,
        StreamEvent::SubscriptionClosed,
    ]
}

#[test]
fn the_listener_listens_on_the_two_channels() {
    assert_eq!(channels(), vec!["chat-mutation", "message-created"]);
    assert_eq!(chat_channel_name(), "chat-mutation");
    assert_eq!(message_channel_name(), "message-created");
}

#[test]
fn the_listener_starts_listens_and_stops() {
    let state = ListenerState::new();
    assert_eq!(state, ListenerState::Starting);
    let (state, action) = state.step(ListenerEvent::Opened);
    assert_eq!((state, action), (ListenerState::Listening, ListenerAction::Await));
    let (state, action) = state.step(ListenerEvent::Notified);
    assert_eq!((state, action), (ListenerState::Listening, ListenerAction::Dispatch));
    let (state, action) = state.step(ListenerEvent::TransportClosed);
    assert_eq!((state, action), (ListenerState::Stopped, ListenerAction::ReportTransportLoss));
    assert!(state.is_stopped());
    assert_eq!(
        ListenerState::Listening.step(ListenerEvent::TransportFailed),
        (ListenerState::Stopped, ListenerAction::ReportTransportLoss)
    );
    assert_eq!(
        ListenerState::Starting.step(ListenerEvent::OpenFailed),
        (ListenerState::Stopped, ListenerAction::ReportOpenFailure)
    );
}

#[test]
fn the_listener_drains_when_the_process_goes_down() {
    let (state, action) = ListenerState::Listening.step(ListenerEvent::ShutdownRequested);
    assert_eq!((state, action), (ListenerState::Draining, ListenerAction::Await));
    assert_eq!(
        state.step(ListenerEvent::Notified),
        (ListenerState::Draining, ListenerAction::Dispatch)
    );
    assert_eq!(
        state.step(ListenerEvent::TransportClosed),
        (ListenerState::Stopped, ListenerAction::Finish)
    );
    assert_eq!(
        ListenerState::Starting.step(ListenerEvent::ShutdownRequested),
        (ListenerState::Stopped, ListenerAction::Finish)
    );
}

#[test]
fn a_stopped_listener_stays_stopped() {
    for event in LISTENER_EVENTS {
        assert_eq!(
            ListenerState::Stopped.step(event),
            (ListenerState::Stopped, ListenerAction::Ignore)
        );
    }
    for state in [ListenerState::Starting, ListenerState::Listening, ListenerState::Draining] {
        assert_eq!(state.step(ListenerEvent::Notified).0, state);
        assert!(!state.is_stopped());
    }
}

#[test]
fn a_notification_that_cannot_be_read_is_skipped() {
    let mut registry = ChannelRegistry::new();
    let mut rx = registry.subscribe(1);
    let mut state = ListenerState::new().step(ListenerEvent::Opened).0;
    let notifications = [
        ("chat-mutation", "{\"op\":\"update\",\"old\":null,\"new\":null}"),
        ("somewhere-else", "{}"),
        ("message-created", "not json"),
        (
            "message-created",
            "{\"message\":{\"id\":1,\"chat_id\":7,\"sender_id\":2,\"content\":\"hi\",\"file_refs\":[],\"created_at\":\"2024-05-01T12:00:00Z\"},\"member_ids\":[1,2]}",
        ),
    ];
    let mut faults = vec![];
    let mut reports = vec![];
    for (channel, payload) in notifications {
        let (next, action) = state.step(ListenerEvent::Notified);
        assert_eq!(action, ListenerAction::Dispatch);
        state = next;
        match dispatch(&registry, channel, payload) {
            Ok(mut report) => {
                report.sort_by_key(|line| line.0);
                reports.push(report)
            }
            Err(e) => faults.push(e.fault),
        }
    }
    assert_eq!(state, ListenerState::Listening);
    assert_eq!(faults, vec![ParseFault::NoChange, ParseFault::UnknownChannel, ParseFault::Malformed]);
    assert_eq!(reports, vec![vec![(1, Delivery::Sent(1)), (2, Delivery::NoChannel)]]);
    assert!(rx.try_recv().is_ok());
    assert!(rx.try_recv().is_err());
    assert!(!registry.is_registered(2));
}

#[test]
fn events_are_published_in_the_order_of_their_notifications() {
    let mut registry = ChannelRegistry::new();
    let mut rx = registry.subscribe(1);
    let chat = "{\"op\":\"insert\",\"new\":{\"id\":7,\"workspace_id\":1,\"type\":\"single\",\"member_ids\":[1,2],\"created_at\":\"2024-05-01T12:00:00Z\"}}";
    let message = "{\"message\":{\"id\":1,\"chat_id\":7,\"sender_id\":2,\"content\":\"hi\",\"file_refs\":[],\"created_at\":\"2024-05-01T12:00:01Z\"},\"member_ids\":[1,2]}";
    dispatch(&registry, "chat-mutation", chat).unwrap();
    dispatch(&registry, "message-created", message).unwrap();
    let first = rx.try_recv().unwrap();
    let second = rx.try_recv().unwrap();
    assert_eq!(first.name(), "NewChat");
    assert_eq!(second.name(), "NewMessage");
    assert_eq!(CHANNEL_CAPACITY, 10);
}

#[test]
fn a_connection_authenticates_subscribes_and_streams() {
    let user = UserCliams { uid: 5, ws_id: 1 };
    let state = StreamState::new();
    assert_eq!(state, StreamState::Connecting);
    let (state, action) = state.step(StreamState::credential(Ok(user)));
    assert_eq!((state, action), (StreamState::Authenticated(user), StreamAction::Subscribe(5)));
    let (state, action) = state.step(StreamEvent::Subscribed);
    assert_eq!((state, action), (StreamState::Streaming(user), StreamAction::Await));
    assert_eq!(state.step(StreamEvent::Received), (state, StreamAction::Forward));
    assert_eq!(state.step(StreamEvent::Tick), (state, StreamAction::KeepAlive));
    assert_eq!(state.step(StreamEvent::Lagged), (state, StreamAction::Await));
    assert_eq!(state.step(StreamEvent::WriteFailed), (StreamState::Closed, StreamAction::Release));
    assert_eq!(
        state.step(StreamEvent::SubscriptionClosed),
        (StreamState::Closed, StreamAction::Release)
    );
    assert!(!state.is_closed());
    assert_eq!(KEEP_ALIVE_SECS, 1);
    assert_eq!(keep_alive_text(), "keep-alive");
}

#[test]
fn a_refused_connection_closes_with_its_rejection() {
    for rejection in [Rejection::MissingToken, Rejection::UnreadableHeader, Rejection::InvalidToken] {
        let (state, action) = StreamState::new().step(StreamState::credential(Err(rejection)));
        assert_eq!((state, action), (StreamState::Closed, StreamAction::Reject(rejection)));
        assert!(state.is_closed());
    }
    for event in stream_events() {
        assert_eq!(StreamState::Closed.step(event), (StreamState::Closed, StreamAction::Ignore));
    }
}

#[test]
fn closing_a_connection_leaves_the_channel_in_the_registry() {
    let mut registry = ChannelRegistry::new();
    let first = registry.get_or_create(9);
    for _ in 0..3 {
        let rx = registry.subscribe(9);
        assert_eq!(first.receiver_count(), 1);
        drop(rx);
        assert_eq!(first.receiver_count(), 0);
        assert!(registry.is_registered(9));
    }
    assert!(registry.sender(9).unwrap().same_channel(&first));
}

#[test]
fn requests_get_an_identifier_and_a_server_time() {
    assert_eq!(request_id_header(), "x-request-id");
    assert_eq!(server_time_header(), "x-server-time");
    let id = fresh_request_id();
    assert_eq!(id.len(), 36);
    assert_eq!(id.matches('-').count(), 4);
    assert_eq!(&id[14..15], "7");
    assert_ne!(id, fresh_request_id());
    assert_eq!(request_id(Some("abc".to_string())), "abc");
    assert_eq!(request_id(None).len(), 36);
    assert_eq!(server_time(0), "0ms");
    assert_eq!(server_time(1234), "1234ms");
    assert_eq!(server_time(u64::MAX), "18446744073709551615ms");
    let made = RequestIdMaker.make_request_id().unwrap();
    assert_eq!(made.len(), 36);
    let timed = ServerTimeLayer.layer(5);
    assert_eq!(timed.inner, 5);
    assert_eq!(timed.header_value(12), "12ms");
}

#[test]
fn t_create_single() {
    let input = CreateChat { members: vec![1, 2], name: None, public: false };
    assert!(input.check_shape().is_ok());
    assert!(input.check_members(2).is_ok());
    assert_eq!(input.members, vec![1, 2]);
    assert!(matches!(input.chat_type(), ChatType::Single));
    assert!(input.name.is_none());
}

#[test]
fn t_create_named_public() {
    let input = CreateChat { members: vec![1, 2], name: Some("test".to_string()), public: true };
    assert!(input.check_shape().is_ok());
    assert!(input.check_members(2).is_ok());
    assert_eq!(input.members, vec![1, 2]);
    assert!(matches!(input.chat_type(), ChatType::PublicChannel));
    assert!(input.name.is_some());
}

#[test]
fn t_send_message() {
    let input = CreateMessage { content: "test".to_string(), chat_id: 1, files: vec![] };
    let res = input.verify(&vec![]);
    assert!(res.is_ok());
}
