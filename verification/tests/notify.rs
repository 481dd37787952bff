use chat::notify::event::{parse, AppNotification, DomainChange, NotifyEvent, ParseFault};
use chat::json::{parse_json, render, Json};
use chat::notify::registry::{ChannelRegistry, Delivery};
use chat::notify::stream::frame;
use chat::types::{Chat, ChatType, Message, Timestamp};
use std::collections::HashSet;
use tokio::sync::broadcast::error::TryRecvError;

fn chat_json(id: i64, members: &str) -> String {
    format!(
        "{{\"id\":{id},\"workspace_id\":1,\"name\":\"general\",\"type\":\"group\",\"member_ids\":{members},\"created_at\":\"2024-05-01T12:00:00Z\"}}"
    )
}

fn set(ids: &[i64]) -> HashSet<i64> {
    ids.iter().copied().collect()
}

fn by_user(mut report: Vec<(i64, Delivery)>) -> Vec<(i64, Delivery)> {
    report.sort_by_key(|line| line.0);
    report
}

fn chat(id: i64, members: Vec<i64>) -> Chat {
    Chat {
        id,
        ws_id: 1,
        name: Some("general".to_string()),
        typ: ChatType::Group,
        members,
        created_at: Timestamp { secs: 1714564800, nanos: 0 },
    }
}

fn message(id: i64, chat_id: i64, content: &str) -> Message {
    Message {
        id,
        chat_id,
        sender_id: 1,
        content: content.to_string(),
        files: vec![],
        created_at: Timestamp { secs: 1714564800, nanos: 0 },
    }
}

#[test]
fn parse_reads_an_inserted_chat() {
    let payload = format!("{{\"op\":\"insert\",\"old\":null,\"new\":{}}}", chat_json(7, "[1,2]"));
    match parse("chat-mutation", &payload) {
        Ok(DomainChange::ChatInserted(c)) => {
            assert_eq!(c.id, 7);
            assert_eq!(c.ws_id, 1);
            assert_eq!(c.name, Some("general".to_string()));
            assert_eq!(c.typ, ChatType::Group);
            assert_eq!(c.members, vec![1, 2]);
            assert_eq!(c.created_at, Timestamp { secs: 1714564800, nanos: 0 });
        }
        other => panic!("unexpected: {:?}", other),
    }
}

#[test]
fn parse_tells_update_and_delete_apart_by_presence() {
    let update = format!(
        "{{\"op\":\"insert\",\"old\":{},\"new\":{}}}",
        chat_json(7, "[1,2]"),
        chat_json(7, "[1,3]")
    );
    assert!(matches!(parse("chat-mutation", &update), Ok(DomainChange::ChatUpdated(_, _))));
    let delete = format!("{{\"op\":\"update\",\"old\":{}}}", chat_json(7, "[1,2]"));
    assert!(matches!(parse("chat-mutation", &delete), Ok(DomainChange::ChatDeleted(_))));
}

#[test]
fn parse_rejects_a_chat_notification_without_old_and_new() {
    let payload = "{\"op\":\"update\",\"old\":null,\"new\":null}";
    let err = parse("chat-mutation", payload).unwrap_err();
    assert_eq!(err.fault, ParseFault::NoChange);
    assert_eq!(err.channel, "chat-mutation");
    assert_eq!(err.payload, payload);
    let err = parse("chat-mutation", "{\"op\":\"update\"}").unwrap_err();
    assert_eq!(err.fault, ParseFault::NoChange);
}

#[test]
fn parse_rejects_unknown_channels_and_malformed_payloads() {
    let err = parse("chat_updated", "{}").unwrap_err();
    assert_eq!(err.fault, ParseFault::UnknownChannel);
    assert_eq!(err.message(), "invalid notification channel: chat_updated");
    let err = parse("chat-mutation", "{\"op\":").unwrap_err();
    assert_eq!(err.fault, ParseFault::Malformed);
    assert_eq!(err.payload, "{\"op\":");
    assert_eq!(err.message(), "invalid chat-mutation payload: {\"op\":");
    let err = parse("message-created", "[1,2,3]").unwrap_err();
    assert_eq!(err.fault, ParseFault::Malformed);
    let bad_type = "{\"op\":\"insert\",\"new\":{\"id\":7,\"workspace_id\":1,\"type\":\"crowd\",\"member_ids\":[1],\"created_at\":\"2024-05-01T12:00:00Z\"}}";
    assert_eq!(parse("chat-mutation", bad_type).unwrap_err().fault, ParseFault::Malformed);
    let bad_time = "{\"op\":\"insert\",\"new\":{\"id\":7,\"workspace_id\":1,\"type\":\"group\",\"member_ids\":[1],\"created_at\":\"yesterday\"}}";
    assert_eq!(parse("chat-mutation", bad_time).unwrap_err().fault, ParseFault::Malformed);
}

#[test]
fn parse_reads_a_created_message() {
    let payload = "{\"message\":{\"id\":9,\"chat_id\":7,\"sender_id\":1,\"content\":\"hello\",\"file_refs\":[\"/files/1/abc/def/0.png\"],\"created_at\":\"2024-05-01T12:00:00.5+02:00\"},\"member_ids\":[1,2]}";
    match parse("message-created", payload) {
        Ok(DomainChange::MessageCreated(m, ids)) => {
            assert_eq!(m.id, 9);
            assert_eq!(m.chat_id, 7);
            assert_eq!(m.sender_id, 1);
            assert_eq!(m.content, "hello");
            assert_eq!(m.files, vec!["/files/1/abc/def/0.png".to_string()]);
            assert_eq!(m.created_at, Timestamp { secs: 1714557600, nanos: 500_000_000 });
            assert_eq!(ids, vec![1, 2]);
        }
        other => panic!("unexpected: {:?}", other),
    }
}

#[test]
fn resolve_sends_a_new_chat_to_its_members_once_each() {
    let note = AppNotification::resolve(DomainChange::ChatInserted(chat(7, vec![3, 1, 3, 2, 1])));
    assert_eq!(note.users(), &set(&[1, 2, 3]));
    assert_eq!(note.users().len(), 3);
    assert!(matches!(note.event(), NotifyEvent::NewChat(c) if c.id == 7));
    assert_eq!(note.event().name(), "NewChat");
}

#[test]
fn resolve_sends_a_deleted_chat_to_its_members() {
    let note = AppNotification::resolve(DomainChange::ChatDeleted(chat(7, vec![1, 2])));
    assert_eq!(note.users(), &set(&[1, 2]));
    assert!(matches!(note.event(), NotifyEvent::RemovedFromChat(c) if c.id == 7));
    assert_eq!(note.event().name(), "RemovedFromChat");
}

#[test]
fn resolve_sends_an_update_with_unchanged_members_to_the_new_members() {
    let mut renamed = chat(7, vec![2, 1]);
    renamed.name = Some("renamed".to_string());
    let note = AppNotification::resolve(DomainChange::ChatUpdated(chat(7, vec![1, 2]), renamed));
    assert_eq!(note.users(), &set(&[1, 2]));
    match note.event() {
        NotifyEvent::AddedToChat(c) => assert_eq!(c.name, Some("renamed".to_string())),
        other => panic!("unexpected: {:?}", other),
    }
    assert_eq!(note.event().name(), "AddedToChat");
}

#[test]
fn resolve_sends_a_membership_change_to_old_and_new_members() {
    let note = AppNotification::resolve(DomainChange::ChatUpdated(
        chat(7, vec![1, 2]),
        chat(7, vec![1, 3]),
    ));
    assert_eq!(note.users(), &set(&[1, 2, 3]));
    match note.event() {
        NotifyEvent::AddedToChat(c) => assert_eq!(c.members, vec![1, 3]),
        other => panic!("unexpected: {:?}", other),
    }
}

#[test]
fn resolve_sends_a_message_to_the_listed_users() {
    let note = AppNotification::resolve(DomainChange::MessageCreated(
        message(9, 7, "hello"),
        vec![5, 4, 5],
    ));
    assert_eq!(note.users(), &set(&[4, 5]));
    assert!(matches!(note.event(), NotifyEvent::NewMessage(m) if m.content == "hello"));
    assert_eq!(note.event().name(), "NewMessage");
}

#[test]
fn connecting_twice_gives_the_same_channel() {
    let mut registry = ChannelRegistry::new();
    let first = registry.get_or_create(1);
    let second = registry.get_or_create(1);
    assert!(first.same_channel(&second));
    let mut rx1 = first.subscribe();
    let mut rx2 = second.subscribe();
    let event = NotifyEvent::NewMessage(message(9, 7, "hello"));
    assert_eq!(registry.publish(1, &event), Delivery::Sent(2));
    assert!(matches!(rx1.try_recv(), Ok(NotifyEvent::NewMessage(m)) if m.id == 9));
    assert!(matches!(rx2.try_recv(), Ok(NotifyEvent::NewMessage(m)) if m.id == 9));
    assert!(matches!(rx1.try_recv(), Err(TryRecvError::Empty)));
}

#[test]
fn a_new_message_reaches_the_connected_member_only() {
    let (a, b, c) = (1, 2, 3);
    let mut registry = ChannelRegistry::new();
    let mut rx_a = registry.subscribe(a);
    let mut rx_c = registry.subscribe(c);
    let payload = "{\"message\":{\"id\":9,\"chat_id\":7,\"sender_id\":2,\"content\":\"hello there\",\"file_refs\":[],\"created_at\":\"2024-05-01T12:00:00Z\"},\"member_ids\":[1,2]}";
    let note = AppNotification::from_notification("message-created", payload).unwrap();
    let report = registry.deliver(&note);
    assert_eq!(by_user(report), vec![(1, Delivery::Sent(1)), (2, Delivery::NoChannel)]);
    let received = rx_a.try_recv().unwrap();
    let written = frame(&received).unwrap();
    assert_eq!(written.event, "NewMessage");
    assert_eq!(
        written.data,
        "{\"NewMessage\":{\"chat_id\":7,\"content\":\"hello there\",\"created_at\":\"2024-05-01T12:00:00Z\",\"file_refs\":[],\"id\":9,\"sender_id\":2}}"
    );
    match received {
        NotifyEvent::NewMessage(m) => {
            assert_eq!(m.id, 9);
            assert_eq!(m.chat_id, 7);
            assert_eq!(m.sender_id, 2);
            assert_eq!(m.content, "hello there");
            assert!(m.files.is_empty());
        }
        other => panic!("unexpected: {:?}", other),
    }
    assert!(matches!(rx_c.try_recv(), Err(TryRecvError::Empty)));
    assert!(!registry.is_registered(b));
}

#[test]
fn a_membership_change_reaches_who_left_and_who_joined() {
    let (a, b, c, d) = (1, 2, 3, 4);
    let mut registry = ChannelRegistry::new();
    let mut rx_a = registry.subscribe(a);
    let mut rx_b = registry.subscribe(b);
    let mut rx_c = registry.subscribe(c);
    let payload = format!(
        "{{\"op\":\"update\",\"old\":{},\"new\":{}}}",
        chat_json(7, "[1,2]"),
        chat_json(7, "[1,3]")
    );
    let note = AppNotification::from_notification("chat-mutation", &payload).unwrap();
    let report = registry.deliver(&note);
    assert_eq!(
        by_user(report),
        vec![(1, Delivery::Sent(1)), (2, Delivery::Sent(1)), (3, Delivery::Sent(1))]
    );
    for rx in [&mut rx_a, &mut rx_b, &mut rx_c] {
        match rx.try_recv() {
            Ok(NotifyEvent::AddedToChat(chat)) => {
                assert_eq!(chat.id, 7);
                assert_eq!(chat.members, vec![1, 3]);
            }
            other => panic!("unexpected: {:?}", other),
        }
        assert!(matches!(rx.try_recv(), Err(TryRecvError::Empty)));
    }
    assert!(!registry.is_registered(d));
    assert!(registry.sender(d).is_none());
}

#[test]
fn publishing_without_a_channel_or_a_subscriber_is_harmless() {
    let mut registry = ChannelRegistry::new();
    let event = NotifyEvent::NewChat(chat(7, vec![1]));
    assert_eq!(registry.publish(1, &event), Delivery::NoChannel);
    assert!(!registry.is_registered(1));
    let rx = registry.subscribe(1);
    drop(rx);
    assert!(registry.is_registered(1));
    assert_eq!(registry.publish(1, &event), Delivery::NoSubscriber);
    let mut again = registry.subscribe(1);
    assert_eq!(registry.publish(1, &event), Delivery::Sent(1));
    assert!(matches!(again.try_recv(), Ok(NotifyEvent::NewChat(_))));
}

#[test]
fn a_slow_subscriber_loses_the_oldest_events() {
    let mut registry = ChannelRegistry::new();
    let mut rx = registry.subscribe(1);
    for id in 0..20 {
        let event = NotifyEvent::NewMessage(message(id, 7, "x"));
        assert_eq!(registry.publish(1, &event), Delivery::Sent(1));
    }
    assert!(matches!(rx.try_recv(), Err(TryRecvError::Lagged(_))));
    assert!(matches!(rx.try_recv(), Ok(NotifyEvent::NewMessage(m)) if m.id >= 4));
}

#[test]
fn an_event_is_written_under_its_tag_with_the_whole_entity() {
    let mut c = chat(7, vec![1, 3]);
    c.name = None;
    let written = frame(&NotifyEvent::AddedToChat(c)).unwrap();
    assert_eq!(written.event, "AddedToChat");
    assert_eq!(
        written.data,
        "{\"AddedToChat\":{\"created_at\":\"2024-05-01T12:00:00Z\",\"id\":7,\"member_ids\":[1,3],\"name\":null,\"type\":\"group\",\"workspace_id\":1}}"
    );
    let mut m = message(9, 7, "line one\nline \"two\"");
    m.files = vec!["a.png".to_string(), "b.png".to_string()];
    m.created_at = Timestamp { secs: 1714564800, nanos: 250_000_000 };
    let written = frame(&NotifyEvent::NewMessage(m)).unwrap();
    assert_eq!(written.event, "NewMessage");
    assert_eq!(
        written.data,
        "{\"NewMessage\":{\"chat_id\":7,\"content\":\"line one\\nline \\\"two\\\"\",\"created_at\":\"2024-05-01T12:00:00.250Z\",\"file_refs\":[\"a.png\",\"b.png\"],\"id\":9,\"sender_id\":1}}"
    );
    assert!(!written.data.contains('\n'));
}

#[test]
fn what_is_written_for_a_client_reads_back_as_the_entity() {
    let entity = chat(7, vec![1, 2, 3]);
    let doc = entity.to_json().unwrap();
    let back = Chat::from_json(&doc).unwrap();
    assert_eq!(back.id, entity.id);
    assert_eq!(back.ws_id, entity.ws_id);
    assert_eq!(back.name, entity.name);
    assert_eq!(back.typ, entity.typ);
    assert_eq!(back.members, entity.members);
    assert_eq!(back.created_at, entity.created_at);
    let entity = message(9, 7, "hello");
    let text = render(&entity.to_json().unwrap()).unwrap();
    let back = Message::from_json(&parse_json(&text).unwrap()).unwrap();
    assert_eq!(back.id, 9);
    assert_eq!(back.chat_id, 7);
    assert_eq!(back.content, "hello");
    assert_eq!(back.created_at, entity.created_at);
    let payload = format!(
        "{{\"op\":\"insert\",\"new\":{}}}",
        render(&chat(8, vec![4]).to_json().unwrap()).unwrap()
    );
    assert!(matches!(parse("chat-mutation", &payload), Ok(DomainChange::ChatInserted(c)) if c.id == 8));
}

#[test]
fn a_time_that_cannot_be_written_gives_no_frame() {
    let mut c = chat(7, vec![1]);
    c.created_at = Timestamp { secs: i64::MAX, nanos: 0 };
    assert!(c.created_at.to_text().is_none());
    assert!(c.to_json().is_none());
    assert!(frame(&NotifyEvent::NewChat(c)).is_none());
    assert_eq!(
        Timestamp { secs: 0, nanos: 0 }.to_text(),
        Some("1970-01-01T00:00:00Z".to_string())
    );
    assert_eq!(
        Timestamp { secs: -1, nanos: 999_999_999 }.to_text(),
        Some("1969-12-31T23:59:59.999999999Z".to_string())
    );
}

#[test]
fn documents_are_compared_as_trees() {
    let a = parse_json("{\"b\":[1,2,{\"c\":null}],\"a\":\"x\"}").unwrap();
    let b = parse_json(" { \"a\" : \"x\", \"b\" : [1, 2, {\"c\": null}] } ").unwrap();
    assert!(a.same(&b));
    assert!(b.same(&a));
    assert!(!a.same(&parse_json("{\"a\":\"x\",\"b\":[1,2,{\"c\":false}]}").unwrap()));
    assert!(!a.same(&parse_json("{\"a\":\"x\",\"b\":[1,2]}").unwrap()));
    assert!(!a.same(&parse_json("{\"a\":\"x\"}").unwrap()));
    assert!(!Json::Int(1).same(&Json::UInt(1)));
    assert!(matches!(parse_json("18446744073709551615"), Some(Json::UInt(u64::MAX))));
    assert!(matches!(parse_json("9223372036854775807"), Some(Json::Int(i64::MAX))));
    assert!(matches!(parse_json("1.5"), Some(Json::Real)));
    assert!(matches!(parse_json("1e400"), None));
    assert!(parse_json("{\"a\":1} x").is_none());
    assert_eq!(render(&a).unwrap(), "{\"a\":\"x\",\"b\":[1,2,{\"c\":null}]}");
}

#[test]
fn a_subscription_listens_on_the_channel_of_the_registry() {
    let mut registry = ChannelRegistry::new();
    let mut first = registry.subscribe(5);
    let kept = registry.sender(5).unwrap();
    let mut second = registry.subscribe(5);
    assert!(registry.sender(5).unwrap().same_channel(&kept));
    assert_eq!(kept.receiver_count(), 2);
    let event = NotifyEvent::NewMessage(message(3, 7, "to both"));
    assert_eq!(registry.publish(5, &event), Delivery::Sent(2));
    assert!(matches!(first.try_recv(), Ok(NotifyEvent::NewMessage(m)) if m.id == 3));
    assert!(matches!(second.try_recv(), Ok(NotifyEvent::NewMessage(m)) if m.id == 3));
    drop(first);
    drop(second);
    assert_eq!(kept.receiver_count(), 0);
    let mut again = registry.subscribe(5);
    assert!(registry.sender(5).unwrap().same_channel(&kept));
    assert!(matches!(again.try_recv(), Err(TryRecvError::Empty)));
    assert_eq!(registry.publish(5, &event), Delivery::Sent(1));
    assert!(matches!(again.try_recv(), Ok(NotifyEvent::NewMessage(m)) if m.id == 3));
}

#[test]
fn an_unchanged_membership_is_told_to_the_members_whatever_their_order() {
    let note = AppNotification::resolve(DomainChange::ChatUpdated(
        chat(7, vec![2, 1, 2]),
        chat(7, vec![1, 2]),
    ));
    assert_eq!(note.users(), &set(&[1, 2]));
    let note = AppNotification::resolve(DomainChange::ChatUpdated(chat(7, vec![]), chat(7, vec![])));
    assert!(note.users().is_empty());
    let note = AppNotification::resolve(DomainChange::ChatUpdated(
        chat(7, vec![1, 2]),
        chat(7, vec![1, 2, 3]),
    ));
    assert_eq!(note.users(), &set(&[1, 2, 3]));
    let note = AppNotification::resolve(DomainChange::ChatUpdated(
        chat(7, vec![1, 2, 3]),
        chat(7, vec![1, 2]),
    ));
    assert_eq!(note.users(), &set(&[1, 2, 3]));
}

#[test]
fn every_recipient_is_served_once() {
    let mut registry = ChannelRegistry::new();
    let mut rx = registry.subscribe(2);
    let note = AppNotification::resolve(DomainChange::MessageCreated(
        message(9, 7, "hello"),
        vec![2, 2, 6, 2, 6],
    ));
    let report = by_user(registry.deliver(&note));
    assert_eq!(report, vec![(2, Delivery::Sent(1)), (6, Delivery::NoChannel)]);
    assert!(matches!(rx.try_recv(), Ok(NotifyEvent::NewMessage(m)) if m.id == 9));
    assert!(matches!(rx.try_recv(), Err(TryRecvError::Empty)));
    assert!(!registry.is_registered(6));
}
