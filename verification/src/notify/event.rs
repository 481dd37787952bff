//! Change notifications: reading them, and deciding who is told what.

use crate::ids::{collect, covers, extend};
use crate::json::{
    canonical, exact, json_document, lemma_lookup_at, lemma_lookup_none, parse_json, Json,
    JsonValue,
};
use crate::text::same_text;
use crate::types::{
    chat_of, chat_written, doc_view, message_of, message_written, read_text, required_ids,
    required_text, Chat, ChatModel, Message, MessageModel, RowID,
};
use std::collections::HashSet;
use vstd::prelude::*;

verus! {

/// A change of the stored data that users have to hear of.
#[derive(Debug, Clone)]
pub enum DomainChange {
    ChatInserted(Chat),
    ChatUpdated(Chat, Chat),
    ChatDeleted(Chat),
    MessageCreated(Message, Vec<RowID>),
}

/// Mathematical form of a [`DomainChange`].
pub enum ChangeModel {
    ChatInserted(ChatModel),
    ChatUpdated(ChatModel, ChatModel),
    ChatDeleted(ChatModel),
    MessageCreated(MessageModel, Seq<i64>),
}

impl View for DomainChange {
    type V = ChangeModel;

    open spec fn view(&self) -> ChangeModel {
        match self {
            DomainChange::ChatInserted(chat) => ChangeModel::ChatInserted(chat@),
            DomainChange::ChatUpdated(old, new) => ChangeModel::ChatUpdated(old@, new@),
            DomainChange::ChatDeleted(chat) => ChangeModel::ChatDeleted(chat@),
            DomainChange::MessageCreated(message, ids) => ChangeModel::MessageCreated(
                message@,
                ids@,
            ),
        }
    }
}

/// An event as a client receives it: one tag and the whole entity.
#[derive(Debug, Clone)]
pub enum NotifyEvent {
    NewChat(Chat),
    AddedToChat(Chat),
    RemovedFromChat(Chat),
    NewMessage(Message),
}

/// Mathematical form of a [`NotifyEvent`].
pub enum EventModel {
    NewChat(ChatModel),
    AddedToChat(ChatModel),
    RemovedFromChat(ChatModel),
    NewMessage(MessageModel),
}

impl View for NotifyEvent {
    type V = EventModel;

    open spec fn view(&self) -> EventModel {
        match self {
            NotifyEvent::NewChat(chat) => EventModel::NewChat(chat@),
            NotifyEvent::AddedToChat(chat) => EventModel::AddedToChat(chat@),
            NotifyEvent::RemovedFromChat(chat) => EventModel::RemovedFromChat(chat@),
            NotifyEvent::NewMessage(message) => EventModel::NewMessage(message@),
        }
    }
}

impl EventModel {
    /// The tag under which the event goes over the wire.
    pub open spec fn tag(self) -> Seq<char> {
        match self {
            EventModel::NewChat(_) => "NewChat"@,
            EventModel::AddedToChat(_) => "AddedToChat"@,
            EventModel::RemovedFromChat(_) => "RemovedFromChat"@,
            EventModel::NewMessage(_) => "NewMessage"@,
        }
    }
}

impl NotifyEvent {
    /// The tag under which the event goes over the wire.
    pub fn name(&self) -> (tag: &'static str)
        ensures
            tag@ == self@.tag(),
    {
        match self {
            NotifyEvent::NewChat(_) => "NewChat",
            NotifyEvent::AddedToChat(_) => "AddedToChat",
            NotifyEvent::RemovedFromChat(_) => "RemovedFromChat",
            NotifyEvent::NewMessage(_) => "NewMessage",
        }
    }
}

/// An event as a document: one member, named by the tag, that holds the
/// entity.
pub open spec fn event_doc(tag: Seq<char>, entity: JsonValue) -> JsonValue {
    JsonValue::Object(seq![(tag, entity)])
}

/// The entity under `tag`, if the document has such a member and it is a
/// chat.
pub open spec fn tagged_chat(doc: JsonValue, tag: Seq<char>) -> Option<ChatModel> {
    match doc.member(tag) {
        Some(entity) => chat_of(entity),
        None => None,
    }
}

/// The event that a document stands for: the first of the four tags that it
/// has as a member decides, and the member must hold the entity.
pub open spec fn event_read(doc: JsonValue) -> Option<EventModel> {
    if doc.member("NewChat"@) is Some {
        match tagged_chat(doc, "NewChat"@) {
            Some(chat) => Some(EventModel::NewChat(chat)),
            None => None,
        }
    } else if doc.member("AddedToChat"@) is Some {
        match tagged_chat(doc, "AddedToChat"@) {
            Some(chat) => Some(EventModel::AddedToChat(chat)),
            None => None,
        }
    } else if doc.member("RemovedFromChat"@) is Some {
        match tagged_chat(doc, "RemovedFromChat"@) {
            Some(chat) => Some(EventModel::RemovedFromChat(chat)),
            None => None,
        }
    } else {
        match doc.member("NewMessage"@) {
            Some(entity) => match message_of(entity) {
                Some(message) => Some(EventModel::NewMessage(message)),
                None => None,
            },
            None => None,
        }
    }
}

/// The document that is written for an event: the document of its entity
/// under its tag, or none where the entity cannot be written.
pub open spec fn event_written(event: EventModel) -> Option<JsonValue> {
    let entity = match event {
        EventModel::NewChat(chat) => chat_written(chat),
        EventModel::AddedToChat(chat) => chat_written(chat),
        EventModel::RemovedFromChat(chat) => chat_written(chat),
        EventModel::NewMessage(message) => message_written(message),
    };
    match entity {
        Some(entity) => Some(event_doc(event.tag(), entity)),
        None => None,
    }
}

/// An event as a document is written the way a parsed document is, if its
/// entity is.
pub proof fn lemma_event_doc_canonical(tag: Seq<char>, entity: JsonValue)
    requires
        exact(entity),
        canonical(entity),
    ensures
        exact(event_doc(tag, entity)),
        canonical(event_doc(tag, entity)),
{
    reveal_with_fuel(exact, 2);
    reveal_with_fuel(canonical, 2);
}

/// An event that is written as a document reads back as itself.
pub proof fn lemma_event_doc(event: EventModel, entity: JsonValue)
    requires
        match event {
            EventModel::NewChat(chat) => chat_of(entity) == Some(chat),
            EventModel::AddedToChat(chat) => chat_of(entity) == Some(chat),
            EventModel::RemovedFromChat(chat) => chat_of(entity) == Some(chat),
            EventModel::NewMessage(message) => message_of(entity) == Some(message),
        },
    ensures
        event_read(event_doc(event.tag(), entity)) == Some(event),
{
    reveal_strlit("NewChat");
    reveal_strlit("AddedToChat");
    reveal_strlit("RemovedFromChat");
    reveal_strlit("NewMessage");
    assert("NewChat"@.len() == 7 && "AddedToChat"@.len() == 11 && "RemovedFromChat"@.len() == 15
        && "NewMessage"@.len() == 10);
    let fields = event_doc(event.tag(), entity)->Object_0;
    lemma_lookup_at(fields, event.tag(), 0);
    if event.tag() != "NewChat"@ {
        lemma_lookup_none(fields, "NewChat"@);
    }
    if event.tag() != "AddedToChat"@ {
        lemma_lookup_none(fields, "AddedToChat"@);
    }
    if event.tag() != "RemovedFromChat"@ {
        lemma_lookup_none(fields, "RemovedFromChat"@);
    }
}

impl NotifyEvent {
    /// Writes the event as a document that reads back as the event: the
    /// whole entity under the tag. `None` if a time in it cannot be written.
    pub fn to_json(&self) -> (out: Option<Json>)
        ensures
            doc_view(out) == event_written(self@),
            out matches Some(doc) ==> event_read(doc@) == Some(self@) && exact(doc@) && canonical(
                doc@,
            ),
    {
        let entity = match self {
            NotifyEvent::NewChat(chat) => chat.to_json(),
            NotifyEvent::AddedToChat(chat) => chat.to_json(),
            NotifyEvent::RemovedFromChat(chat) => chat.to_json(),
            NotifyEvent::NewMessage(message) => message.to_json(),
        };
        let entity = match entity {
            Some(entity) => entity,
            None => return None,
        };
        let ghost inner = entity@;
        let mut fields: Vec<(String, Json)> = Vec::new();
        fields.push((String::from_str(self.name()), entity));
        let doc = Json::Object(fields);
        proof {
            assert(doc@->Object_0 =~= event_doc(self@.tag(), inner)->Object_0);
            lemma_event_doc(self@, inner);
            lemma_event_doc_canonical(self@.tag(), inner);
        }
        Some(doc)
    }
}

/// Why a notification could not be read.
#[derive(Debug, Clone, Copy, PartialEq, Eq, Structural)]
pub enum ParseFault {
    /// The channel is not one of the two that carry changes.
    UnknownChannel,
    /// The payload does not have the shape that its channel asks for.
    Malformed,
    /// A chat notification that names neither an old nor a new chat.
    NoChange,
}

/// A notification that could not be read, kept with what it held.
#[derive(Debug, Clone)]
pub struct ParseError {
    pub fault: ParseFault,
    pub channel: String,
    pub payload: String,
}

impl ParseError {
    /// A line for the log that says what was wrong and with which input.
    pub fn message(&self) -> (line: String)
        ensures
            line@ == match self.fault {
                ParseFault::UnknownChannel => "invalid notification channel: "@ + self.channel@,
                ParseFault::Malformed => "invalid "@ + self.channel@ + " payload: "@
                    + self.payload@,
                ParseFault::NoChange => "invalid "@ + self.channel@
                    + " payload: neither old nor new"@,
            },
    {
        match self.fault {
            ParseFault::UnknownChannel => {
                let mut line = String::from_str("invalid notification channel: ");
                line.append(self.channel.as_str());
                line
            },
            ParseFault::Malformed => {
                let mut line = String::from_str("invalid ");
                line.append(self.channel.as_str());
                line.append(" payload: ");
                line.append(self.payload.as_str());
                line
            },
            ParseFault::NoChange => {
                let mut line = String::from_str("invalid ");
                line.append(self.channel.as_str());
                line.append(" payload: neither old nor new");
                line
            },
        }
    }
}

/// Name of the channel that announces inserted, updated and deleted chats.
pub open spec fn chat_channel() -> Seq<char> {
    "chat-mutation"@
}

/// Name of the channel that announces new messages.
pub open spec fn message_channel() -> Seq<char> {
    "message-created"@
}

/// Name of the channel that announces inserted, updated and deleted chats.
pub fn chat_channel_name() -> (name: &'static str)
    ensures
        name@ == chat_channel(),
{
    "chat-mutation"
}

/// Name of the channel that announces new messages.
pub fn message_channel_name() -> (name: &'static str)
    ensures
        name@ == message_channel(),
{
    "message-created"
}

/// The payload of a chat notification: what the chat was and what it is now.
/// `op` names the operation for the reader of a log; nothing is decided by it.
#[derive(Debug, Clone)]
pub struct ChatUpdatedNotification {
    pub op: String,
    pub old: Option<Chat>,
    pub new: Option<Chat>,
}

/// The payload of a message notification: the message and who is to see it.
#[derive(Debug, Clone)]
pub struct NewMessageNotification {
    pub message: Message,
    pub members: Vec<RowID>,
}

/// The chat under `key`: missing or `null` (inner `None`), or an object that
/// describes a chat; anything else is malformed (outer `None`).
pub open spec fn optional_chat(doc: JsonValue, key: Seq<char>) -> Option<Option<ChatModel>> {
    match doc.present(key) {
        None => Some(None),
        Some(value) => match chat_of(value) {
            Some(chat) => Some(Some(chat)),
            None => None,
        },
    }
}

/// Whether `doc` has the shape of a chat notification: `op` is a string, and
/// `old` and `new` are each missing, `null` or a chat.
pub open spec fn is_chat_payload(doc: JsonValue) -> bool {
    required_text(doc, "op"@) is Some && optional_chat(doc, "old"@) is Some && optional_chat(
        doc,
        "new"@,
    ) is Some
}

/// The change behind an old and a new state of a chat. What is there
/// decides: only new is an insert, only old a delete, both an update.
pub open spec fn transition(old: Option<ChatModel>, new: Option<ChatModel>) -> Result<
    ChangeModel,
    ParseFault,
> {
    match (old, new) {
        (None, Some(new)) => Ok(ChangeModel::ChatInserted(new)),
        (Some(old), None) => Ok(ChangeModel::ChatDeleted(old)),
        (Some(old), Some(new)) => Ok(ChangeModel::ChatUpdated(old, new)),
        (None, None) => Err(ParseFault::NoChange),
    }
}

/// The change that a chat notification with the document `doc` announces.
pub open spec fn chat_change_of(doc: JsonValue) -> Result<ChangeModel, ParseFault> {
    if is_chat_payload(doc) {
        transition(optional_chat(doc, "old"@).unwrap(), optional_chat(doc, "new"@).unwrap())
    } else {
        Err(ParseFault::Malformed)
    }
}

/// The message under `message`, which must be there.
pub open spec fn required_message(doc: JsonValue) -> Option<MessageModel> {
    match doc.member("message"@) {
        Some(value) => message_of(value),
        None => None,
    }
}

/// The change that a message notification with the document `doc` announces:
/// `message` is a message and `member_ids` an array of integers.
pub open spec fn message_change_of(doc: JsonValue) -> Result<ChangeModel, ParseFault> {
    if required_message(doc) is Some && required_ids(doc, "member_ids"@) is Some {
        Ok(
            ChangeModel::MessageCreated(
                required_message(doc).unwrap(),
                required_ids(doc, "member_ids"@).unwrap(),
            ),
        )
    } else {
        Err(ParseFault::Malformed)
    }
}

/// The change that a notification announces, given the channel it came on and
/// the document that its payload stands for (`None`: the payload is no JSON).
pub open spec fn change_of(channel: Seq<char>, document: Option<JsonValue>) -> Result<
    ChangeModel,
    ParseFault,
> {
    if channel == chat_channel() {
        match document {
            Some(doc) => chat_change_of(doc),
            None => Err(ParseFault::Malformed),
        }
    } else if channel == message_channel() {
        match document {
            Some(doc) => message_change_of(doc),
            None => Err(ParseFault::Malformed),
        }
    } else {
        Err(ParseFault::UnknownChannel)
    }
}

/// What reading a notification gave, in mathematical form.
pub open spec fn reading(out: Result<DomainChange, ParseError>) -> Result<ChangeModel, ParseFault> {
    match out {
        Ok(change) => Ok(change@),
        Err(e) => Err(e.fault),
    }
}

/// What telling an insert, an update and a delete apart gave, in
/// mathematical form.
pub open spec fn classified(out: Result<DomainChange, ParseFault>) -> Result<
    ChangeModel,
    ParseFault,
> {
    match out {
        Ok(change) => Ok(change@),
        Err(fault) => Err(fault),
    }
}

/// What reading the payload of a message notification gave, in mathematical
/// form.
pub open spec fn created(out: Option<NewMessageNotification>) -> Result<ChangeModel, ParseFault> {
    match out {
        Some(payload) => Ok(ChangeModel::MessageCreated(payload.message@, payload.members@)),
        None => Err(ParseFault::Malformed),
    }
}

/// The mathematical form of an optional document.
pub open spec fn document_view(document: Option<Json>) -> Option<JsonValue> {
    match document {
        Some(doc) => Some(doc@),
        None => None,
    }
}

/// The mathematical form of an optional chat.
pub open spec fn chat_view(chat: Option<Chat>) -> Option<ChatModel> {
    match chat {
        Some(chat) => Some(chat@),
        None => None,
    }
}

/// Reads the chat under `key`, if there is one.
fn read_optional_chat(doc: &Json, key: &str) -> (out: Option<Option<Chat>>)
    ensures
        match out {
            Some(chat) => optional_chat(doc@, key@) == Some(chat_view(chat)),
            None => optional_chat(doc@, key@) is None,
        },
{
    match doc.present(key) {
        None => Some(None),
        Some(value) => match Chat::from_json(value) {
            Some(chat) => Some(Some(chat)),
            None => None,
        },
    }
}

impl ChatUpdatedNotification {
    /// Reads the payload of a chat notification from its document.
    pub fn from_json(doc: &Json) -> (out: Option<ChatUpdatedNotification>)
        ensures
            match out {
                Some(payload) => is_chat_payload(doc@) && required_text(doc@, "op"@) == Some(
                    payload.op@,
                ) && optional_chat(doc@, "old"@) == Some(chat_view(payload.old)) && optional_chat(
                    doc@,
                    "new"@,
                ) == Some(chat_view(payload.new)),
                None => !is_chat_payload(doc@),
            },
    {
        let op = match read_text(doc, "op") {
            Some(op) => op,
            None => return None,
        };
        let old = match read_optional_chat(doc, "old") {
            Some(old) => old,
            None => return None,
        };
        let new = match read_optional_chat(doc, "new") {
            Some(new) => new,
            None => return None,
        };
        Some(ChatUpdatedNotification { op, old, new })
    }

    /// Tells an insert, an update and a delete apart by which of `old` and
    /// `new` is there. With neither there is no change to speak of, which is
    /// an error of its own.
    pub fn classify(self) -> (out: Result<DomainChange, ParseFault>)
        ensures
            classified(out) == transition(chat_view(self.old), chat_view(self.new)),
    {
        match (self.old, self.new) {
            (None, Some(new)) => Ok(DomainChange::ChatInserted(new)),
            (Some(old), None) => Ok(DomainChange::ChatDeleted(old)),
            (Some(old), Some(new)) => Ok(DomainChange::ChatUpdated(old, new)),
            (None, None) => Err(ParseFault::NoChange),
        }
    }
}

impl NewMessageNotification {
    /// Reads the payload of a message notification from its document.
    pub fn from_json(doc: &Json) -> (out: Option<NewMessageNotification>)
        ensures
            created(out) == message_change_of(doc@),
    {
        let message = match doc.member("message") {
            Some(value) => match Message::from_json(value) {
                Some(message) => message,
                None => return None,
            },
            None => return None,
        };
        let members = match doc.member("member_ids") {
            Some(value) => match value.as_i64_list() {
                Some(ids) => ids,
                None => return None,
            },
            None => return None,
        };
        Some(NewMessageNotification { message, members })
    }
}

/// Reads a notification whose payload has already been parsed: `document` is
/// the tree that the payload stands for, or `None` where it is no JSON. An
/// error keeps the channel and the raw payload.
pub fn decode(channel: &str, payload: &str, document: Option<Json>) -> (out: Result<
    DomainChange,
    ParseError,
>)
    ensures
        reading(out) == change_of(channel@, document_view(document)),
        out matches Err(e) ==> e.channel@ == channel@ && e.payload@ == payload@,
{
    let fault = if same_text(channel, chat_channel_name()) {
        match &document {
            Some(doc) => match ChatUpdatedNotification::from_json(doc) {
                Some(update) => match update.classify() {
                    Ok(change) => return Ok(change),
                    Err(fault) => fault,
                },
                None => ParseFault::Malformed,
            },
            None => ParseFault::Malformed,
        }
    } else if same_text(channel, message_channel_name()) {
        match &document {
            Some(doc) => match NewMessageNotification::from_json(doc) {
                Some(created) => return Ok(
                    DomainChange::MessageCreated(created.message, created.members),
                ),
                None => ParseFault::Malformed,
            },
            None => ParseFault::Malformed,
        }
    } else {
        ParseFault::UnknownChannel
    };
    Err(ParseError { fault, channel: channel.to_owned(), payload: payload.to_owned() })
}

/// Reads a raw notification: the name of the channel it came on and its
/// payload, a JSON text.
pub fn parse(channel: &str, payload: &str) -> (out: Result<DomainChange, ParseError>)
    ensures
        reading(out) == change_of(channel@, json_document(payload@)),
        out matches Err(e) ==> e.channel@ == channel@ && e.payload@ == payload@,
{
    decode(channel, payload, parse_json(payload))
}

/// Who has to hear of a change.
pub open spec fn recipients_of(change: ChangeModel) -> Set<i64> {
    match change {
        ChangeModel::ChatInserted(chat) => chat.member_set(),
        ChangeModel::ChatDeleted(chat) => chat.member_set(),
        ChangeModel::ChatUpdated(old, new) => if old.member_set() == new.member_set() {
            new.member_set()
        } else {
            old.member_set().union(new.member_set())
        },
        ChangeModel::MessageCreated(_, ids) => ids.to_set(),
    }
}

/// What the recipients of a change are sent.
pub open spec fn event_of(change: ChangeModel) -> EventModel {
    match change {
        ChangeModel::ChatInserted(chat) => EventModel::NewChat(chat),
        ChangeModel::ChatDeleted(chat) => EventModel::RemovedFromChat(chat),
        ChangeModel::ChatUpdated(_, new) => EventModel::AddedToChat(new),
        ChangeModel::MessageCreated(message, _) => EventModel::NewMessage(message),
    }
}

/// The recipients and the event for what reading a notification gave.
pub open spec fn notice_of(read: Result<ChangeModel, ParseFault>) -> Result<
    (Set<i64>, EventModel),
    ParseFault,
> {
    match read {
        Ok(change) => Ok((recipients_of(change), event_of(change))),
        Err(fault) => Err(fault),
    }
}

/// What reading and resolving a notification gave, in mathematical form.
pub open spec fn told(out: Result<AppNotification, ParseError>) -> Result<
    (Set<i64>, EventModel),
    ParseFault,
> {
    match out {
        Ok(note) => Ok((note.recipients(), note.carried())),
        Err(e) => Err(e.fault),
    }
}

/// An event together with the users it goes to.
#[derive(Debug)]
pub struct AppNotification {
    users: HashSet<RowID>,
    event: NotifyEvent,
}

impl AppNotification {
    /// The users that the event goes to.
    pub closed spec fn recipients(self) -> Set<i64> {
        self.users@
    }

    /// The event, in mathematical form.
    pub closed spec fn carried(self) -> EventModel {
        self.event@
    }

    /// The users that the event goes to.
    pub fn users(&self) -> (users: &HashSet<RowID>)
        ensures
            users@ == self.recipients(),
    {
        &self.users
    }

    /// The event.
    pub fn event(&self) -> (event: &NotifyEvent)
        ensures
            event@ == self.carried(),
    {
        &self.event
    }

    /// Decides who is told of a change, and what. This cannot fail.
    pub fn resolve(change: DomainChange) -> (note: AppNotification)
        ensures
            note.recipients() == recipients_of(change@),
            note.carried() == event_of(change@),
    {
        match change {
            DomainChange::ChatInserted(chat) => {
                let users = collect(&chat.members);
                AppNotification { users, event: NotifyEvent::NewChat(chat) }
            },
            DomainChange::ChatDeleted(chat) => {
                let users = collect(&chat.members);
                AppNotification { users, event: NotifyEvent::RemovedFromChat(chat) }
            },
            DomainChange::ChatUpdated(old, new) => {
                let mut old_users = collect(&old.members);
                let new_users = collect(&new.members);
                let same = covers(&new_users, &old.members) && covers(&old_users, &new.members);
                proof {
                    if same {
                        assert(old.members@.to_set() =~= new.members@.to_set());
                    }
                }
                let users = if same {
                    new_users
                } else {
                    extend(&mut old_users, &new.members);
                    old_users
                };
                AppNotification { users, event: NotifyEvent::AddedToChat(new) }
            },
            DomainChange::MessageCreated(message, ids) => {
                let users = collect(&ids);
                AppNotification { users, event: NotifyEvent::NewMessage(message) }
            },
        }
    }

    /// Reads a raw notification and decides who is told of it, and what.
    pub fn from_notification(channel: &str, payload: &str) -> (out: Result<
        AppNotification,
        ParseError,
    >)
        ensures
            told(out) == notice_of(change_of(channel@, json_document(payload@))),
            out matches Err(e) ==> e.channel@ == channel@ && e.payload@ == payload@,
    {
        match parse(channel, payload) {
            Ok(change) => Ok(AppNotification::resolve(change)),
            Err(e) => Err(e),
        }
    }
}

/// A new chat is announced to its members, and to nobody else.
pub proof fn law_inserted_chat_reaches_its_members(chat: ChatModel)
    ensures
        recipients_of(ChangeModel::ChatInserted(chat)) == chat.member_set(),
        forall|user: i64|
            recipients_of(ChangeModel::ChatInserted(chat)).contains(user)
                <==> chat.members.contains(user),
{
}

/// An update that leaves the membership as it was is announced to the
/// members of the new state.
pub proof fn law_unchanged_membership(old: ChatModel, new: ChatModel)
    requires
        old.member_set() == new.member_set(),
    ensures
        recipients_of(ChangeModel::ChatUpdated(old, new)) == new.member_set(),
{
}

/// An update that changes the membership is announced to everybody who was
/// or is a member.
pub proof fn law_changed_membership(old: ChatModel, new: ChatModel)
    requires
        old.member_set() != new.member_set(),
    ensures
        recipients_of(ChangeModel::ChatUpdated(old, new)) == old.member_set().union(
            new.member_set(),
        ),
{
}

/// Who left a chat and who joined it both have to hear of the change.
pub proof fn law_leaver_and_joiner_are_told(
    old: ChatModel,
    new: ChatModel,
    leaver: i64,
    joiner: i64,
)
    requires
        old.member_set().contains(leaver) && !new.member_set().contains(leaver),
        new.member_set().contains(joiner) && !old.member_set().contains(joiner),
    ensures
        recipients_of(ChangeModel::ChatUpdated(old, new)).contains(leaver),
        recipients_of(ChangeModel::ChatUpdated(old, new)).contains(joiner),
{
}

/// A chat notification that names neither an old nor a new chat is an error,
/// whatever else it holds.
pub proof fn law_no_change_is_an_error(doc: JsonValue)
    requires
        is_chat_payload(doc),
        doc.present("old"@) is None,
        doc.present("new"@) is None,
    ensures
        change_of(chat_channel(), Some(doc)) matches Err(fault) && fault == ParseFault::NoChange,
{
}

} // verus!
