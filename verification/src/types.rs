//! Entities shared by the request-handling and the notification sides, and
//! their reading from JSON documents.

use crate::json::{
    canonical, exact, i64_list, ids_doc, lemma_lists_read_back, lemma_lookup_at,
    optional_text_doc, text_before, text_list, text_view, texts_doc, Json, JsonValue,
};
use crate::text::{same_text, texts};
use vstd::prelude::*;

verus! {

/// Identifier of a row in the relational store.
pub type RowID = i64;

/// A point in time: whole seconds since the Unix epoch and the nanoseconds
/// into that second.
#[derive(Debug, Clone, Copy, PartialEq, Eq, Structural)]
pub struct Timestamp {
    pub secs: i64,
    pub nanos: u32,
}

/// The instant that `chrono` reads from a text, or `None` where the text is
/// no date and time in its relaxed RFC 3339 form.
pub uninterp spec fn instant_of(text: Seq<char>) -> Option<Timestamp>;

/// Reads a date and time with `chrono`'s `FromStr` for `DateTime<Utc>`.
/// Trusted: the outcome depends on the text alone; the instant is handed over
/// as `timestamp()` and `timestamp_subsec_nanos()` of what was read.
#[verifier::external_body]
pub(crate) fn read_instant(text: &str) -> (out: Option<Timestamp>)
    ensures
        out == instant_of(text@),
{
    match text.parse::<chrono::DateTime<chrono::Utc>>() {
        Ok(at) => Some(Timestamp { secs: at.timestamp(), nanos: at.timestamp_subsec_nanos() }),
        Err(_) => None,
    }
}

/// The text that `chrono` writes for an instant, with `Z` for the offset and
/// as many digits of the second as the instant needs; `None` for an instant
/// that it has no date for.
pub uninterp spec fn instant_text(at: Timestamp) -> Option<Seq<char>>;

/// Writes a date and time with `DateTime::from_timestamp` and
/// `to_rfc3339_opts`. Trusted: the text depends on the instant alone. That
/// the text stands for the instant is not taken on trust: whoever needs that
/// reads the text back.
#[verifier::external_body]
fn write_instant(at: Timestamp) -> (out: Option<String>)
    ensures
        text_view(out) == instant_text(at),
{
    let at = chrono::DateTime::from_timestamp(at.secs, at.nanos)?;
    Some(at.to_rfc3339_opts(chrono::SecondsFormat::AutoSi, true))
}

/// What writing an instant and reading the text back gives: the text, if it
/// stands for the instant again.
pub open spec fn written(at: Timestamp) -> Option<Seq<char>> {
    match instant_text(at) {
        Some(text) => if instant_of(text) == Some(at) {
            Some(text)
        } else {
            None
        },
        None => None,
    }
}

impl Timestamp {
    /// Writes the instant as a date and time, and makes sure that the text
    /// reads back as the instant. `None` if it does not.
    pub fn to_text(&self) -> (out: Option<String>)
        ensures
            text_view(out) == written(*self),
            out matches Some(text) ==> instant_of(text@) == Some(*self),
    {
        let text = match write_instant(*self) {
            Some(text) => text,
            None => return None,
        };
        match read_instant(text.as_str()) {
            Some(back) => if back.secs == self.secs && back.nanos == self.nanos {
                Some(text)
            } else {
                None
            },
            None => None,
        }
    }
}

/// Kind of a chat, decided when the chat is created.
#[derive(Debug, Clone, Copy, PartialEq, Eq, Structural)]
pub enum ChatType {
    Single,
    Group,
    PrivateChannel,
    PublicChannel,
}

/// The chat kind that a name on the wire stands for.
pub open spec fn chat_type_named(name: Seq<char>) -> Option<ChatType> {
    if name == "single"@ {
        Some(ChatType::Single)
    } else if name == "group"@ {
        Some(ChatType::Group)
    } else if name == "private_channel"@ {
        Some(ChatType::PrivateChannel)
    } else if name == "public_channel"@ {
        Some(ChatType::PublicChannel)
    } else {
        None
    }
}

/// The name of a chat kind on the wire.
pub open spec fn chat_type_name(typ: ChatType) -> Seq<char> {
    match typ {
        ChatType::Single => "single"@,
        ChatType::Group => "group"@,
        ChatType::PrivateChannel => "private_channel"@,
        ChatType::PublicChannel => "public_channel"@,
    }
}

/// The name of a chat kind stands for that kind.
pub proof fn lemma_chat_type_name(typ: ChatType)
    ensures
        chat_type_named(chat_type_name(typ)) == Some(typ),
{
    reveal_strlit("single");
    reveal_strlit("group");
    reveal_strlit("private_channel");
    reveal_strlit("public_channel");
    assert("single"@.len() == 6 && "group"@.len() == 5 && "private_channel"@.len() == 15
        && "public_channel"@.len() == 14);
}

impl ChatType {
    /// Reads a chat kind from its name on the wire.
    pub fn from_name(name: &str) -> (out: Option<ChatType>)
        ensures
            out == chat_type_named(name@),
    {
        if same_text(name, "single") {
            Some(ChatType::Single)
        } else if same_text(name, "group") {
            Some(ChatType::Group)
        } else if same_text(name, "private_channel") {
            Some(ChatType::PrivateChannel)
        } else if same_text(name, "public_channel") {
            Some(ChatType::PublicChannel)
        } else {
            None
        }
    }

    /// The name of this chat kind on the wire.
    pub fn name(&self) -> (out: &'static str)
        ensures
            out@ == chat_type_name(*self),
            chat_type_named(out@) == Some(*self),
    {
        proof {
            lemma_chat_type_name(*self);
        }
        match self {
            ChatType::Single => "single",
            ChatType::Group => "group",
            ChatType::PrivateChannel => "private_channel",
            ChatType::PublicChannel => "public_channel",
        }
    }
}

/// A user account.
#[derive(Debug, Clone)]
pub struct User {
    pub id: RowID,
    pub fullname: String,
    pub email: String,
    pub password_hash: String,
    pub ws_id: RowID,
    pub created_at: Timestamp,
}

/// A workspace: the tenant that users and chats belong to.
#[derive(Debug, Clone)]
pub struct Workspace {
    pub id: RowID,
    pub name: String,
    pub owner_id: RowID,
    pub created_at: Timestamp,
}

/// A chat and its members.
#[derive(Debug, Clone)]
pub struct Chat {
    pub id: RowID,
    pub ws_id: RowID,
    pub name: Option<String>,
    pub typ: ChatType,
    pub members: Vec<RowID>,
    pub created_at: Timestamp,
}

/// Mathematical form of a [`Chat`].
pub struct ChatModel {
    pub id: i64,
    pub ws_id: i64,
    pub name: Option<Seq<char>>,
    pub typ: ChatType,
    pub members: Seq<i64>,
    pub created_at: Timestamp,
}

impl View for Chat {
    type V = ChatModel;

    open spec fn view(&self) -> ChatModel {
        ChatModel {
            id: self.id,
            ws_id: self.ws_id,
            name: match self.name {
                Some(name) => Some(name@),
                None => None,
            },
            typ: self.typ,
            members: self.members@,
            created_at: self.created_at,
        }
    }
}

impl ChatModel {
    /// The members as a set: who belongs to the chat, whatever the order and
    /// however often an identifier is listed.
    pub open spec fn member_set(self) -> Set<i64> {
        self.members.to_set()
    }
}

/// A message posted to a chat.
#[derive(Debug, Clone)]
pub struct Message {
    pub id: RowID,
    pub chat_id: RowID,
    pub sender_id: RowID,
    pub content: String,
    pub files: Vec<String>,
    pub created_at: Timestamp,
}

/// Mathematical form of a [`Message`].
pub struct MessageModel {
    pub id: i64,
    pub chat_id: i64,
    pub sender_id: i64,
    pub content: Seq<char>,
    pub files: Seq<Seq<char>>,
    pub created_at: Timestamp,
}

impl View for Message {
    type V = MessageModel;

    open spec fn view(&self) -> MessageModel {
        MessageModel {
            id: self.id,
            chat_id: self.chat_id,
            sender_id: self.sender_id,
            content: self.content@,
            files: texts(self.files@),
            created_at: self.created_at,
        }
    }
}

/// The integer under `key`, which must be there and fit `i64`.
pub open spec fn required_i64(doc: JsonValue, key: Seq<char>) -> Option<i64> {
    match doc.member(key) {
        Some(value) => value.as_i64(),
        None => None,
    }
}

/// The string under `key`, which must be there.
pub open spec fn required_text(doc: JsonValue, key: Seq<char>) -> Option<Seq<char>> {
    match doc.member(key) {
        Some(value) => value.as_text(),
        None => None,
    }
}

/// The string under `key`, which may be missing or `null` (inner `None`) but
/// may not be anything else (outer `None`).
pub open spec fn optional_text(doc: JsonValue, key: Seq<char>) -> Option<Option<Seq<char>>> {
    match doc.present(key) {
        None => Some(None),
        Some(JsonValue::Text(s)) => Some(Some(s)),
        Some(_) => None,
    }
}

/// The instant under `key`, which must be there as a string that reads as a
/// date and time.
pub open spec fn required_instant(doc: JsonValue, key: Seq<char>) -> Option<Timestamp> {
    match required_text(doc, key) {
        Some(text) => instant_of(text),
        None => None,
    }
}

/// The array of integers under `key`, which must be there.
pub open spec fn required_ids(doc: JsonValue, key: Seq<char>) -> Option<Seq<i64>> {
    match doc.member(key) {
        Some(value) => i64_list(value),
        None => None,
    }
}

/// The array of strings under `key`, which must be there.
pub open spec fn required_texts(doc: JsonValue, key: Seq<char>) -> Option<Seq<Seq<char>>> {
    match doc.member(key) {
        Some(value) => text_list(value),
        None => None,
    }
}

/// The chat kind under `type`, which must be there as one of the four names.
pub open spec fn required_chat_type(doc: JsonValue) -> Option<ChatType> {
    match required_text(doc, "type"@) {
        Some(name) => chat_type_named(name),
        None => None,
    }
}

/// The chat that a document describes.
///
/// The document is an object with the members `id` and `workspace_id`
/// (integers), `type` (a chat kind by name), `member_ids` (an array of
/// integers) and `created_at` (a date and time), and optionally `name` (a
/// string; `null` counts as missing). Other members are ignored.
pub open spec fn chat_of(doc: JsonValue) -> Option<ChatModel> {
    if required_i64(doc, "id"@) is Some && required_i64(doc, "workspace_id"@) is Some
        && optional_text(doc, "name"@) is Some && required_chat_type(doc) is Some && required_ids(
        doc,
        "member_ids"@,
    ) is Some && required_instant(doc, "created_at"@) is Some {
        Some(
            ChatModel {
                id: required_i64(doc, "id"@).unwrap(),
                ws_id: required_i64(doc, "workspace_id"@).unwrap(),
                name: optional_text(doc, "name"@).unwrap(),
                typ: required_chat_type(doc).unwrap(),
                members: required_ids(doc, "member_ids"@).unwrap(),
                created_at: required_instant(doc, "created_at"@).unwrap(),
            },
        )
    } else {
        None
    }
}

/// The message that a document describes.
///
/// The document is an object with the members `id`, `chat_id` and
/// `sender_id` (integers), `content` (a string), `file_refs` (an array of
/// strings) and `created_at` (a date and time). Other members are ignored.
pub open spec fn message_of(doc: JsonValue) -> Option<MessageModel> {
    if required_i64(doc, "id"@) is Some && required_i64(doc, "chat_id"@) is Some && required_i64(
        doc,
        "sender_id"@,
    ) is Some && required_text(doc, "content"@) is Some && required_texts(doc, "file_refs"@)
        is Some && required_instant(doc, "created_at"@) is Some {
        Some(
            MessageModel {
                id: required_i64(doc, "id"@).unwrap(),
                chat_id: required_i64(doc, "chat_id"@).unwrap(),
                sender_id: required_i64(doc, "sender_id"@).unwrap(),
                content: required_text(doc, "content"@).unwrap(),
                files: required_texts(doc, "file_refs"@).unwrap(),
                created_at: required_instant(doc, "created_at"@).unwrap(),
            },
        )
    } else {
        None
    }
}

/// A chat as a document, with `created` for the time of its making.
pub open spec fn chat_doc(chat: ChatModel, created: Seq<char>) -> JsonValue {
    JsonValue::Object(
        seq![
            ("created_at"@, JsonValue::Text(created)),
            ("id"@, JsonValue::Int(chat.id)),
            ("member_ids"@, ids_doc(chat.members)),
            ("name"@, optional_text_doc(chat.name)),
            ("type"@, JsonValue::Text(chat_type_name(chat.typ))),
            ("workspace_id"@, JsonValue::Int(chat.ws_id)),
        ],
    )
}

/// A message as a document, with `created` for the time of its making.
pub open spec fn message_doc(message: MessageModel, created: Seq<char>) -> JsonValue {
    JsonValue::Object(
        seq![
            ("chat_id"@, JsonValue::Int(message.chat_id)),
            ("content"@, JsonValue::Text(message.content)),
            ("created_at"@, JsonValue::Text(created)),
            ("file_refs"@, texts_doc(message.files)),
            ("id"@, JsonValue::Int(message.id)),
            ("sender_id"@, JsonValue::Int(message.sender_id)),
        ],
    )
}

/// What the keys of a chat and of a message look like: enough to tell them
/// apart and to put them in order.
proof fn lemma_keys()
    ensures
        "created_at"@.len() == 10 && "created_at"@[0] == 'c' && "created_at"@[1] == 'r',
        "id"@.len() == 2 && "id"@[0] == 'i',
        "member_ids"@.len() == 10 && "member_ids"@[0] == 'm',
        "name"@.len() == 4 && "name"@[0] == 'n',
        "type"@.len() == 4 && "type"@[0] == 't',
        "workspace_id"@.len() == 12 && "workspace_id"@[0] == 'w',
        "chat_id"@.len() == 7 && "chat_id"@[0] == 'c' && "chat_id"@[1] == 'h',
        "content"@.len() == 7 && "content"@[0] == 'c' && "content"@[1] == 'o',
        "file_refs"@.len() == 9 && "file_refs"@[0] == 'f',
        "sender_id"@.len() == 9 && "sender_id"@[0] == 's',
{
    reveal_strlit("created_at");
    reveal_strlit("id");
    reveal_strlit("member_ids");
    reveal_strlit("name");
    reveal_strlit("type");
    reveal_strlit("workspace_id");
    reveal_strlit("chat_id");
    reveal_strlit("content");
    reveal_strlit("file_refs");
    reveal_strlit("sender_id");
}

/// A chat as a document is written the way a parsed document is.
pub proof fn lemma_chat_doc_canonical(chat: ChatModel, created: Seq<char>)
    ensures
        exact(chat_doc(chat, created)),
        canonical(chat_doc(chat, created)),
{
    lemma_keys();
    lemma_lists_read_back(chat.members, Seq::empty());
    let fields = chat_doc(chat, created)->Object_0;
    reveal_with_fuel(exact, 2);
    reveal_with_fuel(canonical, 2);
    reveal_with_fuel(text_before, 3);
    assert forall|i: int| 0 <= i < fields.len() implies exact((#[trigger] fields[i]).1)
        && canonical(fields[i].1) by {
        assert(i == 0 || i == 1 || i == 2 || i == 3 || i == 4 || i == 5);
    }
    assert forall|i: int| 0 <= i < fields.len() - 1 implies text_before(
        (#[trigger] fields[i]).0,
        fields[i + 1].0,
    ) by {
        assert(i == 0 || i == 1 || i == 2 || i == 3 || i == 4);
        assert(('c' as u32) < ('i' as u32) && ('i' as u32) < ('m' as u32) && ('m' as u32) < (
        'n' as u32) && ('n' as u32) < ('t' as u32) && ('t' as u32) < ('w' as u32));
    }
}

/// A message as a document is written the way a parsed document is.
pub proof fn lemma_message_doc_canonical(message: MessageModel, created: Seq<char>)
    ensures
        exact(message_doc(message, created)),
        canonical(message_doc(message, created)),
{
    lemma_keys();
    lemma_lists_read_back(Seq::empty(), message.files);
    let fields = message_doc(message, created)->Object_0;
    reveal_with_fuel(exact, 2);
    reveal_with_fuel(canonical, 2);
    reveal_with_fuel(text_before, 3);
    assert forall|i: int| 0 <= i < fields.len() implies exact((#[trigger] fields[i]).1)
        && canonical(fields[i].1) by {
        assert(i == 0 || i == 1 || i == 2 || i == 3 || i == 4 || i == 5);
    }
    assert forall|i: int| 0 <= i < fields.len() - 1 implies text_before(
        (#[trigger] fields[i]).0,
        fields[i + 1].0,
    ) by {
        assert(i == 0 || i == 1 || i == 2 || i == 3 || i == 4);
        assert(('c' as u32) < ('f' as u32) && ('f' as u32) < ('i' as u32) && ('i' as u32) < (
        's' as u32) && ('h' as u32) < ('o' as u32) && ('o' as u32) < ('r' as u32));
        assert("chat_id"@.drop_first()[0] == 'h' && "content"@.drop_first()[0] == 'o'
            && "created_at"@.drop_first()[0] == 'r');
    }
}

/// The document that is written for a chat: the chat with the text of the
/// time of its making, or none where that time cannot be written.
pub open spec fn chat_written(chat: ChatModel) -> Option<JsonValue> {
    match written(chat.created_at) {
        Some(created) => Some(chat_doc(chat, created)),
        None => None,
    }
}

/// The document that is written for a message: the message with the text of
/// the time of its making, or none where that time cannot be written.
pub open spec fn message_written(message: MessageModel) -> Option<JsonValue> {
    match written(message.created_at) {
        Some(created) => Some(message_doc(message, created)),
        None => None,
    }
}

/// The view of an optional document.
pub open spec fn doc_view(doc: Option<Json>) -> Option<JsonValue> {
    match doc {
        Some(doc) => Some(doc@),
        None => None,
    }
}

/// A chat that is written as a document reads back as itself.
pub proof fn lemma_chat_doc(chat: ChatModel, created: Seq<char>)
    requires
        instant_of(created) == Some(chat.created_at),
    ensures
        chat_of(chat_doc(chat, created)) == Some(chat),
{
    lemma_keys();
    lemma_chat_type_name(chat.typ);
    lemma_lists_read_back(chat.members, Seq::empty());
    let doc = chat_doc(chat, created);
    let fields = doc->Object_0;
    lemma_lookup_at(fields, "created_at"@, 0);
    lemma_lookup_at(fields, "id"@, 1);
    lemma_lookup_at(fields, "member_ids"@, 2);
    lemma_lookup_at(fields, "name"@, 3);
    lemma_lookup_at(fields, "type"@, 4);
    lemma_lookup_at(fields, "workspace_id"@, 5);
    assert(chat_of(doc).unwrap().members == chat.members);
    assert(chat_of(doc).unwrap().name == chat.name);
}

/// A message that is written as a document reads back as itself.
pub proof fn lemma_message_doc(message: MessageModel, created: Seq<char>)
    requires
        instant_of(created) == Some(message.created_at),
    ensures
        message_of(message_doc(message, created)) == Some(message),
{
    lemma_keys();
    lemma_lists_read_back(Seq::empty(), message.files);
    let doc = message_doc(message, created);
    let fields = doc->Object_0;
    lemma_lookup_at(fields, "chat_id"@, 0);
    lemma_lookup_at(fields, "content"@, 1);
    lemma_lookup_at(fields, "created_at"@, 2);
    lemma_lookup_at(fields, "file_refs"@, 3);
    lemma_lookup_at(fields, "id"@, 4);
    lemma_lookup_at(fields, "sender_id"@, 5);
    assert(message_of(doc).unwrap().files == message.files);
}

/// Reads the integer under `key`.
pub fn read_i64(doc: &Json, key: &str) -> (out: Option<i64>)
    ensures
        out == required_i64(doc@, key@),
{
    match doc.member(key) {
        Some(value) => value.as_i64(),
        None => None,
    }
}

/// Reads the string under `key`.
pub fn read_text(doc: &Json, key: &str) -> (out: Option<String>)
    ensures
        match out {
            Some(s) => required_text(doc@, key@) == Some(s@),
            None => required_text(doc@, key@) is None,
        },
{
    match doc.member(key) {
        Some(value) => match value.as_text() {
            Some(s) => Some(s.clone()),
            None => None,
        },
        None => None,
    }
}

/// Reads the instant under `key`.
pub fn read_timestamp(doc: &Json, key: &str) -> (out: Option<Timestamp>)
    ensures
        out == required_instant(doc@, key@),
{
    match read_text(doc, key) {
        Some(text) => read_instant(text.as_str()),
        None => None,
    }
}

impl Chat {
    /// Writes the chat as a document that reads back as the chat. `None` if
    /// the time of its making cannot be written.
    pub fn to_json(&self) -> (out: Option<Json>)
        ensures
            doc_view(out) == chat_written(self@),
            out matches Some(doc) ==> chat_of(doc@) == Some(self@) && exact(doc@) && canonical(
                doc@,
            ),
    {
        let created = match self.created_at.to_text() {
            Some(text) => text,
            None => return None,
        };
        let ghost wanted = chat_doc(self@, created@);
        let mut fields: Vec<(String, Json)> = Vec::new();
        fields.push((String::from_str("created_at"), Json::Text(created)));
        fields.push((String::from_str("id"), Json::Int(self.id)));
        fields.push((String::from_str("member_ids"), Json::of_ids(&self.members)));
        fields.push((String::from_str("name"), Json::of_optional_text(&self.name)));
        fields.push((String::from_str("type"), Json::Text(String::from_str(self.typ.name()))));
        fields.push((String::from_str("workspace_id"), Json::Int(self.ws_id)));
        let doc = Json::Object(fields);
        proof {
            reveal_with_fuel(crate::json::tree, 2);
            let made = doc@->Object_0;
            let want = wanted->Object_0;
            assert(made.len() == 6);
            assert(made[0] == want[0]);
            assert(made[1] == want[1]);
            assert(made[2] == want[2]);
            assert(made[3] == want[3]);
            assert(made[4] == want[4]);
            assert(made[5] == want[5]);
            assert(made =~= want);
            lemma_chat_doc(self@, created@);
            lemma_chat_doc_canonical(self@, created@);
        }
        Some(doc)
    }

    /// Reads a chat from a document.
    pub fn from_json(doc: &Json) -> (out: Option<Chat>)
        ensures
            match out {
                Some(chat) => chat_of(doc@) == Some(chat@),
                None => chat_of(doc@) is None,
            },
    {
        let id = match read_i64(doc, "id") {
            Some(id) => id,
            None => return None,
        };
        let ws_id = match read_i64(doc, "workspace_id") {
            Some(id) => id,
            None => return None,
        };
        let name = match doc.present("name") {
            None => None,
            Some(value) => match value.as_text() {
                Some(s) => Some(s.clone()),
                None => return None,
            },
        };
        let typ = match read_text(doc, "type") {
            Some(text) => match ChatType::from_name(text.as_str()) {
                Some(typ) => typ,
                None => return None,
            },
            None => return None,
        };
        let members = match doc.member("member_ids") {
            Some(value) => match value.as_i64_list() {
                Some(ids) => ids,
                None => return None,
            },
            None => return None,
        };
        let created_at = match read_timestamp(doc, "created_at") {
            Some(at) => at,
            None => return None,
        };
        Some(Chat { id, ws_id, name, typ, members, created_at })
    }
}

impl Message {
    /// Writes the message as a document that reads back as the message.
    /// `None` if the time of its making cannot be written.
    pub fn to_json(&self) -> (out: Option<Json>)
        ensures
            doc_view(out) == message_written(self@),
            out matches Some(doc) ==> message_of(doc@) == Some(self@) && exact(doc@)
                && canonical(doc@),
    {
        let created = match self.created_at.to_text() {
            Some(text) => text,
            None => return None,
        };
        let ghost wanted = message_doc(self@, created@);
        let mut fields: Vec<(String, Json)> = Vec::new();
        fields.push((String::from_str("chat_id"), Json::Int(self.chat_id)));
        fields.push((String::from_str("content"), Json::Text(self.content.clone())));
        fields.push((String::from_str("created_at"), Json::Text(created)));
        fields.push((String::from_str("file_refs"), Json::of_texts(&self.files)));
        fields.push((String::from_str("id"), Json::Int(self.id)));
        fields.push((String::from_str("sender_id"), Json::Int(self.sender_id)));
        let doc = Json::Object(fields);
        proof {
            reveal_with_fuel(crate::json::tree, 2);
            let made = doc@->Object_0;
            let want = wanted->Object_0;
            assert(made.len() == 6);
            assert(made[0] == want[0]);
            assert(made[1] == want[1]);
            assert(made[2] == want[2]);
            assert(made[3] == want[3]);
            assert(made[4] == want[4]);
            assert(made[5] == want[5]);
            assert(made =~= want);
            lemma_message_doc(self@, created@);
            lemma_message_doc_canonical(self@, created@);
        }
        Some(doc)
    }

    /// Reads a message from a document.
    pub fn from_json(doc: &Json) -> (out: Option<Message>)
        ensures
            match out {
                Some(message) => message_of(doc@) == Some(message@),
                None => message_of(doc@) is None,
            },
    {
        let id = match read_i64(doc, "id") {
            Some(id) => id,
            None => return None,
        };
        let chat_id = match read_i64(doc, "chat_id") {
            Some(id) => id,
            None => return None,
        };
        let sender_id = match read_i64(doc, "sender_id") {
            Some(id) => id,
            None => return None,
        };
        let content = match read_text(doc, "content") {
            Some(text) => text,
            None => return None,
        };
        let files = match doc.member("file_refs") {
            Some(value) => match value.as_text_list() {
                Some(files) => files,
                None => return None,
            },
            None => return None,
        };
        let created_at = match read_timestamp(doc, "created_at") {
            Some(at) => at,
            None => return None,
        };
        Some(Message { id, chat_id, sender_id, content, files, created_at })
    }
}

} // verus!
