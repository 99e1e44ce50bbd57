//! The wire protocol: the closed set of messages that a client sends and that
//! the server sends back, each one JSON object per frame whose `type` member
//! names the variant.

use vstd::prelude::*;
use crate::ids::{id_to_string, parse_id, uuid_parsed, uuid_text};
use crate::json::{
    lemma_distinct_keys,
    flag_of, is_object, json_array, json_entry, distinct_keys, json_bool, json_null, json_object, json_str, member, object_of,
    entry_models, item_models, json_model, json_parsed, json_text, parse_json, print_json,
    text_of, JsonModel,
};
use crate::text::same_text;

verus! {

/// A user as the server describes it to clients.
pub struct WsUser {
    pub id: u128,
    pub username: String,
    pub display_name: Option<String>,
}

pub struct WsUserView {
    pub id: u128,
    pub username: Seq<char>,
    pub display_name: Option<Seq<char>>,
}

/// The text of an optional string.
pub open spec fn opt_text(s: Option<String>) -> Option<Seq<char>> {
    match s {
        Some(t) => Some(t@),
        None => None,
    }
}

impl View for WsUser {
    type V = WsUserView;

    open spec fn view(&self) -> WsUserView {
        WsUserView { id: self.id, username: self.username@, display_name: opt_text(self.display_name) }
    }
}

impl Clone for WsUser {
    fn clone(&self) -> (r: Self)
        ensures
            r@ == self@,
    {
        WsUser { id: self.id, username: self.username.clone(), display_name: self.display_name.clone() }
    }
}

/// A command from a client.
pub enum ClientMessage {
    JoinRoom { room_id: u128 },
    LeaveRoom { room_id: u128 },
    Message { room_id: u128, content: String },
    Typing { room_id: u128, is_typing: bool },
    Dm { recipient_id: u128, content: String },
    Ping,
}

pub enum ClientMessageView {
    JoinRoom { room_id: u128 },
    LeaveRoom { room_id: u128 },
    Message { room_id: u128, content: Seq<char> },
    Typing { room_id: u128, is_typing: bool },
    Dm { recipient_id: u128, content: Seq<char> },
    Ping,
}

impl View for ClientMessage {
    type V = ClientMessageView;

    open spec fn view(&self) -> ClientMessageView {
        match self {
            ClientMessage::JoinRoom { room_id } => ClientMessageView::JoinRoom { room_id: *room_id },
            ClientMessage::LeaveRoom { room_id } => ClientMessageView::LeaveRoom { room_id: *room_id },
            ClientMessage::Message { room_id, content } => ClientMessageView::Message {
                room_id: *room_id,
                content: content@,
            },
            ClientMessage::Typing { room_id, is_typing } => ClientMessageView::Typing {
                room_id: *room_id,
                is_typing: *is_typing,
            },
            ClientMessage::Dm { recipient_id, content } => ClientMessageView::Dm {
                recipient_id: *recipient_id,
                content: content@,
            },
            ClientMessage::Ping => ClientMessageView::Ping,
        }
    }
}

/// Why a frame is not a client command.
#[derive(PartialEq, Eq, Structural, Clone, Copy, Debug)]
pub enum ProtocolError {
    /// The frame is not JSON.
    NotJson,
    /// The frame is JSON but not an object.
    NotObject,
    /// The object has no string member `type`.
    MissingType,
    /// The `type` member names no command.
    UnknownType,
    /// A member that the command needs is missing or of the wrong kind.
    BadField,
}

impl ProtocolError {
    pub open spec fn text(self) -> Seq<char> {
        match self {
            ProtocolError::NotJson => "frame is not JSON"@,
            ProtocolError::NotObject => "frame is not a JSON object"@,
            ProtocolError::MissingType => "missing field `type`"@,
            ProtocolError::UnknownType => "unknown variant in field `type`"@,
            ProtocolError::BadField => "missing or invalid field"@,
        }
    }

    /// A short description, for the error frame sent back.
    pub fn describe(&self) -> (r: &'static str)
        ensures
            r@ == self.text(),
    {
        match self {
            ProtocolError::NotJson => "frame is not JSON",
            ProtocolError::NotObject => "frame is not a JSON object",
            ProtocolError::MissingType => "missing field `type`",
            ProtocolError::UnknownType => "unknown variant in field `type`",
            ProtocolError::BadField => "missing or invalid field",
        }
    }
}

/// The text of member `key`, if the object has a string there.
pub open spec fn text_member(o: Map<Seq<char>, JsonModel>, key: Seq<char>) -> Option<Seq<char>> {
    if o.contains_key(key) {
        match o[key] {
            JsonModel::Str(s) => Some(s),
            _ => None,
        }
    } else {
        None
    }
}

/// The id in member `key`, if the object has a UUID text there.
pub open spec fn id_member(o: Map<Seq<char>, JsonModel>, key: Seq<char>) -> Option<u128> {
    match text_member(o, key) {
        Some(s) => uuid_parsed(s),
        None => None,
    }
}

/// The boolean in member `key`, if the object has one there.
pub open spec fn flag_member(o: Map<Seq<char>, JsonModel>, key: Seq<char>) -> Option<bool> {
    if o.contains_key(key) {
        match o[key] {
            JsonModel::Bool(b) => Some(b),
            _ => None,
        }
    } else {
        None
    }
}

/// The command that a JSON value holds. Every tag is matched exactly; any
/// other value is refused.
pub open spec fn client_from_json(m: JsonModel) -> Result<ClientMessageView, ProtocolError> {
    match m {
        JsonModel::Object(o) => match text_member(o, "type"@) {
            None => Err(ProtocolError::MissingType),
            Some(tag) => if tag == "join_room"@ {
                match id_member(o, "room_id"@) {
                    Some(room_id) => Ok(ClientMessageView::JoinRoom { room_id }),
                    None => Err(ProtocolError::BadField),
                }
            } else if tag == "leave_room"@ {
                match id_member(o, "room_id"@) {
                    Some(room_id) => Ok(ClientMessageView::LeaveRoom { room_id }),
                    None => Err(ProtocolError::BadField),
                }
            } else if tag == "message"@ {
                match (id_member(o, "room_id"@), text_member(o, "content"@)) {
                    (Some(room_id), Some(content)) => Ok(ClientMessageView::Message { room_id, content }),
                    _ => Err(ProtocolError::BadField),
                }
            } else if tag == "typing"@ {
                match (id_member(o, "room_id"@), flag_member(o, "is_typing"@)) {
                    (Some(room_id), Some(is_typing)) => Ok(ClientMessageView::Typing { room_id, is_typing }),
                    _ => Err(ProtocolError::BadField),
                }
            } else if tag == "dm"@ {
                match (id_member(o, "recipient_id"@), text_member(o, "content"@)) {
                    (Some(recipient_id), Some(content)) => Ok(ClientMessageView::Dm { recipient_id, content }),
                    _ => Err(ProtocolError::BadField),
                }
            } else if tag == "ping"@ {
                Ok(ClientMessageView::Ping)
            } else {
                Err(ProtocolError::UnknownType)
            },
        },
        _ => Err(ProtocolError::NotObject),
    }
}

/// The tags of the six commands.
pub open spec fn is_command_tag(tag: Seq<char>) -> bool {
    ||| tag == "join_room"@
    ||| tag == "leave_room"@
    ||| tag == "message"@
    ||| tag == "typing"@
    ||| tag == "dm"@
    ||| tag == "ping"@
}

/// Decoding fails closed: a value is read as a command only when it is an
/// object whose `type` is one of the six command tags; any other tag is
/// refused as unknown, never read as some default command.
pub proof fn lemma_decode_fails_closed(m: JsonModel)
    ensures
        client_from_json(m) is Ok ==> (m matches JsonModel::Object(o) && (text_member(o, "type"@) matches Some(
            tag,
        ) && is_command_tag(tag))),
        m matches JsonModel::Object(o) ==> (text_member(o, "type"@) matches Some(tag) && !is_command_tag(tag)
            ==> client_from_json(m) == Err::<ClientMessageView, ProtocolError>(ProtocolError::UnknownType)),
{
}

/// The command that a frame's text holds.
pub open spec fn client_from_text(text: Seq<char>) -> Result<ClientMessageView, ProtocolError> {
    match json_parsed(text) {
        Some(m) => client_from_json(m),
        None => Err(ProtocolError::NotJson),
    }
}

/// The decoding result `r` is the command or the error that `expected` holds.
pub open spec fn decoded_as(
    r: Result<ClientMessage, ProtocolError>,
    expected: Result<ClientMessageView, ProtocolError>,
) -> bool {
    match r {
        Ok(c) => expected == Ok::<ClientMessageView, ProtocolError>(c@),
        Err(e) => expected == Err::<ClientMessageView, ProtocolError>(e),
    }
}

fn id_field(v: &serde_json::Value, key: &str) -> (r: Option<u128>)
    ensures
        match json_model(*v) {
            JsonModel::Object(o) => r == id_member(o, key@),
            _ => r is None,
        },
{
    match member(v, key) {
        Some(f) => match text_of(f) {
            Some(s) => parse_id(s),
            None => None,
        },
        None => None,
    }
}

/// The text in member `key` of an object.
pub fn text_field(v: &serde_json::Value, key: &str) -> (r: Option<String>)
    ensures
        match json_model(*v) {
            JsonModel::Object(o) => opt_text(r) == text_member(o, key@),
            _ => r is None,
        },
{
    match member(v, key) {
        Some(f) => match text_of(f) {
            Some(s) => Some(s.to_string()),
            None => None,
        },
        None => None,
    }
}

fn flag_field(v: &serde_json::Value, key: &str) -> (r: Option<bool>)
    ensures
        match json_model(*v) {
            JsonModel::Object(o) => r == flag_member(o, key@),
            _ => r is None,
        },
{
    match member(v, key) {
        Some(f) => flag_of(f),
        None => None,
    }
}

impl ClientMessage {
    /// Reads a command from a parsed JSON value; fails closed on anything
    /// that is not one of the six commands with all their members.
    pub fn from_json(v: &serde_json::Value) -> (r: Result<ClientMessage, ProtocolError>)
        ensures
            decoded_as(r, client_from_json(json_model(*v))),
    {
        if !is_object(v) {
            return Err(ProtocolError::NotObject);
        }
        let tag = match member(v, "type") {
            Some(t) => match text_of(t) {
                Some(s) => s,
                None => {
                    return Err(ProtocolError::MissingType);
                },
            },
            None => {
                return Err(ProtocolError::MissingType);
            },
        };
        if same_text(tag, "join_room") {
            match id_field(v, "room_id") {
                Some(room_id) => Ok(ClientMessage::JoinRoom { room_id }),
                None => Err(ProtocolError::BadField),
            }
        } else if same_text(tag, "leave_room") {
            match id_field(v, "room_id") {
                Some(room_id) => Ok(ClientMessage::LeaveRoom { room_id }),
                None => Err(ProtocolError::BadField),
            }
        } else if same_text(tag, "message") {
            match (id_field(v, "room_id"), text_field(v, "content")) {
                (Some(room_id), Some(content)) => Ok(ClientMessage::Message { room_id, content }),
                _ => Err(ProtocolError::BadField),
            }
        } else if same_text(tag, "typing") {
            match (id_field(v, "room_id"), flag_field(v, "is_typing")) {
                (Some(room_id), Some(is_typing)) => Ok(ClientMessage::Typing { room_id, is_typing }),
                _ => Err(ProtocolError::BadField),
            }
        } else if same_text(tag, "dm") {
            match (id_field(v, "recipient_id"), text_field(v, "content")) {
                (Some(recipient_id), Some(content)) => Ok(ClientMessage::Dm { recipient_id, content }),
                _ => Err(ProtocolError::BadField),
            }
        } else if same_text(tag, "ping") {
            Ok(ClientMessage::Ping)
        } else {
            Err(ProtocolError::UnknownType)
        }
    }

    /// Reads a command from the text of a frame.
    pub fn decode(text: &str) -> (r: Result<ClientMessage, ProtocolError>)
        ensures
            decoded_as(r, client_from_text(text@)),
    {
        match parse_json(text) {
            Some(v) => ClientMessage::from_json(&v),
            None => Err(ProtocolError::NotJson),
        }
    }
}

/// A notification from the server.
pub enum ServerMessage {
    Message { message_id: u128, room_id: u128, user: WsUser, content: String, timestamp: String },
    UserJoined { room_id: u128, user: WsUser },
    UserLeft { room_id: u128, user_id: u128 },
    Typing { room_id: u128, user_id: u128, username: String, is_typing: bool },
    Dm { from: WsUser, content: String, timestamp: String },
    OnlineUsers { room_id: u128, user_ids: Vec<u128> },
    Error { code: String, message: String },
    Pong,
}

pub enum ServerMessageView {
    Message {
        message_id: u128,
        room_id: u128,
        user: WsUserView,
        content: Seq<char>,
        timestamp: Seq<char>,
    },
    UserJoined { room_id: u128, user: WsUserView },
    UserLeft { room_id: u128, user_id: u128 },
    Typing { room_id: u128, user_id: u128, username: Seq<char>, is_typing: bool },
    Dm { from: WsUserView, content: Seq<char>, timestamp: Seq<char> },
    OnlineUsers { room_id: u128, user_ids: Seq<u128> },
    Error { code: Seq<char>, message: Seq<char> },
    Pong,
}

impl View for ServerMessage {
    type V = ServerMessageView;

    open spec fn view(&self) -> ServerMessageView {
        match self {
            ServerMessage::Message { message_id, room_id, user, content, timestamp } =>
                ServerMessageView::Message {
                    message_id: *message_id,
                    room_id: *room_id,
                    user: user@,
                    content: content@,
                    timestamp: timestamp@,
                },
            ServerMessage::UserJoined { room_id, user } => ServerMessageView::UserJoined {
                room_id: *room_id,
                user: user@,
            },
            ServerMessage::UserLeft { room_id, user_id } => ServerMessageView::UserLeft {
                room_id: *room_id,
                user_id: *user_id,
            },
            ServerMessage::Typing { room_id, user_id, username, is_typing } => ServerMessageView::Typing {
                room_id: *room_id,
                user_id: *user_id,
                username: username@,
                is_typing: *is_typing,
            },
            ServerMessage::Dm { from, content, timestamp } => ServerMessageView::Dm {
                from: from@,
                content: content@,
                timestamp: timestamp@,
            },
            ServerMessage::OnlineUsers { room_id, user_ids } => ServerMessageView::OnlineUsers {
                room_id: *room_id,
                user_ids: user_ids@,
            },
            ServerMessage::Error { code, message } => ServerMessageView::Error {
                code: code@,
                message: message@,
            },
            ServerMessage::Pong => ServerMessageView::Pong,
        }
    }
}

impl Clone for ServerMessage {
    fn clone(&self) -> (r: Self)
        ensures
            r@ == self@,
    {
        match self {
            ServerMessage::Message { message_id, room_id, user, content, timestamp } =>
                ServerMessage::Message {
                    message_id: *message_id,
                    room_id: *room_id,
                    user: user.clone(),
                    content: content.clone(),
                    timestamp: timestamp.clone(),
                },
            ServerMessage::UserJoined { room_id, user } => ServerMessage::UserJoined {
                room_id: *room_id,
                user: user.clone(),
            },
            ServerMessage::UserLeft { room_id, user_id } => ServerMessage::UserLeft {
                room_id: *room_id,
                user_id: *user_id,
            },
            ServerMessage::Typing { room_id, user_id, username, is_typing } => ServerMessage::Typing {
                room_id: *room_id,
                user_id: *user_id,
                username: username.clone(),
                is_typing: *is_typing,
            },
            ServerMessage::Dm { from, content, timestamp } => ServerMessage::Dm {
                from: from.clone(),
                content: content.clone(),
                timestamp: timestamp.clone(),
            },
            ServerMessage::OnlineUsers { room_id, user_ids } => {
                let ids = user_ids.clone();
                assert(ids@ =~= user_ids@);
                ServerMessage::OnlineUsers { room_id: *room_id, user_ids: ids }
            },
            ServerMessage::Error { code, message } => ServerMessage::Error {
                code: code.clone(),
                message: message.clone(),
            },
            ServerMessage::Pong => ServerMessage::Pong,
        }
    }
}

/// An id as JSON: its UUID text.
pub open spec fn id_json(id: u128) -> JsonModel {
    JsonModel::Str(uuid_text(id))
}

/// The error frame sent back for a frame that is not a command.
pub open spec fn parse_error_view(e: ProtocolError) -> ServerMessageView {
    ServerMessageView::Error { code: "PARSE_ERROR"@, message: "Invalid message: "@ + e.text() }
}

/// A text, or null when there is none.
pub open spec fn opt_json(s: Option<Seq<char>>) -> JsonModel {
    match s {
        Some(t) => JsonModel::Str(t),
        None => JsonModel::Null,
    }
}

/// The members of a user's JSON object.
pub open spec fn user_entries(u: WsUserView) -> Seq<(Seq<char>, JsonModel)> {
    seq![
        ("id"@, id_json(u.id)),
        ("username"@, JsonModel::Str(u.username)),
        ("display_name"@, opt_json(u.display_name)),
    ]
}

/// The JSON object of a user.
pub open spec fn user_json(u: WsUserView) -> JsonModel {
    JsonModel::Object(object_of(user_entries(u)))
}

/// The lengths and leading characters that tell the member names apart.
proof fn lemma_member_names()
    ensures
        "type"@.len() == 4 && "type"@[0] == 't',
        "message_id"@.len() == 10 && "message_id"@[0] == 'm',
        "room_id"@.len() == 7 && "room_id"@[0] == 'r',
        "user"@.len() == 4 && "user"@[0] == 'u',
        "content"@.len() == 7 && "content"@[0] == 'c',
        "timestamp"@.len() == 9 && "timestamp"@[0] == 't',
        "user_id"@.len() == 7 && "user_id"@[0] == 'u',
        "username"@.len() == 8 && "username"@[0] == 'u',
        "is_typing"@.len() == 9 && "is_typing"@[0] == 'i',
        "from"@.len() == 4 && "from"@[0] == 'f',
        "user_ids"@.len() == 8 && "user_ids"@[0] == 'u',
        "code"@.len() == 4 && "code"@[0] == 'c',
        "message"@.len() == 7 && "message"@[0] == 'm',
        "id"@.len() == 2 && "id"@[0] == 'i',
        "display_name"@.len() == 12 && "display_name"@[0] == 'd',
        "username"@[4] == 'n' && "user_ids"@[4] == '_',
{
    reveal_strlit("type");
    reveal_strlit("message_id");
    reveal_strlit("room_id");
    reveal_strlit("user");
    reveal_strlit("content");
    reveal_strlit("timestamp");
    reveal_strlit("user_id");
    reveal_strlit("username");
    reveal_strlit("is_typing");
    reveal_strlit("from");
    reveal_strlit("user_ids");
    reveal_strlit("code");
    reveal_strlit("message");
    reveal_strlit("id");
    reveal_strlit("display_name");
}

proof fn lemma_user_keys(u: WsUserView)
    ensures
        distinct_keys(user_entries(u)),
{
    lemma_member_names();
    lemma_distinct_keys(user_entries(u));
}

proof fn lemma_server_keys(m: ServerMessageView)
    ensures
        distinct_keys(server_entries(m)),
{
    lemma_member_names();
    lemma_distinct_keys(server_entries(m));
}

/// A list of ids as JSON texts.
pub open spec fn ids_json(ids: Seq<u128>) -> Seq<JsonModel> {
    ids.map_values(|id: u128| id_json(id))
}

/// The JSON object of a notification.
pub open spec fn server_json(m: ServerMessageView) -> JsonModel {
    JsonModel::Object(object_of(server_entries(m)))
}

/// The members of a notification's JSON object: its `type` tag, then its fields.
pub open spec fn server_entries(m: ServerMessageView) -> Seq<(Seq<char>, JsonModel)> {
    match m {
        ServerMessageView::Message { message_id, room_id, user, content, timestamp } => seq![
            ("type"@, JsonModel::Str("message"@)),
            ("message_id"@, id_json(message_id)),
            ("room_id"@, id_json(room_id)),
            ("user"@, user_json(user)),
            ("content"@, JsonModel::Str(content)),
            ("timestamp"@, JsonModel::Str(timestamp)),
        ],
        ServerMessageView::UserJoined { room_id, user } => seq![
            ("type"@, JsonModel::Str("user_joined"@)),
            ("room_id"@, id_json(room_id)),
            ("user"@, user_json(user)),
        ],
        ServerMessageView::UserLeft { room_id, user_id } => seq![
            ("type"@, JsonModel::Str("user_left"@)),
            ("room_id"@, id_json(room_id)),
            ("user_id"@, id_json(user_id)),
        ],
        ServerMessageView::Typing { room_id, user_id, username, is_typing } => seq![
            ("type"@, JsonModel::Str("typing"@)),
            ("room_id"@, id_json(room_id)),
            ("user_id"@, id_json(user_id)),
            ("username"@, JsonModel::Str(username)),
            ("is_typing"@, JsonModel::Bool(is_typing)),
        ],
        ServerMessageView::Dm { from, content, timestamp } => seq![
            ("type"@, JsonModel::Str("dm"@)),
            ("from"@, user_json(from)),
            ("content"@, JsonModel::Str(content)),
            ("timestamp"@, JsonModel::Str(timestamp)),
        ],
        ServerMessageView::OnlineUsers { room_id, user_ids } => seq![
            ("type"@, JsonModel::Str("online_users"@)),
            ("room_id"@, id_json(room_id)),
            ("user_ids"@, JsonModel::Array(ids_json(user_ids))),
        ],
        ServerMessageView::Error { code, message } => seq![
            ("type"@, JsonModel::Str("error"@)),
            ("code"@, JsonModel::Str(code)),
            ("message"@, JsonModel::Str(message)),
        ],
        ServerMessageView::Pong => seq![("type"@, JsonModel::Str("pong"@))],
    }
}

fn id_value(id: u128) -> (r: serde_json::Value)
    ensures
        json_model(r) == id_json(id),
{
    let s = id_to_string(id);
    json_str(s.as_str())
}

fn ids_value(ids: &Vec<u128>) -> (r: serde_json::Value)
    ensures
        json_model(r) == JsonModel::Array(ids_json(ids@)),
{
    let mut items: Vec<serde_json::Value> = Vec::new();
    let mut i: usize = 0;
    while i < ids.len()
        invariant
            i <= ids@.len(),
            items@.len() == i,
            forall|j: int| 0 <= j < i ==> json_model(#[trigger] items@[j]) == id_json(ids@[j]),
        decreases ids@.len() - i,
    {
        items.push(id_value(ids[i]));
        i += 1;
    }
    assert(item_models(items@) =~= ids_json(ids@));
    json_array(items)
}

impl WsUser {
    /// The JSON object that describes the user.
    pub fn to_json(&self) -> (r: serde_json::Value)
        ensures
            json_model(r) == user_json(self@),
    {
        let mut e: Vec<(String, serde_json::Value)> = Vec::new();
        e.push(json_entry("id", id_value(self.id)));
        e.push(json_entry("username", json_str(self.username.as_str())));
        let name = match &self.display_name {
            Some(d) => json_str(d.as_str()),
            None => json_null(),
        };
        e.push(json_entry("display_name", name));
        assert(entry_models(e@) =~= user_entries(self@));
        proof {
            lemma_user_keys(self@);
        }
        json_object(e)
    }
}

impl ServerMessage {
    /// The JSON object of the notification.
    pub fn to_json(&self) -> (r: serde_json::Value)
        ensures
            json_model(r) == server_json(self@),
    {
        let mut e: Vec<(String, serde_json::Value)> = Vec::new();
        match self {
            ServerMessage::Message { message_id, room_id, user, content, timestamp } => {
                e.push(json_entry("type", json_str("message")));
                e.push(json_entry("message_id", id_value(*message_id)));
                e.push(json_entry("room_id", id_value(*room_id)));
                e.push(json_entry("user", user.to_json()));
                e.push(json_entry("content", json_str(content.as_str())));
                e.push(json_entry("timestamp", json_str(timestamp.as_str())));
                assert(entry_models(e@) =~= server_entries(self@));
            },
            ServerMessage::UserJoined { room_id, user } => {
                e.push(json_entry("type", json_str("user_joined")));
                e.push(json_entry("room_id", id_value(*room_id)));
                e.push(json_entry("user", user.to_json()));
                assert(entry_models(e@) =~= server_entries(self@));
            },
            ServerMessage::UserLeft { room_id, user_id } => {
                e.push(json_entry("type", json_str("user_left")));
                e.push(json_entry("room_id", id_value(*room_id)));
                e.push(json_entry("user_id", id_value(*user_id)));
                assert(entry_models(e@) =~= server_entries(self@));
            },
            ServerMessage::Typing { room_id, user_id, username, is_typing } => {
                e.push(json_entry("type", json_str("typing")));
                e.push(json_entry("room_id", id_value(*room_id)));
                e.push(json_entry("user_id", id_value(*user_id)));
                e.push(json_entry("username", json_str(username.as_str())));
                e.push(json_entry("is_typing", json_bool(*is_typing)));
                assert(entry_models(e@) =~= server_entries(self@));
            },
            ServerMessage::Dm { from, content, timestamp } => {
                e.push(json_entry("type", json_str("dm")));
                e.push(json_entry("from", from.to_json()));
                e.push(json_entry("content", json_str(content.as_str())));
                e.push(json_entry("timestamp", json_str(timestamp.as_str())));
                assert(entry_models(e@) =~= server_entries(self@));
            },
            ServerMessage::OnlineUsers { room_id, user_ids } => {
                e.push(json_entry("type", json_str("online_users")));
                e.push(json_entry("room_id", id_value(*room_id)));
                e.push(json_entry("user_ids", ids_value(user_ids)));
                assert(entry_models(e@) =~= server_entries(self@));
            },
            ServerMessage::Error { code, message } => {
                e.push(json_entry("type", json_str("error")));
                e.push(json_entry("code", json_str(code.as_str())));
                e.push(json_entry("message", json_str(message.as_str())));
                assert(entry_models(e@) =~= server_entries(self@));
            },
            ServerMessage::Pong => {
                e.push(json_entry("type", json_str("pong")));
                assert(entry_models(e@) =~= server_entries(self@));
            },
        }
        proof {
            lemma_server_keys(self@);
        }
        json_object(e)
    }

    /// The text of the frame that carries the notification.
    pub fn encode(&self) -> (r: String)
        ensures
            r@ == json_text(server_json(self@)),
    {
        print_json(&self.to_json())
    }

    /// The error frame sent back for a frame that is not a command.
    pub fn parse_error(e: ProtocolError) -> (r: ServerMessage)
        ensures
            r@ == parse_error_view(e),
    {
        let message = String::from_str("Invalid message: ").concat(e.describe());
        ServerMessage::Error { code: String::from_str("PARSE_ERROR"), message }
    }
}

} // verus!
