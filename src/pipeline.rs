//! The message pipeline and the other request rules: content validation,
//! authorization against the store's answers, and the events built for
//! fan-out.
//!
//! The store is a collaborator that is awaited, so each operation here is a
//! step: it is called first without the store's answer and says what to ask,
//! then with the answer and says what to persist or how the request fails.
//! Nothing is asked of the store for a request that validation refuses.

use vstd::prelude::*;
use vstd::utf8::encode_utf8;
use crate::error::AppError;
use crate::gate::Identity;
use crate::models::{DirectMessage, Message, User};
use crate::protocol::{opt_text, ClientMessage, ServerMessage, ServerMessageView, WsUser, WsUserView};

verus! {

/// The largest content of a message, in bytes of UTF-8.
pub const MAX_CONTENT_BYTES: usize = 10_000;

/// Content that a message may carry: not empty, and at most
/// `MAX_CONTENT_BYTES` bytes.
pub open spec fn content_ok(s: Seq<char>) -> bool {
    s.len() > 0 && encode_utf8(s).len() <= MAX_CONTENT_BYTES
}

/// Checks the content of a message.
pub fn check_content(content: &str) -> (r: Result<(), AppError>)
    ensures
        r is Ok <==> content_ok(content@),
        r matches Err(e) ==> e is BadRequest,
{
    if content.is_empty() || content.as_bytes().len() > MAX_CONTENT_BYTES {
        Err(AppError::BadRequest(String::from_str("Message must be 1-10 000 characters")))
    } else {
        Ok(())
    }
}

/// A room message to persist.
pub struct NewMessage {
    pub room_id: u128,
    pub sender_id: u128,
    pub content: String,
}

/// What to do next with a room message.
pub enum SendStep {
    Reject(AppError),
    /// Ask the store whether the sender is a member of record of the room.
    CheckMembership,
    Persist(NewMessage),
}

/// A room message from `user_id` to `room_id`, given whether the store says
/// the sender is a member of record, once it has been asked.
pub fn send_message(user_id: u128, room_id: u128, content: &str, is_member: Option<bool>) -> (r: SendStep)
    ensures
        !content_ok(content@) ==> (r matches SendStep::Reject(e) && e is BadRequest),
        content_ok(content@) && is_member is None ==> r is CheckMembership,
        content_ok(content@) && is_member == Some(false) ==> (r matches SendStep::Reject(e) && e is Forbidden),
        content_ok(content@) && is_member == Some(true) ==> (r matches SendStep::Persist(m) && m.room_id
            == room_id && m.sender_id == user_id && m.content@ == content@),
{
    if let Err(e) = check_content(content) {
        return SendStep::Reject(e);
    }
    match is_member {
        None => SendStep::CheckMembership,
        Some(false) => SendStep::Reject(AppError::Forbidden(String::from_str("You are not a member of this room"))),
        Some(true) => SendStep::Persist(NewMessage { room_id, sender_id: user_id, content: content.to_string() }),
    }
}

/// A direct message to persist.
pub struct NewDirectMessage {
    pub sender_id: u128,
    pub recipient_id: u128,
    pub content: String,
}

/// What to do next with a direct message.
pub enum DmStep {
    Reject(AppError),
    /// Ask the store whether the recipient is a known user.
    LookUpRecipient,
    Persist(NewDirectMessage),
}

/// A direct message from `sender_id` to `recipient_id`, given whether the
/// store knows the recipient, once it has been asked.
pub fn send_dm(sender_id: u128, recipient_id: u128, content: &str, recipient_known: Option<bool>) -> (r: DmStep)
    ensures
        !content_ok(content@) ==> (r matches DmStep::Reject(e) && e is BadRequest),
        content_ok(content@) && sender_id == recipient_id ==> (r matches DmStep::Reject(e) && e is BadRequest),
        content_ok(content@) && sender_id != recipient_id ==> match recipient_known {
            None => r is LookUpRecipient,
            Some(false) => r matches DmStep::Reject(e) && e is NotFound,
            Some(true) => r matches DmStep::Persist(m) && m.sender_id == sender_id && m.recipient_id
                == recipient_id && m.content@ == content@,
        },
{
    if let Err(e) = check_content(content) {
        return DmStep::Reject(e);
    }
    if sender_id == recipient_id {
        return DmStep::Reject(AppError::BadRequest(String::from_str("Cannot send a DM to yourself")));
    }
    match recipient_known {
        None => DmStep::LookUpRecipient,
        Some(false) => DmStep::Reject(AppError::NotFound(String::from_str("Recipient not found"))),
        Some(true) => DmStep::Persist(
            NewDirectMessage { sender_id, recipient_id, content: content.to_string() },
        ),
    }
}

/// The public profile of a user.
pub open spec fn profile_of(u: User) -> WsUserView {
    WsUserView { id: u.id, username: u.username@, display_name: opt_text(u.display_name) }
}

fn profile(u: &User) -> (r: WsUser)
    ensures
        r@ == profile_of(*u),
{
    WsUser { id: u.id, username: u.username.clone(), display_name: u.display_name.clone() }
}

/// The `message` notification of a persisted room message, with the public
/// profile of its author as the store reports it. A message whose author
/// the store does not know is an internal failure.
pub fn build_message_event(msg: &Message, author: Option<&User>) -> (r: Result<ServerMessage, AppError>)
    ensures
        match author {
            Some(u) => r matches Ok(m) && m@ == ServerMessageView::Message {
                message_id: msg.id,
                room_id: msg.room_id,
                user: profile_of(*u),
                content: msg.content@,
                timestamp: msg.created_at@,
            },
            None => r matches Err(e) && e is Internal,
        },
{
    match author {
        Some(u) => Ok(
            ServerMessage::Message {
                message_id: msg.id,
                room_id: msg.room_id,
                user: profile(u),
                content: msg.content.clone(),
                timestamp: msg.created_at.clone(),
            },
        ),
        None => Err(AppError::Internal(String::from_str("Message author not found"))),
    }
}

/// The `dm` notification of a persisted direct message, for its recipient.
pub fn build_dm_event(dm: &DirectMessage, sender: &User) -> (r: ServerMessage)
    ensures
        r@ == (ServerMessageView::Dm { from: profile_of(*sender), content: dm.content@, timestamp: dm.created_at@ }),
{
    ServerMessage::Dm { from: profile(sender), content: dm.content.clone(), timestamp: dm.created_at.clone() }
}

/// What a command from a connection asks for.
pub enum Command {
    JoinRoom { room_id: u128 },
    LeaveRoom { room_id: u128 },
    /// Run `send_message`, then broadcast the event to the room, skipping the sender.
    SendRoomMessage { room_id: u128, content: String },
    /// Broadcast to the room, skipping the sender.
    Broadcast { room_id: u128, msg: ServerMessage },
    /// Run `send_dm`, then send the event to the recipient.
    SendDirectMessage { recipient_id: u128, content: String },
    /// Send back to the sender.
    Reply(ServerMessage),
}

/// What a command decoded from a connection of `who` asks for. A ping is
/// answered with a pong and changes nothing else.
pub fn plan_command(who: &Identity, cmd: ClientMessage) -> (r: Command)
    ensures
        match cmd {
            ClientMessage::JoinRoom { room_id } => r == Command::JoinRoom { room_id },
            ClientMessage::LeaveRoom { room_id } => r == Command::LeaveRoom { room_id },
            ClientMessage::Message { room_id, content } => r matches Command::SendRoomMessage { room_id: rid, content: c }
                && rid == room_id && c@ == content@,
            ClientMessage::Typing { room_id, is_typing } => r matches Command::Broadcast { room_id: rid, msg }
                && rid == room_id && msg@ == ServerMessageView::Typing {
                room_id,
                user_id: who.user_id,
                username: who.username@,
                is_typing,
            },
            ClientMessage::Dm { recipient_id, content } => r matches Command::SendDirectMessage {
                recipient_id: rid,
                content: c,
            } && rid == recipient_id && c@ == content@,
            ClientMessage::Ping => r matches Command::Reply(msg) && msg@ == ServerMessageView::Pong,
        },
{
    match cmd {
        ClientMessage::JoinRoom { room_id } => Command::JoinRoom { room_id },
        ClientMessage::LeaveRoom { room_id } => Command::LeaveRoom { room_id },
        ClientMessage::Message { room_id, content } => Command::SendRoomMessage { room_id, content },
        ClientMessage::Typing { room_id, is_typing } => Command::Broadcast {
            room_id,
            msg: ServerMessage::Typing {
                room_id,
                user_id: who.user_id,
                username: who.username.clone(),
                is_typing,
            },
        },
        ClientMessage::Dm { recipient_id, content } => Command::SendDirectMessage { recipient_id, content },
        ClientMessage::Ping => Command::Reply(ServerMessage::Pong),
    }
}

} // verus!
