use chat_backend::error::AppError;
use chat_backend::gate::{admit_connection_at, Identity};
use chat_backend::hub::Hub;
use chat_backend::models::{DirectMessage, Message, User};
use chat_backend::models::RegisterRequest;
use chat_backend::services::validate_registration;
use chat_backend::pipeline::{
    build_dm_event, build_message_event, check_content, plan_command, send_dm, send_message, Command, DmStep,
    SendStep,
};
use chat_backend::protocol::{ClientMessage, ServerMessage};
use chat_backend::token::{make_tokens_at, TokenSettings};

const ALICE: u128 = 0x11;
const BOB: u128 = 0x22;
const CAROL: u128 = 0x33;
const ROOM: u128 = 0x100;

fn user(id: u128, name: &str) -> User {
    User {
        id,
        username: name.to_string(),
        email: format!("{name}@example.com"),
        password_hash: String::new(),
        display_name: None,
        avatar_url: None,
        created_at: "2024-01-01T00:00:00Z".to_string(),
        updated_at: "2024-01-01T00:00:00Z".to_string(),
    }
}

#[test]
fn member_sends_room_message() {
    assert!(matches!(send_message(ALICE, ROOM, "hello", None), SendStep::CheckMembership));
    match send_message(ALICE, ROOM, "hello", Some(true)) {
        SendStep::Persist(m) => {
            assert_eq!(m.room_id, ROOM);
            assert_eq!(m.sender_id, ALICE);
            assert_eq!(m.content, "hello");
        }
        _ => panic!("expected persist"),
    }
    let longest = "a".repeat(10_000);
    assert!(matches!(send_message(ALICE, ROOM, &longest, Some(true)), SendStep::Persist(_)));
}

#[test]
fn bad_content_is_refused_before_storage() {
    let too_long = "a".repeat(10_001);
    for c in ["", too_long.as_str()] {
        assert!(matches!(send_message(ALICE, ROOM, c, None), SendStep::Reject(AppError::BadRequest(_))));
        assert!(matches!(send_message(ALICE, ROOM, c, Some(true)), SendStep::Reject(AppError::BadRequest(_))));
        assert!(matches!(send_dm(ALICE, BOB, c, None), DmStep::Reject(AppError::BadRequest(_))));
        assert!(check_content(c).is_err());
    }
    assert!(matches!(send_message(ALICE, ROOM, "   \n\t", Some(true)), SendStep::Persist(_)));
    assert!(matches!(send_dm(ALICE, BOB, " ", Some(false)), DmStep::Reject(AppError::NotFound(_))));
    let wide = "é".repeat(5_001);
    assert!(matches!(send_message(ALICE, ROOM, &wide, None), SendStep::Reject(AppError::BadRequest(_))));
}

#[test]
fn non_member_is_forbidden() {
    assert!(matches!(send_message(CAROL, ROOM, "hi", Some(false)), SendStep::Reject(AppError::Forbidden(_))));
}

#[test]
fn direct_message_rules() {
    assert!(matches!(send_dm(ALICE, ALICE, "hi", Some(true)), DmStep::Reject(AppError::BadRequest(m)) if m == "Cannot send a DM to yourself"));
    assert!(matches!(send_dm(ALICE, BOB, "hi", None), DmStep::LookUpRecipient));
    assert!(matches!(send_dm(ALICE, BOB, "hi", Some(false)), DmStep::Reject(AppError::NotFound(_))));
    match send_dm(ALICE, BOB, "hi", Some(true)) {
        DmStep::Persist(m) => {
            assert_eq!((m.sender_id, m.recipient_id), (ALICE, BOB));
            assert_eq!(m.content, "hi");
        }
        _ => panic!("expected persist"),
    }
}

fn stored(id: u128, sender: u128, content: &str) -> Message {
    Message {
        id,
        room_id: ROOM,
        sender_id: sender,
        content: content.to_string(),
        message_type: "text".to_string(),
        meta_data: None,
        created_at: "2024-05-01T10:00:00Z".to_string(),
        update_at: "2024-05-01T10:00:00Z".to_string(),
    }
}

#[test]
fn message_event_carries_author_profile() {
    let mut author = user(ALICE, "alice");
    author.display_name = Some("Alice".to_string());
    match build_message_event(&stored(7, ALICE, "hi"), Some(&author)).ok().unwrap() {
        ServerMessage::Message { message_id, room_id, user, content, timestamp } => {
            assert_eq!((message_id, room_id), (7, ROOM));
            assert_eq!(user.id, ALICE);
            assert_eq!(user.username, "alice");
            assert_eq!(user.display_name.as_deref(), Some("Alice"));
            assert_eq!(content, "hi");
            assert_eq!(timestamp, "2024-05-01T10:00:00Z");
        }
        _ => panic!("expected message"),
    }
    assert!(matches!(build_message_event(&stored(7, ALICE, "hi"), None), Err(AppError::Internal(_))));
}

#[test]
fn dm_event_names_the_sender() {
    let dm = DirectMessage {
        id: 1,
        sender_id: ALICE,
        recipient_id: BOB,
        content: "psst".to_string(),
        is_read: false,
        created_at: "t0".to_string(),
        update_at: "t0".to_string(),
    };
    match build_dm_event(&dm, &user(ALICE, "alice")) {
        ServerMessage::Dm { from, content, timestamp } => {
            assert_eq!(from.username, "alice");
            assert_eq!(content, "psst");
            assert_eq!(timestamp, "t0");
        }
        _ => panic!("expected dm"),
    }
}

#[test]
fn commands_are_planned() {
    let who = Identity { user_id: ALICE, username: "alice".to_string() };
    assert!(matches!(plan_command(&who, ClientMessage::Ping), Command::Reply(ServerMessage::Pong)));
    assert!(matches!(plan_command(&who, ClientMessage::JoinRoom { room_id: ROOM }), Command::JoinRoom { room_id } if room_id == ROOM));
    match plan_command(&who, ClientMessage::Typing { room_id: ROOM, is_typing: true }) {
        Command::Broadcast { room_id, msg: ServerMessage::Typing { room_id: r, user_id, username, is_typing } } => {
            assert_eq!((room_id, r, user_id), (ROOM, ROOM, ALICE));
            assert_eq!(username, "alice");
            assert!(is_typing);
        }
        _ => panic!("expected a typing broadcast"),
    }
}

#[test]
fn alice_says_hi_to_the_room() {
    let settings = TokenSettings { secret: "s3cret".to_string(), access_ttl: 86_400, refresh_ttl: 604_800 };
    let now = 1_700_000_000;
    let alice_id: u128 = 0x67e55044_10b1_426f_9247_bb680e5fe0c8;
    let signup = RegisterRequest {
        username: "alice".to_string(),
        email: "alice@example.com".to_string(),
        password: "correct horse".to_string(),
        display_name: None,
    };
    assert!(validate_registration(&signup).is_ok());
    let pair = make_tokens_at(alice_id, "alice", &settings, now).ok().unwrap();
    let who = admit_connection_at(&format!("Bearer {}", pair.access_token), &settings.secret, now).ok().unwrap();
    assert_eq!(who.user_id, alice_id);

    let mut hub: Hub<()> = Hub::new();
    hub.register(BOB, "bob".to_string(), ());
    hub.register(CAROL, "carol".to_string(), ());
    hub.register(0x44, "dave".to_string(), ());
    hub.register(who.user_id, who.username.clone(), ());
    hub.join_room(ROOM, BOB, "bob", None);
    hub.join_room(ROOM, CAROL, "carol", None);
    hub.join_room(ROOM + 1, 0x44, "dave", None);
    hub.join_room(ROOM, who.user_id, "alice", None);

    let frame = "{\"type\":\"message\",\"room_id\":\"00000000-0000-0000-0000-000000000100\",\"content\":\"hi\"}";
    let cmd = plan_command(&who, ClientMessage::decode(frame).ok().unwrap());
    let (room_id, content) = match cmd {
        Command::SendRoomMessage { room_id, content } => (room_id, content),
        _ => panic!("expected a room message"),
    };
    let new = match send_message(who.user_id, room_id, &content, Some(true)) {
        SendStep::Persist(m) => m,
        _ => panic!("expected persist"),
    };
    let saved = stored(1, new.sender_id, &new.content);
    let event = build_message_event(&saved, Some(&user(who.user_id, "alice"))).ok().unwrap();
    let out = hub.broadcast_to_room(room_id, &event, Some(who.user_id));
    let mut to: Vec<u128> = out.iter().map(|d| d.to).collect();
    to.sort();
    assert_eq!(to, vec![BOB, CAROL]);
    for d in &out {
        let v: serde_json::Value = serde_json::from_str(&d.msg.encode()).unwrap();
        assert_eq!(v["type"], "message");
        assert_eq!(v["content"], "hi");
        assert_eq!(v["user"]["username"], "alice");
    }
}
