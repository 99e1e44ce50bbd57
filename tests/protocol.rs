use chat_backend::protocol::{ClientMessage, ProtocolError, ServerMessage, WsUser};

const ROOM: &str = "67e55044-10b1-426f-9247-bb680e5fe0c8";
const ROOM_ID: u128 = 0x67e55044_10b1_426f_9247_bb680e5fe0c8;
const PEER: &str = "a1a2a3a4-b1b2-c1c2-d1d2-d3d4d5d6d7d8";
const PEER_ID: u128 = 0xa1a2a3a4_b1b2_c1c2_d1d2_d3d4d5d6d7d8;

#[test]
fn decode_unknown_tag_fails_closed() {
    let r = ClientMessage::decode("{\"type\":\"bogus_type\"}");
    assert!(matches!(r, Err(ProtocolError::UnknownType)));
    let r = ClientMessage::decode(&format!("{{\"type\":\"bogus_type\",\"room_id\":\"{}\"}}", ROOM));
    assert!(matches!(r, Err(ProtocolError::UnknownType)));
}

#[test]
fn decode_join_and_leave() {
    let r = ClientMessage::decode(&format!("{{\"type\":\"join_room\",\"room_id\":\"{}\"}}", ROOM));
    assert!(matches!(r, Ok(ClientMessage::JoinRoom { room_id }) if room_id == ROOM_ID));
    let r = ClientMessage::decode(&format!("{{\"type\":\"leave_room\",\"room_id\":\"{}\"}}", ROOM));
    assert!(matches!(r, Ok(ClientMessage::LeaveRoom { room_id }) if room_id == ROOM_ID));
}

#[test]
fn decode_message_typing_dm_ping() {
    let r = ClientMessage::decode(&format!("{{\"type\":\"message\",\"room_id\":\"{}\",\"content\":\"hi\"}}", ROOM));
    match r {
        Ok(ClientMessage::Message { room_id, content }) => {
            assert_eq!(room_id, ROOM_ID);
            assert_eq!(content, "hi");
        }
        _ => panic!("expected a message"),
    }
    let r = ClientMessage::decode(&format!("{{\"type\":\"typing\",\"room_id\":\"{}\",\"is_typing\":true}}", ROOM));
    assert!(matches!(r, Ok(ClientMessage::Typing { room_id, is_typing: true }) if room_id == ROOM_ID));
    let r = ClientMessage::decode(&format!("{{\"type\":\"dm\",\"recipient_id\":\"{}\",\"content\":\"yo\"}}", PEER));
    match r {
        Ok(ClientMessage::Dm { recipient_id, content }) => {
            assert_eq!(recipient_id, PEER_ID);
            assert_eq!(content, "yo");
        }
        _ => panic!("expected a dm"),
    }
    assert!(matches!(ClientMessage::decode("{\"type\":\"ping\"}"), Ok(ClientMessage::Ping)));
}

#[test]
fn decode_refuses_malformed_frames() {
    assert!(matches!(ClientMessage::decode("not json"), Err(ProtocolError::NotJson)));
    assert!(matches!(ClientMessage::decode("[1,2]"), Err(ProtocolError::NotObject)));
    assert!(matches!(ClientMessage::decode("{\"room_id\":\"x\"}"), Err(ProtocolError::MissingType)));
    assert!(matches!(ClientMessage::decode("{\"type\":7}"), Err(ProtocolError::MissingType)));
    assert!(matches!(ClientMessage::decode("{\"type\":\"join_room\"}"), Err(ProtocolError::BadField)));
    assert!(matches!(
        ClientMessage::decode("{\"type\":\"join_room\",\"room_id\":\"not-a-uuid\"}"),
        Err(ProtocolError::BadField)
    ));
    assert!(matches!(
        ClientMessage::decode(&format!("{{\"type\":\"message\",\"room_id\":\"{}\"}}", ROOM)),
        Err(ProtocolError::BadField)
    ));
    assert!(matches!(
        ClientMessage::decode(&format!("{{\"type\":\"typing\",\"room_id\":\"{}\",\"is_typing\":\"yes\"}}", ROOM)),
        Err(ProtocolError::BadField)
    ));
}

#[test]
fn from_json_reads_a_parsed_value() {
    let v: serde_json::Value = serde_json::from_str("{\"type\":\"ping\",\"extra\":1}").unwrap();
    assert!(matches!(ClientMessage::from_json(&v), Ok(ClientMessage::Ping)));
    let v: serde_json::Value = serde_json::from_str("{\"type\":\"bogus_type\"}").unwrap();
    assert!(matches!(ClientMessage::from_json(&v), Err(ProtocolError::UnknownType)));
}

fn parsed(m: &ServerMessage) -> serde_json::Value {
    serde_json::from_str(&m.encode()).unwrap()
}

#[test]
fn encode_pong_and_error() {
    assert_eq!(ServerMessage::Pong.encode(), "{\"type\":\"pong\"}");
    let e = ServerMessage::parse_error(ProtocolError::UnknownType);
    let v = parsed(&e);
    assert_eq!(v["type"], "error");
    assert_eq!(v["code"], "PARSE_ERROR");
    assert_eq!(v["message"], "Invalid message: unknown variant in field `type`");
}

#[test]
fn encode_user_joined_and_online_users() {
    let user = WsUser { id: PEER_ID, username: "bob".to_string(), display_name: None };
    let v = parsed(&ServerMessage::UserJoined { room_id: ROOM_ID, user });
    assert_eq!(v["type"], "user_joined");
    assert_eq!(v["room_id"], ROOM);
    assert_eq!(v["user"]["id"], PEER);
    assert_eq!(v["user"]["username"], "bob");
    assert!(v["user"]["display_name"].is_null());
    let v = parsed(&ServerMessage::OnlineUsers { room_id: ROOM_ID, user_ids: vec![PEER_ID, ROOM_ID] });
    assert_eq!(v["type"], "online_users");
    assert_eq!(v["user_ids"][0], PEER);
    assert_eq!(v["user_ids"][1], ROOM);
    assert_eq!(v["user_ids"].as_array().unwrap().len(), 2);
}

#[test]
fn encode_message_typing_dm_left() {
    let user = WsUser { id: PEER_ID, username: "bob".to_string(), display_name: Some("Bob".to_string()) };
    let m = ServerMessage::Message {
        message_id: 1,
        room_id: ROOM_ID,
        user: user.clone(),
        content: "hi \"there\"".to_string(),
        timestamp: "2024-01-01T00:00:00Z".to_string(),
    };
    let v = parsed(&m);
    assert_eq!(v["type"], "message");
    assert_eq!(v["message_id"], "00000000-0000-0000-0000-000000000001");
    assert_eq!(v["user"]["display_name"], "Bob");
    assert_eq!(v["content"], "hi \"there\"");
    assert_eq!(v["timestamp"], "2024-01-01T00:00:00Z");
    let v = parsed(&ServerMessage::Typing { room_id: ROOM_ID, user_id: PEER_ID, username: "bob".to_string(), is_typing: false });
    assert_eq!(v["type"], "typing");
    assert_eq!(v["is_typing"], false);
    assert_eq!(v["username"], "bob");
    let v = parsed(&ServerMessage::Dm { from: user, content: "yo".to_string(), timestamp: "t".to_string() });
    assert_eq!(v["type"], "dm");
    assert_eq!(v["from"]["username"], "bob");
    let v = parsed(&ServerMessage::UserLeft { room_id: ROOM_ID, user_id: PEER_ID });
    assert_eq!(v["type"], "user_left");
    assert_eq!(v["user_id"], PEER);
}
