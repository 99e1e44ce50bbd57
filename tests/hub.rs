use chat_backend::hub::{Delivery, Hub, OUTBOUND_CAPACITY};
use chat_backend::protocol::ServerMessage;

const A: u128 = 0xa;
const B: u128 = 0xb;
const C: u128 = 0xc;
const R: u128 = 0x100;

fn targets(ds: &[Delivery]) -> Vec<u128> {
    ds.iter().map(|d| d.to).collect()
}

#[test]
fn join_snapshot_includes_both_and_notifies_first() {
    let mut hub: Hub<u32> = Hub::new();
    hub.register(A, "alice".to_string(), 1);
    hub.register(B, "bob".to_string(), 2);
    let first = hub.join_room(R, A, "alice", None);
    assert_eq!(targets(&first), vec![A]);
    assert!(matches!(&first[0].msg, ServerMessage::OnlineUsers { room_id, user_ids } if *room_id == R && *user_ids == vec![A]));
    let second = hub.join_room(R, B, "bob", Some("Bob"));
    assert_eq!(targets(&second), vec![A, B]);
    match &second[0].msg {
        ServerMessage::UserJoined { room_id, user } => {
            assert_eq!(*room_id, R);
            assert_eq!(user.id, B);
            assert_eq!(user.username, "bob");
            assert_eq!(user.display_name.as_deref(), Some("Bob"));
        }
        _ => panic!("expected user_joined"),
    }
    match &second[1].msg {
        ServerMessage::OnlineUsers { room_id, user_ids } => {
            assert_eq!(*room_id, R);
            assert!(user_ids.contains(&A) && user_ids.contains(&B));
            assert_eq!(user_ids.len(), 2);
        }
        _ => panic!("expected online_users"),
    }
}

#[test]
fn joining_twice_keeps_one_presence() {
    let mut hub: Hub<u32> = Hub::new();
    hub.register(A, "alice".to_string(), 1);
    hub.join_room(R, A, "alice", None);
    let again = hub.join_room(R, A, "alice", None);
    assert!(matches!(&again[0].msg, ServerMessage::OnlineUsers { user_ids, .. } if *user_ids == vec![A]));
}

#[test]
fn unregistered_user_cannot_join() {
    let mut hub: Hub<u32> = Hub::new();
    assert!(hub.join_room(R, A, "alice", None).is_empty());
    let out = hub.broadcast_to_room(R, &ServerMessage::Pong, None);
    assert!(out.is_empty());
}

#[test]
fn leave_stops_broadcasts_and_notifies_rest() {
    let mut hub: Hub<u32> = Hub::new();
    hub.register(A, "alice".to_string(), 1);
    hub.register(B, "bob".to_string(), 2);
    hub.register(C, "carol".to_string(), 3);
    hub.join_room(R, A, "alice", None);
    hub.join_room(R, B, "bob", None);
    hub.join_room(R, C, "carol", None);
    let left = hub.leave_room(R, A);
    assert_eq!(targets(&left), vec![B, C]);
    assert!(matches!(&left[0].msg, ServerMessage::UserLeft { room_id, user_id } if *room_id == R && *user_id == A));
    let out = hub.broadcast_to_room(R, &ServerMessage::Pong, None);
    assert_eq!(targets(&out), vec![B, C]);
    assert!(hub.leave_room(R, A).is_empty());
}

#[test]
fn broadcast_skips_the_sender() {
    let mut hub: Hub<u32> = Hub::new();
    hub.register(A, "alice".to_string(), 1);
    hub.register(B, "bob".to_string(), 2);
    hub.join_room(R, A, "alice", None);
    hub.join_room(R, B, "bob", None);
    let out = hub.broadcast_to_room(R, &ServerMessage::Pong, Some(A));
    assert_eq!(targets(&out), vec![B]);
    assert!(matches!(out[0].msg, ServerMessage::Pong));
    assert!(hub.broadcast_to_room(R + 1, &ServerMessage::Pong, None).is_empty());
}

#[test]
fn disconnect_twice_cleans_everything() {
    let mut hub: Hub<u32> = Hub::new();
    hub.register(A, "alice".to_string(), 1);
    hub.register(B, "bob".to_string(), 2);
    hub.join_room(R, A, "alice", None);
    hub.join_room(R + 1, A, "alice", None);
    hub.join_room(R, B, "bob", None);
    hub.disconnect(A);
    hub.disconnect(A);
    assert!(!hub.is_connected(A));
    assert!(hub.is_connected(B));
    assert_eq!(targets(&hub.broadcast_to_room(R, &ServerMessage::Pong, None)), vec![B]);
    assert!(hub.broadcast_to_room(R + 1, &ServerMessage::Pong, None).is_empty());
    assert!(hub.send_to_user(A, &ServerMessage::Pong).is_none());
}

#[test]
fn register_replaces_the_outbox() {
    let mut hub: Hub<u32> = Hub::new();
    hub.register(A, "alice".to_string(), 1);
    assert_eq!(hub.outbox(A), Some(&1));
    hub.register(A, "alice".to_string(), 9);
    assert_eq!(hub.outbox(A), Some(&9));
    assert_eq!(hub.outbox(B), None);
    let d = hub.send_to_user(A, &ServerMessage::Pong).unwrap();
    assert_eq!(d.to, A);
    assert_eq!(OUTBOUND_CAPACITY, 64);
}
