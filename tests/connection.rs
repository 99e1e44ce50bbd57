use chat_backend::connection::{step, ConnState, PumpAction, PumpEvent};
use chat_backend::protocol::{ClientMessage, ServerMessage};

#[test]
fn active_dispatches_commands() {
    let (s, a) = step(ConnState::Active, PumpEvent::Text("{\"type\":\"ping\"}".to_string()));
    assert_eq!(s, ConnState::Active);
    assert!(matches!(a, PumpAction::Dispatch(ClientMessage::Ping)));
}

#[test]
fn bad_frame_gets_error_and_stays_active() {
    let (s, a) = step(ConnState::Active, PumpEvent::Text("{\"type\":\"bogus_type\"}".to_string()));
    assert_eq!(s, ConnState::Active);
    match a {
        PumpAction::Write(f) => {
            let v: serde_json::Value = serde_json::from_str(&f).unwrap();
            assert_eq!(v["type"], "error");
            assert_eq!(v["code"], "PARSE_ERROR");
        }
        _ => panic!("expected an error frame"),
    }
}

#[test]
fn outbound_is_written() {
    let (s, a) = step(ConnState::Active, PumpEvent::Outbound(ServerMessage::Pong));
    assert_eq!(s, ConnState::Active);
    assert!(matches!(a, PumpAction::Write(f) if f == "{\"type\":\"pong\"}"));
    let (s, a) = step(ConnState::Active, PumpEvent::OtherFrame);
    assert_eq!(s, ConnState::Active);
    assert!(matches!(a, PumpAction::Nothing));
}

#[test]
fn teardown_runs_once() {
    let (s, a) = step(ConnState::Active, PumpEvent::PeerGone);
    assert_eq!(s, ConnState::Closing);
    assert!(matches!(a, PumpAction::Disconnect));
    let (s, a) = step(s, PumpEvent::WriteFailed);
    assert_eq!(s, ConnState::Closing);
    assert!(matches!(a, PumpAction::Nothing));
    let (s, a) = step(s, PumpEvent::Deregistered);
    assert_eq!(s, ConnState::Closed);
    assert!(matches!(a, PumpAction::Nothing));
    let (s, a) = step(s, PumpEvent::OutboundClosed);
    assert_eq!(s, ConnState::Closed);
    assert!(matches!(a, PumpAction::Nothing));
}

#[test]
fn closed_queue_or_failed_write_ends_active() {
    assert!(matches!(step(ConnState::Active, PumpEvent::OutboundClosed), (ConnState::Closing, PumpAction::Disconnect)));
    assert!(matches!(step(ConnState::Active, PumpEvent::WriteFailed), (ConnState::Closing, PumpAction::Disconnect)));
}
