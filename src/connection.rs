//! The decisions of a connection's pump. The pump waits at once for the next
//! inbound frame and the next outbound notification, and hands whichever
//! comes first to `step`; it then performs the action that `step` returns.
//!
//! A connection is `Active` until its peer closes it, its socket fails, a
//! write fails or its outbound queue closes. It is then `Closing`: the pump
//! deregisters it from the hub, once, and reports `Deregistered`, after which
//! it is `Closed`.

use vstd::prelude::*;
use crate::json::json_text;
use crate::protocol::{
    client_from_text, decoded_as, parse_error_view, server_json, ClientMessage, ServerMessage,
};

verus! {

#[derive(PartialEq, Eq, Structural, Clone, Copy, Debug)]
pub enum ConnState {
    Active,
    Closing,
    Closed,
}

/// What the pump saw.
pub enum PumpEvent {
    /// An inbound text frame.
    Text(String),
    /// An inbound frame of another kind (binary, ping, pong).
    OtherFrame,
    /// The peer closed the connection, the inbound stream ended, or reading failed.
    PeerGone,
    /// A notification came out of the outbound queue.
    Outbound(ServerMessage),
    /// The outbound queue closed: nothing more will come out of it.
    OutboundClosed,
    /// Writing a frame failed.
    WriteFailed,
    /// The connection has been removed from the hub.
    Deregistered,
}

/// What the pump must do.
pub enum PumpAction {
    /// Hand the command to the message handler.
    Dispatch(ClientMessage),
    /// Write this text frame to the socket.
    Write(String),
    /// Remove the connection from the hub: from the registry and from every
    /// room.
    Disconnect,
    Nothing,
}

/// Whether the event ends the active life of a connection.
pub open spec fn is_terminal(e: PumpEvent) -> bool {
    e is PeerGone || e is OutboundClosed || e is WriteFailed
}

/// The state after an event.
pub open spec fn next_state(s: ConnState, e: PumpEvent) -> ConnState {
    match s {
        ConnState::Active => if is_terminal(e) {
            ConnState::Closing
        } else {
            ConnState::Active
        },
        ConnState::Closing => if e is Deregistered {
            ConnState::Closed
        } else {
            ConnState::Closing
        },
        ConnState::Closed => ConnState::Closed,
    }
}

/// Whether the event makes the pump deregister the connection.
pub open spec fn fires_disconnect(s: ConnState, e: PumpEvent) -> bool {
    s == ConnState::Active && is_terminal(e)
}

/// The state after a run of events.
pub open spec fn state_after(s: ConnState, evs: Seq<PumpEvent>) -> ConnState
    decreases evs.len(),
{
    if evs.len() == 0 {
        s
    } else {
        next_state(state_after(s, evs.drop_last()), evs.last())
    }
}

/// How many times a run of events makes the pump deregister the connection.
pub open spec fn disconnects_in(s: ConnState, evs: Seq<PumpEvent>) -> nat
    decreases evs.len(),
{
    if evs.len() == 0 {
        0
    } else {
        disconnects_in(s, evs.drop_last()) + if fires_disconnect(state_after(s, evs.drop_last()), evs.last()) {
            1nat
        } else {
            0nat
        }
    }
}

/// The pump's decision on one event.
pub fn step(s: ConnState, e: PumpEvent) -> (r: (ConnState, PumpAction))
    ensures
        r.0 == next_state(s, e),
        r.1 is Disconnect <==> fires_disconnect(s, e),
        s == ConnState::Active ==> match e {
            PumpEvent::Text(t) => match r.1 {
                PumpAction::Dispatch(c) => decoded_as(Ok(c), client_from_text(t@)),
                PumpAction::Write(f) => client_from_text(t@) matches Err(pe) && f@ == json_text(
                    server_json(parse_error_view(pe)),
                ),
                _ => false,
            },
            PumpEvent::Outbound(m) => r.1 matches PumpAction::Write(f) && f@ == json_text(server_json(m@)),
            PumpEvent::OtherFrame => r.1 is Nothing,
            _ => true,
        },
        s != ConnState::Active ==> r.1 is Nothing,
{
    match s {
        ConnState::Active => match e {
            PumpEvent::Text(t) => match ClientMessage::decode(t.as_str()) {
                Ok(c) => (ConnState::Active, PumpAction::Dispatch(c)),
                Err(pe) => (ConnState::Active, PumpAction::Write(ServerMessage::parse_error(pe).encode())),
            },
            PumpEvent::Outbound(m) => (ConnState::Active, PumpAction::Write(m.encode())),
            PumpEvent::OtherFrame => (ConnState::Active, PumpAction::Nothing),
            PumpEvent::Deregistered => (ConnState::Active, PumpAction::Nothing),
            _ => (ConnState::Closing, PumpAction::Disconnect),
        },
        ConnState::Closing => match e {
            PumpEvent::Deregistered => (ConnState::Closed, PumpAction::Nothing),
            _ => (ConnState::Closing, PumpAction::Nothing),
        },
        ConnState::Closed => (ConnState::Closed, PumpAction::Nothing),
    }
}

/// Whatever happens, a connection is deregistered at most once; it is
/// deregistered exactly when its run has left `Active`.
pub proof fn lemma_disconnect_once(evs: Seq<PumpEvent>)
    ensures
        disconnects_in(ConnState::Active, evs) <= 1,
        disconnects_in(ConnState::Active, evs) == 1 <==> state_after(ConnState::Active, evs) != ConnState::Active,
    decreases evs.len(),
{
    if evs.len() > 0 {
        lemma_disconnect_once(evs.drop_last());
    }
}

} // verus!
