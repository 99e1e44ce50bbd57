//! The hub: the registry of live connections and of who is present in which
//! room, and the fan-out of notifications to them.
//!
//! The hub decides; it does not write to queues itself. Each operation that
//! notifies returns its deliveries, in order, and whoever owns the outbound
//! queues makes them without blocking, dropping one whose queue is full or
//! closed. The owner also holds the hub behind one lock, so that every
//! operation is a single critical section.

use std::collections::HashMap;
use vstd::prelude::*;
use crate::protocol::{ServerMessage, ServerMessageView, WsUser, WsUserView};

verus! {

broadcast use vstd::std_specs::hash::group_hash_axioms;

/// How many notifications may wait in one connection's outbound queue.
pub const OUTBOUND_CAPACITY: usize = 64;

/// One live connection: who it serves and the handle of its outbound queue.
pub struct Connection<T> {
    pub user_id: u128,
    pub username: String,
    pub tx: T,
}

/// One notification for one user.
pub struct Delivery {
    pub to: u128,
    pub msg: ServerMessage,
}

/// The users that a notification to `room` reaches, in order of joining:
/// those present there, but `skip`.
pub open spec fn recipients(ps: Seq<(u128, u128)>, room: u128, skip: Option<u128>) -> Seq<u128>
    decreases ps.len(),
{
    if ps.len() == 0 {
        Seq::empty()
    } else {
        let rest = recipients(ps.drop_last(), room, skip);
        let p = ps.last();
        if p.0 == room && skip != Some(p.1) {
            rest.push(p.1)
        } else {
            rest
        }
    }
}

/// The users present in `room`, in order of joining.
pub open spec fn room_members(ps: Seq<(u128, u128)>, room: u128) -> Seq<u128> {
    recipients(ps, room, None)
}

/// The presence pairs without those of `user`: in `room` only, or in every
/// room when `room` is `None`.
pub open spec fn drop_presence(ps: Seq<(u128, u128)>, room: Option<u128>, user: u128) -> Seq<(u128, u128)>
    decreases ps.len(),
{
    if ps.len() == 0 {
        Seq::empty()
    } else {
        let rest = drop_presence(ps.drop_last(), room, user);
        let p = ps.last();
        if p.1 == user && (room is None || room == Some(p.0)) {
            rest
        } else {
            rest.push(p)
        }
    }
}

/// The presence pairs after `user` joins `room`.
pub open spec fn joined(ps: Seq<(u128, u128)>, room: u128, user: u128) -> Seq<(u128, u128)> {
    if ps.contains((room, user)) {
        ps
    } else {
        ps.push((room, user))
    }
}

/// The deliveries carry `msg` to each of `who`, in that order.
pub open spec fn sent_to(ds: Seq<Delivery>, who: Seq<u128>, msg: ServerMessageView) -> bool {
    &&& ds.len() == who.len()
    &&& forall|i: int| 0 <= i < ds.len() ==> (#[trigger] ds[i]).to == who[i] && ds[i].msg@ == msg
}

/// The notice that a user joined a room.
pub open spec fn joined_notice(room: u128, user: WsUserView) -> ServerMessageView {
    ServerMessageView::UserJoined { room_id: room, user }
}

/// The notice that a user left a room.
pub open spec fn left_notice(room: u128, user: u128) -> ServerMessageView {
    ServerMessageView::UserLeft { room_id: room, user_id: user }
}

pub proof fn lemma_recipients_contains(ps: Seq<(u128, u128)>, room: u128, skip: Option<u128>, u: u128)
    ensures
        recipients(ps, room, skip).contains(u) <==> (ps.contains((room, u)) && skip != Some(u)),
    decreases ps.len(),
{
    if ps.len() > 0 {
        let init = ps.drop_last();
        lemma_recipients_contains(init, room, skip, u);
        let rest = recipients(init, room, skip);
        let p = ps.last();
        assert(ps =~= init.push(p));
        if ps.contains((room, u)) {
            let i = choose|i: int| 0 <= i < ps.len() && ps[i] == (room, u);
            if i < ps.len() - 1 {
                assert(init[i] == (room, u));
            }
        }
        if init.contains((room, u)) {
            let j = choose|j: int| 0 <= j < init.len() && init[j] == (room, u);
            assert(ps[j] == (room, u));
        }
        if p.0 == room && skip != Some(p.1) {
            assert(rest.push(p.1)[rest.len() as int] == p.1);
            if rest.push(p.1).contains(u) {
                let j = choose|j: int| 0 <= j < rest.push(p.1).len() && rest.push(p.1)[j] == u;
                if j < rest.len() {
                    assert(rest[j] == u);
                }
            }
            if rest.contains(u) {
                let j = choose|j: int| 0 <= j < rest.len() && rest[j] == u;
                assert(rest.push(p.1)[j] == u);
            }
        }
    }
}

pub proof fn lemma_drop_presence_contains(ps: Seq<(u128, u128)>, room: Option<u128>, user: u128, x: (u128, u128))
    ensures
        drop_presence(ps, room, user).contains(x) <==> (ps.contains(x) && !(x.1 == user && (room is None
            || room == Some(x.0)))),
    decreases ps.len(),
{
    if ps.len() > 0 {
        lemma_drop_presence_contains(ps.drop_last(), room, user, x);
        let rest = drop_presence(ps.drop_last(), room, user);
        let p = ps.last();
        assert(ps =~= ps.drop_last().push(p));
        if ps.contains(x) {
            let i = choose|i: int| 0 <= i < ps.len() && ps[i] == x;
            if i < ps.len() - 1 {
                assert(ps.drop_last()[i] == x);
            }
        }
        if ps.drop_last().contains(x) {
            let j = choose|j: int| 0 <= j < ps.drop_last().len() && ps.drop_last()[j] == x;
            assert(ps[j] == x);
        }
        if !(p.1 == user && (room is None || room == Some(p.0))) {
            assert(rest.push(p)[rest.len() as int] == p);
            if rest.push(p).contains(x) {
                let j = choose|j: int| 0 <= j < rest.push(p).len() && rest.push(p)[j] == x;
                if j < rest.len() {
                    assert(rest[j] == x);
                }
            }
            if rest.contains(x) {
                let j = choose|j: int| 0 <= j < rest.len() && rest[j] == x;
                assert(rest.push(p)[j] == x);
            }
        }
    }
}

pub proof fn lemma_drop_presence_unique(ps: Seq<(u128, u128)>, room: Option<u128>, user: u128)
    requires
        ps.no_duplicates(),
    ensures
        drop_presence(ps, room, user).no_duplicates(),
    decreases ps.len(),
{
    if ps.len() > 0 {
        let init = ps.drop_last();
        let p = ps.last();
        assert(init.no_duplicates()) by {
            assert forall|i: int, j: int| 0 <= i < init.len() && 0 <= j < init.len() && i != j implies init[i]
                != init[j] by {
                assert(init[i] == ps[i] && init[j] == ps[j]);
            }
        }
        lemma_drop_presence_unique(init, room, user);
        let rest = drop_presence(init, room, user);
        if !(p.1 == user && (room is None || room == Some(p.0))) {
            lemma_drop_presence_contains(init, room, user, p);
            assert(!init.contains(p)) by {
                if init.contains(p) {
                    let i = choose|i: int| 0 <= i < init.len() && init[i] == p;
                    assert(ps[i] == ps[ps.len() - 1]);
                }
            }
            assert(rest.push(p).no_duplicates()) by {
                assert forall|i: int, j: int|
                    0 <= i < rest.push(p).len() && 0 <= j < rest.push(p).len() && i != j implies rest.push(p)[i]
                    != rest.push(p)[j] by {
                    if i == rest.len() {
                        assert(rest.contains(rest[j]));
                    } else if j == rest.len() {
                        assert(rest.contains(rest[i]));
                    }
                }
            }
        }
    }
}

/// Once two different users have joined a room, one after the other, the
/// snapshot of who is present that the second one gets holds both of them,
/// and the first one is among those told that the second one joined.
pub proof fn lemma_join_then_join(ps: Seq<(u128, u128)>, room: u128, a: u128, b: u128)
    requires
        a != b,
    ensures
        room_members(joined(joined(ps, room, a), room, b), room).contains(a),
        room_members(joined(joined(ps, room, a), room, b), room).contains(b),
        recipients(joined(joined(ps, room, a), room, b), room, Some(b)).contains(a),
{
    let first = joined(ps, room, a);
    let after = joined(first, room, b);
    assert(first.contains((room, a))) by {
        if !ps.contains((room, a)) {
            assert(first[ps.len() as int] == (room, a));
        }
    }
    assert(after.contains((room, a))) by {
        if !first.contains((room, b)) {
            let i = choose|i: int| 0 <= i < first.len() && first[i] == (room, a);
            assert(after[i] == (room, a));
        }
    }
    assert(after.contains((room, b))) by {
        if !first.contains((room, b)) {
            assert(after[first.len() as int] == (room, b));
        }
    }
    lemma_recipients_contains(after, room, None, a);
    lemma_recipients_contains(after, room, None, b);
    lemma_recipients_contains(after, room, Some(b), a);
}

/// Once a user has left a room, no later notification to that room reaches
/// it, whoever is skipped.
pub proof fn lemma_left_not_reached(ps: Seq<(u128, u128)>, room: u128, user: u128, skip: Option<u128>)
    ensures
        !recipients(drop_presence(ps, Some(room), user), room, skip).contains(user),
{
    lemma_recipients_contains(drop_presence(ps, Some(room), user), room, skip, user);
    lemma_drop_presence_contains(ps, Some(room), user, (room, user));
}

proof fn lemma_drop_presence_twice(ps: Seq<(u128, u128)>, room: Option<u128>, user: u128)
    ensures
        drop_presence(drop_presence(ps, room, user), room, user) == drop_presence(ps, room, user),
    decreases ps.len(),
{
    if ps.len() > 0 {
        let init = ps.drop_last();
        let p = ps.last();
        lemma_drop_presence_twice(init, room, user);
        let rest = drop_presence(init, room, user);
        if !(p.1 == user && (room is None || room == Some(p.0))) {
            assert(rest.push(p).drop_last() =~= rest);
        }
    }
}

/// Disconnecting a user a second time changes nothing, and afterwards the
/// user is present in no room.
pub proof fn lemma_disconnect_idempotent<T>(conns: Map<u128, Connection<T>>, ps: Seq<(u128, u128)>, user: u128)
    ensures
        conns.remove(user).remove(user) == conns.remove(user),
        drop_presence(drop_presence(ps, None, user), None, user) == drop_presence(ps, None, user),
        forall|room: u128| !(#[trigger] room_members(drop_presence(ps, None, user), room)).contains(user),
{
    assert(conns.remove(user).remove(user) =~= conns.remove(user));
    lemma_drop_presence_twice(ps, None, user);
    assert forall|room: u128| !(#[trigger] room_members(drop_presence(ps, None, user), room)).contains(user) by {
        lemma_recipients_contains(drop_presence(ps, None, user), room, None, user);
        lemma_drop_presence_contains(ps, None, user, (room, user));
    }
}

/// The presence pairs without those of `user`: in `room` only, or in every
/// room when `room` is `None`.
fn kept_presence(ps: &Vec<(u128, u128)>, room: Option<u128>, user: u128) -> (r: Vec<(u128, u128)>)
    ensures
        r@ == drop_presence(ps@, room, user),
{
    let mut kept: Vec<(u128, u128)> = Vec::new();
    let mut i: usize = 0;
    while i < ps.len()
        invariant
            i <= ps@.len(),
            kept@ == drop_presence(ps@.take(i as int), room, user),
        decreases ps@.len() - i,
    {
        let p = ps[i];
        assert(ps@.take(i + 1).drop_last() =~= ps@.take(i as int));
        let in_room = match room {
            Some(x) => x == p.0,
            None => true,
        };
        if !(p.1 == user && in_room) {
            kept.push(p);
        }
        i += 1;
    }
    assert(ps@.take(ps@.len() as int) =~= ps@);
    kept
}

/// The users that a notification reaches are distinct when the presence
/// pairs are.
pub proof fn lemma_recipients_unique(ps: Seq<(u128, u128)>, room: u128, skip: Option<u128>)
    requires
        ps.no_duplicates(),
    ensures
        recipients(ps, room, skip).no_duplicates(),
    decreases ps.len(),
{
    if ps.len() > 0 {
        let init = ps.drop_last();
        let p = ps.last();
        assert(init.no_duplicates()) by {
            assert forall|i: int, j: int| 0 <= i < init.len() && 0 <= j < init.len() && i != j implies init[i]
                != init[j] by {
                assert(init[i] == ps[i] && init[j] == ps[j]);
            }
        }
        lemma_recipients_unique(init, room, skip);
        let rest = recipients(init, room, skip);
        if p.0 == room && skip != Some(p.1) {
            lemma_recipients_contains(init, room, skip, p.1);
            assert(!init.contains((room, p.1))) by {
                if init.contains((room, p.1)) {
                    let i = choose|i: int| 0 <= i < init.len() && init[i] == (room, p.1);
                    assert(ps[i] == ps[ps.len() - 1]);
                }
            }
            assert(rest.push(p.1).no_duplicates()) by {
                assert forall|i: int, j: int|
                    0 <= i < rest.push(p.1).len() && 0 <= j < rest.push(p.1).len() && i != j implies rest.push(
                    p.1,
                )[i] != rest.push(p.1)[j] by {
                    if i == rest.len() {
                        assert(rest.contains(rest[j]));
                    } else if j == rest.len() {
                        assert(rest.contains(rest[i]));
                    }
                }
            }
        }
    }
}

fn fan_out(ps: &Vec<(u128, u128)>, room: u128, msg: &ServerMessage, skip: Option<u128>) -> (r: Vec<Delivery>)
    ensures
        sent_to(r@, recipients(ps@, room, skip), msg@),
{
    let mut out: Vec<Delivery> = Vec::new();
    let mut i: usize = 0;
    while i < ps.len()
        invariant
            i <= ps@.len(),
            sent_to(out@, recipients(ps@.take(i as int), room, skip), msg@),
        decreases ps@.len() - i,
    {
        let p = ps[i];
        assert(ps@.take(i + 1).drop_last() =~= ps@.take(i as int));
        let skipped = match skip {
            Some(s) => s == p.1,
            None => false,
        };
        if p.0 == room && !skipped {
            out.push(Delivery { to: p.1, msg: msg.clone() });
        }
        i += 1;
    }
    assert(ps@.take(ps@.len() as int) =~= ps@);
    out
}

fn members_of(ps: &Vec<(u128, u128)>, room: u128) -> (r: Vec<u128>)
    ensures
        r@ == room_members(ps@, room),
{
    let mut out: Vec<u128> = Vec::new();
    let mut i: usize = 0;
    while i < ps.len()
        invariant
            i <= ps@.len(),
            out@ == room_members(ps@.take(i as int), room),
        decreases ps@.len() - i,
    {
        let p = ps[i];
        assert(ps@.take(i + 1).drop_last() =~= ps@.take(i as int));
        if p.0 == room {
            out.push(p.1);
        }
        i += 1;
    }
    assert(ps@.take(ps@.len() as int) =~= ps@);
    out
}

fn holds_pair(ps: &Vec<(u128, u128)>, pair: (u128, u128)) -> (r: bool)
    ensures
        r == ps@.contains(pair),
{
    let mut i: usize = 0;
    while i < ps.len()
        invariant
            i <= ps@.len(),
            forall|j: int| 0 <= j < i ==> ps@[j] != pair,
        decreases ps@.len() - i,
    {
        let p = ps[i];
        if p.0 == pair.0 && p.1 == pair.1 {
            assert(ps@[i as int] == pair);
            return true;
        }
        i += 1;
    }
    false
}

pub struct Hub<T> {
    connections: HashMap<u128, Connection<T>>,
    /// (room, user) pairs, in order of joining.
    presence: Vec<(u128, u128)>,
}

impl<T> Hub<T> {
    /// The live connections, by user.
    pub closed spec fn conns(&self) -> Map<u128, Connection<T>> {
        self.connections@
    }

    /// Who is present where: (room, user) pairs in order of joining.
    pub closed spec fn pairs(&self) -> Seq<(u128, u128)> {
        self.presence@
    }

    /// No pair is held twice, and a user is present somewhere only while it
    /// has a live connection.
    pub closed spec fn wf(&self) -> bool {
        &&& self.presence@.no_duplicates()
        &&& forall|i: int| 0 <= i < self.presence@.len() ==> self.connections@.contains_key(
            #[trigger] self.presence@[i].1,
        )
    }

    /// What well-formedness tells a caller: no pair twice, and every user
    /// present somewhere has a live connection.
    pub proof fn lemma_wf(&self)
        requires
            self.wf(),
        ensures
            self.pairs().no_duplicates(),
            forall|i: int| 0 <= i < self.pairs().len() ==> self.conns().contains_key(#[trigger] self.pairs()[i].1),
    {
    }

    pub fn new() -> (r: Self)
        ensures
            r.wf(),
            r.conns() == Map::<u128, Connection<T>>::empty(),
            r.pairs() == Seq::<(u128, u128)>::empty(),
    {
        Hub { connections: HashMap::new(), presence: Vec::new() }
    }

    /// Records the connection of `user_id`, replacing any earlier one of the
    /// same user; where that user is present stays as it was.
    pub fn register(&mut self, user_id: u128, username: String, tx: T)
        requires
            old(self).wf(),
        ensures
            final(self).wf(),
            final(self).conns() == old(self).conns().insert(
                user_id,
                Connection { user_id, username, tx },
            ),
            final(self).pairs() == old(self).pairs(),
    {
        let conn = Connection { user_id, username, tx };
        self.connections.insert(user_id, conn);
    }

    /// Whether `user_id` has a live connection.
    pub fn is_connected(&self, user_id: u128) -> (r: bool)
        ensures
            r == self.conns().contains_key(user_id),
    {
        self.connections.contains_key(&user_id)
    }

    /// The outbound handle of `user_id`'s connection, if it has one.
    pub fn outbox(&self, user_id: u128) -> (r: Option<&T>)
        ensures
            match r {
                Some(tx) => self.conns().contains_key(user_id) && *tx == self.conns()[user_id].tx,
                None => !self.conns().contains_key(user_id),
            },
    {
        match self.connections.get(&user_id) {
            Some(c) => Some(&c.tx),
            None => None,
        }
    }

    /// Removes the connection of `user_id` and its presence in every room.
    /// Doing it again changes nothing.
    pub fn disconnect(&mut self, user_id: u128)
        requires
            old(self).wf(),
        ensures
            final(self).wf(),
            final(self).conns() == old(self).conns().remove(user_id),
            final(self).pairs() == drop_presence(old(self).pairs(), None, user_id),
    {
        let ghost before = self.presence@;
        let kept = kept_presence(&self.presence, None, user_id);
        self.connections.remove(&user_id);
        self.presence = kept;
        proof {
            lemma_drop_presence_unique(before, None, user_id);
            assert forall|i: int| 0 <= i < self.presence@.len() implies self.connections@.contains_key(
                #[trigger] self.presence@[i].1,
            ) by {
                let x = self.presence@[i];
                assert(self.presence@.contains(x));
                lemma_drop_presence_contains(before, None, user_id, x);
                let j = choose|j: int| 0 <= j < before.len() && before[j] == x;
            }
        }
    }
    /// Makes `user_id` present in `room_id`. Every other user present there
    /// is told of it, and then the joiner is sent who is present, itself
    /// included. A user without a live connection cannot join: nothing
    /// changes and nothing is sent.
    pub fn join_room(&mut self, room_id: u128, user_id: u128, username: &str, display_name: Option<&str>) -> (r:
        Vec<Delivery>)
        requires
            old(self).wf(),
        ensures
            final(self).wf(),
            final(self).conns() == old(self).conns(),
            old(self).conns().contains_key(user_id) ==> {
                let ps = joined(old(self).pairs(), room_id, user_id);
                let who = recipients(ps, room_id, Some(user_id));
                let user = WsUserView {
                    id: user_id,
                    username: username@,
                    display_name: match display_name {
                        Some(d) => Some(d@),
                        None => None,
                    },
                };
                &&& final(self).pairs() == ps
                &&& r@.len() == who.len() + 1
                &&& sent_to(r@.take(who.len() as int), who, joined_notice(room_id, user))
                &&& r@.last().to == user_id
                &&& r@.last().msg@ == ServerMessageView::OnlineUsers {
                    room_id,
                    user_ids: room_members(ps, room_id),
                }
                &&& room_members(ps, room_id).no_duplicates()
            },
            !old(self).conns().contains_key(user_id) ==> final(self).pairs() == old(self).pairs() && r@.len()
                == 0,
    {
        if !self.connections.contains_key(&user_id) {
            return Vec::new();
        }
        if !holds_pair(&self.presence, (room_id, user_id)) {
            self.presence.push((room_id, user_id));
            proof {
                let ps = self.presence@;
                let old_ps = old(self).presence@;
                assert(ps.no_duplicates()) by {
                    assert forall|i: int, j: int| 0 <= i < ps.len() && 0 <= j < ps.len() && i != j implies ps[i]
                        != ps[j] by {
                        if i == old_ps.len() {
                            assert(old_ps.contains(ps[j]));
                        } else if j == old_ps.len() {
                            assert(old_ps.contains(ps[i]));
                        }
                    }
                }
                assert forall|i: int| 0 <= i < ps.len() implies self.connections@.contains_key(
                    #[trigger] ps[i].1,
                ) by {
                    if i < old_ps.len() {
                        assert(old_ps[i] == ps[i]);
                    }
                }
            }
        }
        let user = WsUser {
            id: user_id,
            username: username.to_string(),
            display_name: match display_name {
                Some(d) => Some(d.to_string()),
                None => None,
            },
        };
        let notice = ServerMessage::UserJoined { room_id, user };
        let mut out = fan_out(&self.presence, room_id, &notice, Some(user_id));
        let ghost sent = out@;
        let online = members_of(&self.presence, room_id);
        out.push(Delivery { to: user_id, msg: ServerMessage::OnlineUsers { room_id, user_ids: online } });
        assert(out@.take(sent.len() as int) =~= sent);
        proof {
            lemma_recipients_unique(self.presence@, room_id, None);
        }
        out
    }

    /// Ends the presence of `user_id` in `room_id` and tells the users that
    /// remain there. Nothing happens when the user was not present.
    pub fn leave_room(&mut self, room_id: u128, user_id: u128) -> (r: Vec<Delivery>)
        requires
            old(self).wf(),
        ensures
            final(self).wf(),
            final(self).conns() == old(self).conns(),
            old(self).pairs().contains((room_id, user_id)) ==> {
                let ps = drop_presence(old(self).pairs(), Some(room_id), user_id);
                &&& final(self).pairs() == ps
                &&& sent_to(r@, recipients(ps, room_id, None), left_notice(room_id, user_id))
            },
            !old(self).pairs().contains((room_id, user_id)) ==> final(self).pairs() == old(self).pairs()
                && r@.len() == 0,
    {
        if !holds_pair(&self.presence, (room_id, user_id)) {
            return Vec::new();
        }
        let ghost before = self.presence@;
        let kept = kept_presence(&self.presence, Some(room_id), user_id);
        self.presence = kept;
        proof {
            lemma_drop_presence_unique(before, Some(room_id), user_id);
            assert forall|i: int| 0 <= i < self.presence@.len() implies self.connections@.contains_key(
                #[trigger] self.presence@[i].1,
            ) by {
                let x = self.presence@[i];
                assert(self.presence@.contains(x));
                lemma_drop_presence_contains(before, Some(room_id), user_id, x);
                let j = choose|j: int| 0 <= j < before.len() && before[j] == x;
            }
        }
        let notice = ServerMessage::UserLeft { room_id, user_id };
        fan_out(&self.presence, room_id, &notice, None)
    }

    /// `msg` for every user present in `room_id` but `skip_user`.
    pub fn broadcast_to_room(&self, room_id: u128, msg: &ServerMessage, skip_user: Option<u128>) -> (r: Vec<
        Delivery,
    >)
        ensures
            sent_to(r@, recipients(self.pairs(), room_id, skip_user), msg@),
    {
        fan_out(&self.presence, room_id, msg, skip_user)
    }

    /// `msg` for `user_id`, if it has a live connection.
    pub fn send_to_user(&self, user_id: u128, msg: &ServerMessage) -> (r: Option<Delivery>)
        ensures
            match r {
                Some(d) => self.conns().contains_key(user_id) && d.to == user_id && d.msg@ == msg@,
                None => !self.conns().contains_key(user_id),
            },
    {
        if self.connections.contains_key(&user_id) {
            Some(Delivery { to: user_id, msg: msg.clone() })
        } else {
            None
        }
    }
}

} // verus!
