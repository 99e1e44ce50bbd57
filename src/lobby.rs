//! The line-based lobby that the server binary runs over plain TCP: every
//! line a client sends goes to every other client, and arrivals and
//! departures are announced the same way.

use vstd::prelude::*;
use crate::text::same_text;

verus! {

/// One client of the lobby: its address and the handle of its queue.
pub struct LobbyClient<T> {
    pub addr: String,
    pub tx: T,
}

/// The clients of the lobby, at most one per address.
pub struct Lobby<T> {
    clients: Vec<LobbyClient<T>>,
}

/// The line greeting a new client.
pub open spec fn welcome_text(addr: Seq<char>) -> Seq<char> {
    "Welcome to the chat, "@ + addr + "!\n"@
}

/// The line announcing a new client to the others.
pub open spec fn joined_text(addr: Seq<char>) -> Seq<char> {
    addr + " has joined the chat\n"@
}

/// The line relaying what a client said.
pub open spec fn said_text(addr: Seq<char>, line: Seq<char>) -> Seq<char> {
    addr + " : "@ + line
}

/// The line announcing that a client left.
pub open spec fn left_text(addr: Seq<char>) -> Seq<char> {
    addr + " has left the chat\n"@
}

pub fn welcome_line(addr: &str) -> (r: String)
    ensures
        r@ == welcome_text(addr@),
{
    String::from_str("Welcome to the chat, ").concat(addr).concat("!\n")
}

pub fn joined_line(addr: &str) -> (r: String)
    ensures
        r@ == joined_text(addr@),
{
    addr.to_string().concat(" has joined the chat\n")
}

pub fn said_line(addr: &str, line: &str) -> (r: String)
    ensures
        r@ == said_text(addr@, line@),
{
    addr.to_string().concat(" : ").concat(line)
}

pub fn left_line(addr: &str) -> (r: String)
    ensures
        r@ == left_text(addr@),
{
    addr.to_string().concat(" has left the chat\n")
}

/// The positions of the clients other than `sender`, in order.
pub open spec fn others(addrs: Seq<Seq<char>>, sender: Seq<char>) -> Seq<int>
    decreases addrs.len(),
{
    if addrs.len() == 0 {
        Seq::empty()
    } else {
        let rest = others(addrs.drop_last(), sender);
        if addrs.last() != sender {
            rest.push(addrs.len() - 1)
        } else {
            rest
        }
    }
}

/// The addresses without `addr`.
pub open spec fn without_addr(addrs: Seq<Seq<char>>, addr: Seq<char>) -> Seq<Seq<char>>
    decreases addrs.len(),
{
    if addrs.len() == 0 {
        Seq::empty()
    } else {
        let rest = without_addr(addrs.drop_last(), addr);
        if addrs.last() != addr {
            rest.push(addrs.last())
        } else {
            rest
        }
    }
}

pub open spec fn addrs_of<T>(cs: Seq<LobbyClient<T>>) -> Seq<Seq<char>> {
    cs.map_values(|c: LobbyClient<T>| c.addr@)
}

impl<T> Lobby<T> {
    /// The addresses of the clients, in order of arrival.
    pub closed spec fn addrs(&self) -> Seq<Seq<char>> {
        addrs_of(self.clients@)
    }

    pub fn new() -> (r: Self)
        ensures
            r.addrs().len() == 0,
    {
        Lobby { clients: Vec::new() }
    }

    /// The number of clients.
    pub fn len(&self) -> (r: usize)
        ensures
            r == self.addrs().len(),
    {
        self.clients.len()
    }

    /// The queue handle of the client at position `i`.
    pub fn handle(&self, i: usize) -> (r: &T)
        requires
            i < self.addrs().len(),
    {
        &self.clients[i].tx
    }

    /// Adds a client, after removing any earlier one with the same address.
    pub fn join(&mut self, addr: String, tx: T)
        ensures
            final(self).addrs() == without_addr(old(self).addrs(), addr@).push(addr@),
    {
        self.leave(addr.as_str());
        let ghost mid = self.clients@;
        self.clients.push(LobbyClient { addr, tx });
        assert(addrs_of(self.clients@) =~= addrs_of(mid).push(addr@));
    }

    /// Removes the client with that address, if there is one.
    pub fn leave(&mut self, addr: &str)
        ensures
            final(self).addrs() == without_addr(old(self).addrs(), addr@),
    {
        let ghost orig = self.clients@;
        let mut rest: Vec<LobbyClient<T>> = Vec::new();
        std::mem::swap(&mut rest, &mut self.clients);
        let mut kept: Vec<LobbyClient<T>> = Vec::new();
        let ghost mut k: int = 0;
        assert(addrs_of(orig).take(0) =~= Seq::<Seq<char>>::empty());
        assert(rest@ =~= orig.subrange(0, orig.len() as int));
        while rest.len() > 0
            invariant
                0 <= k <= orig.len(),
                rest@ == orig.subrange(k, orig.len() as int),
                addrs_of(kept@) == without_addr(addrs_of(orig).take(k), addr@),
            decreases rest.len(),
        {
            let c = rest.remove(0);
            assert(addrs_of(orig).take(k + 1).drop_last() =~= addrs_of(orig).take(k));
            assert(c == orig[k]);
            if !same_text(c.addr.as_str(), addr) {
                let ghost before = kept@;
                kept.push(c);
                assert(addrs_of(kept@) =~= addrs_of(before).push(orig[k].addr@));
            }
            proof {
                k = k + 1;
            }
            assert(rest@ =~= orig.subrange(k, orig.len() as int));
        }
        assert(addrs_of(orig).take(orig.len() as int) =~= addrs_of(orig));
        self.clients = kept;
    }

    /// The positions of the clients that a line from `sender` goes to: every
    /// client but the sender.
    pub fn others_than(&self, sender: &str) -> (r: Vec<usize>)
        ensures
            r@.map_values(|i: usize| i as int) == others(self.addrs(), sender@),
            forall|k: int| 0 <= k < r@.len() ==> r@[k] < self.addrs().len(),
    {
        let ghost addrs = self.addrs();
        let mut out: Vec<usize> = Vec::new();
        let mut i: usize = 0;
        while i < self.clients.len()
            invariant
                addrs == addrs_of(self.clients@),
                i <= self.clients@.len(),
                out@.map_values(|j: usize| j as int) == others(addrs.take(i as int), sender@),
                forall|k: int| 0 <= k < out@.len() ==> out@[k] < i,
            decreases self.clients@.len() - i,
        {
            assert(addrs.take(i + 1).drop_last() =~= addrs.take(i as int));
            let ghost before = out@;
            if !same_text(self.clients[i].addr.as_str(), sender) {
                out.push(i);
                assert(out@.map_values(|j: usize| j as int) =~= before.map_values(|j: usize| j as int).push(
                    i as int,
                ));
            }
            i += 1;
        }
        assert(addrs.take(self.clients@.len() as int) =~= addrs);
        out
    }
}

} // verus!
