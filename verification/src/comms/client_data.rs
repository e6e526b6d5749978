//! A client as the messages carry it, and the counter its ids come from.
use vstd::prelude::*;

verus! {

/// The id that follows `id`: one more, wrapping to zero after the largest.
pub open spec fn next_after(id: u64) -> u64 {
    if id == u64::MAX {
        0
    } else {
        (id + 1) as u64
    }
}

/// The counter's value after `k` ids were taken from `start`: the
/// `k`-th id handed out, counting from zero.
pub open spec fn id_after(start: u64, k: nat) -> u64
    decreases k,
{
    if k == 0 {
        start
    } else {
        next_after(id_after(start, (k - 1) as nat))
    }
}

/// Ids taken one after another from a counter increase, each by one, as
/// long as the counter stays below `u64::MAX`: an id is never handed out
/// twice before it wraps.
pub proof fn lemma_ids_increase(start: u64, i: nat, j: nat)
    requires
        i < j,
        start + j <= u64::MAX,
    ensures
        id_after(start, j) == start + j,
        id_after(start, i) == start + i,
        id_after(start, i) < id_after(start, j),
    decreases j,
{
    if j > 0 {
        if i < j - 1 {
            lemma_ids_increase(start, i, (j - 1) as nat);
        } else if j - 1 > 0 {
            lemma_ids_increase(start, 0, (j - 1) as nat);
        }
    }
}

/// Hands out client ids: each call gives the counter's value and advances
/// it by one, wrapping around as an atomic `fetch_add` does.
pub struct IdCounter {
    next: u64,
}

impl View for IdCounter {
    type V = u64;

    closed spec fn view(&self) -> u64 {
        self.next
    }
}

impl IdCounter {
    /// A counter whose first id is 0.
    pub fn new() -> (c: IdCounter)
        ensures
            c@ == 0,
    {
        IdCounter { next: 0 }
    }

    /// Takes the next id.
    pub fn fetch_add(&mut self) -> (id: u64)
        ensures
            id == old(self)@,
            final(self)@ == next_after(old(self)@),
    {
        let id = self.next;
        self.next = if id == u64::MAX {
            0
        } else {
            id + 1
        };
        id
    }
}

/// What is known of a client: its id, its socket address as text, its name.
pub struct ClientView {
    pub id: u64,
    pub addr: Seq<char>,
    pub name: Seq<char>,
}

/// A client as messages carry it: its id, its socket address written as
/// `ip:port`, and its name.
#[derive(Debug, Clone)]
pub struct Client {
    pub id: u64,
    pub addr: String,
    pub name: String,
}

impl View for Client {
    type V = ClientView;

    open spec fn view(&self) -> ClientView {
        ClientView { id: self.id, addr: self.addr@, name: self.name@ }
    }
}

impl Client {
    /// A client with the next id of `ids`.
    pub fn new(ids: &mut IdCounter, addr: String, name: String) -> (c: Client)
        ensures
            c.id == old(ids)@,
            final(ids)@ == next_after(old(ids)@),
            c.addr@ == addr@,
            c.name@ == name@,
    {
        Client { id: ids.fetch_add(), addr, name }
    }
}

} // verus!
