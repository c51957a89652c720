//! Relaying packets between the clients of a call.
use crate::lists::lemma_push_contains;
use vstd::prelude::*;

verus! {

/// The address of a client.
#[derive(Debug, Clone, Copy, PartialEq, Eq, Structural)]
pub enum ClientAddr {
    V4 { octets: u32, port: u16 },
    V6 { segments: u128, port: u16, flowinfo: u32, scope_id: u32 },
}

/// The clients that were heard of. Every packet of one goes to all others.
#[derive(Debug)]
pub struct Relay {
    clients: Vec<ClientAddr>,
}

impl View for Relay {
    type V = Set<ClientAddr>;

    closed spec fn view(&self) -> Set<ClientAddr> {
        self.clients@.to_set()
    }
}

/// The clients that a packet goes to.
pub open spec fn targets(clients: Set<ClientAddr>, from: ClientAddr) -> Set<ClientAddr> {
    clients.remove(from)
}

/// The clients after a packet came from `from` and could not be sent to
/// `failed`.
pub open spec fn relayed(
    clients: Set<ClientAddr>,
    from: ClientAddr,
    failed: Set<ClientAddr>,
) -> Set<ClientAddr> {
    clients.insert(from).difference(failed)
}

fn holds(list: &Vec<ClientAddr>, client: ClientAddr) -> (res: bool)
    ensures
        res == list@.contains(client),
{
    for i in 0..list.len()
        invariant
            forall|j: int| 0 <= j < i ==> list@[j] != client,
    {
        if list[i] == client {
            return true;
        }
    }
    false
}

impl Relay {
    /// Whether no client is kept twice.
    pub closed spec fn wf(self) -> bool {
        self.clients@.no_duplicates()
    }

    /// A relay without clients.
    pub fn new() -> (res: Self)
        ensures
            res.wf(),
            res@ == Set::<ClientAddr>::empty(),
    {
        let res = Relay { clients: Vec::new() };
        assert(res.clients@.to_set() =~= Set::empty());
        res
    }

    /// Takes note of the client that a packet came from. The packet goes to
    /// the clients that are returned: to every other one, once.
    pub fn packet_received(&mut self, from: ClientAddr) -> (res: Vec<ClientAddr>)
        requires
            old(self).wf(),
        ensures
            final(self).wf(),
            final(self)@ == old(self)@.insert(from),
            res@.no_duplicates(),
            res@.to_set() == targets(old(self)@, from),
    {
        if !holds(&self.clients, from) {
            proof {
                lemma_push_contains(self.clients@, from);
            }
            self.clients.push(from);
        }
        assert(self@ =~= old(self)@.insert(from));
        let res = others(&self.clients, from);
        assert(res@.to_set() =~= targets(old(self)@, from));
        res
    }

    /// Forgets the clients that a packet could not be sent to.
    pub fn sends_failed(&mut self, failed: &Vec<ClientAddr>)
        requires
            old(self).wf(),
        ensures
            final(self).wf(),
            final(self)@ == old(self)@.difference(failed@.to_set()),
    {
        for i in 0..failed.len()
            invariant
                self.wf(),
                forall|c: ClientAddr| #[trigger]
                    self@.contains(c) <==> old(self)@.contains(c) && !failed@.take(
                        i as int,
                    ).contains(c),
        {
            let ghost before = self@;
            let rest = others(&self.clients, failed[i]);
            proof {
                assert(failed@.take(i + 1) =~= failed@.take(i as int).push(failed@[i as int]));
                lemma_push_contains(failed@.take(i as int), failed@[i as int]);
            }
            self.clients = rest;
            assert(self@ =~= before.remove(failed@[i as int]));
        }
        assert(failed@.take(failed.len() as int) =~= failed@);
        assert(self@ =~= old(self)@.difference(failed@.to_set()));
    }
}

/// The clients of a list other than `client`.
fn others(list: &Vec<ClientAddr>, client: ClientAddr) -> (res: Vec<ClientAddr>)
    requires
        list@.no_duplicates(),
    ensures
        res@.no_duplicates(),
        forall|c: ClientAddr| #[trigger]
            res@.contains(c) <==> list@.contains(c) && c != client,
{
    let mut res: Vec<ClientAddr> = Vec::new();
    for i in 0..list.len()
        invariant
            list@.no_duplicates(),
            res@.no_duplicates(),
            forall|c: ClientAddr| #[trigger]
                res@.contains(c) <==> list@.take(i as int).contains(c) && c != client,
    {
        let next = list[i];
        proof {
            assert(list@.take(i + 1) =~= list@.take(i as int).push(next));
            lemma_push_contains(list@.take(i as int), next);
            assert(!list@.take(i as int).contains(next));
        }
        if next != client {
            proof {
                assert(!res@.contains(next));
                lemma_push_contains(res@, next);
            }
            res.push(next);
        }
    }
    assert(list@.take(list.len() as int) =~= list@);
    res
}

/// A packet never goes back to the client it came from, and goes to every other
/// client that was heard of.
pub proof fn law_packets_go_to_the_others(
    clients: Set<ClientAddr>,
    from: ClientAddr,
    other: ClientAddr,
)
    ensures
        !targets(clients, from).contains(from),
        other != from ==> targets(clients, from).contains(other) == clients.contains(other),
{
}

/// Where packets fail only for clients that they were sent to, the sender
/// stays, and of the others exactly those go that failed.
pub proof fn law_only_failed_clients_go(
    clients: Set<ClientAddr>,
    from: ClientAddr,
    failed: Set<ClientAddr>,
    other: ClientAddr,
)
    requires
        failed.subset_of(targets(clients, from)),
    ensures
        relayed(clients, from, failed).contains(from),
        other != from ==> relayed(clients, from, failed).contains(other) == (clients.contains(other)
            && !failed.contains(other)),
{
    if failed.contains(from) {
        assert(targets(clients, from).contains(from));
    }
}

} // verus!
