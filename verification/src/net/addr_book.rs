//! One address for each peer.

use vstd::prelude::*;

use super::addr::{Multiaddr, Part, PeerId};

verus! {

/// Keeps one address for each peer.
pub struct AddrBook {
    entries: Vec<(PeerId, Multiaddr)>,
}

spec fn book_map(entries: Seq<(PeerId, Multiaddr)>) -> Map<Seq<u8>, Seq<Part>>
    decreases entries.len(),
{
    if entries.len() == 0 {
        Map::empty()
    } else {
        book_map(entries.drop_last()).insert(entries.last().0@, entries.last().1@)
    }
}

impl View for AddrBook {
    type V = Map<Seq<u8>, Seq<Part>>;

    closed spec fn view(&self) -> Map<Seq<u8>, Seq<Part>> {
        book_map(self.entries@)
    }
}

proof fn lemma_book_remove(entries: Seq<(PeerId, Multiaddr)>, i: int)
    requires
        0 <= i < entries.len(),
    ensures
        book_map(entries.remove(i)).remove(entries[i].0@) == book_map(entries).remove(
            entries[i].0@,
        ),
    decreases entries.len(),
{
    let rest = entries.remove(i);
    let peer = entries[i].0@;
    if i == entries.len() - 1 {
        assert(rest =~= entries.drop_last());
    } else {
        lemma_book_remove(entries.drop_last(), i);
        assert(rest.drop_last() =~= entries.drop_last().remove(i));
        let front = book_map(rest.drop_last());
        let full = book_map(entries.drop_last());
        assert(front.remove(peer) == full.remove(peer));
        let k = entries.last().0@;
        let v = entries.last().1@;
        if k == peer {
            assert(front.insert(k, v).remove(peer) =~= front.remove(peer));
            assert(full.insert(k, v).remove(peer) =~= full.remove(peer));
        } else {
            assert(front.insert(k, v).remove(peer) =~= front.remove(peer).insert(k, v));
            assert(full.insert(k, v).remove(peer) =~= full.remove(peer).insert(k, v));
        }
    }
    assert(book_map(rest).remove(peer) =~= book_map(entries).remove(peer));
}

proof fn lemma_book_absent(entries: Seq<(PeerId, Multiaddr)>, peer: Seq<u8>)
    requires
        forall|i: int| 0 <= i < entries.len() ==> (#[trigger] entries[i]).0@ != peer,
    ensures
        !book_map(entries).contains_key(peer),
    decreases entries.len(),
{
    if entries.len() > 0 {
        assert forall|i: int| 0 <= i < entries.drop_last().len() implies (
        #[trigger] entries.drop_last()[i]).0@ != peer by {
            assert(entries.drop_last()[i] == entries[i]);
        }
        lemma_book_absent(entries.drop_last(), peer);
        assert(entries.last().0@ != peer);
    }
}

impl AddrBook {
    pub fn new() -> (r: AddrBook)
        ensures
            r@ == Map::<Seq<u8>, Seq<Part>>::empty(),
    {
        AddrBook { entries: Vec::new() }
    }

    /// The peer's address.
    pub fn get(&self, peer: &PeerId) -> (r: Option<&Multiaddr>)
        ensures
            match r {
                Some(a) => self@.contains_key(peer@) && self@[peer@] == a@,
                None => !self@.contains_key(peer@),
            },
    {
        let mut n: usize = self.entries.len();
        assert(self.entries@.take(n as int) =~= self.entries@);
        while n > 0
            invariant
                n <= self.entries@.len(),
                ({
                    let seen = book_map(self.entries@.take(n as int));
                    &&& seen.contains_key(peer@) == self@.contains_key(peer@)
                    &&& seen.contains_key(peer@) ==> seen[peer@] == self@[peer@]
                }),
            decreases n,
        {
            let ghost upper = self.entries@.take(n as int);
            assert(upper.drop_last() =~= self.entries@.take(n - 1));
            assert(upper.last() == self.entries@[n - 1]);
            n -= 1;
            if self.entries[n].0.same(peer) {
                return Some(&self.entries[n].1);
            }
        }
        assert(self.entries@.take(0) =~= seq![]);
        None
    }

    /// Forgets the peer's address.
    pub fn remove(&mut self, peer: &PeerId)
        ensures
            final(self)@ == old(self)@.remove(peer@),
    {
        let mut i: usize = 0;
        while i < self.entries.len()
            invariant
                i <= self.entries@.len(),
                forall|k: int| 0 <= k < i ==> (#[trigger] self.entries@[k]).0@ != peer@,
                self@.remove(peer@) == old(self)@.remove(peer@),
            decreases self.entries@.len() - i,
        {
            if self.entries[i].0.same(peer) {
                proof {
                    lemma_book_remove(self.entries@, i as int);
                }
                let _ = self.entries.remove(i);
            } else {
                i += 1;
            }
        }
        proof {
            lemma_book_absent(self.entries@, peer@);
            assert(self@.remove(peer@) =~= self@);
        }
    }

    /// Sets the peer's address.
    pub fn insert(&mut self, peer: &PeerId, addr: &Multiaddr)
        ensures
            final(self)@ == old(self)@.insert(peer@, addr@),
    {
        self.remove(peer);
        let ghost rest = self.entries@;
        self.entries.push((peer.clone(), addr.clone()));
        assert(self.entries@.drop_last() =~= rest);
        assert(self@ =~= old(self)@.insert(peer@, addr@));
    }
}

} // verus!
