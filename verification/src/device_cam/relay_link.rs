//! The camera's links to its relays: reservations, and connecting again after a
//! loss.

use vstd::prelude::*;

use crate::net::addr::{first_peer, Multiaddr, Part, PeerId, Protocol};
use crate::net::identity::{addr_from_text, addr_of_text};

verus! {

/// The first wait before connecting again, in seconds.
pub const RECONNECT_DELAY_BASE_SECS: u64 = 3;

/// The longest wait, in seconds.
pub const RECONNECT_DELAY_MAX_SECS: u64 = 60;

/// A link to a relay.
#[derive(Debug)]
pub struct RelayState {
    pub addr: Multiaddr,
    pub peer_id: PeerId,
    /// The listener of the reservation.
    pub reservation_id: Option<u64>,
    /// The reservation is confirmed.
    pub connected: bool,
    /// How many times connecting has failed in a row.
    pub reconnect_attempt: u32,
    pub dial_pending: bool,
    /// How long to wait before the next try, in seconds, while waiting.
    pub reconnect_timer: Option<u64>,
}

/// The same with sequences.
pub struct LinkView {
    pub addr: Seq<Part>,
    pub peer: Seq<u8>,
    pub reservation: Option<u64>,
    pub connected: bool,
    pub attempt: u32,
    pub dial_pending: bool,
    pub timer: Option<u64>,
}

impl View for RelayState {
    type V = LinkView;

    open spec fn view(&self) -> LinkView {
        LinkView {
            addr: self.addr@,
            peer: self.peer_id@,
            reservation: self.reservation_id,
            connected: self.connected,
            attempt: self.reconnect_attempt,
            dial_pending: self.dial_pending,
            timer: self.reconnect_timer,
        }
    }
}

/// Two to a power.
pub open spec fn pow2(n: nat) -> nat
    decreases n,
{
    if n == 0 {
        1
    } else {
        2 * pow2((n - 1) as nat)
    }
}

/// How long to wait after so many failures, in seconds: twice as long each time, up
/// to the longest wait.
pub open spec fn delay_after(attempt: u32) -> int {
    let doublings = if attempt <= 1 {
        0
    } else if attempt >= 6 {
        5
    } else {
        attempt - 1
    };
    let delay = RECONNECT_DELAY_BASE_SECS * pow2(doublings as nat);
    if delay <= RECONNECT_DELAY_MAX_SECS {
        delay
    } else {
        RECONNECT_DELAY_MAX_SECS as int
    }
}

proof fn lemma_pow2_values()
    ensures
        pow2(0) == 1,
        pow2(1) == 2,
        pow2(2) == 4,
        pow2(3) == 8,
        pow2(4) == 16,
        pow2(5) == 32,
{
    reveal_with_fuel(pow2, 6);
}

/// A link that was never connected.
pub open spec fn fresh_link(addr: Seq<Part>, peer: Seq<u8>) -> LinkView {
    LinkView {
        addr,
        peer,
        reservation: None,
        connected: false,
        attempt: 0,
        dial_pending: false,
        timer: None,
    }
}

/// Why a relay cannot be used.
#[derive(Debug, Clone, Copy, PartialEq, Eq, Structural)]
pub enum RelayAddrError {
    /// The text is no address.
    Invalid,
    /// The address names no peer.
    NoPeer,
}

/// The link that an address gives.
pub open spec fn link_of(addr: Option<Seq<Part>>) -> Result<LinkView, RelayAddrError> {
    match addr {
        None => Err(RelayAddrError::Invalid),
        Some(a) => match first_peer(a) {
            None => Err(RelayAddrError::NoPeer),
            Some(peer) => Ok(fresh_link(a, peer)),
        },
    }
}

/// The link that an address gives.
pub fn relay_state(addr: Option<Multiaddr>) -> (r: Result<RelayState, RelayAddrError>)
    ensures
        match link_of(
            match addr {
                Some(a) => Some(a@),
                None => None,
            },
        ) {
            Ok(l) => r matches Ok(s) && s@ == l,
            Err(e) => r == Err::<RelayState, RelayAddrError>(e),
        },
{
    let addr = match addr {
        Some(a) => a,
        None => {
            return Err(RelayAddrError::Invalid);
        },
    };
    let peer_id = match addr.first_peer() {
        Some(p) => p,
        None => {
            return Err(RelayAddrError::NoPeer);
        },
    };
    Ok(
        RelayState {
            addr,
            peer_id,
            reservation_id: None,
            connected: false,
            reconnect_attempt: 0,
            dial_pending: false,
            reconnect_timer: None,
        },
    )
}

/// The views of links.
pub open spec fn link_views(states: Seq<RelayState>) -> Seq<LinkView> {
    states.map_values(|s: RelayState| s@)
}

/// Whether the first `n` texts give links.
pub open spec fn links_good(texts: Seq<String>, n: int) -> bool {
    forall|i: int| 0 <= i < n ==> link_of(addr_of_text(#[trigger] texts[i]@).ok()) is Ok
}

/// Which relay cannot be used, and why.
#[derive(Debug, Clone, Copy, PartialEq, Eq, Structural)]
pub struct BadRelay {
    pub index: usize,
    pub error: RelayAddrError,
}

/// The links to relays.
#[derive(Debug)]
pub struct RelayLinks {
    pub states: Vec<RelayState>,
}

impl View for RelayLinks {
    type V = Seq<LinkView>;

    open spec fn view(&self) -> Seq<LinkView> {
        link_views(self.states@)
    }
}

/// The place of the first link to a peer.
pub open spec fn find_link(links: Seq<LinkView>, peer: Seq<u8>) -> Option<int>
    decreases links.len(),
{
    if links.len() == 0 {
        None
    } else {
        match find_link(links.drop_last(), peer) {
            Some(i) => Some(i),
            None => if links.last().peer == peer {
                Some(links.len() - 1)
            } else {
                None
            },
        }
    }
}

/// The place of the first link with a reservation's listener.
pub open spec fn find_listener(links: Seq<LinkView>, id: u64) -> Option<int>
    decreases links.len(),
{
    if links.len() == 0 {
        None
    } else {
        match find_listener(links.drop_last(), id) {
            Some(i) => Some(i),
            None => if links.last().reservation == Some(id) {
                Some(links.len() - 1)
            } else {
                None
            },
        }
    }
}

proof fn lemma_find_link(links: Seq<LinkView>, peer: Seq<u8>, i: int)
    requires
        0 <= i < links.len(),
        links[i].peer == peer,
        forall|k: int| 0 <= k < i ==> (#[trigger] links[k]).peer != peer,
    ensures
        find_link(links, peer) == Some(i),
    decreases links.len(),
{
    if i == links.len() - 1 {
        lemma_no_link(links.drop_last(), peer);
    } else {
        lemma_find_link(links.drop_last(), peer, i);
    }
}

proof fn lemma_no_link(links: Seq<LinkView>, peer: Seq<u8>)
    requires
        forall|k: int| 0 <= k < links.len() ==> (#[trigger] links[k]).peer != peer,
    ensures
        find_link(links, peer) is None,
    decreases links.len(),
{
    if links.len() > 0 {
        let front = links.drop_last();
        assert forall|k: int| 0 <= k < front.len() implies (#[trigger] front[k]).peer != peer by {
            assert(front[k] == links[k]);
        }
        lemma_no_link(front, peer);
        assert(links[links.len() - 1].peer != peer);
    }
}

proof fn lemma_find_listener(links: Seq<LinkView>, id: u64, i: int)
    requires
        0 <= i < links.len(),
        links[i].reservation == Some(id),
        forall|k: int| 0 <= k < i ==> (#[trigger] links[k]).reservation != Some(id),
    ensures
        find_listener(links, id) == Some(i),
    decreases links.len(),
{
    if i == links.len() - 1 {
        lemma_no_listener(links.drop_last(), id);
    } else {
        lemma_find_listener(links.drop_last(), id, i);
    }
}

proof fn lemma_no_listener(links: Seq<LinkView>, id: u64)
    requires
        forall|k: int| 0 <= k < links.len() ==> (#[trigger] links[k]).reservation != Some(id),
    ensures
        find_listener(links, id) is None,
    decreases links.len(),
{
    if links.len() > 0 {
        let front = links.drop_last();
        assert forall|k: int| 0 <= k < front.len() implies (#[trigger] front[k]).reservation
            != Some(id) by {
            assert(front[k] == links[k]);
        }
        lemma_no_listener(front, id);
        assert(links[links.len() - 1].reservation != Some(id));
    }
}

/// A link whose reservation was confirmed.
pub open spec fn confirmed(l: LinkView) -> LinkView {
    if l.connected {
        l
    } else {
        LinkView { connected: true, attempt: 0, dial_pending: false, timer: None, ..l }
    }
}

/// A link whose reservation is lost.
pub open spec fn reservation_lost(l: LinkView) -> LinkView {
    LinkView { reservation: None, connected: false, dial_pending: false, ..l }
}

/// A link whose relay was connected.
pub open spec fn linked(l: LinkView) -> LinkView {
    LinkView { attempt: 0, dial_pending: false, timer: None, ..l }
}

/// A link that waits to be tried again after one more failure.
pub open spec fn retried(l: LinkView) -> LinkView {
    let attempt = (l.attempt + 1) as u32;
    LinkView { attempt, timer: Some(delay_after(attempt) as u64), ..l }
}

/// A link whose last connection is gone.
pub open spec fn link_lost(l: LinkView) -> LinkView {
    retried(reservation_lost(l))
}

/// The address to listen on for a reservation.
pub open spec fn circuit_addr(l: LinkView) -> Seq<Part> {
    l.addr.push(Part::P2pCircuit)
}

/// Whether a link waits to be dialled again and its wait is over.
pub open spec fn link_due(links: Seq<LinkView>, elapsed: Seq<bool>, i: int) -> bool {
    0 <= i < links.len() && i < elapsed.len() && links[i].timer is Some && elapsed[i]
}

/// Whether the count of failures of the link to this peer, if there is one, can go up
/// by one.
pub open spec fn attempt_fits(links: Seq<LinkView>, peer: Seq<u8>) -> bool {
    find_link(links, peer) matches Some(i) ==> links[i].attempt < u32::MAX
}

impl RelayState {
    /// How long to wait before the next try, in seconds.
    pub fn reconnect_delay(&self) -> (r: u64)
        ensures
            r == delay_after(self.reconnect_attempt),
    {
        proof {
            lemma_pow2_values();
        }
        let attempt: u32 = self.reconnect_attempt;
        let factor: u64 = if attempt <= 1 {
            1
        } else if attempt == 2 {
            2
        } else if attempt == 3 {
            4
        } else if attempt == 4 {
            8
        } else if attempt == 5 {
            16
        } else {
            32
        };
        let delay: u64 = RECONNECT_DELAY_BASE_SECS * factor;
        if delay <= RECONNECT_DELAY_MAX_SECS {
            delay
        } else {
            RECONNECT_DELAY_MAX_SECS
        }
    }

    fn retry(&mut self) -> (secs: u64)
        requires
            old(self)@.attempt < u32::MAX,
        ensures
            final(self)@ == retried(old(self)@),
            Some(secs) == final(self)@.timer,
    {
        self.reconnect_attempt = self.reconnect_attempt + 1;
        let secs: u64 = self.reconnect_delay();
        self.reconnect_timer = Some(secs);
        secs
    }
}

impl RelayLinks {
    /// The links to these relays. The first that cannot be used is an error.
    pub fn new(texts: &Vec<String>) -> (r: Result<RelayLinks, BadRelay>)
        ensures
            match r {
                Ok(links) => {
                    &&& links@.len() == texts@.len()
                    &&& forall|i: int|
                        0 <= i < texts@.len() ==> link_of(addr_of_text(texts@[i]@).ok()) == Ok::<
                            LinkView,
                            RelayAddrError,
                        >(#[trigger] links@[i])
                },
                Err(bad) => {
                    &&& bad.index < texts@.len()
                    &&& links_good(texts@, bad.index as int)
                    &&& link_of(addr_of_text(texts@[bad.index as int]@).ok()) == Err::<
                        LinkView,
                        RelayAddrError,
                    >(bad.error)
                },
            },
    {
        let mut states: Vec<RelayState> = Vec::new();
        let mut i: usize = 0;
        while i < texts.len()
            invariant
                i <= texts@.len(),
                states@.len() == i,
                links_good(texts@, i as int),
                forall|k: int|
                    0 <= k < i ==> link_of(addr_of_text(texts@[k]@).ok()) == Ok::<
                        LinkView,
                        RelayAddrError,
                    >(#[trigger] states@[k]@),
            decreases texts@.len() - i,
        {
            match relay_state(addr_from_text(texts[i].as_str()).ok()) {
                Ok(s) => {
                    states.push(s);
                },
                Err(error) => {
                    return Err(BadRelay { index: i, error });
                },
            }
            i += 1;
        }
        let links = RelayLinks { states };
        assert forall|k: int| 0 <= k < texts@.len() implies link_of(addr_of_text(texts@[k]@).ok())
            == Ok::<LinkView, RelayAddrError>(#[trigger] links@[k]) by {
            assert(links@[k] == states@[k]@);
        }
        Ok(links)
    }

    fn place(&self, peer: &PeerId) -> (r: Option<usize>)
        ensures
            match find_link(self@, peer@) {
                Some(i) => r matches Some(k) && k == i && k < self@.len(),
                None => r is None,
            },
    {
        let mut i: usize = 0;
        while i < self.states.len()
            invariant
                i <= self.states@.len(),
                forall|k: int| 0 <= k < i ==> (#[trigger] self@[k]).peer != peer@,
            decreases self.states@.len() - i,
        {
            if self.states[i].peer_id.same(peer) {
                proof {
                    lemma_find_link(self@, peer@, i as int);
                }
                return Some(i);
            }
            i += 1;
        }
        proof {
            lemma_no_link(self@, peer@);
        }
        None
    }

    /// Whether a peer is one of the relays.
    pub fn is_relay(&self, peer: &PeerId) -> (r: bool)
        ensures
            r == (find_link(self@, peer@) is Some),
    {
        self.place(peer).is_some()
    }

    /// A relay has confirmed a reservation.
    pub fn reservation_accepted(&mut self, peer: &PeerId)
        ensures
            final(self)@ == match find_link(old(self)@, peer@) {
                Some(i) => old(self)@.update(i, confirmed(old(self)@[i])),
                None => old(self)@,
            },
    {
        let ghost before = self@;
        if let Some(i) = self.place(peer) {
            let s = &mut self.states[i];
            if !s.connected {
                s.connected = true;
                s.reconnect_attempt = 0;
                s.dial_pending = false;
                s.reconnect_timer = None;
            }
            assert(self@ =~= before.update(i as int, confirmed(before[i as int])));
        }
    }

    /// How many relays hold a reservation.
    pub fn reserved_count(&self) -> (r: usize)
        ensures
            r == count_connected(self@),
    {
        let mut n: usize = 0;
        let mut i: usize = 0;
        assert(self@.take(0) =~= seq![]);
        while i < self.states.len()
            invariant
                i <= self.states@.len(),
                n <= i,
                n == count_connected(self@.take(i as int)),
            decreases self.states@.len() - i,
        {
            assert(self@.take(i as int + 1).drop_last() =~= self@.take(i as int));
            assert(self@.take(i as int + 1).last() == self.states@[i as int]@);
            if self.states[i].connected {
                n += 1;
            }
            i += 1;
        }
        assert(self@.take(self@.len() as int) =~= self@);
        n
    }

    /// The relay whose reservation a listener stands for.
    pub fn listener_peer(&self, id: u64) -> (r: Option<PeerId>)
        ensures
            match find_listener(self@, id) {
                Some(i) => r matches Some(p) && p@ == self@[i].peer,
                None => r is None,
            },
    {
        match self.listener_place(id) {
            Some(i) => Some(self.states[i].peer_id.clone()),
            None => None,
        }
    }

    fn listener_place(&self, id: u64) -> (r: Option<usize>)
        ensures
            match find_listener(self@, id) {
                Some(i) => r matches Some(k) && k == i && k < self@.len(),
                None => r is None,
            },
    {
        let mut i: usize = 0;
        while i < self.states.len()
            invariant
                i <= self.states@.len(),
                forall|k: int| 0 <= k < i ==> (#[trigger] self@[k]).reservation != Some(id),
            decreases self.states@.len() - i,
        {
            if let Some(own) = self.states[i].reservation_id {
                if own == id {
                    proof {
                        lemma_find_listener(self@, id, i as int);
                    }
                    return Some(i);
                }
            }
            i += 1;
        }
        proof {
            lemma_no_listener(self@, id);
        }
        None
    }

    /// The listener of a reservation was closed. Where the relay is still connected,
    /// the result is the link whose reservation is to be asked for again, and the
    /// address to listen on.
    pub fn listener_closed(&mut self, id: u64, still_connected: bool) -> (r: Option<
        (usize, Multiaddr),
    >)
        ensures
            match find_listener(old(self)@, id) {
                Some(i) => {
                    &&& final(self)@ == old(self)@.update(i, reservation_lost(old(self)@[i]))
                    &&& if still_connected {
                        r matches Some((k, a)) && k == i && a@ == circuit_addr(old(self)@[i])
                    } else {
                        r is None
                    }
                },
                None => final(self)@ == old(self)@ && r is None,
            },
    {
        let ghost before = self@;
        let i: usize = match self.listener_place(id) {
            Some(i) => i,
            None => {
                return None;
            },
        };
        let s = &mut self.states[i];
        s.reservation_id = None;
        s.connected = false;
        s.dial_pending = false;
        assert(self@ =~= before.update(i as int, reservation_lost(before[i as int])));
        if still_connected {
            assert(self@[i as int].addr == before[i as int].addr);
            Some((i, self.states[i].addr.clone().with(Protocol::P2pCircuit)))
        } else {
            None
        }
    }

    /// A reservation was asked for; its listener is `id`.
    pub fn reservation_requested(&mut self, index: usize, id: u64)
        requires
            index < old(self)@.len(),
        ensures
            final(self)@ == old(self)@.update(
                index as int,
                (LinkView { reservation: Some(id), ..old(self)@[index as int] }),
            ),
    {
        let ghost before = self@;
        let s = &mut self.states[index];
        s.reservation_id = Some(id);
        assert(self@ =~= before.update(
            index as int,
            (LinkView { reservation: Some(id), ..before[index as int] }),
        ));
    }

    /// A peer was connected. For a relay without a reservation, the result is the
    /// link and the address to listen on for one.
    pub fn connected(&mut self, peer: &PeerId) -> (r: Option<(usize, Multiaddr)>)
        ensures
            match find_link(old(self)@, peer@) {
                Some(i) => {
                    &&& final(self)@ == old(self)@.update(i, linked(old(self)@[i]))
                    &&& if old(self)@[i].reservation is None {
                        r matches Some((k, a)) && k == i && a@ == circuit_addr(old(self)@[i])
                    } else {
                        r is None
                    }
                },
                None => final(self)@ == old(self)@ && r is None,
            },
    {
        let ghost before = self@;
        let i: usize = match self.place(peer) {
            Some(i) => i,
            None => {
                return None;
            },
        };
        let s = &mut self.states[i];
        s.reconnect_attempt = 0;
        s.dial_pending = false;
        s.reconnect_timer = None;
        assert(self@ =~= before.update(i as int, linked(before[i as int])));
        assert(self@[i as int] == linked(before[i as int]));
        if self.states[i].reservation_id.is_none() {
            Some((i, self.states[i].addr.clone().with(Protocol::P2pCircuit)))
        } else {
            None
        }
    }

    /// A connection to a peer is gone and so many remain. When the last one to a
    /// relay is, the result is the link and how long to wait before it is dialled
    /// again, in seconds.
    pub fn disconnected(&mut self, peer: &PeerId, remaining: u32) -> (r: Option<(usize, u64)>)
        requires
            remaining == 0 ==> attempt_fits(old(self)@, peer@),
        ensures
            match (find_link(old(self)@, peer@), remaining == 0) {
                (Some(i), true) => {
                    &&& final(self)@ == old(self)@.update(i, link_lost(old(self)@[i]))
                    &&& r matches Some((k, secs)) && k == i && Some(secs) == final(self)@[i].timer
                },
                _ => final(self)@ == old(self)@ && r is None,
            },
    {
        let ghost before = self@;
        if remaining != 0 {
            return None;
        }
        let i: usize = match self.place(peer) {
            Some(i) => i,
            None => {
                return None;
            },
        };
        assert(before[i as int].attempt < u32::MAX);
        let s = &mut self.states[i];
        s.connected = false;
        s.reservation_id = None;
        s.dial_pending = false;
        let secs: u64 = s.retry();
        assert(self@ =~= before.update(i as int, link_lost(before[i as int])));
        Some((i, secs))
    }

    /// A dial to a peer has failed. For a relay, the result is the link and how long
    /// to wait before it is dialled again, in seconds.
    pub fn dial_failed(&mut self, peer: &PeerId) -> (r: Option<(usize, u64)>)
        requires
            attempt_fits(old(self)@, peer@),
        ensures
            match find_link(old(self)@, peer@) {
                Some(i) => {
                    &&& final(self)@ == old(self)@.update(
                        i,
                        retried((LinkView { dial_pending: false, ..old(self)@[i] })),
                    )
                    &&& r matches Some((k, secs)) && k == i && Some(secs) == final(self)@[i].timer
                },
                None => final(self)@ == old(self)@ && r is None,
            },
    {
        let ghost before = self@;
        let i: usize = match self.place(peer) {
            Some(i) => i,
            None => {
                return None;
            },
        };
        assert(before[i as int].attempt < u32::MAX);
        let s = &mut self.states[i];
        s.dial_pending = false;
        let secs: u64 = s.retry();
        assert(self@ =~= before.update(
            i as int,
            retried((LinkView { dial_pending: false, ..before[i as int] })),
        ));
        Some((i, secs))
    }

    /// The first link that waits to be dialled again and whose wait is over, if there is
    /// one. `elapsed` tells for each link whether the time has passed.
    pub fn next_due(&self, elapsed: &Vec<bool>) -> (r: Option<usize>)
        ensures
            match r {
                Some(i) => link_due(self@, elapsed@, i as int) && forall|k: int|
                    0 <= k < i ==> !link_due(self@, elapsed@, k),
                None => forall|k: int| !link_due(self@, elapsed@, k),
            },
    {
        let mut i: usize = 0;
        while i < self.states.len() && i < elapsed.len()
            invariant
                i <= self.states@.len(),
                forall|k: int| 0 <= k < i ==> !link_due(self@, elapsed@, k),
            decreases self.states@.len() - i,
        {
            assert(self@[i as int] == self.states@[i as int]@);
            if elapsed[i] && self.states[i].reconnect_timer.is_some() {
                return Some(i);
            }
            i += 1;
        }
        None
    }

    /// The wait of a link is over: the result is the address to dial, if the link did
    /// wait.
    pub fn timer_elapsed(&mut self, index: usize) -> (r: Option<Multiaddr>)
        requires
            index < old(self)@.len(),
        ensures
            final(self)@ == old(self)@.update(
                index as int,
                (LinkView { timer: None, ..old(self)@[index as int] }),
            ),
            match old(self)@[index as int].timer {
                Some(_) => r matches Some(a) && a@ == old(self)@[index as int].addr,
                None => r is None,
            },
    {
        let ghost before = self@;
        let waited = self.states[index].reconnect_timer.is_some();
        let s = &mut self.states[index];
        s.reconnect_timer = None;
        assert(self@ =~= before.update(
            index as int,
            (LinkView { timer: None, ..before[index as int] }),
        ));
        assert(self@[index as int].addr == before[index as int].addr);
        if waited {
            Some(self.states[index].addr.clone())
        } else {
            None
        }
    }

    /// A link was dialled. Where that could not even begin, the result is how long to
    /// wait before it is dialled again, in seconds.
    pub fn dialled(&mut self, index: usize, begun: bool) -> (r: Option<u64>)
        requires
            index < old(self)@.len(),
            !begun ==> old(self)@[index as int].attempt < u32::MAX,
        ensures
            final(self)@ == old(self)@.update(
                index as int,
                if begun {
                    LinkView { dial_pending: true, ..old(self)@[index as int] }
                } else {
                    retried(old(self)@[index as int])
                },
            ),
            r == if begun {
                None
            } else {
                final(self)@[index as int].timer
            },
    {
        let ghost before = self@;
        assert(before[index as int] == self.states@[index as int]@);
        if begun {
            let s = &mut self.states[index];
            s.dial_pending = true;
            assert(self@ =~= before.update(
                index as int,
                LinkView { dial_pending: true, ..before[index as int] },
            ));
            return None;
        }
        let s = &mut self.states[index];
        let secs: u64 = s.retry();
        assert(self@ =~= before.update(index as int, retried(before[index as int])));
        Some(secs)
    }
}

/// How many links hold a confirmed reservation.
pub open spec fn count_connected(links: Seq<LinkView>) -> nat
    decreases links.len(),
{
    if links.len() == 0 {
        0
    } else {
        count_connected(links.drop_last()) + if links.last().connected {
            1nat
        } else {
            0
        }
    }
}

/// The wait grows with each failure, from three seconds to a minute.
pub proof fn law_reconnect_delay(attempt: u32, more: u32)
    requires
        attempt <= more,
    ensures
        RECONNECT_DELAY_BASE_SECS <= delay_after(attempt) <= delay_after(more)
            <= RECONNECT_DELAY_MAX_SECS,
        attempt >= 6 ==> delay_after(attempt) == RECONNECT_DELAY_MAX_SECS,
{
    lemma_pow2_values();
}

/// The wait doubles from one failure to the next until it is as long as it gets.
pub proof fn law_reconnect_delay_doubles(attempt: u32)
    requires
        1 <= attempt < u32::MAX,
    ensures
        delay_after((attempt + 1) as u32) == if 2 * delay_after(attempt)
            <= RECONNECT_DELAY_MAX_SECS {
            2 * delay_after(attempt)
        } else {
            RECONNECT_DELAY_MAX_SECS as int
        },
{
    lemma_pow2_values();
}

/// A relay that is lost is always tried again, and once it is connected the waits
/// start anew.
pub proof fn law_lost_relay_is_retried(l: LinkView)
    requires
        l.attempt < u32::MAX,
    ensures
        link_lost(l).timer is Some,
        link_lost(l).reservation is None,
        !link_lost(l).connected,
        linked(link_lost(l)).attempt == 0,
        linked(link_lost(l)).timer is None,
        delay_after(retried(linked(link_lost(l))).attempt) == RECONNECT_DELAY_BASE_SECS,
{
    lemma_pow2_values();
}

/// The wait after the n-th failure in a row is three seconds, doubled with each failure
/// after the first, and a minute at most.
pub proof fn law_wait_after_failures(l: LinkView)
    requires
        l.attempt < u32::MAX,
    ensures
        retried(l).attempt == l.attempt + 1,
        l.attempt == 0 ==> retried(l).timer == Some(3u64),
        l.attempt == 1 ==> retried(l).timer == Some(6u64),
        l.attempt == 2 ==> retried(l).timer == Some(12u64),
        l.attempt == 3 ==> retried(l).timer == Some(24u64),
        l.attempt == 4 ==> retried(l).timer == Some(48u64),
        l.attempt >= 5 ==> retried(l).timer == Some(60u64),
        retried(l) == (LinkView { attempt: retried(l).attempt, timer: retried(l).timer, ..l }),
{
    reveal_with_fuel(pow2, 6);
}

/// The link of a peer is the first that names it.
pub proof fn law_link_is_found(links: Seq<LinkView>, peer: Seq<u8>, i: int)
    requires
        0 <= i <= links.len(),
        forall|k: int| 0 <= k < i ==> (#[trigger] links[k]).peer != peer,
        i < links.len() ==> links[i].peer == peer,
    ensures
        find_link(links, peer) == if i < links.len() {
            Some(i)
        } else {
            None
        },
{
    if i < links.len() {
        lemma_find_link(links, peer, i);
    } else {
        lemma_no_link(links, peer);
    }
}

/// The link of a listener is the first whose reservation it is.
pub proof fn law_listener_is_found(links: Seq<LinkView>, id: u64, i: int)
    requires
        0 <= i <= links.len(),
        forall|k: int| 0 <= k < i ==> (#[trigger] links[k]).reservation != Some(id),
        i < links.len() ==> links[i].reservation == Some(id),
    ensures
        find_listener(links, id) == if i < links.len() {
            Some(i)
        } else {
            None
        },
{
    if i < links.len() {
        lemma_find_listener(links, id, i);
    } else {
        lemma_no_listener(links, id);
    }
}

/// A relay can be used exactly where its text is an address that names a peer. Its link
/// starts unconnected, with no failure, no wait and no reservation.
pub proof fn law_link_begins(addr: Option<Seq<Part>>)
    ensures
        addr is None ==> link_of(addr) == Err::<LinkView, RelayAddrError>(RelayAddrError::Invalid),
        addr matches Some(a) ==> first_peer(a) is None ==> link_of(addr) == Err::<
            LinkView,
            RelayAddrError,
        >(RelayAddrError::NoPeer),
        addr matches Some(a) ==> first_peer(a) is Some ==> (link_of(addr) matches Ok(l) && l.addr
            == a && Some(l.peer) == first_peer(a) && l.reservation is None && !l.connected
            && l.attempt == 0 && !l.dial_pending && l.timer is None),
{
}

/// An accepted reservation makes the link connected and ends its failures and its wait;
/// accepted again, it changes nothing. A connection ends failures and wait too, without
/// making the link connected: only a reservation does.
pub proof fn law_good_news_ends_the_wait(l: LinkView)
    ensures
        confirmed(l).connected,
        !l.connected ==> confirmed(l).attempt == 0 && confirmed(l).timer is None
            && !confirmed(l).dial_pending,
        l.connected ==> confirmed(l) == l,
        confirmed(confirmed(l)) == confirmed(l),
        linked(l).attempt == 0 && linked(l).timer is None && !linked(l).dial_pending,
        linked(l).connected == l.connected,
        linked(l).reservation == l.reservation && confirmed(l).reservation == l.reservation,
        linked(l).addr == l.addr && confirmed(l).addr == l.addr,
        linked(l).peer == l.peer && confirmed(l).peer == l.peer,
{
}

/// A lost reservation alone does not count as a failure and starts no wait; a lost
/// connection loses the reservation, counts, and starts one. The relay stays who and
/// where it is.
pub proof fn law_bad_news_loses_the_reservation(l: LinkView)
    requires
        l.attempt < u32::MAX,
    ensures
        reservation_lost(l).reservation is None && !reservation_lost(l).connected
            && !reservation_lost(l).dial_pending,
        reservation_lost(l).attempt == l.attempt && reservation_lost(l).timer == l.timer,
        reservation_lost(l).addr == l.addr && reservation_lost(l).peer == l.peer,
        link_lost(l).reservation is None && !link_lost(l).connected && !link_lost(l).dial_pending,
        link_lost(l).attempt == l.attempt + 1,
        link_lost(l).timer == Some(delay_after((l.attempt + 1) as u32) as u64),
        link_lost(l).addr == l.addr && link_lost(l).peer == l.peer,
{
}

/// A reservation is asked for at the relay's address with the mark of a circuit behind it.
pub proof fn law_reservation_address(l: LinkView)
    ensures
        circuit_addr(l).len() == l.addr.len() + 1,
        circuit_addr(l).take(l.addr.len() as int) == l.addr,
        circuit_addr(l).last() == Part::P2pCircuit,
{
    assert(circuit_addr(l).take(l.addr.len() as int) =~= l.addr);
}

/// The links that count as reserved are those that are connected, each once.
pub proof fn law_reserved_links_count(links: Seq<LinkView>)
    ensures
        count_connected(links) == links.filter(|l: LinkView| l.connected).len(),
    decreases links.len(),
{
    reveal(Seq::filter);
    if links.len() > 0 {
        law_reserved_links_count(links.drop_last());
    }
}

/// A link is due exactly where it waits and its time has passed.
pub proof fn law_due_link_waits(links: Seq<LinkView>, elapsed: Seq<bool>, i: int)
    requires
        links.len() == elapsed.len(),
        0 <= i < links.len(),
    ensures
        link_due(links, elapsed, i) <==> links[i].timer is Some && elapsed[i],
{
}

} // verus!
