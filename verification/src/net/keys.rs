//! The key of a host, kept so that its peer id stays the same from one start to the
//! next.

use libp2p::identity::Keypair;
use vstd::prelude::*;

use super::addr::PeerId;
use super::identity::{keypair_from_bytes, keypair_of_bytes, new_keypair, peer_of_keypair};

verus! {

/// Which key a host starts with.
#[derive(Debug)]
pub enum KeyStep {
    /// The key that was kept, with its peer id.
    Use { keypair: Keypair, peer: PeerId },
    /// A new key, with its peer id. `data` is to be kept.
    Store { data: Vec<u8>, keypair: Keypair, peer: PeerId },
    /// None: what was kept is no key, for this reason.
    Refuse { error: String },
}

/// Whether this is how a host starts where `stored` was kept. A key is made only where
/// none was kept: what is no key is refused, and never replaced. The key is the one
/// that the bytes hold which are kept from then on.
pub open spec fn is_key_step(stored: Option<Seq<u8>>, step: KeyStep) -> bool {
    match stored {
        None => step matches KeyStep::Store { data, keypair, peer } && keypair == keypair_of_bytes(
            data@,
        ) && peer_of_keypair(data@) == Ok::<Seq<u8>, Seq<char>>(peer@),
        Some(data) => match peer_of_keypair(data) {
            Ok(p) => step matches KeyStep::Use { keypair, peer } && keypair == keypair_of_bytes(
                data,
            ) && peer@ == p,
            Err(e) => step matches KeyStep::Refuse { error } && error@ == e,
        },
    }
}

/// The key that a host starts with. `stored` is what was kept at an earlier start.
pub fn load_or_create_keypair(stored: Option<&[u8]>) -> (r: KeyStep)
    ensures
        is_key_step(
            match stored {
                Some(data) => Some(data@),
                None => None,
            },
            r,
        ),
{
    match stored {
        Some(data) => match keypair_from_bytes(data) {
            Ok((keypair, peer)) => KeyStep::Use { keypair, peer },
            Err(error) => KeyStep::Refuse { error },
        },
        None => match new_keypair() {
            Ok((keypair, data, peer)) => KeyStep::Store { data, keypair, peer },
            Err(error) => KeyStep::Refuse { error },
        },
    }
}

/// What is kept after a start.
pub open spec fn kept_after(stored: Option<Seq<u8>>, step: KeyStep) -> Option<Seq<u8>> {
    match step {
        KeyStep::Store { data, .. } => Some(data@),
        _ => stored,
    }
}

/// The peer id that a host has after a start.
pub open spec fn peer_of_step(step: KeyStep) -> Option<Seq<u8>> {
    match step {
        KeyStep::Use { peer, .. } => Some(peer@),
        KeyStep::Store { peer, .. } => Some(peer@),
        KeyStep::Refuse { .. } => None,
    }
}

/// The key pair that a host has after a start.
pub open spec fn keypair_of_step(step: KeyStep) -> Option<Keypair> {
    match step {
        KeyStep::Use { keypair, .. } => Some(keypair),
        KeyStep::Store { keypair, .. } => Some(keypair),
        KeyStep::Refuse { .. } => None,
    }
}

/// Whether these are starts of a host, one after the other, where `stored` was kept
/// before the first.
pub open spec fn are_starts(stored: Option<Seq<u8>>, steps: Seq<KeyStep>) -> bool
    decreases steps.len(),
{
    steps.len() > 0 ==> is_key_step(stored, steps[0]) && are_starts(
        kept_after(stored, steps[0]),
        steps.skip(1),
    )
}

proof fn lemma_kept_key(data: Seq<u8>, steps: Seq<KeyStep>, i: int)
    requires
        are_starts(Some(data), steps),
        0 <= i < steps.len(),
    ensures
        !(steps[i] is Store),
        peer_of_step(steps[i]) == peer_of_keypair(data).ok(),
        keypair_of_step(steps[i]) == match peer_of_keypair(data) {
            Ok(_) => Some(keypair_of_bytes(data)),
            Err(_) => None,
        },
    decreases i,
{
    if i > 0 {
        lemma_kept_key(data, steps.skip(1), i - 1);
        assert(steps.skip(1)[i - 1] == steps[i]);
    }
}

/// The key of a host never changes, and with it its peer id: every start gives those
/// that the first start gave, and a host that cannot start does not get others later.
/// The key pair is always the one that the kept bytes hold. A key is made at the first
/// start at most, and only where none was kept.
pub proof fn law_key_is_kept(stored: Option<Seq<u8>>, steps: Seq<KeyStep>, i: int)
    requires
        are_starts(stored, steps),
        0 <= i < steps.len(),
    ensures
        keypair_of_step(steps[i]) == keypair_of_step(steps[0]),
        peer_of_step(steps[i]) == peer_of_step(steps[0]),
        keypair_of_step(steps[i]) matches Some(k) ==> kept_after(stored, steps[0]) matches Some(d)
            && k == keypair_of_bytes(d) && peer_of_keypair(d).ok() == peer_of_step(steps[i]),
        steps[i] is Store <==> i == 0 && stored is None,
        stored is None ==> keypair_of_step(steps[0]) is Some,
{
    if i > 0 {
        let rest = steps.skip(1);
        assert(rest[i - 1] == steps[i]);
        lemma_kept_key(kept_after(stored, steps[0])->0, rest, i - 1);
    }
}

} // verus!
