//! Peer ids and signatures of the `libp2p` crate.

use vstd::prelude::*;

use libp2p::multiaddr::Protocol as OutsidePart;

use super::addr::{Ipv4, Ipv6, Multiaddr, Part, PeerId, Protocol};

verus! {

/// The peer id that bytes hold, as `PeerId::from_bytes` reads it, in the bytes that
/// `PeerId::to_bytes` writes; or the text of the error where it refuses them.
pub uninterp spec fn peer_of_bytes(bytes: Seq<u8>) -> Result<Seq<u8>, Seq<char>>;

/// The peer id of a public key in protobuf form, in the bytes that
/// `PeerId::to_bytes` writes; or the text of the error where
/// `PublicKey::try_decode_protobuf` refuses the key.
pub uninterp spec fn peer_of_key(key: Seq<u8>) -> Result<Seq<u8>, Seq<char>>;

/// The peer id of a key pair in protobuf form, in the bytes that `PeerId::to_bytes`
/// writes; or the text of the error where `Keypair::from_protobuf_encoding` refuses
/// the key pair.
pub uninterp spec fn peer_of_keypair(data: Seq<u8>) -> Result<Seq<u8>, Seq<char>>;

/// `libp2p::identity::Keypair`: the secret key of a host with its public key.
#[verifier::external_type_specification]
#[verifier::external_body]
pub struct ExKeypair(libp2p::identity::Keypair);

/// The key pair that bytes in protobuf form hold, as `Keypair::from_protobuf_encoding`
/// reads it where it does not refuse them.
pub uninterp spec fn keypair_of_bytes(data: Seq<u8>) -> libp2p::identity::Keypair;

/// Whether a public key in protobuf form accepts a signature of a message, as
/// `PublicKey::verify` tells.
pub uninterp spec fn key_accepts(key: Seq<u8>, message: Seq<u8>, signature: Seq<u8>) -> bool;

/// The peer id that a text stands for, as `PeerId::from_str` reads it, in the bytes
/// that `PeerId::to_bytes` writes.
pub uninterp spec fn peer_of_text(text: Seq<char>) -> Option<Seq<u8>>;

/// The text of a peer id, as `PeerId::to_base58` writes it; empty where the bytes
/// hold no peer id.
pub uninterp spec fn text_of_peer(bytes: Seq<u8>) -> Seq<char>;

/// The address that a text stands for, as `Multiaddr::from_str` reads it, by the
/// parts that `Multiaddr::iter` gives; or the text of the error where it refuses the
/// text.
pub uninterp spec fn addr_of_text(text: Seq<char>) -> Result<Seq<Part>, Seq<char>>;

/// `PeerId::from_str`: the peer id, if the text stands for one.
#[verifier::external_body]
pub(crate) fn peer_from_text(text: &str) -> (r: Option<PeerId>)
    ensures
        match peer_of_text(text@) {
            Some(p) => r matches Some(q) && q@ == p,
            None => r is None,
        },
{
    match text.parse::<libp2p::PeerId>() {
        Ok(p) => Some(PeerId { bytes: p.to_bytes() }),
        Err(_) => None,
    }
}

/// `PeerId::to_base58`: the text of the peer id. Bytes that hold none have an empty
/// text.
#[verifier::external_body]
pub(crate) fn peer_text(peer: &PeerId) -> (r: String)
    ensures
        r@ == text_of_peer(peer@),
{
    match libp2p::PeerId::from_bytes(peer.bytes.as_slice()) {
        Ok(p) => p.to_base58(),
        Err(_) => String::new(),
    }
}

/// `Multiaddr::from_str`: the address that the text stands for, or the text of the
/// error. Parts that the library does not look into keep their binary form.
#[verifier::external_body]
pub(crate) fn addr_from_text(text: &str) -> (r: Result<Multiaddr, String>)
    ensures
        match addr_of_text(text@) {
            Ok(a) => r matches Ok(m) && m@ == a,
            Err(e) => r matches Err(t) && t@ == e,
        },
{
    let addr = text.parse::<libp2p::Multiaddr>().map_err(|e| e.to_string())?;
    let parts = addr.iter().map(|p| match p {
        OutsidePart::Ip4(ip) => Protocol::Ip4(Ipv4::from_octets(ip.octets())),
        OutsidePart::Ip6(ip) => Protocol::Ip6(Ipv6::from_segments(ip.segments())),
        OutsidePart::Tcp(port) => Protocol::Tcp(port),
        OutsidePart::Udp(port) => Protocol::Udp(port),
        OutsidePart::QuicV1 => Protocol::QuicV1,
        OutsidePart::P2pCircuit => Protocol::P2pCircuit,
        OutsidePart::P2p(peer) => Protocol::P2p(PeerId { bytes: peer.to_bytes() }),
        other => Protocol::Other(libp2p::Multiaddr::from(other).to_vec()),
    });
    Ok(Multiaddr { parts: parts.collect() })
}

/// `PeerId::from_bytes`: the peer id that the bytes hold, or the text of the error.
#[verifier::external_body]
pub(crate) fn peer_from_bytes(bytes: &[u8]) -> (r: Result<PeerId, String>)
    ensures
        match peer_of_bytes(bytes@) {
            Ok(p) => r matches Ok(q) && q@ == p,
            Err(e) => r matches Err(t) && t@ == e,
        },
{
    match libp2p::PeerId::from_bytes(bytes) {
        Ok(p) => Ok(PeerId { bytes: p.to_bytes() }),
        Err(e) => Err(e.to_string()),
    }
}

/// `PublicKey::to_peer_id` of the key that `PublicKey::try_decode_protobuf` reads:
/// the peer id, or the text of the error.
#[verifier::external_body]
pub(crate) fn peer_from_key(key: &[u8]) -> (r: Result<PeerId, String>)
    ensures
        match peer_of_key(key@) {
            Ok(p) => r matches Ok(q) && q@ == p,
            Err(e) => r matches Err(t) && t@ == e,
        },
{
    match libp2p::identity::PublicKey::try_decode_protobuf(key) {
        Ok(k) => Ok(PeerId { bytes: k.to_peer_id().to_bytes() }),
        Err(e) => Err(e.to_string()),
    }
}

/// `Keypair::from_protobuf_encoding`: the key pair that the bytes hold, with its peer
/// id, or the text of the error.
#[verifier::external_body]
pub(crate) fn keypair_from_bytes(data: &[u8]) -> (r: Result<
    (libp2p::identity::Keypair, PeerId),
    String,
>)
    ensures
        match peer_of_keypair(data@) {
            Ok(p) => r matches Ok((k, q)) && q@ == p && k == keypair_of_bytes(data@),
            Err(e) => r matches Err(t) && t@ == e,
        },
{
    match libp2p::identity::Keypair::from_protobuf_encoding(data) {
        Ok(k) => {
            let peer = PeerId { bytes: k.public().to_peer_id().to_bytes() };
            Ok((k, peer))
        },
        Err(e) => Err(e.to_string()),
    }
}

/// `Keypair::generate_ed25519`: a new key pair, with the bytes that
/// `Keypair::to_protobuf_encoding` writes for it and its peer id. An Ed25519 key pair
/// always has such bytes, and `Keypair::from_protobuf_encoding` reads the same key
/// pair from them. Which key pair it is rests on chance.
#[verifier::external_body]
pub(crate) fn new_keypair() -> (r: Result<
    (libp2p::identity::Keypair, Vec<u8>, PeerId),
    String,
>)
    ensures
        r is Ok,
        peer_of_keypair(r->Ok_0.1@) == Ok::<Seq<u8>, Seq<char>>(r->Ok_0.2@),
        r->Ok_0.0 == keypair_of_bytes(r->Ok_0.1@),
{
    let k = libp2p::identity::Keypair::generate_ed25519();
    let peer = PeerId { bytes: k.public().to_peer_id().to_bytes() };
    match k.to_protobuf_encoding() {
        Ok(data) => Ok((k, data, peer)),
        Err(e) => Err(e.to_string()),
    }
}

/// `PublicKey::verify` with the key that `PublicKey::try_decode_protobuf` reads. A
/// key that it refuses accepts nothing.
#[verifier::external_body]
pub(crate) fn verify_signature(key: &[u8], message: &[u8], signature: &[u8]) -> (r: bool)
    ensures
        r == key_accepts(key@, message@, signature@),
{
    match libp2p::identity::PublicKey::try_decode_protobuf(key) {
        Ok(k) => k.verify(message, signature),
        Err(_) => false,
    }
}

} // verus!
