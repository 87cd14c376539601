//! Asking the relay who has a serial number.

use vstd::prelude::*;

use super::viewer::MediaPlayer;
use crate::net::addr::PeerId;
use crate::net::identity::{
    key_accepts, peer_from_bytes, peer_from_key, peer_of_bytes, peer_of_key, verify_signature,
};
use crate::proto::registry::{
    law_message_roundtrip, message_bytes, message_fits, parse_message, signed_payload,
    MessageView, RegistryMessage,
};
use crate::relay_server::registry::{registry_step, table_valid, Binding};

verus! {

broadcast use vstd::string::group_string_axioms;

/// Bytes after which an answer that is no message is given up.
pub const MAX_ANSWER_LEN: usize = 4096;

/// Why a serial number could not be resolved.
#[derive(Debug)]
pub enum QueryError {
    /// The peer id in the answer cannot be read, for this reason.
    InvalidPeerId(String),
    /// The public key in the answer cannot be read, for this reason.
    InvalidKey(String),
    /// The public key belongs to another peer.
    KeyMismatch,
    /// The signature is wrong: the binding may have been tampered with.
    BadSignature,
    /// The relay does not know the serial.
    NotFound,
    /// The relay reports an error.
    Relay(String),
    /// A message that is no answer.
    UnexpectedResponse,
}

/// A query's outcome, with sequences for vectors and texts.
pub enum QueryOutcome {
    Resolved { peer: Seq<u8>, pubkey: Seq<u8> },
    InvalidPeerId(Seq<char>),
    InvalidKey(Seq<char>),
    KeyMismatch,
    BadSignature,
    NotFound,
    Relay(Seq<char>),
    UnexpectedResponse,
}

/// What to make of a binding, by what was found out about it.
pub open spec fn binding_outcome(
    claimed: Result<Seq<u8>, Seq<char>>,
    key_peer: Result<Seq<u8>, Seq<char>>,
    signed: bool,
    pubkey: Seq<u8>,
) -> QueryOutcome {
    match (claimed, key_peer) {
        (Err(e), _) => QueryOutcome::InvalidPeerId(e),
        (_, Err(e)) => QueryOutcome::InvalidKey(e),
        (Ok(peer), Ok(owner)) => if owner != peer {
            QueryOutcome::KeyMismatch
        } else if !signed {
            QueryOutcome::BadSignature
        } else {
            QueryOutcome::Resolved { peer, pubkey }
        },
    }
}

/// What to make of the relay's answer to a query for `serial`.
pub open spec fn query_outcome(serial: Seq<char>, m: MessageView) -> QueryOutcome {
    match m {
        MessageView::Response { peer_id, pubkey, signature } => binding_outcome(
            peer_of_bytes(peer_id),
            peer_of_key(pubkey),
            key_accepts(pubkey, signed_payload(serial, peer_id), signature),
            pubkey,
        ),
        MessageView::NotFound => QueryOutcome::NotFound,
        MessageView::Error { message } => QueryOutcome::Relay(message),
        _ => QueryOutcome::UnexpectedResponse,
    }
}

/// Whether a result is this outcome.
pub open spec fn is_outcome(
    r: Result<(PeerId, Vec<u8>), QueryError>,
    outcome: QueryOutcome,
) -> bool {
    match outcome {
        QueryOutcome::Resolved { peer, pubkey } => r matches Ok((p, k)) && p@ == peer && k@
            == pubkey,
        QueryOutcome::InvalidPeerId(e) => r matches Err(QueryError::InvalidPeerId(t)) && t@ == e,
        QueryOutcome::InvalidKey(e) => r matches Err(QueryError::InvalidKey(t)) && t@ == e,
        QueryOutcome::KeyMismatch => r matches Err(QueryError::KeyMismatch),
        QueryOutcome::BadSignature => r matches Err(QueryError::BadSignature),
        QueryOutcome::NotFound => r matches Err(QueryError::NotFound),
        QueryOutcome::Relay(text) => r matches Err(QueryError::Relay(t)) && t@ == text,
        QueryOutcome::UnexpectedResponse => r matches Err(QueryError::UnexpectedResponse),
    }
}

/// The query for a serial number.
pub fn registry_query(serial: &str) -> (r: RegistryMessage)
    ensures
        r@ == (MessageView::Query { serial: serial@ }),
{
    RegistryMessage::Query { serial: serial.to_owned() }
}

/// Judges a binding by what was found out about it: `claimed` is the peer id in it,
/// `key_peer` that of its key, or why there is none, and `signed` tells whether the key
/// accepts its signature.
pub fn judge_binding(
    claimed: Result<PeerId, String>,
    key_peer: Result<PeerId, String>,
    signed: bool,
    pubkey: Vec<u8>,
) -> (r: Result<(PeerId, Vec<u8>), QueryError>)
    ensures
        is_outcome(
            r,
            binding_outcome(
                match claimed {
                    Ok(p) => Ok(p@),
                    Err(e) => Err(e@),
                },
                match key_peer {
                    Ok(p) => Ok(p@),
                    Err(e) => Err(e@),
                },
                signed,
                pubkey@,
            ),
        ),
{
    let peer = match claimed {
        Ok(p) => p,
        Err(e) => {
            return Err(QueryError::InvalidPeerId(e));
        },
    };
    let owner = match key_peer {
        Ok(p) => p,
        Err(e) => {
            return Err(QueryError::InvalidKey(e));
        },
    };
    if !owner.same(&peer) {
        return Err(QueryError::KeyMismatch);
    }
    if !signed {
        return Err(QueryError::BadSignature);
    }
    Ok((peer, pubkey))
}

impl MediaPlayer {
    /// What to make of the relay's answer to a query for `serial`: the camera's peer id
    /// and public key, once the signature has been checked.
    pub fn query_registry(serial: &str, answer: RegistryMessage) -> (r: Result<
        (PeerId, Vec<u8>),
        QueryError,
    >)
        ensures
            is_outcome(r, query_outcome(serial@, answer@)),
    {
        match answer {
            RegistryMessage::Response { peer_id, pubkey, signature } => {
                let claimed = peer_from_bytes(peer_id.as_slice());
                let key_peer = peer_from_key(pubkey.as_slice());
                let payload = RegistryMessage::sign_payload(serial, peer_id.as_slice());
                let signed = verify_signature(
                    pubkey.as_slice(),
                    payload.as_slice(),
                    signature.as_slice(),
                );
                judge_binding(claimed, key_peer, signed, pubkey)
            },
            RegistryMessage::NotFound => Err(QueryError::NotFound),
            RegistryMessage::Error { message } => Err(QueryError::Relay(message)),
            _ => Err(QueryError::UnexpectedResponse),
        }
    }
}

/// The text of the error for the user. `serial` is what was asked for.
pub fn query_error_text(error: &QueryError, serial: &str) -> (r: String)
    ensures
        r@ == match *error {
            QueryError::InvalidPeerId(e) => "invalid peer_id from registry: "@ + e@,
            QueryError::InvalidKey(e) => "invalid pubkey from registry: "@ + e@,
            QueryError::KeyMismatch => "registry: pubkey/peer_id 不匹配"@,
            QueryError::BadSignature => "registry: 签名无效，绑定可能被篡改"@,
            QueryError::NotFound => "serial '"@ + serial@
                + "' 未在 relay 注册表中找到 (相机是否已上线？)"@,
            QueryError::Relay(message) => "relay registry 错误: "@ + message@,
            QueryError::UnexpectedResponse => "registry: 意外的响应类型"@,
        },
{
    match error {
        QueryError::InvalidPeerId(e) => {
            let mut s = "invalid peer_id from registry: ".to_owned();
            s.append(e.as_str());
            s
        },
        QueryError::InvalidKey(e) => {
            let mut s = "invalid pubkey from registry: ".to_owned();
            s.append(e.as_str());
            s
        },
        QueryError::KeyMismatch => "registry: pubkey/peer_id 不匹配".to_owned(),
        QueryError::BadSignature => "registry: 签名无效，绑定可能被篡改".to_owned(),
        QueryError::NotFound => {
            let mut s = "serial '".to_owned();
            s.append(serial);
            s.append("' 未在 relay 注册表中找到 (相机是否已上线？)");
            s
        },
        QueryError::Relay(message) => {
            let mut s = "relay registry 错误: ".to_owned();
            s.append(message.as_str());
            s
        },
        QueryError::UnexpectedResponse => "registry: 意外的响应类型".to_owned(),
    }
}

/// A serial resolves only to the peer whose own key has signed it.
pub proof fn law_resolved_is_signed(serial: Seq<char>, m: MessageView)
    requires
        query_outcome(serial, m) is Resolved,
    ensures
        m matches MessageView::Response { peer_id, pubkey, signature } && peer_of_key(pubkey).ok()
            == Some(query_outcome(serial, m)->peer) && key_accepts(
            pubkey,
            signed_payload(serial, peer_id),
            signature,
        ),
{
}

/// What a camera has registered, a viewer gets back: the relay accepts a binding
/// that proves itself, and its answer to the viewer's query, sent over the wire,
/// resolves the serial to the camera.
pub proof fn law_registered_camera_is_found(
    table: Map<Seq<char>, Binding>,
    camera: Seq<u8>,
    viewer: Seq<u8>,
    serial: Seq<char>,
    b: Binding,
)
    requires
        peer_of_bytes(b.peer_id).ok() == Some(camera),
        peer_of_key(b.pubkey).ok() == Some(camera),
        key_accepts(b.pubkey, signed_payload(serial, b.peer_id), b.signature),
        b.peer_id.len() < 0x1_0000,
        b.pubkey.len() < 0x1_0000,
        b.signature.len() < 0x1_0000,
    ensures
        ({
            let registered = registry_step(
                table,
                camera,
                MessageView::Register {
                    serial,
                    peer_id: b.peer_id,
                    pubkey: b.pubkey,
                    signature: b.signature,
                },
            );
            let answer = registry_step(
                registered.table,
                viewer,
                MessageView::Query { serial },
            ).reply;
            &&& registered.result is Ok
            &&& answer matches Some(m) && parse_message(message_bytes(m)) matches Ok(n)
                && query_outcome(serial, n) == (QueryOutcome::Resolved {
                peer: camera,
                pubkey: b.pubkey,
            })
        }),
{
    let m = MessageView::Response {
        peer_id: b.peer_id,
        pubkey: b.pubkey,
        signature: b.signature,
    };
    assert(message_fits(m));
    law_message_roundtrip(m);
}

/// Whatever is in a table where every binding proves itself, the relay's answer to a
/// query for a registered serial resolves it.
pub proof fn law_valid_table_resolves(
    table: Map<Seq<char>, Binding>,
    viewer: Seq<u8>,
    serial: Seq<char>,
)
    requires
        table_valid(table),
        table.contains_key(serial),
    ensures
        registry_step(table, viewer, MessageView::Query { serial }).reply matches Some(m)
            && query_outcome(serial, m) == (QueryOutcome::Resolved {
            peer: peer_of_bytes(table[serial].peer_id)->Ok_0,
            pubkey: table[serial].pubkey,
        }),
{
}

/// The converse of [`law_resolved_is_signed`]: a binding whose key is that of the peer in
/// it, and whose signature of the serial and the peer id that key accepts, resolves the
/// serial to that peer with that key.
pub proof fn law_signed_binding_resolves(
    serial: Seq<char>,
    peer_id: Seq<u8>,
    pubkey: Seq<u8>,
    signature: Seq<u8>,
    peer: Seq<u8>,
)
    requires
        peer_of_bytes(peer_id).ok() == Some(peer),
        peer_of_key(pubkey).ok() == Some(peer),
        key_accepts(pubkey, vstd::utf8::encode_utf8(serial) + peer_id, signature),
    ensures
        query_outcome(serial, (MessageView::Response { peer_id, pubkey, signature })) == (
        QueryOutcome::Resolved { peer, pubkey }),
{
}

/// Why an answer does not resolve the serial: the first thing that is wrong with the
/// binding, or what the relay says instead.
pub proof fn law_unresolved_serials(
    serial: Seq<char>,
    peer_id: Seq<u8>,
    pubkey: Seq<u8>,
    signature: Seq<u8>,
    message: Seq<char>,
)
    ensures
        ({
            let outcome = query_outcome(
                serial,
                (MessageView::Response { peer_id, pubkey, signature }),
            );
            let peer = peer_of_bytes(peer_id);
            let owner = peer_of_key(pubkey);
            &&& peer matches Err(e) ==> outcome == QueryOutcome::InvalidPeerId(e)
            &&& peer is Ok ==> (owner matches Err(e) ==> outcome == QueryOutcome::InvalidKey(e))
            &&& peer is Ok && owner is Ok && peer->Ok_0 != owner->Ok_0 ==> outcome
                == QueryOutcome::KeyMismatch
            &&& peer is Ok && owner is Ok && peer->Ok_0 == owner->Ok_0 && !key_accepts(
                pubkey,
                vstd::utf8::encode_utf8(serial) + peer_id,
                signature,
            ) ==> outcome == QueryOutcome::BadSignature
        }),
        query_outcome(serial, MessageView::NotFound) == QueryOutcome::NotFound,
        query_outcome(serial, (MessageView::Error { message })) == QueryOutcome::Relay(message),
        query_outcome(serial, (MessageView::Query { serial: message }))
            == QueryOutcome::UnexpectedResponse,
        query_outcome(
            serial,
            (MessageView::Register { serial: message, peer_id, pubkey, signature }),
        ) == QueryOutcome::UnexpectedResponse,
{
}

} // verus!
