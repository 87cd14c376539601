//! The relay's registry of cameras.

use vstd::hash_map::StringHashMap;
use vstd::prelude::*;

use crate::net::addr::PeerId;
use crate::net::identity::{
    key_accepts, peer_from_bytes, peer_from_key, peer_of_bytes, peer_of_key, peer_text,
    text_of_peer, verify_signature,
};
use crate::proto::registry::{signed_payload, MessageView, RegistryMessage};
use crate::text::{byte_list, push_byte_list, quote, quoted};

verus! {

broadcast use vstd::string::group_string_axioms;

/// Bytes after which a request that is no message is given up.
pub const MAX_REQUEST_LEN: usize = 8192;

/// Answer to a registration for another peer than the one connected.
pub const NOT_CONNECTION_PEER: &'static str = "peer_id 与连接身份不符 (未认证)";

/// Answer to a registration whose key is not the peer's.
pub const KEY_MISMATCH: &'static str = "pubkey 与 peer_id 不匹配";

/// Answer to a registration whose signature is wrong.
pub const BAD_SIGNATURE: &'static str = "签名无效";

/// A signed binding of a serial number.
#[derive(Debug, Clone)]
pub struct RegistryEntry {
    pub peer_id: Vec<u8>,
    /// In protobuf form.
    pub pubkey: Vec<u8>,
    /// Of `serial || peer_id`.
    pub signature: Vec<u8>,
}

/// A binding with sequences for vectors.
pub struct Binding {
    pub peer_id: Seq<u8>,
    pub pubkey: Seq<u8>,
    pub signature: Seq<u8>,
}

impl View for RegistryEntry {
    type V = Binding;

    open spec fn view(&self) -> Binding {
        Binding { peer_id: self.peer_id@, pubkey: self.pubkey@, signature: self.signature@ }
    }
}

/// Whether a binding proves itself: the key is the peer's, and it accepts the
/// signature of the serial and the peer id.
pub open spec fn binding_valid(serial: Seq<char>, b: Binding) -> bool {
    &&& peer_of_bytes(b.peer_id) is Ok
    &&& peer_of_key(b.pubkey) == peer_of_bytes(b.peer_id)
    &&& key_accepts(b.pubkey, signed_payload(serial, b.peer_id), b.signature)
}

/// Why a request is refused.
#[derive(Debug)]
pub enum Refusal {
    /// The peer id cannot be read, for this reason.
    InvalidPeerId(String),
    /// The peer id is not that of the connection.
    NotConnectionPeer { claimed: PeerId, remote: PeerId },
    /// The public key cannot be read, for this reason.
    InvalidKey(String),
    /// The public key belongs to another peer.
    KeyMismatch,
    /// The signature is wrong.
    BadSignature,
    /// A message that the relay sends, not one that it gets.
    UnexpectedMessage,
}

/// Why a request is refused, with sequences for texts and peer ids.
pub enum RefusalView {
    InvalidPeerId(Seq<char>),
    NotConnectionPeer { claimed: Seq<u8>, remote: Seq<u8> },
    InvalidKey(Seq<char>),
    KeyMismatch,
    BadSignature,
    UnexpectedMessage,
}

impl View for Refusal {
    type V = RefusalView;

    open spec fn view(&self) -> RefusalView {
        match self {
            Refusal::InvalidPeerId(e) => RefusalView::InvalidPeerId(e@),
            Refusal::NotConnectionPeer { claimed, remote } => RefusalView::NotConnectionPeer {
                claimed: claimed@,
                remote: remote@,
            },
            Refusal::InvalidKey(e) => RefusalView::InvalidKey(e@),
            Refusal::KeyMismatch => RefusalView::KeyMismatch,
            Refusal::BadSignature => RefusalView::BadSignature,
            Refusal::UnexpectedMessage => RefusalView::UnexpectedMessage,
        }
    }
}

/// The text of the error with which a refused request ends at the relay.
pub fn refusal_error_text(refusal: &Refusal) -> (r: String)
    ensures
        r@ == match refusal@ {
            RefusalView::InvalidPeerId(e) => "invalid peer_id: "@ + e,
            RefusalView::NotConnectionPeer { claimed, remote } => "register rejected: claimed "@
                + text_of_peer(claimed) + " != connection "@ + text_of_peer(remote),
            RefusalView::InvalidKey(e) => "invalid pubkey: "@ + e,
            RefusalView::KeyMismatch => "register rejected: pubkey/peer_id mismatch"@,
            RefusalView::BadSignature => "register rejected: bad signature"@,
            RefusalView::UnexpectedMessage => "unexpected registry message"@,
        },
{
    match refusal {
        Refusal::InvalidPeerId(e) => {
            let mut s = "invalid peer_id: ".to_owned();
            s.append(e.as_str());
            s
        },
        Refusal::NotConnectionPeer { claimed, remote } => {
            let mut s = "register rejected: claimed ".to_owned();
            s.append(peer_text(claimed).as_str());
            s.append(" != connection ");
            s.append(peer_text(remote).as_str());
            s
        },
        Refusal::InvalidKey(e) => {
            let mut s = "invalid pubkey: ".to_owned();
            s.append(e.as_str());
            s
        },
        Refusal::KeyMismatch => "register rejected: pubkey/peer_id mismatch".to_owned(),
        Refusal::BadSignature => "register rejected: bad signature".to_owned(),
        Refusal::UnexpectedMessage => "unexpected registry message".to_owned(),
    }
}

/// Whether a registration is accepted: `claimed` is the peer id in it, `key_peer`
/// that of its key, or why there is none, and `signed` tells whether the key accepts
/// its signature.
pub open spec fn verdict(
    claimed: Result<Seq<u8>, Seq<char>>,
    remote: Seq<u8>,
    key_peer: Result<Seq<u8>, Seq<char>>,
    signed: bool,
) -> Result<(), RefusalView> {
    match claimed {
        Err(e) => Err(RefusalView::InvalidPeerId(e)),
        Ok(peer) => if peer != remote {
            Err(RefusalView::NotConnectionPeer { claimed: peer, remote })
        } else {
            match key_peer {
                Err(e) => Err(RefusalView::InvalidKey(e)),
                Ok(owner) => if owner != peer {
                    Err(RefusalView::KeyMismatch)
                } else if !signed {
                    Err(RefusalView::BadSignature)
                } else {
                    Ok(())
                },
            }
        },
    }
}

/// Whether a request ended so.
pub open spec fn ended_as(r: Result<(), Refusal>, end: Result<(), RefusalView>) -> bool {
    match end {
        Ok(_) => r is Ok,
        Err(v) => r matches Err(refusal) && refusal@ == v,
    }
}

/// The verdict on a registration that arrives on a connection of `remote`.
pub open spec fn registration_verdict(
    remote: Seq<u8>,
    serial: Seq<char>,
    b: Binding,
) -> Result<(), RefusalView> {
    verdict(
        peer_of_bytes(b.peer_id),
        remote,
        peer_of_key(b.pubkey),
        key_accepts(b.pubkey, signed_payload(serial, b.peer_id), b.signature),
    )
}

/// The text that goes back with a refusal, where there is one. A registration that
/// cannot be read is dropped without an answer.
pub open spec fn refusal_text(refusal: RefusalView, m: MessageView) -> Option<Seq<char>> {
    match refusal {
        RefusalView::InvalidPeerId(_) => None,
        RefusalView::NotConnectionPeer { .. } => Some(NOT_CONNECTION_PEER@),
        RefusalView::InvalidKey(_) => None,
        RefusalView::KeyMismatch => Some(KEY_MISMATCH@),
        RefusalView::BadSignature => Some(BAD_SIGNATURE@),
        RefusalView::UnexpectedMessage => Some("unexpected message: "@ + message_text(m)),
    }
}

/// A message for the log, as `{:?}` writes it.
pub open spec fn message_text(m: MessageView) -> Seq<char> {
    match m {
        MessageView::Register { serial, peer_id, pubkey, signature } => "Register { serial: "@
            + quoted(serial) + ", peer_id: "@ + byte_list(peer_id) + ", pubkey: "@ + byte_list(
            pubkey,
        ) + ", signature: "@ + byte_list(signature) + " }"@,
        MessageView::Query { serial } => "Query { serial: "@ + quoted(serial) + " }"@,
        MessageView::Response { peer_id, pubkey, signature } => "Response { peer_id: "@ + byte_list(
            peer_id,
        ) + ", pubkey: "@ + byte_list(pubkey) + ", signature: "@ + byte_list(signature) + " }"@,
        MessageView::NotFound => "NotFound"@,
        MessageView::Error { message } => "Error { message: "@ + quoted(message) + " }"@,
    }
}

/// What a request leads to.
pub struct Step {
    pub table: Map<Seq<char>, Binding>,
    pub reply: Option<MessageView>,
    pub result: Result<(), RefusalView>,
}

/// A refusal: the table stays as it is.
pub open spec fn refused(
    table: Map<Seq<char>, Binding>,
    refusal: RefusalView,
    m: MessageView,
) -> Step {
    Step {
        table,
        reply: match refusal_text(refusal, m) {
            Some(message) => Some(MessageView::Error { message }),
            None => None,
        },
        result: Err(refusal),
    }
}

/// What the message `m` on a connection of `remote` leads to.
pub open spec fn registry_step(
    table: Map<Seq<char>, Binding>,
    remote: Seq<u8>,
    m: MessageView,
) -> Step {
    match m {
        MessageView::Register { serial, peer_id, pubkey, signature } => {
            let b = Binding { peer_id, pubkey, signature };
            match registration_verdict(remote, serial, b) {
                Ok(_) => Step {
                    table: table.insert(serial, b),
                    reply: Some(MessageView::Response { peer_id, pubkey, signature }),
                    result: Ok(()),
                },
                Err(refusal) => refused(table, refusal, m),
            }
        },
        MessageView::Query { serial } => Step {
            table,
            reply: if table.contains_key(serial) {
                let b = table[serial];
                Some(
                    MessageView::Response {
                        peer_id: b.peer_id,
                        pubkey: b.pubkey,
                        signature: b.signature,
                    },
                )
            } else {
                Some(MessageView::NotFound)
            },
            result: Ok(()),
        },
        _ => refused(table, RefusalView::UnexpectedMessage, m),
    }
}

/// Judges a registration by what was found out about it.
pub fn judge_registration(
    claimed: Result<PeerId, String>,
    remote: &PeerId,
    key_peer: Result<PeerId, String>,
    signed: bool,
) -> (r: Result<(), Refusal>)
    ensures
        ended_as(
            r,
            verdict(
                match claimed {
                    Ok(p) => Ok(p@),
                    Err(e) => Err(e@),
                },
                remote@,
                match key_peer {
                    Ok(p) => Ok(p@),
                    Err(e) => Err(e@),
                },
                signed,
            ),
        ),
{
    let peer = match claimed {
        Ok(p) => p,
        Err(e) => {
            return Err(Refusal::InvalidPeerId(e));
        },
    };
    if !peer.same(remote) {
        return Err(Refusal::NotConnectionPeer { claimed: peer, remote: remote.clone() });
    }
    let owner = match key_peer {
        Ok(p) => p,
        Err(e) => {
            return Err(Refusal::InvalidKey(e));
        },
    };
    if !owner.same(&peer) {
        return Err(Refusal::KeyMismatch);
    }
    if !signed {
        return Err(Refusal::BadSignature);
    }
    Ok(())
}

/// A message for the log.
pub fn describe_message(msg: &RegistryMessage) -> (r: String)
    ensures
        r@ == message_text(msg@),
{
    match msg {
        RegistryMessage::Register { serial, peer_id, pubkey, signature } => {
            let mut s = "Register { serial: ".to_owned();
            s.append(quote(serial.as_str()).as_str());
            s.append(", peer_id: ");
            push_byte_list(&mut s, peer_id.as_slice());
            s.append(", pubkey: ");
            push_byte_list(&mut s, pubkey.as_slice());
            s.append(", signature: ");
            push_byte_list(&mut s, signature.as_slice());
            s.append(" }");
            s
        },
        RegistryMessage::Query { serial } => {
            let mut s = "Query { serial: ".to_owned();
            s.append(quote(serial.as_str()).as_str());
            s.append(" }");
            s
        },
        RegistryMessage::Response { peer_id, pubkey, signature } => {
            let mut s = "Response { peer_id: ".to_owned();
            push_byte_list(&mut s, peer_id.as_slice());
            s.append(", pubkey: ");
            push_byte_list(&mut s, pubkey.as_slice());
            s.append(", signature: ");
            push_byte_list(&mut s, signature.as_slice());
            s.append(" }");
            s
        },
        RegistryMessage::NotFound => "NotFound".to_owned(),
        RegistryMessage::Error { message } => {
            let mut s = "Error { message: ".to_owned();
            s.append(quote(message.as_str()).as_str());
            s.append(" }");
            s
        },
    }
}

/// What the relay sends back and how the request ended.
#[derive(Debug)]
pub struct Answer {
    pub reply: Option<RegistryMessage>,
    pub result: Result<(), Refusal>,
}

fn refuse(refusal: Refusal, msg: &RegistryMessage) -> (r: Answer)
    ensures
        r.result == Err::<(), Refusal>(refusal),
        match refusal_text(refusal@, msg@) {
            Some(text) => r.reply matches Some(m) && m@ == (MessageView::Error { message: text }),
            None => r.reply is None,
        },
{
    let text = match &refusal {
        Refusal::InvalidPeerId(_) => None,
        Refusal::NotConnectionPeer { .. } => Some(NOT_CONNECTION_PEER.to_owned()),
        Refusal::InvalidKey(_) => None,
        Refusal::KeyMismatch => Some(KEY_MISMATCH.to_owned()),
        Refusal::BadSignature => Some(BAD_SIGNATURE.to_owned()),
        Refusal::UnexpectedMessage => {
            let mut s = "unexpected message: ".to_owned();
            s.append(describe_message(msg).as_str());
            Some(s)
        },
    };
    let reply = match text {
        Some(message) => Some(RegistryMessage::Error { message }),
        None => None,
    };
    Answer { reply, result: Err(refusal) }
}

/// The bindings that cameras have registered.
pub struct RegistryTable {
    entries: StringHashMap<RegistryEntry>,
}

impl View for RegistryTable {
    type V = Map<Seq<char>, Binding>;

    closed spec fn view(&self) -> Map<Seq<char>, Binding> {
        self.entries@.map_values(|e: RegistryEntry| e@)
    }
}

/// Whether every binding in a table proves itself.
pub open spec fn table_valid(table: Map<Seq<char>, Binding>) -> bool {
    forall|serial: Seq<char>|
        #[trigger] table.contains_key(serial) ==> binding_valid(serial, table[serial])
}

impl RegistryTable {
    /// No bindings yet.
    pub fn new() -> (r: RegistryTable)
        ensures
            r@ == Map::<Seq<char>, Binding>::empty(),
            table_valid(r@),
    {
        let r = RegistryTable { entries: StringHashMap::new() };
        assert(r@ =~= Map::<Seq<char>, Binding>::empty());
        r
    }

    /// Handles the message `msg` on a connection whose peer was authenticated as
    /// `remote`.
    pub fn handle_message(&mut self, remote: &PeerId, msg: RegistryMessage) -> (r: Answer)
        ensures
            final(self)@ == registry_step(old(self)@, remote@, msg@).table,
            ended_as(r.result, registry_step(old(self)@, remote@, msg@).result),
            match registry_step(old(self)@, remote@, msg@).reply {
                Some(m) => r.reply matches Some(q) && q@ == m,
                None => r.reply is None,
            },
            table_valid(old(self)@) ==> table_valid(final(self)@),
    {
        let ghost before = self@;
        match &msg {
            RegistryMessage::Register { serial, peer_id, pubkey, signature } => {
                let claimed = peer_from_bytes(peer_id.as_slice());
                let key_peer = peer_from_key(pubkey.as_slice());
                let payload = RegistryMessage::sign_payload(serial.as_str(), peer_id.as_slice());
                let signed = verify_signature(
                    pubkey.as_slice(),
                    payload.as_slice(),
                    signature.as_slice(),
                );
                match judge_registration(claimed, remote, key_peer, signed) {
                    Err(refusal) => refuse(refusal, &msg),
                    Ok(_) => {
                        let entry = RegistryEntry {
                            peer_id: vstd::slice::slice_to_vec(peer_id.as_slice()),
                            pubkey: vstd::slice::slice_to_vec(pubkey.as_slice()),
                            signature: vstd::slice::slice_to_vec(signature.as_slice()),
                        };
                        let reply = RegistryMessage::Response {
                            peer_id: vstd::slice::slice_to_vec(peer_id.as_slice()),
                            pubkey: vstd::slice::slice_to_vec(pubkey.as_slice()),
                            signature: vstd::slice::slice_to_vec(signature.as_slice()),
                        };
                        self.entries.insert(serial.clone(), entry);
                        assert(self@ =~= before.insert(serial@, entry@));
                        Answer { reply: Some(reply), result: Ok(()) }
                    },
                }
            },
            RegistryMessage::Query { serial } => {
                let reply = match self.entries.get(serial.as_str()) {
                    Some(e) => RegistryMessage::Response {
                        peer_id: vstd::slice::slice_to_vec(e.peer_id.as_slice()),
                        pubkey: vstd::slice::slice_to_vec(e.pubkey.as_slice()),
                        signature: vstd::slice::slice_to_vec(e.signature.as_slice()),
                    },
                    None => RegistryMessage::NotFound,
                };
                Answer { reply: Some(reply), result: Ok(()) }
            },
            _ => refuse(Refusal::UnexpectedMessage, &msg),
        }
    }
}

/// A registration is accepted exactly where it comes from the peer that it names,
/// with that peer's key and a signature that the key accepts.
pub proof fn law_accepted_registration(
    table: Map<Seq<char>, Binding>,
    remote: Seq<u8>,
    serial: Seq<char>,
    b: Binding,
)
    ensures
        registry_step(
            table,
            remote,
            (MessageView::Register {
                serial,
                peer_id: b.peer_id,
                pubkey: b.pubkey,
                signature: b.signature,
            }),
        ).result is Ok <==> peer_of_bytes(b.peer_id).ok() == Some(remote) && binding_valid(serial, b),
{
}

/// A message that is refused changes no binding, and one that is not a
/// registration changes none either.
pub proof fn law_refused_changes_nothing(
    table: Map<Seq<char>, Binding>,
    remote: Seq<u8>,
    m: MessageView,
)
    requires
        registry_step(table, remote, m).result is Err || !(m is Register),
    ensures
        registry_step(table, remote, m).table == table,
{
}

/// Every binding in the table proves itself, whatever messages arrive.
pub proof fn law_table_stays_valid(
    table: Map<Seq<char>, Binding>,
    remote: Seq<u8>,
    m: MessageView,
)
    requires
        table_valid(table),
    ensures
        table_valid(registry_step(table, remote, m).table),
{
}

/// A query for a serial is answered with the binding that was last accepted for it,
/// whoever asks; what is known of other serials stays as it was.
pub proof fn law_query_after_register(
    table: Map<Seq<char>, Binding>,
    camera: Seq<u8>,
    viewer: Seq<u8>,
    serial: Seq<char>,
    b: Binding,
    other: Seq<char>,
)
    requires
        peer_of_bytes(b.peer_id).ok() == Some(camera),
        binding_valid(serial, b),
        other != serial,
    ensures
        ({
            let after = registry_step(
                table,
                camera,
                MessageView::Register {
                    serial,
                    peer_id: b.peer_id,
                    pubkey: b.pubkey,
                    signature: b.signature,
                },
            ).table;
            &&& registry_step(after, viewer, MessageView::Query { serial }).reply == Some(
                MessageView::Response {
                    peer_id: b.peer_id,
                    pubkey: b.pubkey,
                    signature: b.signature,
                },
            )
            &&& registry_step(after, viewer, MessageView::Query { serial: other }).reply
                == registry_step(table, viewer, MessageView::Query { serial: other }).reply
        }),
{
}

/// A serial that nobody has registered is not found.
pub proof fn law_unknown_serial(
    table: Map<Seq<char>, Binding>,
    viewer: Seq<u8>,
    serial: Seq<char>,
)
    requires
        !table.contains_key(serial),
    ensures
        registry_step(table, viewer, MessageView::Query { serial }).reply == Some(
            MessageView::NotFound,
        ),
{
}

/// A registration is refused for the first thing that is wrong with it: a peer id that
/// cannot be read, one that is not the connection's, a key that cannot be read, a key of
/// another peer, or a signature that the key does not accept.
pub proof fn law_refusal_order(
    table: Map<Seq<char>, Binding>,
    remote: Seq<u8>,
    serial: Seq<char>,
    b: Binding,
)
    ensures
        ({
            let end = registry_step(
                table,
                remote,
                (MessageView::Register {
                    serial,
                    peer_id: b.peer_id,
                    pubkey: b.pubkey,
                    signature: b.signature,
                }),
            ).result;
            let peer = peer_of_bytes(b.peer_id);
            let owner = peer_of_key(b.pubkey);
            &&& peer matches Err(e) ==> end == Err::<(), RefusalView>(RefusalView::InvalidPeerId(e))
            &&& peer matches Ok(p) ==> p != remote ==> end == Err::<(), RefusalView>(
                RefusalView::NotConnectionPeer { claimed: p, remote },
            )
            &&& peer.ok() == Some(remote) ==> (owner matches Err(e) ==> end == Err::<(), RefusalView>(
                RefusalView::InvalidKey(e),
            ))
            &&& peer.ok() == Some(remote) ==> (owner matches Ok(o) ==> o != remote ==> end == Err::<
                (),
                RefusalView,
            >(RefusalView::KeyMismatch))
            &&& peer.ok() == Some(remote) && owner.ok() == Some(remote) ==> if key_accepts(
                b.pubkey,
                signed_payload(serial, b.peer_id),
                b.signature,
            ) {
                end is Ok
            } else {
                end == Err::<(), RefusalView>(RefusalView::BadSignature)
            }
        }),
{
}

/// An accepted registration is stored under its serial, in place of an earlier one, and
/// answered with the binding itself.
pub proof fn law_accepted_binding_is_stored(
    table: Map<Seq<char>, Binding>,
    remote: Seq<u8>,
    serial: Seq<char>,
    b: Binding,
)
    requires
        peer_of_bytes(b.peer_id).ok() == Some(remote),
        peer_of_key(b.pubkey).ok() == Some(remote),
        key_accepts(b.pubkey, signed_payload(serial, b.peer_id), b.signature),
    ensures
        ({
            let step = registry_step(
                table,
                remote,
                (MessageView::Register {
                    serial,
                    peer_id: b.peer_id,
                    pubkey: b.pubkey,
                    signature: b.signature,
                }),
            );
            &&& step.table.contains_key(serial) && step.table[serial] == b
            &&& step.table.remove(serial) == table.remove(serial)
            &&& step.reply == Some(
                MessageView::Response {
                    peer_id: b.peer_id,
                    pubkey: b.pubkey,
                    signature: b.signature,
                },
            )
        }),
{
    assert(table.insert(serial, b).remove(serial) =~= table.remove(serial));
}

/// What goes back with a refusal: nothing where something could not be read, else an
/// error with its text.
pub proof fn law_answers_to_refusals(
    table: Map<Seq<char>, Binding>,
    m: MessageView,
    e: Seq<char>,
    claimed: Seq<u8>,
    remote: Seq<u8>,
)
    ensures
        refused(table, RefusalView::InvalidPeerId(e), m).reply is None,
        refused(table, RefusalView::InvalidKey(e), m).reply is None,
        refused(table, (RefusalView::NotConnectionPeer { claimed, remote }), m).reply == Some(
            MessageView::Error { message: "peer_id 与连接身份不符 (未认证)"@ },
        ),
        refused(table, RefusalView::KeyMismatch, m).reply == Some(
            MessageView::Error { message: "pubkey 与 peer_id 不匹配"@ },
        ),
        refused(table, RefusalView::BadSignature, m).reply == Some(
            MessageView::Error { message: "签名无效"@ },
        ),
        refused(table, RefusalView::UnexpectedMessage, m).reply == Some(
            MessageView::Error { message: "unexpected message: "@ + message_text(m) },
        ),
{
}

/// A message that a relay sends and never gets is refused as unexpected, from whoever it
/// comes.
pub proof fn law_unexpected_messages(
    table: Map<Seq<char>, Binding>,
    remote: Seq<u8>,
    m: MessageView,
)
    requires
        m is Response || m is NotFound || m is Error,
    ensures
        registry_step(table, remote, m).result == Err::<(), RefusalView>(
            RefusalView::UnexpectedMessage,
        ),
        registry_step(table, remote, m).table == table,
        registry_step(table, remote, m).reply matches Some(MessageView::Error { .. }),
{
}

} // verus!
