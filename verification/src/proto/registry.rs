//! The registry that binds a camera's short serial number to its peer id.
//!
//! A serial number is public and has few bits, so it serves to look a camera up,
//! never to derive a key. The camera signs `serial || peer_id` with its own key and
//! registers the binding with the relay. A viewer that knows the serial asks the
//! relay, checks the signature with the public key in the answer, and dials the
//! peer id.

use vstd::prelude::*;

use crate::be_bytes::{
    be_bytes, be_read, be_u16, be_value, lemma_be_bytes_len, lemma_be_bytes_wrap,
    lemma_be_inverse, lemma_be_roundtrip, lemma_be_value_bound, lemma_byte_ranges,
};
use crate::byte_buf::{
    buffer_contents, buffer_limit, buffer_new, buffer_put_slice, buffer_put_u8, buffer_slice,
    slice_advance, slice_get_u8,
};
use crate::text::{decimal, push_decimal, string_from_utf8, utf8_error};

verus! {

broadcast use vstd::string::group_string_axioms;

/// Name of the stream protocol between the relay and its clients.
pub const REGISTRY_PROTOCOL: &'static str = "/p2p-camera/registry/1.0.0";

pub const MSG_REGISTER: u8 = 1;

pub const MSG_QUERY: u8 = 2;

pub const MSG_RESPONSE: u8 = 3;

pub const MSG_NOT_FOUND: u8 = 4;

pub const MSG_ERROR: u8 = 5;

/// A message of the registry.
#[derive(Debug, Clone)]
pub enum RegistryMessage {
    /// Camera to relay: a signed binding. The signature covers
    /// `serial || peer_id`.
    Register { serial: String, peer_id: Vec<u8>, pubkey: Vec<u8>, signature: Vec<u8> },
    /// Viewer to relay: who has this serial?
    Query { serial: String },
    /// Relay to viewer: the binding.
    Response { peer_id: Vec<u8>, pubkey: Vec<u8>, signature: Vec<u8> },
    /// Relay to viewer: nobody has it.
    NotFound,
    /// Relay to its peer: what went wrong.
    Error { message: String },
}

/// A message with its fields as sequences.
pub enum MessageView {
    Register { serial: Seq<char>, peer_id: Seq<u8>, pubkey: Seq<u8>, signature: Seq<u8> },
    Query { serial: Seq<char> },
    Response { peer_id: Seq<u8>, pubkey: Seq<u8>, signature: Seq<u8> },
    NotFound,
    Error { message: Seq<char> },
}

/// Why bytes are no message.
#[derive(Debug, Clone, PartialEq, Eq)]
pub enum RegistryError {
    /// There are no bytes.
    Empty,
    /// A field's length prefix is cut off.
    TruncatedLength,
    /// A field is cut off.
    TruncatedPayload { need: usize, have: usize },
    /// The serial number is no UTF-8, for this reason.
    InvalidSerial(String),
    /// The error text is no UTF-8, for this reason.
    InvalidErrorText(String),
    /// The tag is unknown.
    UnknownTag(u8),
    /// Bytes follow the last field.
    TrailingBytes,
}

/// Why bytes are no message, with sequences for texts.
pub enum RegistryFault {
    Empty,
    TruncatedLength,
    TruncatedPayload { need: usize, have: usize },
    InvalidSerial(Seq<char>),
    InvalidErrorText(Seq<char>),
    UnknownTag(u8),
    TrailingBytes,
}

impl View for RegistryError {
    type V = RegistryFault;

    open spec fn view(&self) -> RegistryFault {
        match self {
            RegistryError::Empty => RegistryFault::Empty,
            RegistryError::TruncatedLength => RegistryFault::TruncatedLength,
            RegistryError::TruncatedPayload { need, have } => RegistryFault::TruncatedPayload {
                need: *need,
                have: *have,
            },
            RegistryError::InvalidSerial(e) => RegistryFault::InvalidSerial(e@),
            RegistryError::InvalidErrorText(e) => RegistryFault::InvalidErrorText(e@),
            RegistryError::UnknownTag(tag) => RegistryFault::UnknownTag(*tag),
            RegistryError::TrailingBytes => RegistryFault::TrailingBytes,
        }
    }
}

/// The text for why bytes are no message.
pub open spec fn fault_text(fault: RegistryFault) -> Seq<char> {
    match fault {
        RegistryFault::Empty => "registry: empty message"@,
        RegistryFault::TruncatedLength => "registry: truncated length prefix"@,
        RegistryFault::TruncatedPayload { need, have } => "registry: truncated payload (need "@
            + decimal(need as nat) + ", have "@ + decimal(have as nat) + ")"@,
        RegistryFault::InvalidSerial(e) => "registry: invalid serial utf8: "@ + e,
        RegistryFault::InvalidErrorText(e) => "registry: invalid error utf8: "@ + e,
        RegistryFault::UnknownTag(tag) => "registry: unknown message tag "@ + decimal(tag as nat),
        RegistryFault::TrailingBytes => "registry: trailing bytes"@,
    }
}

/// The text of the error.
pub fn registry_error_text(error: &RegistryError) -> (r: String)
    ensures
        r@ == fault_text(error@),
{
    match error {
        RegistryError::Empty => "registry: empty message".to_owned(),
        RegistryError::TruncatedLength => "registry: truncated length prefix".to_owned(),
        RegistryError::TruncatedPayload { need, have } => {
            let mut s = "registry: truncated payload (need ".to_owned();
            push_decimal(&mut s, *need as u64);
            s.append(", have ");
            push_decimal(&mut s, *have as u64);
            s.append(")");
            s
        },
        RegistryError::InvalidSerial(e) => {
            let mut s = "registry: invalid serial utf8: ".to_owned();
            s.append(e.as_str());
            s
        },
        RegistryError::InvalidErrorText(e) => {
            let mut s = "registry: invalid error utf8: ".to_owned();
            s.append(e.as_str());
            s
        },
        RegistryError::UnknownTag(tag) => {
            let mut s = "registry: unknown message tag ".to_owned();
            push_decimal(&mut s, *tag as u64);
            s
        },
        RegistryError::TrailingBytes => "registry: trailing bytes".to_owned(),
    }
}

impl View for RegistryMessage {
    type V = MessageView;

    open spec fn view(&self) -> MessageView {
        match self {
            RegistryMessage::Register { serial, peer_id, pubkey, signature } => {
                MessageView::Register {
                    serial: serial@,
                    peer_id: peer_id@,
                    pubkey: pubkey@,
                    signature: signature@,
                }
            },
            RegistryMessage::Query { serial } => MessageView::Query { serial: serial@ },
            RegistryMessage::Response { peer_id, pubkey, signature } => MessageView::Response {
                peer_id: peer_id@,
                pubkey: pubkey@,
                signature: signature@,
            },
            RegistryMessage::NotFound => MessageView::NotFound,
            RegistryMessage::Error { message } => MessageView::Error { message: message@ },
        }
    }
}

/// The UTF-8 bytes of a text.
pub open spec fn utf8(s: Seq<char>) -> Seq<u8> {
    vstd::utf8::encode_utf8(s)
}

/// A field on the wire: its length in two bytes, then its bytes. A length of 2^16
/// or more is cut to its low 16 bits.
pub open spec fn prefixed(data: Seq<u8>) -> Seq<u8> {
    be_bytes(data.len(), 2) + data
}

/// A message on the wire.
pub open spec fn message_bytes(m: MessageView) -> Seq<u8> {
    match m {
        MessageView::Register { serial, peer_id, pubkey, signature } => seq![MSG_REGISTER]
            + prefixed(utf8(serial)) + prefixed(peer_id) + prefixed(pubkey) + prefixed(signature),
        MessageView::Query { serial } => seq![MSG_QUERY] + prefixed(utf8(serial)),
        MessageView::Response { peer_id, pubkey, signature } => seq![MSG_RESPONSE] + prefixed(
            peer_id,
        ) + prefixed(pubkey) + prefixed(signature),
        MessageView::NotFound => seq![MSG_NOT_FOUND],
        MessageView::Error { message } => seq![MSG_ERROR] + prefixed(utf8(message)),
    }
}

/// Whether every field's length fits its prefix.
pub open spec fn message_fits(m: MessageView) -> bool {
    match m {
        MessageView::Register { serial, peer_id, pubkey, signature } => utf8(serial).len() < 0x1_0000
            && peer_id.len() < 0x1_0000 && pubkey.len() < 0x1_0000 && signature.len() < 0x1_0000,
        MessageView::Query { serial } => utf8(serial).len() < 0x1_0000,
        MessageView::Response { peer_id, pubkey, signature } => peer_id.len() < 0x1_0000
            && pubkey.len() < 0x1_0000 && signature.len() < 0x1_0000,
        MessageView::NotFound => true,
        MessageView::Error { message } => utf8(message).len() < 0x1_0000,
    }
}

/// The field at the start of `s`, and what follows it.
pub open spec fn parse_field(s: Seq<u8>) -> Result<(Seq<u8>, Seq<u8>), RegistryFault> {
    if s.len() < 2 {
        Err(RegistryFault::TruncatedLength)
    } else {
        let len = be_value(s.take(2)) as int;
        if s.len() - 2 < len {
            Err(RegistryFault::TruncatedPayload { need: len as usize, have: (s.len() - 2) as usize })
        } else {
            Ok((s.subrange(2, 2 + len), s.skip(2 + len)))
        }
    }
}

/// Which text of a message a field holds.
pub enum TextField {
    Serial,
    ErrorText,
}

/// Why a text field that is no UTF-8 is refused.
pub open spec fn invalid_text(which: TextField, field: Seq<u8>) -> RegistryFault {
    match which {
        TextField::Serial => RegistryFault::InvalidSerial(utf8_error(field)),
        TextField::ErrorText => RegistryFault::InvalidErrorText(utf8_error(field)),
    }
}

/// The text field at the start of `s`, and what follows it.
pub open spec fn parse_text(s: Seq<u8>, which: TextField) -> Result<
    (Seq<char>, Seq<u8>),
    RegistryFault,
> {
    match parse_field(s) {
        Err(e) => Err(e),
        Ok((field, rest)) => if vstd::utf8::valid_utf8(field) {
            Ok((vstd::utf8::decode_utf8(field), rest))
        } else {
            Err(invalid_text(which, field))
        },
    }
}

/// The three fields of a binding at the start of `s`, and what follows them.
pub open spec fn parse_binding(s: Seq<u8>) -> Result<
    (Seq<u8>, Seq<u8>, Seq<u8>, Seq<u8>),
    RegistryFault,
> {
    match parse_field(s) {
        Err(e) => Err(e),
        Ok((peer_id, s1)) => match parse_field(s1) {
            Err(e) => Err(e),
            Ok((pubkey, s2)) => match parse_field(s2) {
                Err(e) => Err(e),
                Ok((signature, s3)) => Ok((peer_id, pubkey, signature, s3)),
            },
        },
    }
}

/// The message at the start of `s`, and what follows it.
pub open spec fn parse_leading(s: Seq<u8>) -> Result<(MessageView, Seq<u8>), RegistryFault> {
    if s.len() == 0 {
        Err(RegistryFault::Empty)
    } else if s[0] == MSG_REGISTER {
        match parse_text(s.skip(1), TextField::Serial) {
            Err(e) => Err(e),
            Ok((serial, s1)) => match parse_binding(s1) {
                Err(e) => Err(e),
                Ok((peer_id, pubkey, signature, rest)) => Ok(
                    (MessageView::Register { serial, peer_id, pubkey, signature }, rest),
                ),
            },
        }
    } else if s[0] == MSG_QUERY {
        match parse_text(s.skip(1), TextField::Serial) {
            Err(e) => Err(e),
            Ok((serial, rest)) => Ok((MessageView::Query { serial }, rest)),
        }
    } else if s[0] == MSG_RESPONSE {
        match parse_binding(s.skip(1)) {
            Err(e) => Err(e),
            Ok((peer_id, pubkey, signature, rest)) => Ok(
                (MessageView::Response { peer_id, pubkey, signature }, rest),
            ),
        }
    } else if s[0] == MSG_NOT_FOUND {
        Ok((MessageView::NotFound, s.skip(1)))
    } else if s[0] == MSG_ERROR {
        match parse_text(s.skip(1), TextField::ErrorText) {
            Err(e) => Err(e),
            Ok((message, rest)) => Ok((MessageView::Error { message }, rest)),
        }
    } else {
        Err(RegistryFault::UnknownTag(s[0]))
    }
}

/// The message that `s` is, from its first byte to its last.
pub open spec fn parse_message(s: Seq<u8>) -> Result<MessageView, RegistryFault> {
    match parse_leading(s) {
        Err(e) => Err(e),
        Ok((m, rest)) => if rest.len() == 0 {
            Ok(m)
        } else {
            Err(RegistryFault::TrailingBytes)
        },
    }
}

fn write_len_prefixed(buf: &mut bytes::BytesMut, data: &[u8])
    requires
        buffer_contents(*old(buf)).len() + 2 + data@.len() <= buffer_limit(),
    ensures
        buffer_contents(*final(buf)) == buffer_contents(*old(buf)) + prefixed(data@),
        prefixed(data@).len() == 2 + data@.len(),
{
    let low: u16 = (data.len() % 0x1_0000) as u16;
    proof {
        lemma_be_bytes_len(low as nat, 2);
        lemma_be_bytes_len(data@.len(), 2);
        lemma_be_bytes_wrap(data@.len(), 2);
        lemma_byte_ranges();
    }
    let prefix: [u8; 2] = be_u16(low);
    buffer_put_slice(buf, prefix.as_slice());
    buffer_put_slice(buf, data);
    assert(buffer_contents(*buf) =~= buffer_contents(*old(buf)) + prefixed(data@));
}

/// Takes the field off the front of `buf`. A cut-off length prefix stays there; of a
/// cut-off field the length prefix is taken.
fn read_len_prefixed(buf: &mut &[u8]) -> (r: Result<Vec<u8>, RegistryError>)
    ensures
        match parse_field(old(buf)@) {
            Ok((field, rest)) => r matches Ok(v) && v@ == field && final(buf)@ == rest,
            Err(e) => r matches Err(x) && x@ == e && final(buf)@ == if old(buf)@.len()
                < 2 {
                old(buf)@
            } else {
                old(buf)@.skip(2)
            },
        },
{
    let ghost s = buf@;
    if buf.len() < 2 {
        return Err(RegistryError::TruncatedLength);
    }
    proof {
        lemma_be_value_bound(s.take(2));
        lemma_byte_ranges();
        assert(s.subrange(0, 2) =~= s.take(2));
    }
    let len: usize = be_read(vstd::slice::slice_subrange(*buf, 0, 2)) as usize;
    slice_advance(buf, 2);
    if buf.len() < len {
        return Err(RegistryError::TruncatedPayload { need: len, have: buf.len() });
    }
    let data = vstd::slice::slice_to_vec(vstd::slice::slice_subrange(*buf, 0, len));
    slice_advance(buf, len);
    assert(data@ =~= s.subrange(2, 2 + len));
    assert(buf@ =~= s.skip(2 + len));
    Ok(data)
}

impl RegistryMessage {
    /// The message on the wire.
    pub fn encode(&self) -> (r: Vec<u8>)
        requires
            message_bytes(self@).len() <= buffer_limit(),
        ensures
            r@ == message_bytes(self@),
    {
        let mut buf = buffer_new();
        proof {
            lemma_message_len(self@);
        }
        match self {
            RegistryMessage::Register { serial, peer_id, pubkey, signature } => {
                buffer_put_u8(&mut buf, MSG_REGISTER);
                write_len_prefixed(&mut buf, serial.as_str().as_bytes());
                write_len_prefixed(&mut buf, peer_id.as_slice());
                write_len_prefixed(&mut buf, pubkey.as_slice());
                write_len_prefixed(&mut buf, signature.as_slice());
            },
            RegistryMessage::Query { serial } => {
                buffer_put_u8(&mut buf, MSG_QUERY);
                write_len_prefixed(&mut buf, serial.as_str().as_bytes());
            },
            RegistryMessage::Response { peer_id, pubkey, signature } => {
                buffer_put_u8(&mut buf, MSG_RESPONSE);
                write_len_prefixed(&mut buf, peer_id.as_slice());
                write_len_prefixed(&mut buf, pubkey.as_slice());
                write_len_prefixed(&mut buf, signature.as_slice());
            },
            RegistryMessage::NotFound => {
                buffer_put_u8(&mut buf, MSG_NOT_FOUND);
            },
            RegistryMessage::Error { message } => {
                buffer_put_u8(&mut buf, MSG_ERROR);
                write_len_prefixed(&mut buf, message.as_str().as_bytes());
            },
        }
        assert(buffer_contents(buf) =~= message_bytes(self@));
        vstd::slice::slice_to_vec(buffer_slice(&buf))
    }

    /// The message that `data` is. All of it has to be one complete message.
    pub fn decode(data: &[u8]) -> (r: Result<RegistryMessage, RegistryError>)
        ensures
            match parse_message(data@) {
                Ok(m) => r matches Ok(v) && v@ == m,
                Err(e) => r matches Err(x) && x@ == e,
            },
    {
        let mut buf: &[u8] = data;
        if buf.len() == 0 {
            return Err(RegistryError::Empty);
        }
        let tag: u8 = slice_get_u8(&mut buf);
        let message = if tag == MSG_REGISTER {
            let serial = match string_from_utf8(read_len_prefixed(&mut buf)?) {
                Ok(s) => s,
                Err(e) => {
                    return Err(RegistryError::InvalidSerial(e));
                },
            };
            let peer_id = read_len_prefixed(&mut buf)?;
            let pubkey = read_len_prefixed(&mut buf)?;
            let signature = read_len_prefixed(&mut buf)?;
            RegistryMessage::Register { serial, peer_id, pubkey, signature }
        } else if tag == MSG_QUERY {
            let serial = match string_from_utf8(read_len_prefixed(&mut buf)?) {
                Ok(s) => s,
                Err(e) => {
                    return Err(RegistryError::InvalidSerial(e));
                },
            };
            RegistryMessage::Query { serial }
        } else if tag == MSG_RESPONSE {
            let peer_id = read_len_prefixed(&mut buf)?;
            let pubkey = read_len_prefixed(&mut buf)?;
            let signature = read_len_prefixed(&mut buf)?;
            RegistryMessage::Response { peer_id, pubkey, signature }
        } else if tag == MSG_NOT_FOUND {
            RegistryMessage::NotFound
        } else if tag == MSG_ERROR {
            let message = match string_from_utf8(read_len_prefixed(&mut buf)?) {
                Ok(s) => s,
                Err(e) => {
                    return Err(RegistryError::InvalidErrorText(e));
                },
            };
            RegistryMessage::Error { message }
        } else {
            return Err(RegistryError::UnknownTag(tag));
        };
        assert(parse_leading(data@) == Ok::<_, RegistryFault>((message@, buf@)));
        if buf.len() != 0 {
            return Err(RegistryError::TrailingBytes);
        }
        Ok(message)
    }

    /// What the camera signs: the bytes of the serial, then those of the peer id.
    pub fn sign_payload(serial: &str, peer_id: &[u8]) -> (r: Vec<u8>)
        ensures
            r@ == signed_payload(serial@, peer_id@),
    {
        let mut v = vstd::slice::slice_to_vec(serial.as_bytes());
        v.extend_from_slice(peer_id);
        assert(v@ =~= signed_payload(serial@, peer_id@));
        v
    }
}

/// What the signature of a binding covers.
pub open spec fn signed_payload(serial: Seq<char>, peer_id: Seq<u8>) -> Seq<u8> {
    utf8(serial) + peer_id
}

proof fn lemma_message_len(m: MessageView)
    ensures
        message_bytes(m).len() == match m {
            MessageView::Register { serial, peer_id, pubkey, signature } => 9 + utf8(serial).len()
                + peer_id.len() + pubkey.len() + signature.len(),
            MessageView::Query { serial } => 3 + utf8(serial).len(),
            MessageView::Response { peer_id, pubkey, signature } => 7 + peer_id.len()
                + pubkey.len() + signature.len(),
            MessageView::NotFound => 1,
            MessageView::Error { message } => 3 + utf8(message).len(),
        },
{
    match m {
        MessageView::Register { serial, peer_id, pubkey, signature } => {
            lemma_be_bytes_len(utf8(serial).len(), 2);
            lemma_be_bytes_len(peer_id.len(), 2);
            lemma_be_bytes_len(pubkey.len(), 2);
            lemma_be_bytes_len(signature.len(), 2);
        },
        MessageView::Query { serial } => {
            lemma_be_bytes_len(utf8(serial).len(), 2);
        },
        MessageView::Response { peer_id, pubkey, signature } => {
            lemma_be_bytes_len(peer_id.len(), 2);
            lemma_be_bytes_len(pubkey.len(), 2);
            lemma_be_bytes_len(signature.len(), 2);
        },
        MessageView::NotFound => {},
        MessageView::Error { message } => {
            lemma_be_bytes_len(utf8(message).len(), 2);
        },
    }
}

proof fn lemma_field_roundtrip(data: Seq<u8>, rest: Seq<u8>)
    requires
        data.len() < 0x1_0000,
    ensures
        parse_field(prefixed(data) + rest) == Ok::<_, RegistryFault>((data, rest)),
{
    let s = prefixed(data) + rest;
    lemma_be_bytes_len(data.len(), 2);
    lemma_byte_ranges();
    lemma_be_roundtrip(data.len(), 2);
    assert(s.take(2) =~= be_bytes(data.len(), 2));
    assert(s.subrange(2, 2 + data.len() as int) =~= data);
    assert(s.skip(2 + data.len() as int) =~= rest);
}

proof fn lemma_text_roundtrip(text: Seq<char>, rest: Seq<u8>, which: TextField)
    requires
        utf8(text).len() < 0x1_0000,
    ensures
        parse_text(prefixed(utf8(text)) + rest, which) == Ok::<_, RegistryFault>((text, rest)),
{
    lemma_field_roundtrip(utf8(text), rest);
    vstd::utf8::encode_utf8_valid_utf8(text);
    vstd::utf8::encode_utf8_decode_utf8(text);
}

proof fn lemma_binding_roundtrip(
    peer_id: Seq<u8>,
    pubkey: Seq<u8>,
    signature: Seq<u8>,
    rest: Seq<u8>,
)
    requires
        peer_id.len() < 0x1_0000,
        pubkey.len() < 0x1_0000,
        signature.len() < 0x1_0000,
    ensures
        parse_binding(prefixed(peer_id) + prefixed(pubkey) + prefixed(signature) + rest) == Ok::<
            _,
            RegistryFault,
        >((peer_id, pubkey, signature, rest)),
{
    let s2 = prefixed(signature) + rest;
    let s1 = prefixed(pubkey) + s2;
    lemma_field_roundtrip(signature, rest);
    lemma_field_roundtrip(pubkey, s2);
    lemma_field_roundtrip(peer_id, s1);
    assert(prefixed(peer_id) + prefixed(pubkey) + prefixed(signature) + rest =~= prefixed(peer_id)
        + s1);
}

/// A message whose fields fit their prefixes is read back as it was written.
pub proof fn law_message_roundtrip(m: MessageView)
    requires
        message_fits(m),
    ensures
        parse_message(message_bytes(m)) == Ok::<_, RegistryFault>(m),
{
    lemma_leading_roundtrip(m, seq![]);
    assert(message_bytes(m) + Seq::<u8>::empty() =~= message_bytes(m));
}

/// Bytes after a message are refused, whatever they are.
pub proof fn law_trailing_bytes_refused(m: MessageView, rest: Seq<u8>)
    requires
        message_fits(m),
        rest.len() > 0,
    ensures
        parse_message(message_bytes(m) + rest) == Err::<MessageView, RegistryFault>(
            RegistryFault::TrailingBytes,
        ),
{
    lemma_leading_roundtrip(m, rest);
}

proof fn lemma_leading_roundtrip(m: MessageView, rest: Seq<u8>)
    requires
        message_fits(m),
    ensures
        parse_leading(message_bytes(m) + rest) == Ok::<_, RegistryFault>((m, rest)),
{
    let s = message_bytes(m) + rest;
    match m {
        MessageView::Register { serial, peer_id, pubkey, signature } => {
            let s1 = prefixed(peer_id) + prefixed(pubkey) + prefixed(signature) + rest;
            assert(s.skip(1) =~= prefixed(utf8(serial)) + s1);
            lemma_text_roundtrip(serial, s1, TextField::Serial);
            lemma_binding_roundtrip(peer_id, pubkey, signature, rest);
        },
        MessageView::Query { serial } => {
            assert(s.skip(1) =~= prefixed(utf8(serial)) + rest);
            lemma_text_roundtrip(serial, rest, TextField::Serial);
        },
        MessageView::Response { peer_id, pubkey, signature } => {
            assert(s.skip(1) =~= prefixed(peer_id) + prefixed(pubkey) + prefixed(signature) + rest);
            lemma_binding_roundtrip(peer_id, pubkey, signature, rest);
        },
        MessageView::NotFound => {
            assert(s.skip(1) =~= rest);
        },
        MessageView::Error { message } => {
            assert(s.skip(1) =~= prefixed(utf8(message)) + rest);
            lemma_text_roundtrip(message, rest, TextField::ErrorText);
        },
    }
}

proof fn lemma_field_inverse(s: Seq<u8>)
    ensures
        parse_field(s) matches Ok((field, rest)) ==> {
            &&& field.len() < 0x1_0000
            &&& s == prefixed(field) + rest
        },
{
    if parse_field(s) is Ok {
        let (field, rest) = parse_field(s)->Ok_0;
        lemma_byte_ranges();
        lemma_be_value_bound(s.take(2));
        lemma_be_inverse(s.take(2));
        assert(s =~= prefixed(field) + rest);
    }
}

proof fn lemma_text_inverse(s: Seq<u8>, which: TextField)
    ensures
        parse_text(s, which) matches Ok((text, rest)) ==> {
            &&& utf8(text).len() < 0x1_0000
            &&& s == prefixed(utf8(text)) + rest
        },
{
    lemma_field_inverse(s);
    if parse_text(s, which) is Ok {
        vstd::utf8::decode_utf8_encode_utf8(parse_field(s)->Ok_0.0);
    }
}

proof fn lemma_binding_inverse(s: Seq<u8>)
    ensures
        parse_binding(s) matches Ok((peer_id, pubkey, signature, rest)) ==> {
            &&& peer_id.len() < 0x1_0000
            &&& pubkey.len() < 0x1_0000
            &&& signature.len() < 0x1_0000
            &&& s == prefixed(peer_id) + prefixed(pubkey) + prefixed(signature) + rest
        },
{
    if parse_binding(s) is Ok {
        let (peer_id, s1) = parse_field(s)->Ok_0;
        let (pubkey, s2) = parse_field(s1)->Ok_0;
        let (signature, s3) = parse_field(s2)->Ok_0;
        lemma_field_inverse(s);
        lemma_field_inverse(s1);
        lemma_field_inverse(s2);
        assert(s =~= prefixed(peer_id) + prefixed(pubkey) + prefixed(signature) + s3);
    }
}

/// Bytes that are read as a message are exactly what that message is written as.
pub proof fn law_message_canonical(s: Seq<u8>)
    requires
        parse_message(s) is Ok,
    ensures
        message_fits(parse_message(s)->Ok_0),
        s == message_bytes(parse_message(s)->Ok_0),
{
    lemma_leading_inverse(s);
    let (m, rest) = parse_leading(s)->Ok_0;
    assert(message_bytes(m) + rest =~= message_bytes(m));
}

proof fn lemma_leading_inverse(s: Seq<u8>)
    ensures
        parse_leading(s) matches Ok((m, rest)) ==> {
            &&& message_fits(m)
            &&& s == message_bytes(m) + rest
        },
{
    if parse_leading(s) is Ok {
        let t = s.skip(1);
        let (m, rest) = parse_leading(s)->Ok_0;
        match m {
            MessageView::Register { serial, peer_id, pubkey, signature } => {
                lemma_text_inverse(t, TextField::Serial);
                lemma_binding_inverse(parse_text(t, TextField::Serial)->Ok_0.1);
                let head = prefixed(utf8(serial));
                let binding = prefixed(peer_id) + prefixed(pubkey) + prefixed(signature);
                assert(head + (binding + rest) =~= head + binding + rest);
                lemma_tagged(s, MSG_REGISTER, head + binding, rest);
                lemma_register_bytes(
                    head,
                    prefixed(peer_id),
                    prefixed(pubkey),
                    prefixed(signature),
                );
            },
            MessageView::Query { serial } => {
                lemma_text_inverse(t, TextField::Serial);
                lemma_tagged(s, MSG_QUERY, prefixed(utf8(serial)), rest);
            },
            MessageView::Response { peer_id, pubkey, signature } => {
                lemma_binding_inverse(t);
                let binding = prefixed(peer_id) + prefixed(pubkey) + prefixed(signature);
                lemma_tagged(s, MSG_RESPONSE, binding, rest);
                lemma_response_bytes(prefixed(peer_id), prefixed(pubkey), prefixed(signature));
            },
            MessageView::NotFound => {
                assert(s =~= message_bytes(m) + rest);
            },
            MessageView::Error { message } => {
                lemma_text_inverse(t, TextField::ErrorText);
                lemma_tagged(s, MSG_ERROR, prefixed(utf8(message)), rest);
            },
        }
    }
}

proof fn lemma_tagged(s: Seq<u8>, tag: u8, body: Seq<u8>, rest: Seq<u8>)
    requires
        s.len() > 0,
        s[0] == tag,
        s.skip(1) == body + rest,
    ensures
        s == seq![tag] + body + rest,
{
    let b = seq![tag] + body + rest;
    assert(s.len() == 1 + s.skip(1).len());
    assert forall|i: int| 0 <= i < b.len() implies s[i] == b[i] by {
        if i > 0 {
            assert(s[i] == s.skip(1)[i - 1]);
        }
    }
    assert(s =~= b);
}

proof fn lemma_register_bytes(a: Seq<u8>, b: Seq<u8>, c: Seq<u8>, d: Seq<u8>)
    ensures
        seq![MSG_REGISTER] + (a + (b + c + d)) == seq![MSG_REGISTER] + a + b + c + d,
{
    assert(seq![MSG_REGISTER] + (a + (b + c + d)) =~= seq![MSG_REGISTER] + a + b + c + d);
}

proof fn lemma_response_bytes(b: Seq<u8>, c: Seq<u8>, d: Seq<u8>)
    ensures
        seq![MSG_RESPONSE] + (b + c + d) == seq![MSG_RESPONSE] + b + c + d,
{
    assert(seq![MSG_RESPONSE] + (b + c + d) =~= seq![MSG_RESPONSE] + b + c + d);
}

/// As long as a message has not arrived in full, nothing is read as a message.
pub proof fn law_partial_message_waits(m: MessageView, arrived: int)
    requires
        message_fits(m),
        0 <= arrived < message_bytes(m).len(),
    ensures
        parse_message(message_bytes(m).take(arrived)) is Err,
{
    let full = message_bytes(m);
    let part = full.take(arrived);
    if parse_message(part) is Ok {
        law_message_canonical(part);
        lemma_leading_roundtrip(parse_message(part)->Ok_0, full.skip(arrived));
        assert(part + full.skip(arrived) =~= full);
        lemma_leading_roundtrip(m, seq![]);
        assert(full + Seq::<u8>::empty() =~= full);
    }
}

/// A message on the wire: its tag, then its fields in the order in which they are named,
/// each behind its length in two bytes. Texts are in UTF-8.
pub proof fn law_message_layout(
    serial: Seq<char>,
    peer_id: Seq<u8>,
    pubkey: Seq<u8>,
    signature: Seq<u8>,
)
    ensures
        ({
            let name = vstd::utf8::encode_utf8(serial);
            let n = be_bytes(name.len(), 2) + name;
            let p = be_bytes(peer_id.len(), 2) + peer_id;
            let k = be_bytes(pubkey.len(), 2) + pubkey;
            let g = be_bytes(signature.len(), 2) + signature;
            &&& message_bytes((MessageView::Register { serial, peer_id, pubkey, signature }))
                == seq![1u8] + n + p + k + g
            &&& message_bytes((MessageView::Query { serial })) == seq![2u8] + n
            &&& message_bytes((MessageView::Response { peer_id, pubkey, signature })) == seq![3u8]
                + p + k + g
            &&& message_bytes(MessageView::NotFound) == seq![4u8]
            &&& message_bytes((MessageView::Error { message: serial })) == seq![5u8] + n
            &&& signed_payload(serial, peer_id) == name + peer_id
        }),
{
}

/// What is wrong with bytes that are no message: nothing at all, a tag that is none, a
/// field that ends too early, a text that is no UTF-8, or more than the message.
pub proof fn law_faults_of_messages(s: Seq<u8>)
    ensures
        s.len() == 0 <==> parse_message(s) == Err::<MessageView, RegistryFault>(
            RegistryFault::Empty,
        ),
        s.len() > 0 && !(1 <= s[0] <= 5) ==> parse_message(s) == Err::<MessageView, RegistryFault>(
            RegistryFault::UnknownTag(s[0]),
        ),
        s.len() > 0 && s[0] == 4 ==> (parse_message(s) is Ok <==> s.len() == 1),
        s.len() > 0 && (s[0] == 1 || s[0] == 2 || s[0] == 3 || s[0] == 5) && s.len() < 3
            ==> parse_message(s) == Err::<MessageView, RegistryFault>(
            RegistryFault::TruncatedLength,
        ),
        s.len() >= 3 && (s[0] == 1 || s[0] == 2 || s[0] == 3 || s[0] == 5) && s.len() - 3
            < be_value(s.subrange(1, 3)) ==> (parse_message(s) matches Err(
            RegistryFault::TruncatedPayload { need, have },
        ) && need == be_value(s.subrange(1, 3)) as usize && have == (s.len() - 3) as usize),
{
    if s.len() >= 3 {
        assert(s.skip(1).take(2) =~= s.subrange(1, 3));
    }
}

/// The texts of the errors that tell of numbers hold those numbers.
pub proof fn law_fault_texts(need: usize, have: usize, tag: u8, e: Seq<char>)
    ensures
        fault_text((RegistryFault::TruncatedPayload { need, have }))
            == "registry: truncated payload (need "@ + decimal(need as nat) + ", have "@ + decimal(
            have as nat,
        ) + ")"@,
        fault_text(RegistryFault::UnknownTag(tag)) == "registry: unknown message tag "@ + decimal(
            tag as nat,
        ),
        fault_text(RegistryFault::InvalidSerial(e)) == "registry: invalid serial utf8: "@ + e,
        fault_text(RegistryFault::InvalidErrorText(e)) == "registry: invalid error utf8: "@ + e,
        fault_text(RegistryFault::Empty) == "registry: empty message"@,
        fault_text(RegistryFault::TruncatedLength) == "registry: truncated length prefix"@,
{
}

} // verus!
