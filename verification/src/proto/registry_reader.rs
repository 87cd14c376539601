//! Reading one registry message from a stream.

use vstd::prelude::*;

use super::registry::{
    fault_text, law_message_roundtrip, law_partial_message_waits, message_bytes, message_fits,
    parse_message, registry_error_text, MessageView, RegistryError, RegistryFault, RegistryMessage,
};

verus! {

broadcast use vstd::string::group_string_axioms;

/// Why no message came out of a stream.
#[derive(Debug, Clone, PartialEq, Eq)]
pub enum ReadError {
    /// The stream was closed before any data.
    NoData,
    /// What came is no message.
    Invalid(RegistryError),
}

/// Why no message came out of a stream, with sequences for texts.
pub enum ReadFault {
    NoData,
    Invalid(RegistryFault),
}

impl View for ReadError {
    type V = ReadFault;

    open spec fn view(&self) -> ReadFault {
        match self {
            ReadError::NoData => ReadFault::NoData,
            ReadError::Invalid(e) => ReadFault::Invalid(e@),
        }
    }
}

/// The text of the error. `awaited` is what should have come.
pub fn read_error_text(error: &ReadError, awaited: &str) -> (r: String)
    ensures
        r@ == match error@ {
            ReadFault::NoData => "registry stream closed without "@ + awaited@,
            ReadFault::Invalid(fault) => fault_text(fault),
        },
{
    match error {
        ReadError::NoData => {
            let mut s = "registry stream closed without ".to_owned();
            s.append(awaited);
            s
        },
        ReadError::Invalid(e) => registry_error_text(e),
    }
}

/// Collects a message from the pieces in which it arrives.
#[derive(Debug)]
pub struct MessageReader {
    /// What has arrived.
    pub buf: Vec<u8>,
    /// After so many bytes that make no message reading stops.
    pub limit: usize,
}

/// The message that was read, or why there is none.
pub open spec fn read_result(s: Seq<u8>) -> Result<MessageView, ReadFault> {
    if s.len() == 0 {
        Err(ReadFault::NoData)
    } else {
        match parse_message(s) {
            Ok(m) => Ok(m),
            Err(e) => Err(ReadFault::Invalid(e)),
        }
    }
}

impl MessageReader {
    pub fn new(limit: usize) -> (r: MessageReader)
        ensures
            r.buf@ == Seq::<u8>::empty(),
            r.limit == limit,
    {
        MessageReader { buf: Vec::new(), limit }
    }

    /// Adds a piece and tells whether to stop reading: the message is complete, or
    /// too much has come.
    pub fn push(&mut self, piece: &[u8]) -> (done: bool)
        ensures
            final(self).limit == old(self).limit,
            final(self).buf@ == old(self).buf@ + piece@,
            done == (parse_message(old(self).buf@ + piece@) is Ok || (old(self).buf@
                + piece@).len() >= old(self).limit),
    {
        self.buf.extend_from_slice(piece);
        assert(self.buf@ =~= old(self).buf@ + piece@);
        if let Ok(_) = RegistryMessage::decode(self.buf.as_slice()) {
            return true;
        }
        self.buf.len() >= self.limit
    }

    /// The message, when reading has stopped.
    pub fn finish(&self) -> (r: Result<RegistryMessage, ReadError>)
        ensures
            match read_result(self.buf@) {
                Ok(m) => r matches Ok(v) && v@ == m,
                Err(e) => r matches Err(x) && x@ == e,
            },
    {
        if self.buf.len() == 0 {
            return Err(ReadError::NoData);
        }
        match RegistryMessage::decode(self.buf.as_slice()) {
            Ok(m) => Ok(m),
            Err(e) => Err(ReadError::Invalid(e)),
        }
    }
}

/// A message is read whole however it is cut into pieces: reading does not stop
/// before its last byte, as long as it is shorter than the limit, and stops there.
pub proof fn law_message_read_whole(m: MessageView, arrived: int)
    requires
        message_fits(m),
        0 < arrived <= message_bytes(m).len(),
    ensures
        parse_message(message_bytes(m).take(arrived)) is Ok <==> arrived
            == message_bytes(m).len(),
        read_result(message_bytes(m)) == Ok::<_, ReadFault>(m),
{
    let full = message_bytes(m);
    law_message_roundtrip(m);
    if arrived < full.len() {
        law_partial_message_waits(m, arrived);
    } else {
        assert(full.take(arrived) =~= full);
    }
}

/// A stream that was closed before any data is told apart from one with data that is no
/// message; data that is one is read as it.
pub proof fn law_reading_fails(s: Seq<u8>)
    ensures
        read_result(s) == Err::<MessageView, ReadFault>(ReadFault::NoData) <==> s.len() == 0,
        s.len() > 0 ==> (read_result(s) is Ok <==> parse_message(s) is Ok),
        s.len() > 0 ==> (parse_message(s) matches Ok(m) ==> read_result(s) == Ok::<_, ReadFault>(m)),
        s.len() > 0 ==> (parse_message(s) matches Err(e) ==> read_result(s) == Err::<
            MessageView,
            ReadFault,
        >(ReadFault::Invalid(e))),
{
}

} // verus!
