//! Which video stream to ask for.

use vstd::prelude::*;

use super::net_diag::ConnectionType;
use crate::proto::stream_protocols::{
    VIDEO_MAIN_PROTOCOL, VIDEO_SUB_PROTOCOL, VIDEO_THIRD_PROTOCOL,
};
use crate::text::str_eq;

verus! {

broadcast use vstd::string::group_string_axioms;

/// The protocol of a stream by its name: anything but `sub` and `third` is the main
/// stream.
pub open spec fn protocol_named(stream_type: Seq<char>) -> Seq<char> {
    if stream_type == "sub"@ {
        VIDEO_SUB_PROTOCOL@
    } else if stream_type == "third"@ {
        VIDEO_THIRD_PROTOCOL@
    } else {
        VIDEO_MAIN_PROTOCOL@
    }
}

/// The protocol that fits the connection: the main stream on a direct one, the sub
/// stream on any other.
pub open spec fn protocol_for_connection(connection: ConnectionType) -> Seq<char> {
    if connection.direct() {
        VIDEO_MAIN_PROTOCOL@
    } else {
        VIDEO_SUB_PROTOCOL@
    }
}

/// The protocol to ask for: by the connection for `auto`, else by name.
pub open spec fn resolved_protocol(stream_type: Seq<char>, connection: ConnectionType) -> Seq<
    char,
> {
    if stream_type == "auto"@ {
        protocol_for_connection(connection)
    } else {
        protocol_named(stream_type)
    }
}

/// Whether a change of connection calls for the main stream: `auto`, and from a
/// relay to a direct connection.
pub open spec fn upgrade_due(
    stream_type: Seq<char>,
    before: ConnectionType,
    now: ConnectionType,
) -> bool {
    stream_type == "auto"@ && before == ConnectionType::RelayCircuit && now.direct()
}

/// The protocol of a stream by its name.
pub fn get_video_protocol(stream_type: &str) -> (r: &'static str)
    ensures
        r@ == protocol_named(stream_type@),
{
    if str_eq(stream_type, "sub") {
        VIDEO_SUB_PROTOCOL
    } else if str_eq(stream_type, "third") {
        VIDEO_THIRD_PROTOCOL
    } else {
        VIDEO_MAIN_PROTOCOL
    }
}

/// The name of the stream of a protocol.
pub fn stream_name(protocol: &str) -> (r: &'static str)
    ensures
        r@ == if protocol@ == VIDEO_MAIN_PROTOCOL@ {
            "main"@
        } else if protocol@ == VIDEO_SUB_PROTOCOL@ {
            "sub"@
        } else {
            "third"@
        },
{
    if str_eq(protocol, VIDEO_MAIN_PROTOCOL) {
        "main"
    } else if str_eq(protocol, VIDEO_SUB_PROTOCOL) {
        "sub"
    } else {
        "third"
    }
}

/// Picks the video stream by what the user asked for and how the camera is
/// connected.
#[derive(Debug)]
pub struct StreamTypeResolver {
    /// `auto`, `main`, `sub` or `third`.
    pub stream_type: String,
    pub connection_type: ConnectionType,
}

impl StreamTypeResolver {
    pub fn new(stream_type: &str) -> (r: StreamTypeResolver)
        ensures
            r.stream_type@ == stream_type@,
            r.connection_type == ConnectionType::Disconnected,
    {
        StreamTypeResolver {
            stream_type: stream_type.to_owned(),
            connection_type: ConnectionType::Disconnected,
        }
    }

    /// The protocol to ask for.
    pub fn resolve(&self) -> (r: &'static str)
        ensures
            r@ == resolved_protocol(self.stream_type@, self.connection_type),
    {
        if str_eq(self.stream_type.as_str(), "auto") {
            match self.connection_type {
                ConnectionType::RelayCircuit => VIDEO_SUB_PROTOCOL,
                ConnectionType::QuicDirect => VIDEO_MAIN_PROTOCOL,
                ConnectionType::LanDirect => VIDEO_MAIN_PROTOCOL,
                ConnectionType::TcpDirect => VIDEO_MAIN_PROTOCOL,
                ConnectionType::Disconnected => VIDEO_SUB_PROTOCOL,
            }
        } else {
            get_video_protocol(self.stream_type.as_str())
        }
    }

    /// Notes how the camera is connected.
    pub fn update_connection_type(&mut self, conn_type: ConnectionType)
        ensures
            final(self).connection_type == conn_type,
            final(self).stream_type == old(self).stream_type,
    {
        self.connection_type = conn_type;
    }

    /// Whether to change over to the main stream, now that the connection has
    /// changed.
    pub fn should_upgrade_stream(&self, old_conn: ConnectionType) -> (r: bool)
        ensures
            r == upgrade_due(self.stream_type@, old_conn, self.connection_type),
    {
        str_eq(self.stream_type.as_str(), "auto") && old_conn.is_relay()
            && self.connection_type.is_direct()
    }

    /// The protocol to change over to.
    pub fn upgrade_protocol(&self) -> (r: &'static str)
        ensures
            r@ == VIDEO_MAIN_PROTOCOL@,
    {
        VIDEO_MAIN_PROTOCOL
    }
}

/// With `auto` the stream that is due after an upgrade is the one that would have
/// been picked for the direct connection in the first place.
pub proof fn law_upgrade_agrees(
    stream_type: Seq<char>,
    before: ConnectionType,
    now: ConnectionType,
)
    requires
        upgrade_due(stream_type, before, now),
    ensures
        resolved_protocol(stream_type, before) == VIDEO_SUB_PROTOCOL@,
        resolved_protocol(stream_type, now) == VIDEO_MAIN_PROTOCOL@,
{
}

/// A stream that the user named is used on any connection.
pub proof fn law_named_stream_is_kept(stream_type: Seq<char>, a: ConnectionType, b: ConnectionType)
    requires
        stream_type != "auto"@,
    ensures
        resolved_protocol(stream_type, a) == resolved_protocol(stream_type, b),
        !upgrade_due(stream_type, a, b),
{
}

/// With `auto` the full picture is asked for exactly where no relay forwards it: the sub
/// stream stands for a relay and for no connection at all, and `third` is never picked.
pub proof fn law_auto_spares_the_relay(connection: ConnectionType)
    ensures
        resolved_protocol("auto"@, connection) == if connection == ConnectionType::RelayCircuit
            || connection == ConnectionType::Disconnected {
            VIDEO_SUB_PROTOCOL@
        } else {
            VIDEO_MAIN_PROTOCOL@
        },
{
}

/// A stream that is asked for by name is the one of that name, and an unknown name is the
/// main stream.
pub proof fn law_stream_by_name(stream_type: Seq<char>, connection: ConnectionType)
    requires
        stream_type != "auto"@,
    ensures
        stream_type == "main"@ ==> resolved_protocol(stream_type, connection)
            == VIDEO_MAIN_PROTOCOL@,
        stream_type == "sub"@ ==> resolved_protocol(stream_type, connection)
            == VIDEO_SUB_PROTOCOL@,
        stream_type == "third"@ ==> resolved_protocol(stream_type, connection)
            == VIDEO_THIRD_PROTOCOL@,
        stream_type != "sub"@ && stream_type != "third"@ ==> resolved_protocol(
            stream_type,
            connection,
        ) == VIDEO_MAIN_PROTOCOL@,
        protocol_named(stream_type) == resolved_protocol(stream_type, connection),
{
    reveal_strlit("main");
    reveal_strlit("sub");
    reveal_strlit("third");
    assert("main"@.len() == 4 && "sub"@.len() == 3 && "third"@.len() == 5);
}

/// An upgrade is due from a relay to any direct connection, and in no other case.
pub proof fn law_upgrade_from_relay(
    stream_type: Seq<char>,
    before: ConnectionType,
    now: ConnectionType,
)
    ensures
        upgrade_due(stream_type, before, now) <==> stream_type == "auto"@ && before
            == ConnectionType::RelayCircuit && now != ConnectionType::RelayCircuit && now
            != ConnectionType::Disconnected,
{
}

} // verus!
