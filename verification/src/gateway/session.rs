//! A session of the gateway: it connects to the relay, asks for a reservation, and
//! serves viewers until the reservation is lost.

use vstd::prelude::*;

use crate::net::addr::{Multiaddr, Part, Protocol};
use crate::net::identity::{addr_from_text, addr_of_text};

verus! {

broadcast use vstd::string::group_string_axioms;

/// How long to wait before another session, in seconds.
pub const RECONNECT_DELAY_SECS: u64 = 3;

/// How long to wait for the relay, in seconds.
pub const CONNECT_TIMEOUT_SECS: u64 = 30;

/// Where a session stands.
#[derive(Debug, Clone, Copy, PartialEq, Eq, Structural)]
pub enum SessionPhase {
    /// The relay is dialled.
    Connecting,
    /// The relay is connected and a reservation is to be asked for.
    Connected,
    /// A reservation with this listener was asked for.
    Reserving(u64),
    /// Viewers are served under the reservation with this listener.
    Serving(u64),
    /// It has ended.
    Ended,
}

/// What happens in a session.
#[derive(Debug)]
pub enum SessionEvent {
    /// A connection was established.
    Established,
    /// A dial has failed.
    DialFailed { error: String },
    /// The time to wait for the relay has passed.
    TimedOut,
    /// The reservation was asked for; this is its listener.
    ReservationRequested { listener: u64 },
    /// The relay has accepted a reservation.
    ReservationAccepted,
    /// A listener was closed with an error.
    ListenerFailed { listener: u64, error: String },
    /// No more requests for video can come.
    VideoClosed,
    /// No more requests for audio can come.
    AudioClosed,
    /// Anything else.
    Other,
}

/// What to do in a session.
#[derive(Debug)]
pub enum SessionAction {
    /// Nothing.
    Wait,
    /// Listen on this address for a reservation.
    RequestReservation(Multiaddr),
    /// Accept streams from viewers.
    Serve,
    /// End the session with this error; another one follows.
    Fail(String),
}

/// The same with sequences.
pub enum SessionActionView {
    Wait,
    RequestReservation(Seq<Part>),
    Serve,
    Fail(Seq<char>),
}

impl View for SessionAction {
    type V = SessionActionView;

    open spec fn view(&self) -> SessionActionView {
        match self {
            SessionAction::Wait => SessionActionView::Wait,
            SessionAction::RequestReservation(a) => SessionActionView::RequestReservation(a@),
            SessionAction::Serve => SessionActionView::Serve,
            SessionAction::Fail(e) => SessionActionView::Fail(e@),
        }
    }
}

/// A session of the gateway.
#[derive(Debug)]
pub struct GatewaySession {
    pub relay_addr: Multiaddr,
    pub phase: SessionPhase,
}

/// The session ends with an error.
pub open spec fn fails_with(error: Seq<char>) -> (SessionPhase, SessionActionView) {
    (SessionPhase::Ended, SessionActionView::Fail(error))
}

/// What an event leads to. An event that does not belong to the phase changes
/// nothing.
pub open spec fn session_step(
    relay: Seq<Part>,
    phase: SessionPhase,
    event: SessionEvent,
) -> (SessionPhase, SessionActionView) {
    match (phase, event) {
        (SessionPhase::Connecting, SessionEvent::Established) => (
            SessionPhase::Connected,
            SessionActionView::RequestReservation(relay.push(Part::P2pCircuit)),
        ),
        (SessionPhase::Connecting, SessionEvent::DialFailed { error }) => fails_with(
            "Failed to connect to relay: "@ + error@,
        ),
        (SessionPhase::Connecting, SessionEvent::TimedOut) => fails_with(
            "Timeout waiting for relay connection"@,
        ),
        (SessionPhase::Connected, SessionEvent::ReservationRequested { listener }) => (
            SessionPhase::Reserving(listener),
            SessionActionView::Wait,
        ),
        (SessionPhase::Reserving(id), SessionEvent::ReservationAccepted) => (
            SessionPhase::Serving(id),
            SessionActionView::Serve,
        ),
        (SessionPhase::Reserving(id), SessionEvent::ListenerFailed { listener, error }) => {
            if listener == id {
                fails_with("Reservation request rejected: "@ + error@)
            } else {
                (phase, SessionActionView::Wait)
            }
        },
        (SessionPhase::Serving(id), SessionEvent::ListenerFailed { listener, error }) => {
            if listener == id {
                fails_with("Relay reservation lost: "@ + error@)
            } else {
                (phase, SessionActionView::Wait)
            }
        },
        (SessionPhase::Serving(_), SessionEvent::VideoClosed) => fails_with(
            "Video stream accept channel closed"@,
        ),
        (SessionPhase::Serving(_), SessionEvent::AudioClosed) => fails_with(
            "Audio stream accept channel closed"@,
        ),
        _ => (phase, SessionActionView::Wait),
    }
}

fn fail_with(what: &str, error: &str) -> (r: SessionAction)
    ensures
        r@ == SessionActionView::Fail(what@ + error@),
{
    let mut s = what.to_owned();
    s.append(error);
    SessionAction::Fail(s)
}

impl GatewaySession {
    /// A session that dials the relay.
    pub fn new(relay_addr: Multiaddr) -> (r: GatewaySession)
        ensures
            r.relay_addr == relay_addr,
            r.phase == SessionPhase::Connecting,
    {
        GatewaySession { relay_addr, phase: SessionPhase::Connecting }
    }

    /// A session that dials the relay at the address that a text stands for, or why it
    /// stands for none.
    pub fn from_text(relay: &str) -> (r: Result<GatewaySession, String>)
        ensures
            match addr_of_text(relay@) {
                Ok(a) => r matches Ok(s) && s.relay_addr@ == a && s.phase
                    == SessionPhase::Connecting,
                Err(e) => r matches Err(t) && t@ == e,
            },
    {
        match addr_from_text(relay) {
            Ok(addr) => Ok(GatewaySession::new(addr)),
            Err(e) => Err(e),
        }
    }

    /// Takes in an event and says what to do about it.
    pub fn step(&mut self, event: SessionEvent) -> (r: SessionAction)
        ensures
            final(self).relay_addr == old(self).relay_addr,
            (final(self).phase, r@) == session_step(old(self).relay_addr@, old(self).phase, event),
    {
        match event {
            SessionEvent::Established => {
                if self.phase == SessionPhase::Connecting {
                    self.phase = SessionPhase::Connected;
                    return SessionAction::RequestReservation(
                        self.relay_addr.clone().with(Protocol::P2pCircuit),
                    );
                }
            },
            SessionEvent::DialFailed { error } => {
                if self.phase == SessionPhase::Connecting {
                    self.phase = SessionPhase::Ended;
                    return fail_with("Failed to connect to relay: ", error.as_str());
                }
            },
            SessionEvent::TimedOut => {
                if self.phase == SessionPhase::Connecting {
                    self.phase = SessionPhase::Ended;
                    return SessionAction::Fail("Timeout waiting for relay connection".to_owned());
                }
            },
            SessionEvent::ReservationRequested { listener } => {
                if self.phase == SessionPhase::Connected {
                    self.phase = SessionPhase::Reserving(listener);
                }
            },
            SessionEvent::ReservationAccepted => {
                if let SessionPhase::Reserving(id) = self.phase {
                    self.phase = SessionPhase::Serving(id);
                    return SessionAction::Serve;
                }
            },
            SessionEvent::ListenerFailed { listener, error } => {
                if let SessionPhase::Reserving(id) = self.phase {
                    if id == listener {
                        self.phase = SessionPhase::Ended;
                        return fail_with("Reservation request rejected: ", error.as_str());
                    }
                }
                if let SessionPhase::Serving(id) = self.phase {
                    if id == listener {
                        self.phase = SessionPhase::Ended;
                        return fail_with("Relay reservation lost: ", error.as_str());
                    }
                }
            },
            SessionEvent::VideoClosed => {
                if let SessionPhase::Serving(_) = self.phase {
                    self.phase = SessionPhase::Ended;
                    return SessionAction::Fail("Video stream accept channel closed".to_owned());
                }
            },
            SessionEvent::AudioClosed => {
                if let SessionPhase::Serving(_) = self.phase {
                    self.phase = SessionPhase::Ended;
                    return SessionAction::Fail("Audio stream accept channel closed".to_owned());
                }
            },
            SessionEvent::Other => {},
        }
        SessionAction::Wait
    }
}

/// How long to wait before a session, in seconds: the first, numbered 1, begins at
/// once.
pub fn wait_before_session(number: u64) -> (r: u64)
    ensures
        r == if number > 1 {
            RECONNECT_DELAY_SECS
        } else {
            0
        },
{
    if number > 1 {
        RECONNECT_DELAY_SECS
    } else {
        0
    }
}

/// Viewers are served only under a reservation that the relay has accepted.
pub proof fn law_serves_under_reservation(
    relay: Seq<Part>,
    phase: SessionPhase,
    event: SessionEvent,
)
    ensures
        session_step(relay, phase, event).1 is Serve ==> phase is Reserving && event
            is ReservationAccepted,
        !(phase is Serving) && session_step(relay, phase, event).0 is Serving ==> session_step(
            relay,
            phase,
            event,
        ).1 is Serve,
{
}

/// A session ends exactly when it fails, and then stays ended.
pub proof fn law_session_ends_with_error(
    relay: Seq<Part>,
    phase: SessionPhase,
    event: SessionEvent,
)
    ensures
        session_step(relay, phase, event).1 is Fail ==> session_step(relay, phase, event).0
            == SessionPhase::Ended,
        phase != SessionPhase::Ended && session_step(relay, phase, event).0 == SessionPhase::Ended
            ==> session_step(relay, phase, event).1 is Fail,
        phase == SessionPhase::Ended ==> session_step(relay, phase, event) == (
            phase,
            SessionActionView::Wait,
        ),
{
}

/// Once the relay is connected, a reservation is asked for at its address with the mark
/// of a circuit behind it; an accepted reservation is served under the listener with
/// which it was asked for.
pub proof fn law_session_proceeds(relay: Seq<Part>, listener: u64)
    ensures
        ({
            let (phase, action) = session_step(
                relay,
                SessionPhase::Connecting,
                SessionEvent::Established,
            );
            &&& action matches SessionActionView::RequestReservation(addr) && addr.len()
                == relay.len() + 1 && addr.take(relay.len() as int) == relay && addr.last()
                == Part::P2pCircuit
            &&& session_step(relay, phase, SessionEvent::ReservationRequested { listener }) == (
                SessionPhase::Reserving(listener),
                SessionActionView::Wait,
            )
            &&& session_step(
                relay,
                SessionPhase::Reserving(listener),
                SessionEvent::ReservationAccepted,
            ) == (SessionPhase::Serving(listener), SessionActionView::Serve)
        }),
{
    assert(relay.push(Part::P2pCircuit).take(relay.len() as int) =~= relay);
}

/// A session fails while it connects only by a failed dial or for want of time, and from
/// then on only by the listener of its own reservation or, once it serves, by the end of
/// requests. The reason is part of the error.
pub proof fn law_session_failures(relay: Seq<Part>, phase: SessionPhase, event: SessionEvent)
    ensures
        session_step(relay, phase, event).1 is Fail <==> match event {
            SessionEvent::DialFailed { .. } => phase == SessionPhase::Connecting,
            SessionEvent::TimedOut => phase == SessionPhase::Connecting,
            SessionEvent::ListenerFailed { listener, .. } => phase == SessionPhase::Reserving(
                listener,
            ) || phase == SessionPhase::Serving(listener),
            SessionEvent::VideoClosed => phase is Serving,
            SessionEvent::AudioClosed => phase is Serving,
            _ => false,
        },
        session_step(relay, phase, event).1 matches SessionActionView::Fail(text) ==> match event {
            SessionEvent::DialFailed { error } => text == "Failed to connect to relay: "@ + error@,
            SessionEvent::TimedOut => text == "Timeout waiting for relay connection"@,
            SessionEvent::ListenerFailed { error, .. } => text == if phase is Reserving {
                "Reservation request rejected: "@ + error@
            } else {
                "Relay reservation lost: "@ + error@
            },
            SessionEvent::VideoClosed => text == "Video stream accept channel closed"@,
            SessionEvent::AudioClosed => text == "Audio stream accept channel closed"@,
            _ => true,
        },
{
}

/// A session only moves forward, one step at a time: it goes on from a phase only by the
/// event that belongs to it, and any other event leaves it where it is or ends it.
pub proof fn law_session_moves_forward(
    relay: Seq<Part>,
    phase: SessionPhase,
    event: SessionEvent,
)
    ensures
        ({
            let (now, action) = session_step(relay, phase, event);
            ||| now == phase && action is Wait
            ||| now == SessionPhase::Ended && action is Fail
            ||| phase == SessionPhase::Connecting && event is Established && now
                == SessionPhase::Connected && action is RequestReservation
            ||| phase == SessionPhase::Connected && now is Reserving && action is Wait && (event
                matches SessionEvent::ReservationRequested { listener } && now
                == SessionPhase::Reserving(listener))
            ||| phase is Reserving && event is ReservationAccepted && now == SessionPhase::Serving(
                phase->Reserving_0,
            ) && action is Serve
        }),
{
}

} // verus!
