//! The ring / accept / reject handshake on either side of a call, and the
//! `Hello` exchange that follows an accepted ring.
//!
//! Both sides are state machines. The owner of the QUIC connection
//! performs each action, reports how it went as the next event, and stops
//! at the first terminal action.
use vstd::prelude::*;

use crate::protocol::{browser_hello, Hello, SignalMessage};
use crate::session::{endpoint_id_of_ticket, parse_endpoint_id};
use vstd::string::StrSliceExecFns;

verus! {

// ── The dialling side ───────────────────────────────────────────────────────

/// Why dialling a peer failed.
#[derive(Debug, Clone, Copy, PartialEq, Eq, Structural)]
pub enum DialError {
    /// The ticket does not name an endpoint.
    InvalidTicket,
    /// The connection to the peer could not be established.
    ConnectFailed,
    /// The control stream could not be opened.
    OpenControlFailed,
    /// The `Ring` could not be sent.
    SendRingFailed,
    /// The peer's answer could not be read.
    ReadAnswerFailed,
    /// The peer closed the control stream without answering.
    ClosedWithoutAnswer,
    /// The peer answered a `Ring` with a `Ring`.
    UnexpectedRing,
    /// Our `Hello` could not be sent.
    SendHelloFailed,
    /// The peer's `Hello` could not be read.
    ReadHelloFailed,
    /// The peer closed the control stream before sending its `Hello`.
    ClosedBeforeHello,
    /// The media streams could not be set up.
    MediaSetupFailed,
}

/// Where the dialling side stands.
#[derive(Debug, Clone, Copy, PartialEq, Eq, Structural)]
pub enum DialPhase {
    Connecting,
    OpeningControl,
    SendingRing,
    AwaitingAnswer,
    SendingHello,
    AwaitingHello,
    SettingUpMedia(Hello),
    /// The call is live; the peer announced this `Hello`.
    Live(Hello),
    /// The peer rejected the call.
    Declined,
    Failed(DialError),
}

/// How the last action of the dialling side went.
#[derive(Debug, Clone, Copy, PartialEq, Eq, Structural)]
pub enum DialEvent {
    /// The action completed.
    Succeeded,
    /// The action failed.
    Failed,
    /// A read found the control stream finished by the peer.
    Closed,
    /// A read of the peer's answer yielded this signal.
    Answer(SignalMessage),
    /// A read of the peer's `Hello` yielded this one.
    RemoteHello(Hello),
}

/// What the dialling side asks its owner to do next.
#[derive(Debug, Clone, Copy)]
pub enum DialAction {
    /// Connect to the endpoint with this id.
    Connect([u8; 32]),
    /// Open the bidirectional control stream.
    OpenControlStream,
    /// Write this signal on the control stream.
    SendSignal(SignalMessage),
    /// Read the peer's answer from the control stream.
    ReadAnswer,
    /// Write our `Hello` on the control stream.
    SendHello(Hello),
    /// Read the peer's `Hello` from the control stream.
    ReadHello,
    /// Open our two media streams and accept the peer's two.
    SetUpMedia,
    /// Done: the call is live, and the peer announced this `Hello`.
    Established(Hello),
    /// Done: the peer rejected the call.
    Declined,
    /// Done: dialling failed.
    Abort(DialError),
    /// Nothing left to do.
    Idle,
}

/// The dialling side of the handshake.
#[derive(Debug, Clone, Copy)]
pub struct Dialer {
    pub phase: DialPhase,
    /// The `Hello` we send once the peer accepts.
    pub local: Hello,
}

/// Whether a dialling phase is final.
pub open spec fn dial_done(p: DialPhase) -> bool {
    p is Live || p is Declined || p is Failed
}

/// Where dialling starts, given the endpoint id parsed from the ticket.
pub open spec fn dial_start(id: Option<[u8; 32]>, local: Hello) -> (Dialer, DialAction) {
    match id {
        Some(b) => (Dialer { phase: DialPhase::Connecting, local }, DialAction::Connect(b)),
        None => (
            Dialer { phase: DialPhase::Failed(DialError::InvalidTicket), local },
            DialAction::Abort(DialError::InvalidTicket),
        ),
    }
}

/// The dialler's step: connect, open the control stream, ring, and read the
/// answer. On `Accept` it sends its `Hello` first and then reads the peer's
/// (the callee reads first), then sets up media. `Reject` ends dialling with no call; any other failure aborts
/// with the step that failed. Finished dialling ignores further events.
pub open spec fn dial_next(d: Dialer, ev: DialEvent) -> (Dialer, DialAction) {
    let go = |p: DialPhase, a: DialAction| (Dialer { phase: p, local: d.local }, a);
    let fail = |e: DialError| go(DialPhase::Failed(e), DialAction::Abort(e));
    match d.phase {
        DialPhase::Connecting => if ev is Succeeded {
            go(DialPhase::OpeningControl, DialAction::OpenControlStream)
        } else {
            fail(DialError::ConnectFailed)
        },
        DialPhase::OpeningControl => if ev is Succeeded {
            go(DialPhase::SendingRing, DialAction::SendSignal(SignalMessage::Ring))
        } else {
            fail(DialError::OpenControlFailed)
        },
        DialPhase::SendingRing => if ev is Succeeded {
            go(DialPhase::AwaitingAnswer, DialAction::ReadAnswer)
        } else {
            fail(DialError::SendRingFailed)
        },
        DialPhase::AwaitingAnswer => match ev {
            DialEvent::Answer(SignalMessage::Accept) => go(
                DialPhase::SendingHello,
                DialAction::SendHello(d.local),
            ),
            DialEvent::Answer(SignalMessage::Reject) => go(
                DialPhase::Declined,
                DialAction::Declined,
            ),
            DialEvent::Answer(SignalMessage::Ring) => fail(DialError::UnexpectedRing),
            DialEvent::Closed => fail(DialError::ClosedWithoutAnswer),
            _ => fail(DialError::ReadAnswerFailed),
        },
        DialPhase::SendingHello => if ev is Succeeded {
            go(DialPhase::AwaitingHello, DialAction::ReadHello)
        } else {
            fail(DialError::SendHelloFailed)
        },
        DialPhase::AwaitingHello => match ev {
            DialEvent::RemoteHello(h) => go(DialPhase::SettingUpMedia(h), DialAction::SetUpMedia),
            DialEvent::Closed => fail(DialError::ClosedBeforeHello),
            _ => fail(DialError::ReadHelloFailed),
        },
        DialPhase::SettingUpMedia(h) => if ev is Succeeded {
            go(DialPhase::Live(h), DialAction::Established(h))
        } else {
            fail(DialError::MediaSetupFailed)
        },
        _ => (d, DialAction::Idle),
    }
}

impl Dialer {
    /// Starts dialling the peer that `ticket` names; the first action is
    /// to connect to it, or to abort if the ticket names no endpoint. Only
    /// 64-character (hex) and 52-character (base32) tickets are parsed.
    pub fn start(ticket: &str, local: Hello) -> (r: (Dialer, DialAction))
        ensures
            r.0.local == local,
            if ticket@.len() == 64 || ticket@.len() == 52 {
                match endpoint_id_of_ticket(ticket@) {
                    Some(id) => r.0.phase == DialPhase::Connecting && (r.1 matches DialAction::Connect(
                        b,
                    ) && b@ == id),
                    None => r.0.phase == DialPhase::Failed(DialError::InvalidTicket) && (r.1 matches DialAction::Abort(e) && e == DialError::InvalidTicket),
                }
            } else {
                r.0.phase == DialPhase::Failed(DialError::InvalidTicket) && (r.1 matches DialAction::Abort(e)
                    && e == DialError::InvalidTicket)
            },
    {
        let len = ticket.unicode_len();
        if len != 64 && len != 52 {
            return Dialer::from_endpoint_id(None, local);
        }
        let id = parse_endpoint_id(ticket);
        Dialer::from_endpoint_id(id, local)
    }

    /// Starts dialling with the result of parsing the ticket.
    pub fn from_endpoint_id(id: Option<[u8; 32]>, local: Hello) -> (r: (Dialer, DialAction))
        ensures
            r == dial_start(id, local),
    {
        match id {
            Some(b) => (Dialer { phase: DialPhase::Connecting, local }, DialAction::Connect(b)),
            None => (
                Dialer { phase: DialPhase::Failed(DialError::InvalidTicket), local },
                DialAction::Abort(DialError::InvalidTicket),
            ),
        }
    }

    /// Advances dialling with how the last action went.
    pub fn step(&mut self, ev: DialEvent) -> (a: DialAction)
        ensures
            (*final(self), a) == dial_next(*old(self), ev),
    {
        let local = self.local;
        let (phase, action) = match self.phase {
            DialPhase::Connecting => match ev {
                DialEvent::Succeeded => (DialPhase::OpeningControl, DialAction::OpenControlStream),
                _ => (
                    DialPhase::Failed(DialError::ConnectFailed),
                    DialAction::Abort(DialError::ConnectFailed),
                ),
            },
            DialPhase::OpeningControl => match ev {
                DialEvent::Succeeded => (
                    DialPhase::SendingRing,
                    DialAction::SendSignal(SignalMessage::Ring),
                ),
                _ => (
                    DialPhase::Failed(DialError::OpenControlFailed),
                    DialAction::Abort(DialError::OpenControlFailed),
                ),
            },
            DialPhase::SendingRing => match ev {
                DialEvent::Succeeded => (DialPhase::AwaitingAnswer, DialAction::ReadAnswer),
                _ => (
                    DialPhase::Failed(DialError::SendRingFailed),
                    DialAction::Abort(DialError::SendRingFailed),
                ),
            },
            DialPhase::AwaitingAnswer => match ev {
                DialEvent::Answer(SignalMessage::Accept) => (
                    DialPhase::SendingHello,
                    DialAction::SendHello(local),
                ),
                DialEvent::Answer(SignalMessage::Reject) => (
                    DialPhase::Declined,
                    DialAction::Declined,
                ),
                DialEvent::Answer(SignalMessage::Ring) => (
                    DialPhase::Failed(DialError::UnexpectedRing),
                    DialAction::Abort(DialError::UnexpectedRing),
                ),
                DialEvent::Closed => (
                    DialPhase::Failed(DialError::ClosedWithoutAnswer),
                    DialAction::Abort(DialError::ClosedWithoutAnswer),
                ),
                _ => (
                    DialPhase::Failed(DialError::ReadAnswerFailed),
                    DialAction::Abort(DialError::ReadAnswerFailed),
                ),
            },
            DialPhase::SendingHello => match ev {
                DialEvent::Succeeded => (DialPhase::AwaitingHello, DialAction::ReadHello),
                _ => (
                    DialPhase::Failed(DialError::SendHelloFailed),
                    DialAction::Abort(DialError::SendHelloFailed),
                ),
            },
            DialPhase::AwaitingHello => match ev {
                DialEvent::RemoteHello(h) => (DialPhase::SettingUpMedia(h), DialAction::SetUpMedia),
                DialEvent::Closed => (
                    DialPhase::Failed(DialError::ClosedBeforeHello),
                    DialAction::Abort(DialError::ClosedBeforeHello),
                ),
                _ => (
                    DialPhase::Failed(DialError::ReadHelloFailed),
                    DialAction::Abort(DialError::ReadHelloFailed),
                ),
            },
            DialPhase::SettingUpMedia(h) => match ev {
                DialEvent::Succeeded => (DialPhase::Live(h), DialAction::Established(h)),
                _ => (
                    DialPhase::Failed(DialError::MediaSetupFailed),
                    DialAction::Abort(DialError::MediaSetupFailed),
                ),
            },
            p => (p, DialAction::Idle),
        };
        self.phase = phase;
        action
    }
}

// ── The answering side ──────────────────────────────────────────────────────

/// Why answering a call failed.
#[derive(Debug, Clone, Copy, PartialEq, Eq, Structural)]
pub enum AnswerError {
    /// The endpoint stopped accepting connections.
    EndpointClosed,
    /// The incoming connection's handshake failed.
    HandshakeFailed,
    /// The dialler's control stream could not be accepted.
    AcceptControlFailed,
    /// The dialler's first signal could not be read.
    ReadSignalFailed,
    /// The dialler closed the control stream without ringing.
    ClosedWithoutRing,
    /// The dialler's first signal was this one rather than a `Ring`.
    ExpectedRing(SignalMessage),
    /// The `Accept` could not be sent.
    SendAcceptFailed,
    /// The dialler's `Hello` could not be read.
    ReadHelloFailed,
    /// The dialler closed the control stream before sending its `Hello`.
    ClosedBeforeHello,
    /// Our `Hello` could not be sent.
    SendHelloFailed,
    /// The media streams could not be set up.
    MediaSetupFailed,
    /// The `Reject` could not be sent.
    SendRejectFailed,
}

/// Where the answering side stands.
#[derive(Debug, Clone, Copy, PartialEq, Eq, Structural)]
pub enum AnswerPhase {
    AwaitingConnection,
    Handshaking,
    AcceptingControl,
    AwaitingRing,
    /// The dialler rang; the user decides.
    Ringing,
    /// Sending `Accept`; we will announce this `Hello`.
    SendingAccept(Hello),
    /// Waiting for the dialler's `Hello`; we will announce this one.
    AwaitingHello(Hello),
    /// Sending our `Hello`; the dialler announced this one.
    SendingHello(Hello),
    SettingUpMedia(Hello),
    /// The call is live; the dialler announced this `Hello`.
    Live(Hello),
    SendingReject,
    /// The call was rejected and the connection closed.
    Rejected,
    Failed(AnswerError),
}

/// How the last action of the answering side went, or what the user decided.
#[derive(Debug, Clone, Copy, PartialEq, Eq, Structural)]
pub enum AnswerEvent {
    /// The action completed.
    Succeeded,
    /// The action failed.
    Failed,
    /// The endpoint, or a read of the control stream, found nothing more.
    Closed,
    /// A read of the dialler's signal yielded this one.
    Signal(SignalMessage),
    /// A read of the dialler's `Hello` yielded this one.
    RemoteHello(Hello),
    /// The user takes the call and will send media as this `Hello` says.
    Take(Hello),
    /// The user declines the call.
    Decline,
}

/// What the answering side asks its owner to do next.
#[derive(Debug, Clone, Copy)]
pub enum AnswerAction {
    /// Wait for the next incoming connection.
    AcceptConnection,
    /// Complete the incoming connection's handshake.
    AwaitHandshake,
    /// Accept the dialler's control stream.
    AcceptControlStream,
    /// Read the dialler's signal from the control stream.
    ReadSignal,
    /// Present the ringing call to the user and report the decision.
    PresentCall,
    /// Write this signal on the control stream.
    SendSignal(SignalMessage),
    /// Read the dialler's `Hello` from the control stream.
    ReadHello,
    /// Write this `Hello` on the control stream.
    SendHello(Hello),
    /// Open our two media streams and accept the dialler's two.
    SetUpMedia,
    /// Done: close the connection with code 0 and reason "rejected".
    CloseRejected,
    /// Done: the call is live, and the dialler announced this `Hello`.
    Established(Hello),
    /// Done: answering failed.
    Abort(AnswerError),
    /// Nothing to do.
    Idle,
}

/// The answering side of the handshake.
#[derive(Debug, Clone, Copy)]
pub struct Answerer {
    pub phase: AnswerPhase,
}

/// Whether an answering phase is final.
pub open spec fn answer_done(p: AnswerPhase) -> bool {
    p is Live || p is Rejected || p is Failed
}

/// The answering step: take the next connection, accept its control stream
/// and read the first signal, which must be a `Ring`. Then the user
/// decides. Taking the call sends `Accept`, reads the dialler's `Hello`
/// before sending ours, and sets up media. Declining sends `Reject` and
/// closes the connection at once, without any media streams. While ringing,
/// anything but the user's decision is ignored; finished answering ignores
/// every event.
pub open spec fn answer_next(m: Answerer, ev: AnswerEvent) -> (Answerer, AnswerAction) {
    let go = |p: AnswerPhase, a: AnswerAction| (Answerer { phase: p }, a);
    let fail = |e: AnswerError| go(AnswerPhase::Failed(e), AnswerAction::Abort(e));
    match m.phase {
        AnswerPhase::AwaitingConnection => if ev is Succeeded {
            go(AnswerPhase::Handshaking, AnswerAction::AwaitHandshake)
        } else {
            fail(AnswerError::EndpointClosed)
        },
        AnswerPhase::Handshaking => if ev is Succeeded {
            go(AnswerPhase::AcceptingControl, AnswerAction::AcceptControlStream)
        } else {
            fail(AnswerError::HandshakeFailed)
        },
        AnswerPhase::AcceptingControl => if ev is Succeeded {
            go(AnswerPhase::AwaitingRing, AnswerAction::ReadSignal)
        } else {
            fail(AnswerError::AcceptControlFailed)
        },
        AnswerPhase::AwaitingRing => match ev {
            AnswerEvent::Signal(SignalMessage::Ring) => go(
                AnswerPhase::Ringing,
                AnswerAction::PresentCall,
            ),
            AnswerEvent::Signal(s) => fail(AnswerError::ExpectedRing(s)),
            AnswerEvent::Closed => fail(AnswerError::ClosedWithoutRing),
            _ => fail(AnswerError::ReadSignalFailed),
        },
        AnswerPhase::Ringing => match ev {
            AnswerEvent::Take(h) => go(
                AnswerPhase::SendingAccept(h),
                AnswerAction::SendSignal(SignalMessage::Accept),
            ),
            AnswerEvent::Decline => go(
                AnswerPhase::SendingReject,
                AnswerAction::SendSignal(SignalMessage::Reject),
            ),
            _ => (m, AnswerAction::Idle),
        },
        AnswerPhase::SendingAccept(h) => if ev is Succeeded {
            go(AnswerPhase::AwaitingHello(h), AnswerAction::ReadHello)
        } else {
            fail(AnswerError::SendAcceptFailed)
        },
        AnswerPhase::AwaitingHello(h) => match ev {
            AnswerEvent::RemoteHello(r) => go(AnswerPhase::SendingHello(r), AnswerAction::SendHello(h)),
            AnswerEvent::Closed => fail(AnswerError::ClosedBeforeHello),
            _ => fail(AnswerError::ReadHelloFailed),
        },
        AnswerPhase::SendingHello(r) => if ev is Succeeded {
            go(AnswerPhase::SettingUpMedia(r), AnswerAction::SetUpMedia)
        } else {
            fail(AnswerError::SendHelloFailed)
        },
        AnswerPhase::SettingUpMedia(r) => if ev is Succeeded {
            go(AnswerPhase::Live(r), AnswerAction::Established(r))
        } else {
            fail(AnswerError::MediaSetupFailed)
        },
        AnswerPhase::SendingReject => if ev is Succeeded {
            go(AnswerPhase::Rejected, AnswerAction::CloseRejected)
        } else {
            fail(AnswerError::SendRejectFailed)
        },
        _ => (m, AnswerAction::Idle),
    }
}

impl Answerer {
    /// The answering side before any connection, and its first action.
    pub fn new() -> (r: (Answerer, AnswerAction))
        ensures
            r.0.phase == AnswerPhase::AwaitingConnection,
            r.1 is AcceptConnection,
    {
        (Answerer { phase: AnswerPhase::AwaitingConnection }, AnswerAction::AcceptConnection)
    }

    /// Advances answering with how the last action went.
    pub fn step(&mut self, ev: AnswerEvent) -> (a: AnswerAction)
        ensures
            (*final(self), a) == answer_next(*old(self), ev),
    {
        let (phase, action) = match self.phase {
            AnswerPhase::AwaitingConnection => match ev {
                AnswerEvent::Succeeded => (AnswerPhase::Handshaking, AnswerAction::AwaitHandshake),
                _ => (
                    AnswerPhase::Failed(AnswerError::EndpointClosed),
                    AnswerAction::Abort(AnswerError::EndpointClosed),
                ),
            },
            AnswerPhase::Handshaking => match ev {
                AnswerEvent::Succeeded => (
                    AnswerPhase::AcceptingControl,
                    AnswerAction::AcceptControlStream,
                ),
                _ => (
                    AnswerPhase::Failed(AnswerError::HandshakeFailed),
                    AnswerAction::Abort(AnswerError::HandshakeFailed),
                ),
            },
            AnswerPhase::AcceptingControl => match ev {
                AnswerEvent::Succeeded => (AnswerPhase::AwaitingRing, AnswerAction::ReadSignal),
                _ => (
                    AnswerPhase::Failed(AnswerError::AcceptControlFailed),
                    AnswerAction::Abort(AnswerError::AcceptControlFailed),
                ),
            },
            AnswerPhase::AwaitingRing => match ev {
                AnswerEvent::Signal(SignalMessage::Ring) => (
                    AnswerPhase::Ringing,
                    AnswerAction::PresentCall,
                ),
                AnswerEvent::Signal(s) => (
                    AnswerPhase::Failed(AnswerError::ExpectedRing(s)),
                    AnswerAction::Abort(AnswerError::ExpectedRing(s)),
                ),
                AnswerEvent::Closed => (
                    AnswerPhase::Failed(AnswerError::ClosedWithoutRing),
                    AnswerAction::Abort(AnswerError::ClosedWithoutRing),
                ),
                _ => (
                    AnswerPhase::Failed(AnswerError::ReadSignalFailed),
                    AnswerAction::Abort(AnswerError::ReadSignalFailed),
                ),
            },
            AnswerPhase::Ringing => match ev {
                AnswerEvent::Take(h) => (
                    AnswerPhase::SendingAccept(h),
                    AnswerAction::SendSignal(SignalMessage::Accept),
                ),
                AnswerEvent::Decline => (
                    AnswerPhase::SendingReject,
                    AnswerAction::SendSignal(SignalMessage::Reject),
                ),
                _ => (AnswerPhase::Ringing, AnswerAction::Idle),
            },
            AnswerPhase::SendingAccept(h) => match ev {
                AnswerEvent::Succeeded => (AnswerPhase::AwaitingHello(h), AnswerAction::ReadHello),
                _ => (
                    AnswerPhase::Failed(AnswerError::SendAcceptFailed),
                    AnswerAction::Abort(AnswerError::SendAcceptFailed),
                ),
            },
            AnswerPhase::AwaitingHello(h) => match ev {
                AnswerEvent::RemoteHello(r) => (
                    AnswerPhase::SendingHello(r),
                    AnswerAction::SendHello(h),
                ),
                AnswerEvent::Closed => (
                    AnswerPhase::Failed(AnswerError::ClosedBeforeHello),
                    AnswerAction::Abort(AnswerError::ClosedBeforeHello),
                ),
                _ => (
                    AnswerPhase::Failed(AnswerError::ReadHelloFailed),
                    AnswerAction::Abort(AnswerError::ReadHelloFailed),
                ),
            },
            AnswerPhase::SendingHello(r) => match ev {
                AnswerEvent::Succeeded => (AnswerPhase::SettingUpMedia(r), AnswerAction::SetUpMedia),
                _ => (
                    AnswerPhase::Failed(AnswerError::SendHelloFailed),
                    AnswerAction::Abort(AnswerError::SendHelloFailed),
                ),
            },
            AnswerPhase::SettingUpMedia(r) => match ev {
                AnswerEvent::Succeeded => (AnswerPhase::Live(r), AnswerAction::Established(r)),
                _ => (
                    AnswerPhase::Failed(AnswerError::MediaSetupFailed),
                    AnswerAction::Abort(AnswerError::MediaSetupFailed),
                ),
            },
            AnswerPhase::SendingReject => match ev {
                AnswerEvent::Succeeded => (AnswerPhase::Rejected, AnswerAction::CloseRejected),
                _ => (
                    AnswerPhase::Failed(AnswerError::SendRejectFailed),
                    AnswerAction::Abort(AnswerError::SendRejectFailed),
                ),
            },
            p => (p, AnswerAction::Idle),
        };
        self.phase = phase;
        action
    }
}

// ── Laws of the handshake ───────────────────────────────────────────────────

/// The actions the dialling side asks for, one per event, from `d` on.
pub open spec fn dial_run(d: Dialer, evs: Seq<DialEvent>) -> Seq<DialAction>
    decreases evs.len(),
{
    if evs.len() == 0 {
        Seq::empty()
    } else {
        let (d2, a) = dial_next(d, evs[0]);
        seq![a] + dial_run(d2, evs.drop_first())
    }
}

/// The actions the answering side asks for, one per event, from `m` on.
pub open spec fn answer_run(m: Answerer, evs: Seq<AnswerEvent>) -> Seq<AnswerAction>
    decreases evs.len(),
{
    if evs.len() == 0 {
        Seq::empty()
    } else {
        let (m2, a) = answer_next(m, evs[0]);
        seq![a] + answer_run(m2, evs.drop_first())
    }
}

proof fn lemma_dial_run_len(d: Dialer, evs: Seq<DialEvent>)
    ensures
        dial_run(d, evs).len() == evs.len(),
        evs.len() > 0 ==> dial_run(d, evs) == seq![dial_next(d, evs[0]).1] + dial_run(
            dial_next(d, evs[0]).0,
            evs.drop_first(),
        ),
    decreases evs.len(),
{
    if evs.len() > 0 {
        lemma_dial_run_len(dial_next(d, evs[0]).0, evs.drop_first());
    }
}

proof fn lemma_answer_run_len(m: Answerer, evs: Seq<AnswerEvent>)
    ensures
        answer_run(m, evs).len() == evs.len(),
        evs.len() > 0 ==> answer_run(m, evs) == seq![answer_next(m, evs[0]).1] + answer_run(
            answer_next(m, evs[0]).0,
            evs.drop_first(),
        ),
    decreases evs.len(),
{
    if evs.len() > 0 {
        lemma_answer_run_len(answer_next(m, evs[0]).0, evs.drop_first());
    }
}

/// Finished dialling stays finished and asks for nothing more, whatever happens.
pub proof fn lemma_dial_done_is_final(d: Dialer, evs: Seq<DialEvent>)
    requires
        dial_done(d.phase),
    ensures
        forall|i: int| 0 <= i < evs.len() ==> (#[trigger] dial_run(d, evs)[i]) is Idle,
    decreases evs.len(),
{
    if evs.len() > 0 {
        let tail = evs.drop_first();
        lemma_dial_run_len(d, evs);
        lemma_dial_done_is_final(d, tail);
        assert forall|i: int| 0 <= i < evs.len() implies (#[trigger] dial_run(d, evs)[i]) is Idle by {
            if i > 0 {
                assert(dial_run(d, evs)[i] == dial_run(d, tail)[i - 1]);
            }
        }
    }
}

/// Finished answering stays finished and asks for nothing more, whatever happens.
pub proof fn lemma_answer_done_is_final(m: Answerer, evs: Seq<AnswerEvent>)
    requires
        answer_done(m.phase),
    ensures
        forall|i: int| 0 <= i < evs.len() ==> (#[trigger] answer_run(m, evs)[i]) is Idle,
    decreases evs.len(),
{
    if evs.len() > 0 {
        let tail = evs.drop_first();
        lemma_answer_run_len(m, evs);
        lemma_answer_done_is_final(m, tail);
        assert forall|i: int| 0 <= i < evs.len() implies (#[trigger] answer_run(m, evs)[i]) is Idle by {
            if i > 0 {
                assert(answer_run(m, evs)[i] == answer_run(m, tail)[i - 1]);
            }
        }
    }
}

/// Dialling phases that come before the peer's `Accept` (or end without one).
pub open spec fn before_accept(p: DialPhase) -> bool {
    p is Connecting || p is OpeningControl || p is SendingRing || p is AwaitingAnswer
        || p is Declined || p is Failed
}

/// The dialler sets up media, and so establishes a call, only after the
/// peer answered its ring with `Accept`.
pub proof fn lemma_dial_media_needs_accept(d: Dialer, evs: Seq<DialEvent>, i: int)
    requires
        before_accept(d.phase),
        0 <= i < evs.len(),
        dial_run(d, evs)[i] is SetUpMedia || dial_run(d, evs)[i] is Established,
    ensures
        exists|j: int| 0 <= j < i && evs[j] == DialEvent::Answer(SignalMessage::Accept),
    decreases evs.len(),
{
    let (d2, a) = dial_next(d, evs[0]);
    let tail = evs.drop_first();
    lemma_dial_run_len(d, evs);
    assert(dial_run(d, evs) == seq![a] + dial_run(d2, tail));
    if i == 0 {
        assert(dial_run(d, evs)[0] == a);
    } else {
        assert(dial_run(d, evs)[i] == dial_run(d2, tail)[i - 1]);
        if before_accept(d2.phase) {
            lemma_dial_media_needs_accept(d2, tail, i - 1);
            let j = choose|j: int| 0 <= j < i - 1 && tail[j] == DialEvent::Answer(SignalMessage::Accept);
            assert(evs[j + 1] == tail[j]);
        } else {
            assert(evs[0] == DialEvent::Answer(SignalMessage::Accept));
        }
    }
}

/// The dialler writes its `Hello` before it reads the peer's: every
/// `ReadHello` is preceded by a `SendHello` (our `Hello` is only asked for
/// once the peer accepted).
pub proof fn lemma_dial_sends_hello_first(d: Dialer, evs: Seq<DialEvent>, i: int)
    requires
        before_accept(d.phase),
        0 <= i < evs.len(),
        dial_run(d, evs)[i] is ReadHello,
    ensures
        exists|j: int| 0 <= j < i && (#[trigger] dial_run(d, evs)[j]) is SendHello,
    decreases evs.len(),
{
    let (d2, a) = dial_next(d, evs[0]);
    let tail = evs.drop_first();
    lemma_dial_run_len(d, evs);
    let run = dial_run(d, evs);
    assert(run == seq![a] + dial_run(d2, tail));
    if i == 0 {
        assert(run[0] == a);
    } else {
        assert(run[i] == dial_run(d2, tail)[i - 1]);
        if before_accept(d2.phase) {
            lemma_dial_sends_hello_first(d2, tail, i - 1);
            let j = choose|j: int| 0 <= j < i - 1 && (#[trigger] dial_run(d2, tail)[j]) is SendHello;
            assert(run[j + 1] == dial_run(d2, tail)[j]);
        } else {
            assert(run[0] == a);
            assert(run[0] is SendHello);
        }
    }
}

/// A dialler whose ring is answered with `Reject` ends without a call and
/// asks for nothing more: no media streams are set up.
pub proof fn lemma_dial_reject_ends(d: Dialer, evs: Seq<DialEvent>)
    requires
        d.phase == DialPhase::AwaitingAnswer,
        evs.len() > 0,
        evs[0] == DialEvent::Answer(SignalMessage::Reject),
    ensures
        dial_run(d, evs)[0] is Declined,
        forall|i: int| 1 <= i < evs.len() ==> (#[trigger] dial_run(d, evs)[i]) is Idle,
{
    let (d2, a) = dial_next(d, evs[0]);
    let tail = evs.drop_first();
    lemma_dial_run_len(d, evs);
    assert(dial_run(d, evs) == seq![a] + dial_run(d2, tail));
    lemma_dial_done_is_final(d2, tail);
    assert forall|i: int| 1 <= i < evs.len() implies (#[trigger] dial_run(d, evs)[i]) is Idle by {
        assert(dial_run(d, evs)[i] == dial_run(d2, tail)[i - 1]);
    }
}

/// Answering phases from which no media can follow: a declined call.
pub open spec fn declining(p: AnswerPhase) -> bool {
    p is SendingReject || p is Rejected || p is Failed
}

/// An action that belongs to an accepted call.
pub open spec fn call_action(a: AnswerAction) -> bool {
    a is ReadHello || a is SendHello || a is SetUpMedia || a is Established
}

proof fn lemma_declining_run(m: Answerer, evs: Seq<AnswerEvent>)
    requires
        declining(m.phase),
    ensures
        forall|i: int| 0 <= i < evs.len() ==> !call_action(#[trigger] answer_run(m, evs)[i]),
    decreases evs.len(),
{
    if evs.len() > 0 {
        let (m2, a) = answer_next(m, evs[0]);
        let tail = evs.drop_first();
        lemma_answer_run_len(m, evs);
        assert(answer_run(m, evs) == seq![a] + answer_run(m2, tail));
        lemma_declining_run(m2, tail);
        assert forall|i: int| 0 <= i < evs.len() implies !call_action(
            #[trigger] answer_run(m, evs)[i],
        ) by {
            if i > 0 {
                assert(answer_run(m, evs)[i] == answer_run(m2, tail)[i - 1]);
            }
        }
    }
}

/// Declining a ringing call sends `Reject`; on success the connection is
/// closed at once, and whatever happens no `Hello` is exchanged and no
/// media streams are set up.
pub proof fn lemma_decline_sets_up_nothing(m: Answerer, evs: Seq<AnswerEvent>)
    requires
        m.phase == AnswerPhase::Ringing,
        evs.len() > 0,
        evs[0] == AnswerEvent::Decline,
    ensures
        answer_run(m, evs)[0] matches AnswerAction::SendSignal(s) && s == SignalMessage::Reject,
        evs.len() > 1 && evs[1] == AnswerEvent::Succeeded ==> answer_run(m, evs)[1] is CloseRejected,
        forall|i: int| 0 <= i < evs.len() ==> !call_action(#[trigger] answer_run(m, evs)[i]),
{
    let (m2, a) = answer_next(m, evs[0]);
    let tail = evs.drop_first();
    lemma_answer_run_len(m, evs);
    assert(answer_run(m, evs) == seq![a] + answer_run(m2, tail));
    lemma_declining_run(m2, tail);
    if tail.len() > 0 {
        let (m3, a3) = answer_next(m2, tail[0]);
        assert(answer_run(m2, tail) == seq![a3] + answer_run(m3, tail.drop_first()));
    }
    assert forall|i: int| 0 <= i < evs.len() implies !call_action(
        #[trigger] answer_run(m, evs)[i],
    ) by {
        if i > 0 {
            assert(answer_run(m, evs)[i] == answer_run(m2, tail)[i - 1]);
        }
    }
}

/// Answering phases before the user took the call (or that end without it).
pub open spec fn before_take(p: AnswerPhase) -> bool {
    p is AwaitingConnection || p is Handshaking || p is AcceptingControl || p is AwaitingRing
        || p is Ringing || declining(p)
}

/// The answering side exchanges `Hello`s and sets up media only after the
/// user took the call.
pub proof fn lemma_answer_media_needs_take(m: Answerer, evs: Seq<AnswerEvent>, i: int)
    requires
        before_take(m.phase),
        0 <= i < evs.len(),
        call_action(answer_run(m, evs)[i]),
    ensures
        exists|j: int| 0 <= j < i && (#[trigger] evs[j]) is Take,
    decreases evs.len(),
{
    let (m2, a) = answer_next(m, evs[0]);
    let tail = evs.drop_first();
    lemma_answer_run_len(m, evs);
    assert(answer_run(m, evs) == seq![a] + answer_run(m2, tail));
    if i == 0 {
        assert(answer_run(m, evs)[0] == a);
    } else {
        assert(answer_run(m, evs)[i] == answer_run(m2, tail)[i - 1]);
        if before_take(m2.phase) {
            lemma_answer_media_needs_take(m2, tail, i - 1);
            let j = choose|j: int| 0 <= j < i - 1 && (#[trigger] tail[j]) is Take;
            assert(evs[j + 1] == tail[j]);
        } else {
            assert(evs[0] is Take);
        }
    }
}

/// Answering phases in which the dialler's `Hello` has not been read yet.
pub open spec fn before_remote_hello(p: AnswerPhase) -> bool {
    before_take(p) || p is SendingAccept || p is AwaitingHello
}

/// The answering side reads the dialler's `Hello` before it writes its
/// own: every `SendHello` is preceded by a `ReadHello`.
pub proof fn lemma_answer_reads_hello_first(m: Answerer, evs: Seq<AnswerEvent>, i: int)
    requires
        before_remote_hello(m.phase),
        !(m.phase is AwaitingHello),
        0 <= i < evs.len(),
        answer_run(m, evs)[i] is SendHello,
    ensures
        exists|j: int| 0 <= j < i && (#[trigger] answer_run(m, evs)[j]) is ReadHello,
    decreases evs.len(),
{
    let (m2, a) = answer_next(m, evs[0]);
    let tail = evs.drop_first();
    lemma_answer_run_len(m, evs);
    let run = answer_run(m, evs);
    assert(run == seq![a] + answer_run(m2, tail));
    if i == 0 {
        assert(run[0] == a);
    } else {
        assert(run[i] == answer_run(m2, tail)[i - 1]);
        if before_remote_hello(m2.phase) && !(m2.phase is AwaitingHello) {
            lemma_answer_reads_hello_first(m2, tail, i - 1);
            let j = choose|j: int| 0 <= j < i - 1 && (#[trigger] answer_run(m2, tail)[j]) is ReadHello;
            assert(run[j + 1] == answer_run(m2, tail)[j]);
        } else if m2.phase is AwaitingHello {
            assert(run[0] is ReadHello);
        } else {
            assert(run[0] == a);
        }
    }
}

/// A call between two peers when nothing fails and the user takes it: the
/// dialler writes `Ring`, the callee reads it and writes `Accept`, the
/// dialler reads that and writes its `Hello`, the callee reads it and
/// writes its own, which the dialler reads; both set up media. Each side
/// reads exactly what the other wrote, in order, and each ends live with
/// the other's `Hello`.
pub proof fn lemma_call_flow(id: [u8; 32], a: Hello, b: Hello)
    ensures
        dial_run(
            dial_start(Some(id), a).0,
            seq![
                DialEvent::Succeeded,
                DialEvent::Succeeded,
                DialEvent::Succeeded,
                DialEvent::Answer(SignalMessage::Accept),
                DialEvent::Succeeded,
                DialEvent::RemoteHello(b),
                DialEvent::Succeeded,
            ],
        ) == seq![
            DialAction::OpenControlStream,
            DialAction::SendSignal(SignalMessage::Ring),
            DialAction::ReadAnswer,
            DialAction::SendHello(a),
            DialAction::ReadHello,
            DialAction::SetUpMedia,
            DialAction::Established(b),
        ],
        answer_run(
            Answerer { phase: AnswerPhase::AwaitingConnection },
            seq![
                AnswerEvent::Succeeded,
                AnswerEvent::Succeeded,
                AnswerEvent::Succeeded,
                AnswerEvent::Signal(SignalMessage::Ring),
                AnswerEvent::Take(b),
                AnswerEvent::Succeeded,
                AnswerEvent::RemoteHello(a),
                AnswerEvent::Succeeded,
                AnswerEvent::Succeeded,
            ],
        ) == seq![
            AnswerAction::AwaitHandshake,
            AnswerAction::AcceptControlStream,
            AnswerAction::ReadSignal,
            AnswerAction::PresentCall,
            AnswerAction::SendSignal(SignalMessage::Accept),
            AnswerAction::ReadHello,
            AnswerAction::SendHello(b),
            AnswerAction::SetUpMedia,
            AnswerAction::Established(a),
        ],
{
    reveal_with_fuel(dial_run, 8);
    reveal_with_fuel(answer_run, 10);
}

/// A browser dialling a browser: when the peer takes the call, the dialler
/// announces VP8 of its own size and mono Opus, and ends live with the
/// peer's `Hello`, whose video size is the one the peer announced.
pub proof fn lemma_browser_dial(
    id: [u8; 32],
    width: u16,
    height: u16,
    remote_width: u16,
    remote_height: u16,
)
    ensures
        ({
            let run = dial_run(
                dial_start(Some(id), browser_hello(width, height)).0,
                seq![
                    DialEvent::Succeeded,
                    DialEvent::Succeeded,
                    DialEvent::Succeeded,
                    DialEvent::Answer(SignalMessage::Accept),
                    DialEvent::Succeeded,
                    DialEvent::RemoteHello(browser_hello(remote_width, remote_height)),
                    DialEvent::Succeeded,
                ],
            );
            &&& run[3] matches DialAction::SendHello(h) && h == browser_hello(width, height)
            &&& run[6] matches DialAction::Established(h) && h.video.width == remote_width
                && h.video.height == remote_height
        }),
{
    lemma_call_flow(id, browser_hello(width, height), browser_hello(remote_width, remote_height));
}

// ── What each dialling step may do ──────────────────────────────────────────

/// Dialling ends without a call (`Declined`) only when the peer answered
/// the ring with `Reject`, and always then. Nothing else, a failed media
/// setup included, is reported as a rejection.
pub proof fn lemma_dial_declined_only_on_reject(d: Dialer, ev: DialEvent)
    ensures
        (dial_next(d, ev).1 is Declined) <==> (d.phase == DialPhase::AwaitingAnswer && ev
            == DialEvent::Answer(SignalMessage::Reject)),
        (dial_next(d, ev).0.phase == DialPhase::Declined) <==> (d.phase == DialPhase::Declined || (
        d.phase == DialPhase::AwaitingAnswer && ev == DialEvent::Answer(SignalMessage::Reject))),
{
}

/// In a run of events, every `Declined` answers a `Reject`.
pub proof fn lemma_dial_run_declined_only_on_reject(d: Dialer, evs: Seq<DialEvent>, i: int)
    requires
        0 <= i < evs.len(),
        dial_run(d, evs)[i] is Declined,
    ensures
        evs[i] == DialEvent::Answer(SignalMessage::Reject),
    decreases evs.len(),
{
    lemma_dial_run_len(d, evs);
    let (d2, a) = dial_next(d, evs[0]);
    lemma_dial_declined_only_on_reject(d, evs[0]);
    if i > 0 {
        assert(dial_run(d, evs)[i] == dial_run(d2, evs.drop_first())[i - 1]);
        lemma_dial_run_declined_only_on_reject(d2, evs.drop_first(), i - 1);
    }
}

/// A failed step, at any point of an unfinished dial, aborts dialling with
/// the error that names that step, and never yields a call or a rejection.
/// The peer finishing the control stream early aborts likewise.
pub proof fn lemma_dial_failures_name_their_step(d: Dialer, ev: DialEvent)
    ensures
        ev == DialEvent::Failed && !dial_done(d.phase) ==> ({
            let e = match d.phase {
                DialPhase::Connecting => DialError::ConnectFailed,
                DialPhase::OpeningControl => DialError::OpenControlFailed,
                DialPhase::SendingRing => DialError::SendRingFailed,
                DialPhase::AwaitingAnswer => DialError::ReadAnswerFailed,
                DialPhase::SendingHello => DialError::SendHelloFailed,
                DialPhase::AwaitingHello => DialError::ReadHelloFailed,
                _ => DialError::MediaSetupFailed,
            };
            dial_next(d, ev).1 == DialAction::Abort(e) && dial_next(d, ev).0.phase
                == DialPhase::Failed(e)
        }),
        ev == DialEvent::Closed && d.phase == DialPhase::AwaitingAnswer ==> dial_next(d, ev).1
            == DialAction::Abort(DialError::ClosedWithoutAnswer),
        ev == DialEvent::Closed && d.phase == DialPhase::AwaitingHello ==> dial_next(d, ev).1
            == DialAction::Abort(DialError::ClosedBeforeHello),
        ev == DialEvent::Answer(SignalMessage::Ring) && d.phase == DialPhase::AwaitingAnswer
            ==> dial_next(d, ev).1 == DialAction::Abort(DialError::UnexpectedRing),
        d.phase is SettingUpMedia && ev != DialEvent::Succeeded ==> dial_next(d, ev).1
            == DialAction::Abort(DialError::MediaSetupFailed),
{
}

/// A dial is established only when media setup succeeds, and then with the
/// `Hello` the peer sent: media setup is reached only by reading a `Hello`,
/// and carries that `Hello` on. What we send is the `Hello` we started with.
pub proof fn lemma_dial_established_with_peer_hello(d: Dialer, ev: DialEvent, h: Hello)
    ensures
        dial_next(d, ev).1 matches DialAction::Established(x) ==> d.phase == DialPhase::SettingUpMedia(x)
            && ev == DialEvent::Succeeded,
        dial_next(d, ev).0.phase == DialPhase::SettingUpMedia(h) ==> d.phase == DialPhase::AwaitingHello
            && ev == DialEvent::RemoteHello(h),
        dial_next(d, ev).1 matches DialAction::SendHello(x) ==> x == d.local && d.phase
            == DialPhase::AwaitingAnswer && ev == DialEvent::Answer(SignalMessage::Accept),
        dial_next(d, ev).0.local == d.local,
{
}

// ── What each answering step may do ─────────────────────────────────────────

/// A call is presented to the user only when the dialler's first signal is
/// a `Ring`. The dialler finishing the control stream instead, or sending
/// another signal, aborts answering with the error that says so.
pub proof fn lemma_answer_presents_only_on_ring(m: Answerer, ev: AnswerEvent)
    ensures
        (answer_next(m, ev).1 is PresentCall) <==> (m.phase == AnswerPhase::AwaitingRing && ev
            == AnswerEvent::Signal(SignalMessage::Ring)),
        m.phase == AnswerPhase::AwaitingRing && ev == AnswerEvent::Closed ==> answer_next(m, ev).1
            == AnswerAction::Abort(AnswerError::ClosedWithoutRing),
        m.phase == AnswerPhase::AwaitingRing && ev == AnswerEvent::Failed ==> answer_next(m, ev).1
            == AnswerAction::Abort(AnswerError::ReadSignalFailed),
        forall|s: SignalMessage|
            m.phase == AnswerPhase::AwaitingRing && s != SignalMessage::Ring && ev
                == AnswerEvent::Signal(s) ==> #[trigger] answer_next(m, AnswerEvent::Signal(s)).1
                == AnswerAction::Abort(AnswerError::ExpectedRing(s)),
{
}

/// In a run of events, every presented call answers a `Ring`.
pub proof fn lemma_answer_run_presents_only_on_ring(m: Answerer, evs: Seq<AnswerEvent>, i: int)
    requires
        0 <= i < evs.len(),
        answer_run(m, evs)[i] is PresentCall,
    ensures
        evs[i] == AnswerEvent::Signal(SignalMessage::Ring),
    decreases evs.len(),
{
    lemma_answer_run_len(m, evs);
    let (m2, a) = answer_next(m, evs[0]);
    lemma_answer_presents_only_on_ring(m, evs[0]);
    if i > 0 {
        assert(answer_run(m, evs)[i] == answer_run(m2, evs.drop_first())[i - 1]);
        lemma_answer_run_presents_only_on_ring(m2, evs.drop_first(), i - 1);
    }
}

/// A failed step, at any point of unfinished answering, aborts with the
/// error that names that step; a ringing call waits for the user's
/// decision and ignores everything else.
pub proof fn lemma_answer_failures_name_their_step(m: Answerer, ev: AnswerEvent)
    ensures
        ev == AnswerEvent::Failed && !answer_done(m.phase) && !(m.phase is Ringing) ==> ({
            let e = match m.phase {
                AnswerPhase::AwaitingConnection => AnswerError::EndpointClosed,
                AnswerPhase::Handshaking => AnswerError::HandshakeFailed,
                AnswerPhase::AcceptingControl => AnswerError::AcceptControlFailed,
                AnswerPhase::AwaitingRing => AnswerError::ReadSignalFailed,
                AnswerPhase::SendingAccept(_) => AnswerError::SendAcceptFailed,
                AnswerPhase::AwaitingHello(_) => AnswerError::ReadHelloFailed,
                AnswerPhase::SendingHello(_) => AnswerError::SendHelloFailed,
                AnswerPhase::SettingUpMedia(_) => AnswerError::MediaSetupFailed,
                _ => AnswerError::SendRejectFailed,
            };
            answer_next(m, ev).1 == AnswerAction::Abort(e) && answer_next(m, ev).0.phase
                == AnswerPhase::Failed(e)
        }),
        ev == AnswerEvent::Closed && m.phase == AnswerPhase::AwaitingConnection ==> answer_next(
            m,
            ev,
        ).1 == AnswerAction::Abort(AnswerError::EndpointClosed),
        ev == AnswerEvent::Closed && m.phase is AwaitingHello ==> answer_next(m, ev).1
            == AnswerAction::Abort(AnswerError::ClosedBeforeHello),
        m.phase == AnswerPhase::Ringing && !(ev is Take) && !(ev is Decline) ==> answer_next(m, ev)
            == (m, AnswerAction::Idle),
{
}

/// The answering side sends `Accept` only when the user takes a ringing
/// call and `Reject` only when the user declines it; it announces the
/// `Hello` the user took the call with, closes the connection only after
/// `Reject` was sent, and is established only with the `Hello` it read
/// from the dialler.
pub proof fn lemma_answer_steps_follow_the_user(m: Answerer, ev: AnswerEvent, h: Hello)
    ensures
        answer_next(m, ev).1 matches AnswerAction::SendSignal(s) ==> m.phase == AnswerPhase::Ringing
            && ((s == SignalMessage::Accept && ev is Take) || (s == SignalMessage::Reject && ev
            == AnswerEvent::Decline)),
        ev == AnswerEvent::Take(h) && m.phase == AnswerPhase::Ringing ==> answer_next(m, ev).0.phase
            == AnswerPhase::SendingAccept(h),
        answer_next(m, ev).1 matches AnswerAction::SendHello(x) ==> m.phase == AnswerPhase::AwaitingHello(x)
            && ev is RemoteHello,
        (answer_next(m, ev).1 is CloseRejected) <==> (m.phase == AnswerPhase::SendingReject && ev
            == AnswerEvent::Succeeded),
        answer_next(m, ev).1 matches AnswerAction::Established(x) ==> m.phase == AnswerPhase::SettingUpMedia(x)
            && ev == AnswerEvent::Succeeded,
        answer_next(m, ev).0.phase == AnswerPhase::SendingHello(h) ==> m.phase is AwaitingHello
            && ev == AnswerEvent::RemoteHello(h),
        answer_next(m, ev).0.phase == AnswerPhase::SettingUpMedia(h) ==> m.phase == AnswerPhase::SendingHello(h)
            && ev == AnswerEvent::Succeeded,
{
}

} // verus!
