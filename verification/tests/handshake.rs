use toph_proto::handshake::{
    AnswerAction, AnswerError, AnswerEvent, AnswerPhase, Answerer, DialAction, DialError,
    DialEvent, DialPhase, Dialer,
};
use toph_proto::protocol::local_hello;
use toph_proto::SignalMessage;
use std::collections::VecDeque;

fn valid_ticket() -> (String, [u8; 32]) {
    let key = iroh_base::SecretKey::from_bytes(&[7u8; 32]).public();
    (key.to_string(), *key.as_bytes())
}

#[test]
fn dialling_a_valid_ticket_connects_to_its_endpoint() {
    let (ticket, bytes) = valid_ticket();
    assert_eq!(ticket.len(), 64);
    let (d, a) = Dialer::start(&ticket, local_hello(640, 480));
    assert_eq!(d.phase, DialPhase::Connecting);
    match a {
        DialAction::Connect(id) => assert_eq!(id, bytes),
        _ => panic!("expected a connect"),
    }
}

#[test]
fn dialling_an_invalid_ticket_aborts() {
    let (valid, _) = valid_ticket();
    let upper_case = valid.to_uppercase();
    for t in ["not-a-ticket", "", "zz", &valid[..63], upper_case.as_str()] {
        let (d, a) = Dialer::start(t, local_hello(640, 480));
        assert_eq!(d.phase, DialPhase::Failed(DialError::InvalidTicket));
        assert!(matches!(a, DialAction::Abort(DialError::InvalidTicket)));
    }
}

#[test]
fn accepted_dial_sends_hello_before_reading() {
    let ours = local_hello(640, 480);
    let theirs = local_hello(320, 240);
    let (mut d, _) = Dialer::from_endpoint_id(Some([1u8; 32]), ours);
    assert!(matches!(d.step(DialEvent::Succeeded), DialAction::OpenControlStream));
    assert!(matches!(d.step(DialEvent::Succeeded), DialAction::SendSignal(SignalMessage::Ring)));
    assert!(matches!(d.step(DialEvent::Succeeded), DialAction::ReadAnswer));
    match d.step(DialEvent::Answer(SignalMessage::Accept)) {
        DialAction::SendHello(h) => assert_eq!(h, ours),
        _ => panic!("expected our hello"),
    }
    assert!(matches!(d.step(DialEvent::Succeeded), DialAction::ReadHello));
    assert!(matches!(d.step(DialEvent::RemoteHello(theirs)), DialAction::SetUpMedia));
    match d.step(DialEvent::Succeeded) {
        DialAction::Established(h) => assert_eq!(h, theirs),
        _ => panic!("expected a live call"),
    }
    assert_eq!(d.phase, DialPhase::Live(theirs));
    assert!(matches!(d.step(DialEvent::Succeeded), DialAction::Idle));
}

fn dialer_awaiting_answer() -> Dialer {
    let (mut d, _) = Dialer::from_endpoint_id(Some([1u8; 32]), local_hello(640, 480));
    d.step(DialEvent::Succeeded);
    d.step(DialEvent::Succeeded);
    d.step(DialEvent::Succeeded);
    assert_eq!(d.phase, DialPhase::AwaitingAnswer);
    d
}

#[test]
fn rejected_dial_ends_without_a_call() {
    let mut d = dialer_awaiting_answer();
    assert!(matches!(d.step(DialEvent::Answer(SignalMessage::Reject)), DialAction::Declined));
    assert_eq!(d.phase, DialPhase::Declined);
    assert!(matches!(d.step(DialEvent::RemoteHello(local_hello(1, 1))), DialAction::Idle));
}

#[test]
fn dial_answer_errors() {
    let mut d = dialer_awaiting_answer();
    assert!(matches!(
        d.step(DialEvent::Answer(SignalMessage::Ring)),
        DialAction::Abort(DialError::UnexpectedRing)
    ));
    let mut d = dialer_awaiting_answer();
    assert!(matches!(d.step(DialEvent::Closed), DialAction::Abort(DialError::ClosedWithoutAnswer)));
    let mut d = dialer_awaiting_answer();
    assert!(matches!(d.step(DialEvent::Failed), DialAction::Abort(DialError::ReadAnswerFailed)));
}

#[test]
fn dial_step_failures_name_the_step() {
    let (mut d, _) = Dialer::from_endpoint_id(Some([1u8; 32]), local_hello(640, 480));
    assert!(matches!(d.step(DialEvent::Failed), DialAction::Abort(DialError::ConnectFailed)));
    let mut d = dialer_awaiting_answer();
    d.step(DialEvent::Answer(SignalMessage::Accept));
    d.step(DialEvent::Succeeded);
    assert!(matches!(d.step(DialEvent::Closed), DialAction::Abort(DialError::ClosedBeforeHello)));
}

fn ringing() -> Answerer {
    let (mut m, first) = Answerer::new();
    assert!(matches!(first, AnswerAction::AcceptConnection));
    assert!(matches!(m.step(AnswerEvent::Succeeded), AnswerAction::AwaitHandshake));
    assert!(matches!(m.step(AnswerEvent::Succeeded), AnswerAction::AcceptControlStream));
    assert!(matches!(m.step(AnswerEvent::Succeeded), AnswerAction::ReadSignal));
    assert!(matches!(m.step(AnswerEvent::Signal(SignalMessage::Ring)), AnswerAction::PresentCall));
    m
}

#[test]
fn taken_call_reads_hello_before_sending() {
    let ours = local_hello(640, 480);
    let theirs = local_hello(1280, 720);
    let mut m = ringing();
    assert!(matches!(m.step(AnswerEvent::Succeeded), AnswerAction::Idle));
    assert!(matches!(
        m.step(AnswerEvent::Take(ours)),
        AnswerAction::SendSignal(SignalMessage::Accept)
    ));
    assert!(matches!(m.step(AnswerEvent::Succeeded), AnswerAction::ReadHello));
    match m.step(AnswerEvent::RemoteHello(theirs)) {
        AnswerAction::SendHello(h) => assert_eq!(h, ours),
        _ => panic!("expected our hello"),
    }
    assert!(matches!(m.step(AnswerEvent::Succeeded), AnswerAction::SetUpMedia));
    match m.step(AnswerEvent::Succeeded) {
        AnswerAction::Established(h) => assert_eq!(h, theirs),
        _ => panic!("expected a live call"),
    }
    assert_eq!(m.phase, AnswerPhase::Live(theirs));
}

#[test]
fn declined_call_sends_reject_and_closes() {
    let mut m = ringing();
    assert!(matches!(
        m.step(AnswerEvent::Decline),
        AnswerAction::SendSignal(SignalMessage::Reject)
    ));
    assert!(matches!(m.step(AnswerEvent::Succeeded), AnswerAction::CloseRejected));
    assert_eq!(m.phase, AnswerPhase::Rejected);
    assert!(matches!(m.step(AnswerEvent::RemoteHello(local_hello(1, 1))), AnswerAction::Idle));
}

#[test]
fn answer_errors() {
    let (mut m, _) = Answerer::new();
    assert!(matches!(m.step(AnswerEvent::Closed), AnswerAction::Abort(AnswerError::EndpointClosed)));
    let (mut m, _) = Answerer::new();
    m.step(AnswerEvent::Succeeded);
    m.step(AnswerEvent::Succeeded);
    m.step(AnswerEvent::Succeeded);
    assert!(matches!(
        m.step(AnswerEvent::Signal(SignalMessage::Accept)),
        AnswerAction::Abort(AnswerError::ExpectedRing(SignalMessage::Accept))
    ));
    let mut m = ringing();
    m.step(AnswerEvent::Decline);
    assert!(matches!(m.step(AnswerEvent::Failed), AnswerAction::Abort(AnswerError::SendRejectFailed)));
}

/// A message in flight on the control stream between the two sides.
#[derive(Debug, Clone, Copy)]
enum Wire {
    Signal(SignalMessage),
    Hello(toph_proto::Hello),
}

#[test]
fn two_sides_exchange_hellos_over_one_control_stream() {
    let dialer_hello = local_hello(640, 480);
    let callee_hello = local_hello(1280, 720);
    let mut to_callee: VecDeque<Wire> = VecDeque::new();
    let mut to_dialer: VecDeque<Wire> = VecDeque::new();

    let (mut dialer, mut dial_action) = Dialer::from_endpoint_id(Some([3u8; 32]), dialer_hello);
    let (mut callee, mut answer_action) = Answerer::new();
    let mut dialer_live = None;
    let mut callee_live = None;
    for _ in 0..100 {
        // one step of the dialler, if it can make progress
        let ev = match dial_action {
            DialAction::Connect(_) | DialAction::OpenControlStream | DialAction::SetUpMedia => {
                Some(DialEvent::Succeeded)
            }
            DialAction::SendSignal(m) => {
                to_callee.push_back(Wire::Signal(m));
                Some(DialEvent::Succeeded)
            }
            DialAction::SendHello(h) => {
                to_callee.push_back(Wire::Hello(h));
                Some(DialEvent::Succeeded)
            }
            DialAction::ReadAnswer => match to_dialer.pop_front() {
                Some(Wire::Signal(m)) => Some(DialEvent::Answer(m)),
                Some(Wire::Hello(_)) => Some(DialEvent::Failed),
                None => None,
            },
            DialAction::ReadHello => match to_dialer.pop_front() {
                Some(Wire::Hello(h)) => Some(DialEvent::RemoteHello(h)),
                Some(Wire::Signal(_)) => Some(DialEvent::Failed),
                None => None,
            },
            DialAction::Established(h) => {
                dialer_live = Some(h);
                None
            }
            _ => None,
        };
        if let Some(ev) = ev {
            dial_action = dialer.step(ev);
        }
        // one step of the callee, if it can make progress
        let ev = match answer_action {
            AnswerAction::AcceptConnection
            | AnswerAction::AwaitHandshake
            | AnswerAction::AcceptControlStream
            | AnswerAction::SetUpMedia => Some(AnswerEvent::Succeeded),
            AnswerAction::ReadSignal => match to_callee.pop_front() {
                Some(Wire::Signal(m)) => Some(AnswerEvent::Signal(m)),
                Some(Wire::Hello(_)) => Some(AnswerEvent::Failed),
                None => None,
            },
            AnswerAction::PresentCall => Some(AnswerEvent::Take(callee_hello)),
            AnswerAction::SendSignal(m) => {
                to_dialer.push_back(Wire::Signal(m));
                Some(AnswerEvent::Succeeded)
            }
            AnswerAction::ReadHello => match to_callee.pop_front() {
                Some(Wire::Hello(h)) => Some(AnswerEvent::RemoteHello(h)),
                Some(Wire::Signal(_)) => Some(AnswerEvent::Failed),
                None => None,
            },
            AnswerAction::SendHello(h) => {
                to_dialer.push_back(Wire::Hello(h));
                Some(AnswerEvent::Succeeded)
            }
            AnswerAction::Established(h) => {
                callee_live = Some(h);
                None
            }
            _ => None,
        };
        if let Some(ev) = ev {
            answer_action = callee.step(ev);
        }
    }
    assert_eq!(dialer_live, Some(callee_hello));
    assert_eq!(callee_live, Some(dialer_hello));
    assert!(to_callee.is_empty() && to_dialer.is_empty());
}
