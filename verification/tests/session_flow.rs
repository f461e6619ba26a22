use std::sync::atomic::{AtomicU32, Ordering};
use std::sync::Arc;
use std::task::{Wake, Waker};

use web_socket_io::abort::AbortController;
use web_socket_io::codec::DecodeError;
use web_socket_io::session::{RecvError, SessionCore, SessionEvent, Step, TransportEvent};

struct CountingWaker {
    count: AtomicU32,
}

impl Wake for CountingWaker {
    fn wake(self: Arc<Self>) {
        self.count.fetch_add(1, Ordering::SeqCst);
    }

    fn wake_by_ref(self: &Arc<Self>) {
        self.count.fetch_add(1, Ordering::SeqCst);
    }
}

fn counting_waker() -> (Waker, Arc<CountingWaker>) {
    let inner = Arc::new(CountingWaker { count: AtomicU32::new(0) });
    (Waker::from(inner.clone()), inner)
}

fn call_frame(name: &str, id: u32, payload: &[u8]) -> Vec<u8> {
    let mut f = vec![2, name.len() as u8];
    f.extend_from_slice(name.as_bytes());
    f.extend_from_slice(&id.to_be_bytes());
    f.extend_from_slice(payload);
    f
}

fn expect_call(step: Step) -> (u32, AbortController) {
    match step {
        Step::Event(SessionEvent::Call(_, id, controller)) => (id, controller),
        _ => panic!("expected a call event"),
    }
}

#[test]
fn ping_echoes_pong_then_continues() {
    let mut session = SessionCore::new();
    match session.handle_event(TransportEvent::Ping(vec![0xDE, 0xAD])) {
        Step::Pong(payload) => assert_eq!(payload, vec![0xDE, 0xAD]),
        _ => panic!("expected a pong"),
    }
    // the connection goes on normally: the next message still decodes
    let bytes = vec![0x01, 0x04, 0x70, 0x69, 0x6E, 0x67, 0x48, 0x69];
    match session.handle_event(TransportEvent::Complete(bytes)) {
        Step::Event(SessionEvent::Notify(req)) => {
            assert_eq!(req.method(), "ping");
            assert_eq!(req.data(), &[0x48, 0x69]);
        }
        _ => panic!("expected a notification"),
    }
}

#[test]
fn pong_is_ignored() {
    let mut session = SessionCore::new();
    match session.handle_event(TransportEvent::Pong(vec![1])) {
        Step::Nothing => {}
        _ => panic!("expected nothing"),
    }
}

#[test]
fn call_registers_and_reset_trips() {
    let mut session = SessionCore::new();
    let step = session.handle_event(TransportEvent::Complete(call_frame("echo", 42, b"hello")));
    let (id, controller) = expect_call(step);
    assert_eq!(id, 42);
    assert!(session.contains_call(42));
    assert!(!controller.is_reset());

    // type-3 frame for id 42: the controller becomes ready, the entry is gone
    match session.handle_event(TransportEvent::Complete(vec![0x03, 0x00, 0x00, 0x00, 0x2A])) {
        Step::Nothing => {}
        _ => panic!("expected the reset to be consumed"),
    }
    assert!(!session.contains_call(42));
    assert!(controller.is_reset());
}

#[test]
fn reset_wakes_a_stored_waker() {
    let mut session = SessionCore::new();
    let step = session.handle_event(TransportEvent::Complete(call_frame("job", 7, &[])));
    let (_, mut controller) = expect_call(step);

    let (waker, counter) = counting_waker();
    assert!(!controller.poll_reset(&waker));
    assert_eq!(counter.count.load(Ordering::SeqCst), 0);

    session.handle_event(TransportEvent::Complete(vec![3, 0, 0, 0, 7]));
    assert_eq!(counter.count.load(Ordering::SeqCst), 1);
    // once tripped, every later poll is ready
    assert!(controller.poll_reset(&waker));
    assert!(controller.poll_reset(&waker));
    assert!(controller.is_reset());
}

#[test]
fn repoll_replaces_the_stored_waker() {
    let mut session = SessionCore::new();
    let step = session.handle_event(TransportEvent::Complete(call_frame("job", 9, &[])));
    let (_, mut controller) = expect_call(step);

    let (first_waker, first) = counting_waker();
    let (second_waker, second) = counting_waker();
    assert!(!controller.poll_reset(&first_waker));
    assert!(!controller.poll_reset(&second_waker));

    session.handle_event(TransportEvent::Complete(vec![3, 0, 0, 0, 9]));
    // only the latest stored waker is woken
    assert_eq!(first.count.load(Ordering::SeqCst), 0);
    assert_eq!(second.count.load(Ordering::SeqCst), 1);
}

#[test]
fn reset_for_unknown_id_is_consumed() {
    let mut session = SessionCore::new();
    match session.handle_event(TransportEvent::Complete(vec![3, 0, 0, 0, 9])) {
        Step::Nothing => {}
        _ => panic!("expected the reset to be consumed"),
    }
    assert!(!session.contains_call(9));
}

#[test]
fn transport_failure_trips_all_outstanding_calls() {
    let mut session = SessionCore::new();
    let (_, c1) = expect_call(session.handle_event(TransportEvent::Complete(call_frame("a", 1, &[]))));
    let (_, c2) = expect_call(session.handle_event(TransportEvent::Complete(call_frame("b", 2, &[]))));
    assert!(session.contains_call(1) && session.contains_call(2));

    match session.handle_event(TransportEvent::Failed) {
        Step::Disconnect(RecvError::ConnectionReset) => {}
        _ => panic!("expected a connection reset"),
    }
    assert!(c1.is_reset());
    assert!(c2.is_reset());
    assert!(!session.contains_call(1) && !session.contains_call(2));
}

#[test]
fn peer_close_trips_outstanding_call_and_reports_reason() {
    let mut session = SessionCore::new();
    let (_, controller) =
        expect_call(session.handle_event(TransportEvent::Complete(call_frame("c", 5, &[]))));

    match session.handle_event(TransportEvent::Closed(1000, "bye".to_string())) {
        Step::Disconnect(RecvError::ConnectionAborted(close)) => {
            assert_eq!(close.code, 1000);
            assert_eq!(close.reason, "bye");
        }
        _ => panic!("expected a connection abort"),
    }
    assert!(controller.is_reset());
    assert!(!session.contains_call(5));
}

#[test]
fn response_removal_leaves_registry_clean() {
    let mut session = SessionCore::new();
    let (id, controller) =
        expect_call(session.handle_event(TransportEvent::Complete(call_frame("q", 42, &[]))));
    assert!(session.contains_call(id));

    // what a response handle does when sent or dropped
    session.remove_call(id);
    assert!(!session.contains_call(id));
    // removal is not a reset
    assert!(!controller.is_reset());
}

#[test]
fn call_id_collision_overwrites() {
    let mut session = SessionCore::new();
    let (_, first) = expect_call(session.handle_event(TransportEvent::Complete(call_frame("a", 8, &[]))));
    let (_, second) = expect_call(session.handle_event(TransportEvent::Complete(call_frame("b", 8, &[]))));
    assert!(session.contains_call(8));

    session.handle_event(TransportEvent::Complete(vec![3, 0, 0, 0, 8]));
    assert!(!session.contains_call(8));
    // the later registration is the one that trips
    assert!(second.is_reset());
    assert!(!first.is_reset());
}

#[test]
fn fragments_reassemble_before_decoding() {
    let mut session = SessionCore::new();
    match session.handle_event(TransportEvent::Fragment(vec![0x01, 0x04, 0x70, 0x69])) {
        Step::Nothing => {}
        _ => panic!("expected nothing while the message is incomplete"),
    }
    match session.handle_event(TransportEvent::FragmentEnd(vec![0x6E, 0x67, 0x48, 0x69])) {
        Step::Event(SessionEvent::Notify(req)) => {
            assert_eq!(req.method(), "ping");
            assert_eq!(req.data(), &[0x48, 0x69]);
        }
        _ => panic!("expected the reassembled notification"),
    }
}

#[test]
fn decode_failure_disconnects_and_trips() {
    let mut session = SessionCore::new();
    let (_, controller) =
        expect_call(session.handle_event(TransportEvent::Complete(call_frame("w", 3, &[]))));

    match session.handle_event(TransportEvent::Complete(vec![9, 9, 9])) {
        Step::Disconnect(RecvError::InvalidData(DecodeError::InvalidFrameTag)) => {}
        _ => panic!("expected an invalid-data disconnect"),
    }
    assert!(controller.is_reset());
    assert!(!session.contains_call(3));
}
