use midi_backend::bus::{EventBus, Recv, DEFAULT_CAPACITY};
use midi_backend::event::Event;
use midi_backend::session::{Session, SessionAction, SessionInput, SessionState};

#[test]
fn session_forwards_events_as_records() {
    let mut bus = EventBus::new(DEFAULT_CAPACITY);
    let mut s = Session::open(&mut bus);
    assert_eq!(s.state(), SessionState::Streaming);
    bus.publish(Event::NoteOn { note: 60, velocity: 64 });
    let r = bus.try_receive(s.subscriber());
    match s.step(SessionInput::Bus(r)) {
        SessionAction::Send(m) => {
            assert_eq!(m.message_type, "NoteOn");
            assert_eq!((m.note, m.velocity), (Some(60), Some(64)));
        }
        other => panic!("unexpected {:?}", other),
    }
    let r = bus.try_receive(s.subscriber());
    assert_eq!(r, Recv::Empty);
    assert!(matches!(s.step(SessionInput::Bus(r)), SessionAction::Continue));
}

#[test]
fn lag_and_client_text_keep_streaming() {
    let mut bus = EventBus::new(1);
    let mut s = Session::open(&mut bus);
    assert!(matches!(s.step(SessionInput::Bus(Recv::Lagged(3))), SessionAction::Continue));
    assert!(matches!(s.step(SessionInput::ClientText), SessionAction::Continue));
    assert_eq!(s.state(), SessionState::Streaming);
}

#[test]
fn client_close_shuts_session_and_releases_slot() {
    let mut bus = EventBus::new(DEFAULT_CAPACITY);
    let mut s = Session::open(&mut bus);
    assert!(matches!(s.step(SessionInput::ClientClosed), SessionAction::Shutdown));
    assert_eq!(s.state(), SessionState::Closing);
    assert!(matches!(s.step(SessionInput::Bus(Recv::Received(Event::Unknown { code: 0 }))), SessionAction::Shutdown));
    s.finish(&mut bus);
    assert_eq!(s.state(), SessionState::Closed);
    assert!(!bus.is_subscribed(s.subscriber()));
}

#[test]
fn send_failure_and_read_error_shut_session() {
    let mut bus = EventBus::new(DEFAULT_CAPACITY);
    let mut a = Session::open(&mut bus);
    let mut b = Session::open(&mut bus);
    assert!(matches!(a.step(SessionInput::SendFailed), SessionAction::Shutdown));
    assert!(matches!(b.step(SessionInput::ClientError), SessionAction::Shutdown));
    assert_eq!(a.state(), SessionState::Closing);
    assert_eq!(b.state(), SessionState::Closing);
}
