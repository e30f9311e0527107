use midi_backend::bus::{EventBus, Recv, DEFAULT_CAPACITY};
use midi_backend::event::Event;
use midi_backend::source::{active_producer, ingest, port_to_open, Producer};
use midi_backend::synthetic::SyntheticSource;

#[test]
fn opening_six_events() {
    let mut s = SyntheticSource::new();
    let expected = [
        (Event::NoteOn { note: 60, velocity: 64 }, 500),
        (Event::NoteOff { note: 60, velocity: 0 }, 0),
        (Event::NoteOn { note: 62, velocity: 64 }, 500),
        (Event::NoteOff { note: 62, velocity: 0 }, 0),
        (Event::NoteOn { note: 64, velocity: 64 }, 500),
        (Event::NoteOff { note: 64, velocity: 0 }, 0),
    ];
    for e in expected {
        assert_eq!(s.next_event(), e);
    }
}

#[test]
fn scale_loops_after_eight_steps() {
    let mut s = SyntheticSource::new();
    let mut notes = Vec::new();
    for _ in 0..18 {
        if let (Event::NoteOn { note, .. }, _) = s.next_event() {
            notes.push(note);
        }
    }
    assert_eq!(notes, vec![60, 62, 64, 65, 67, 69, 71, 72, 60]);
}

#[test]
fn no_ports_means_synthetic_stream_reaches_subscriber() {
    assert_eq!(port_to_open(0), None);
    assert_eq!(active_producer(0, false), Producer::Synthetic);
    let mut bus = EventBus::new(DEFAULT_CAPACITY);
    let id = bus.subscribe();
    let mut s = SyntheticSource::new();
    assert_eq!(s.step(&mut bus), 500);
    assert_eq!(bus.try_receive(id), Recv::Received(Event::NoteOn { note: 60, velocity: 64 }));
    assert_eq!(s.step(&mut bus), 0);
    assert_eq!(bus.try_receive(id), Recv::Received(Event::NoteOff { note: 60, velocity: 0 }));
}

#[test]
fn hardware_only_when_connected() {
    assert_eq!(port_to_open(3), Some(0));
    assert_eq!(active_producer(3, true), Producer::Hardware);
    assert_eq!(active_producer(3, false), Producer::Synthetic);
}

#[test]
fn ingest_publishes_decoded_frames_only() {
    let mut bus = EventBus::new(DEFAULT_CAPACITY);
    let id = bus.subscribe();
    assert!(!ingest(&mut bus, &[0x90, 60]));
    assert!(ingest(&mut bus, &[0xB0, 1, 2]));
    assert_eq!(bus.try_receive(id), Recv::Received(Event::ControlChange { control: 1, value: 2 }));
    assert_eq!(bus.try_receive(id), Recv::Empty);
}
