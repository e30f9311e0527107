use midi_backend::event::Event;
use midi_backend::wire::MidiMessage;

fn msg(t: &str, note: Option<u8>, velocity: Option<u8>, control: Option<u8>, value: Option<u8>) -> MidiMessage {
    MidiMessage { message_type: t.to_string(), note, velocity, control, value }
}

#[test]
fn note_on_record() {
    let m = Event::NoteOn { note: 60, velocity: 64 }.to_message();
    assert_eq!(m.message_type, "NoteOn");
    assert_eq!((m.note, m.velocity, m.control, m.value), (Some(60), Some(64), None, None));
}

#[test]
fn control_change_record() {
    let m = Event::ControlChange { control: 10, value: 20 }.to_message();
    assert_eq!(m.message_type, "ControlChange");
    assert_eq!((m.note, m.velocity, m.control, m.value), (None, None, Some(10), Some(20)));
}

#[test]
fn unknown_record_names_code_in_decimal() {
    let m = Event::Unknown { code: 0xF0 }.to_message();
    assert_eq!(m.message_type, "Unknown(240)");
    assert_eq!((m.note, m.velocity, m.control, m.value), (None, None, None, None));
    assert_eq!(Event::Unknown { code: 0 }.to_message().message_type, "Unknown(0)");
    assert_eq!(Event::Unknown { code: 32 }.to_message().message_type, "Unknown(32)");
}

#[test]
fn round_trip_every_kind() {
    let events = [
        Event::NoteOn { note: 60, velocity: 64 },
        Event::NoteOff { note: 0, velocity: 0 },
        Event::NoteOff { note: 127, velocity: 127 },
        Event::ControlChange { control: 64, value: 0 },
        Event::Unknown { code: 0xF0 },
        Event::Unknown { code: 0 },
        Event::Unknown { code: 255 },
        Event::Unknown { code: 7 },
    ];
    for e in events {
        assert_eq!(e.to_message().to_event(), Some(e));
    }
}

#[test]
fn unknown_message_type_reads_as_none() {
    assert_eq!(msg("PitchBend", Some(1), Some(2), None, None).to_event(), None);
    assert_eq!(msg("Unknown(256)", None, None, None, None).to_event(), None);
    assert_eq!(msg("Unknown(07)", None, None, None, None).to_event(), None);
}

#[test]
fn missing_field_reads_as_none() {
    assert_eq!(msg("NoteOn", Some(60), None, None, None).to_event(), None);
    assert_eq!(msg("ControlChange", None, None, Some(1), None).to_event(), None);
}

#[test]
fn from_raw_message_builds_record() {
    let m = MidiMessage::from_raw_message(&[0x90, 60, 0]).unwrap();
    assert_eq!(m.message_type, "NoteOff");
    assert_eq!((m.note, m.velocity), (Some(60), Some(0)));
    assert!(MidiMessage::from_raw_message(&[]).is_none());
    assert_eq!(MidiMessage::from_raw_message(&[0xE0]).unwrap().message_type, "Unknown(224)");
}
