use midi_backend::event::Event;
use midi_backend::monitor::{format_midi_message, Monitor, LOG_LIMIT};
use midi_backend::wire::MidiMessage;

#[test]
fn formats_note_messages() {
    let on = Event::NoteOn { note: 60, velocity: 100 }.to_message();
    assert_eq!(format_midi_message(&on), "Note On: 60 (vel: 100)");
    let off = Event::NoteOff { note: 7, velocity: 0 }.to_message();
    assert_eq!(format_midi_message(&off), "Note Off: 7 (vel: 0)");
}

#[test]
fn formats_control_change() {
    let cc = Event::ControlChange { control: 64, value: 127 }.to_message();
    assert_eq!(format_midi_message(&cc), "CC: 64 = 127");
}

#[test]
fn formats_other_types_quoted() {
    let unknown = Event::Unknown { code: 0xF0 }.to_message();
    assert_eq!(format_midi_message(&unknown), "\"Unknown(240)\"");
}

#[test]
fn missing_numbers_read_as_zero() {
    let m = MidiMessage { message_type: "NoteOn".to_string(), note: None, velocity: None, control: None, value: None };
    assert_eq!(format_midi_message(&m), "Note On: 0 (vel: 0)");
}

#[test]
fn monitor_tracks_pressed_notes() {
    let mut mon = Monitor::new();
    mon.apply(Event::NoteOn { note: 60, velocity: 64 }.to_message());
    mon.apply(Event::NoteOn { note: 62, velocity: 64 }.to_message());
    assert!(mon.is_active(60));
    assert_eq!(mon.active_count(), 2);
    mon.apply(Event::NoteOff { note: 60, velocity: 0 }.to_message());
    mon.apply(Event::ControlChange { control: 60, value: 1 }.to_message());
    assert!(!mon.is_active(60));
    assert!(mon.is_active(62));
    assert_eq!(mon.active_count(), 1);
    assert_eq!(mon.len(), 4);
    assert_eq!(mon.line(0), "Note On: 60 (vel: 64)");
}

#[test]
fn monitor_log_keeps_latest_hundred() {
    let mut mon = Monitor::new();
    for i in 0..105u8 {
        mon.apply(Event::ControlChange { control: i, value: 0 }.to_message());
    }
    assert_eq!(mon.len(), LOG_LIMIT);
    assert_eq!(mon.line(0), "CC: 5 = 0");
    assert_eq!(mon.line(99), "CC: 104 = 0");
}
