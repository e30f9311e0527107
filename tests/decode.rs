use midi_backend::decode::decode;
use midi_backend::event::Event;

#[test]
fn note_on_decodes() {
    assert_eq!(decode(&[0x90, 60, 100]), Some(Event::NoteOn { note: 60, velocity: 100 }));
}

#[test]
fn note_on_channel_is_ignored() {
    assert_eq!(decode(&[0x93, 61, 1]), Some(Event::NoteOn { note: 61, velocity: 1 }));
}

#[test]
fn note_on_zero_velocity_is_note_off() {
    assert_eq!(decode(&[0x90, 60, 0]), Some(Event::NoteOff { note: 60, velocity: 0 }));
}

#[test]
fn note_off_decodes() {
    assert_eq!(decode(&[0x80, 64, 40]), Some(Event::NoteOff { note: 64, velocity: 40 }));
}

#[test]
fn control_change_decodes() {
    assert_eq!(decode(&[0xB0, 7, 127]), Some(Event::ControlChange { control: 7, value: 127 }));
}

#[test]
fn truncated_frames_decode_to_none() {
    assert_eq!(decode(&[0x90, 60]), None);
    assert_eq!(decode(&[0x80]), None);
    assert_eq!(decode(&[0xB0, 1]), None);
}

#[test]
fn unrecognized_single_byte_is_unknown() {
    assert_eq!(decode(&[0xF8]), Some(Event::Unknown { code: 0xF0 }));
    assert_eq!(decode(&[0xC5]), Some(Event::Unknown { code: 0xC0 }));
}

#[test]
fn empty_frame_is_none() {
    assert_eq!(decode(&[]), None);
}

#[test]
fn longer_frame_uses_first_three_bytes() {
    assert_eq!(decode(&[0x80, 1, 2, 3]), Some(Event::NoteOff { note: 1, velocity: 2 }));
}
