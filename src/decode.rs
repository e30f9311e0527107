use vstd::prelude::*;

use crate::event::Event;

verus! {

/// Status nibble of a Note Off frame.
pub const NOTE_OFF: u8 = 0x80;

/// Status nibble of a Note On frame.
pub const NOTE_ON: u8 = 0x90;

/// Status nibble of a Control Change frame.
pub const CONTROL_CHANGE: u8 = 0xB0;

/// The status of a frame: the high nibble of its first byte.
pub open spec fn status_of(first: u8) -> u8 {
    first & 0xF0u8
}

/// What a frame decodes to.
pub open spec fn decoded(frame: Seq<u8>) -> Option<Event> {
    if frame.len() == 0 {
        None
    } else {
        let status = status_of(frame[0]);
        if status == NOTE_ON {
            if frame.len() < 3 {
                None
            } else if frame[2] == 0 {
                Some(Event::NoteOff { note: frame[1], velocity: 0 })
            } else {
                Some(Event::NoteOn { note: frame[1], velocity: frame[2] })
            }
        } else if status == NOTE_OFF {
            if frame.len() < 3 {
                None
            } else {
                Some(Event::NoteOff { note: frame[1], velocity: frame[2] })
            }
        } else if status == CONTROL_CHANGE {
            if frame.len() < 3 {
                None
            } else {
                Some(Event::ControlChange { control: frame[1], value: frame[2] })
            }
        } else {
            Some(Event::Unknown { code: status })
        }
    }
}

/// Decodes one raw frame. Empty and truncated frames give `None`; a frame
/// whose status is not a note or controller message gives `Unknown`.
pub fn decode(frame: &[u8]) -> (r: Option<Event>)
    ensures
        r == decoded(frame@),
{
    if frame.len() == 0 {
        return None;
    }
    let status = frame[0] & 0xF0u8;
    if status == NOTE_ON {
        if frame.len() < 3 {
            None
        } else if frame[2] == 0 {
            Some(Event::NoteOff { note: frame[1], velocity: 0 })
        } else {
            Some(Event::NoteOn { note: frame[1], velocity: frame[2] })
        }
    } else if status == NOTE_OFF {
        if frame.len() < 3 {
            None
        } else {
            Some(Event::NoteOff { note: frame[1], velocity: frame[2] })
        }
    } else if status == CONTROL_CHANGE {
        if frame.len() < 3 {
            None
        } else {
            Some(Event::ControlChange { control: frame[1], value: frame[2] })
        }
    } else {
        Some(Event::Unknown { code: status })
    }
}

/// A Note On frame with a nonzero velocity decodes to that note and velocity;
/// with velocity zero it decodes to a Note Off of velocity zero.
pub proof fn lemma_note_on(first: u8, note: u8, velocity: u8)
    requires
        status_of(first) == NOTE_ON,
    ensures
        velocity > 0 ==> decoded(seq![first, note, velocity]) == Some(
            Event::NoteOn { note, velocity },
        ),
        velocity == 0 ==> decoded(seq![first, note, velocity]) == Some(
            Event::NoteOff { note, velocity: 0 },
        ),
{
}

/// A Note Off frame decodes to that note and velocity.
pub proof fn lemma_note_off(first: u8, note: u8, velocity: u8)
    requires
        status_of(first) == NOTE_OFF,
    ensures
        decoded(seq![first, note, velocity]) == Some(Event::NoteOff { note, velocity }),
{
}

/// A Control Change frame decodes to that controller and value.
pub proof fn lemma_control_change(first: u8, control: u8, value: u8)
    requires
        status_of(first) == CONTROL_CHANGE,
    ensures
        decoded(seq![first, control, value]) == Some(Event::ControlChange { control, value }),
{
}

/// A note or controller frame shorter than three bytes decodes to nothing.
pub proof fn lemma_truncated(frame: Seq<u8>)
    requires
        0 < frame.len() < 3,
        status_of(frame[0]) == NOTE_ON || status_of(frame[0]) == NOTE_OFF || status_of(frame[0])
            == CONTROL_CHANGE,
    ensures
        decoded(frame) is None,
{
}

/// A one-byte frame of any other status decodes to `Unknown` carrying the
/// status, never to nothing.
pub proof fn lemma_unrecognized(first: u8)
    requires
        status_of(first) != NOTE_ON,
        status_of(first) != NOTE_OFF,
        status_of(first) != CONTROL_CHANGE,
    ensures
        decoded(seq![first]) == Some(Event::Unknown { code: status_of(first) }),
{
}

/// The empty frame decodes to nothing.
pub proof fn lemma_empty()
    ensures
        decoded(Seq::<u8>::empty()) is None,
{
}

} // verus!
