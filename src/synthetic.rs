use vstd::prelude::*;

use crate::bus::EventBus;
use crate::event::Event;

verus! {

/// Velocity of every synthetic Note On.
pub const SYNTHETIC_VELOCITY: u8 = 64;

/// How long a synthetic note is held before its Note Off, in milliseconds.
pub const HOLD_MS: u64 = 500;

/// Number of steps of the scale.
pub const SCALE_LEN: u8 = 8;

/// Number of events in one pass over the scale: a Note On and a Note Off per
/// step.
pub const PERIOD: u8 = 16;

/// The notes of the ascending scale, one octave plus one.
pub open spec fn scale_note(step: nat) -> u8 {
    if step == 0 {
        60
    } else if step == 1 {
        62
    } else if step == 2 {
        64
    } else if step == 3 {
        65
    } else if step == 4 {
        67
    } else if step == 5 {
        69
    } else if step == 6 {
        71
    } else {
        72
    }
}

/// The `k`-th event of the synthetic stream: a Note On of velocity 64 and
/// its Note Off of velocity 0 for each step of the scale, looping.
pub open spec fn synthetic_event(k: nat) -> Event {
    let note = scale_note((k / 2) % (SCALE_LEN as nat));
    if k % 2 == 0 {
        Event::NoteOn { note, velocity: SYNTHETIC_VELOCITY }
    } else {
        Event::NoteOff { note, velocity: 0 }
    }
}

/// How long the stream waits after its `k`-th event, in milliseconds.
pub open spec fn hold_after(k: nat) -> u64 {
    if k % 2 == 0 {
        HOLD_MS
    } else {
        0
    }
}

fn scale_note_at(step: u8) -> (r: u8)
    requires
        step < SCALE_LEN,
    ensures
        r == scale_note(step as nat),
{
    if step == 0 {
        60
    } else if step == 1 {
        62
    } else if step == 2 {
        64
    } else if step == 3 {
        65
    } else if step == 4 {
        67
    } else if step == 5 {
        69
    } else if step == 6 {
        71
    } else {
        72
    }
}

/// A deterministic producer that stands in when no hardware is attached.
pub struct SyntheticSource {
    position: u8,
}

impl SyntheticSource {
    /// Where in its period the source stands: the index of the next event.
    pub closed spec fn position(&self) -> nat {
        self.position as nat
    }

    pub closed spec fn wf(&self) -> bool {
        self.position < PERIOD
    }

    /// A source at the first step of the scale.
    pub fn new() -> (r: SyntheticSource)
        ensures
            r.wf(),
            r.position() == 0,
    {
        SyntheticSource { position: 0 }
    }

    /// The next event of the stream, and how long to wait after publishing
    /// it; the source moves on by one.
    pub fn next_event(&mut self) -> (r: (Event, u64))
        requires
            old(self).wf(),
        ensures
            final(self).wf(),
            r.0 == synthetic_event(old(self).position()),
            r.1 == hold_after(old(self).position()),
            final(self).position() == (old(self).position() + 1) % (PERIOD as nat),
    {
        let k = self.position;
        let note = scale_note_at(k / 2);
        let r = if k % 2 == 0 {
            (Event::NoteOn { note, velocity: SYNTHETIC_VELOCITY }, HOLD_MS)
        } else {
            (Event::NoteOff { note, velocity: 0 }, 0)
        };
        self.position = (k + 1) % PERIOD;
        r
    }

    /// Publishes the next event of the stream into `bus` and returns how long
    /// to wait before the following one.
    pub fn step(&mut self, bus: &mut EventBus) -> (hold_ms: u64)
        requires
            old(self).wf(),
            old(bus).wf(),
        ensures
            final(self).wf(),
            final(bus).wf(),
            final(bus)@ == old(bus)@.published(synthetic_event(old(self).position())),
            hold_ms == hold_after(old(self).position()),
            final(self).position() == (old(self).position() + 1) % (PERIOD as nat),
    {
        let (e, hold) = self.next_event();
        bus.publish(e);
        hold
    }
}

/// From the first step of the scale the stream opens with the first three
/// notes, each pressed and then released.
pub proof fn lemma_opening_sequence()
    ensures
        synthetic_event(0) == (Event::NoteOn { note: 60, velocity: 64 }),
        synthetic_event(1) == (Event::NoteOff { note: 60, velocity: 0 }),
        synthetic_event(2) == (Event::NoteOn { note: 62, velocity: 64 }),
        synthetic_event(3) == (Event::NoteOff { note: 62, velocity: 0 }),
        synthetic_event(4) == (Event::NoteOn { note: 64, velocity: 64 }),
        synthetic_event(5) == (Event::NoteOff { note: 64, velocity: 0 }),
{
}

/// Every Note On of the stream is followed by the Note Off of the same note,
/// and the stream repeats after one pass over the scale.
pub proof fn lemma_stream_shape(k: nat)
    ensures
        synthetic_event(2 * k) matches Event::NoteOn { note, .. } && synthetic_event(2 * k + 1)
            == (Event::NoteOff { note, velocity: 0 }),
        synthetic_event(k + PERIOD as nat) == synthetic_event(k),
{
    assert((2 * k) % 2 == 0);
    assert((2 * k + 1) % 2 == 1);
    assert((2 * k + 1) / 2 == k);
    assert((2 * k) / 2 == k);
    assert((k + 16) % 2 == k % 2);
    assert((k + 16) / 2 == k / 2 + 8);
    assert((k / 2 + 8) % 8 == (k / 2) % 8);
}

} // verus!
