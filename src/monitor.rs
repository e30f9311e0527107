use vstd::prelude::*;
use vstd::string::StringExecFns;

use crate::wire::{decimal, decimal_text, MidiMessage};

verus! {

/// How many records a monitor keeps; older ones are dropped first.
pub const LOG_LIMIT: usize = 100;

/// Number of distinct note numbers tracked.
pub const NOTE_SLOTS: usize = 256;

/// What `format!("{:?}", ..)` writes for a string: the text quoted, with
/// special characters escaped.
pub uninterp spec fn debug_text_of(s: Seq<char>) -> Seq<char>;

/// Relies on `str`'s `Debug`: the quoted, escaped form depends on the
/// characters alone.
#[verifier::external_body]
fn debug_text(s: &str) -> (r: String)
    ensures
        r@ == debug_text_of(s@),
{
    format!("{:?}", s)
}

pub open spec fn or_zero(v: Option<u8>) -> nat {
    match v {
        Some(x) => x as nat,
        None => 0,
    }
}

/// The one-line, human-readable form of a record.
pub open spec fn formatted(m: MidiMessage) -> Seq<char> {
    let t = m.message_type@;
    if t == "NoteOn"@ {
        "Note On: "@ + decimal(or_zero(m.note)) + " (vel: "@ + decimal(or_zero(m.velocity)) + ")"@
    } else if t == "NoteOff"@ {
        "Note Off: "@ + decimal(or_zero(m.note)) + " (vel: "@ + decimal(or_zero(m.velocity))
            + ")"@
    } else if t == "ControlChange"@ {
        "CC: "@ + decimal(or_zero(m.control)) + " = "@ + decimal(or_zero(m.value))
    } else {
        debug_text_of(t)
    }
}

fn or_zero_exec(v: Option<u8>) -> (r: u8)
    ensures
        r as nat == or_zero(v),
{
    match v {
        Some(x) => x,
        None => 0,
    }
}

/// Formats a record for the event log: the note and velocity of a note
/// message, the controller and value of a controller message, and the quoted
/// type of any other. A missing number reads as 0.
pub fn format_midi_message(msg: &MidiMessage) -> (r: String)
    ensures
        r@ == formatted(*msg),
{
    let t = &msg.message_type;
    if *t == String::from_str("NoteOn") || *t == String::from_str("NoteOff") {
        let mut r = if *t == String::from_str("NoteOn") {
            String::from_str("Note On: ")
        } else {
            String::from_str("Note Off: ")
        };
        let note = decimal_text(or_zero_exec(msg.note));
        let velocity = decimal_text(or_zero_exec(msg.velocity));
        r.append(note.as_str());
        r.append(" (vel: ");
        r.append(velocity.as_str());
        r.append(")");
        r
    } else if *t == String::from_str("ControlChange") {
        let mut r = String::from_str("CC: ");
        let control = decimal_text(or_zero_exec(msg.control));
        let value = decimal_text(or_zero_exec(msg.value));
        r.append(control.as_str());
        r.append(" = ");
        r.append(value.as_str());
        r
    } else {
        debug_text(t.as_str())
    }
}

/// The last `n` elements of `s` (all of them when there are fewer).
pub open spec fn last_n<A>(s: Seq<A>, n: nat) -> Seq<A> {
    if s.len() <= n {
        s
    } else {
        s.subrange(s.len() - n, s.len() as int)
    }
}

/// The note states after a record: a Note On marks its note pressed, a Note
/// Off marks it released, anything else changes nothing.
pub open spec fn notes_after(active: Seq<bool>, m: MidiMessage) -> Seq<bool> {
    match m.note {
        Some(n) => if m.message_type@ == "NoteOn"@ {
            active.update(n as int, true)
        } else if m.message_type@ == "NoteOff"@ {
            active.update(n as int, false)
        } else {
            active
        },
        None => active,
    }
}

/// How many entries of `s` are true.
pub open spec fn count_true(s: Seq<bool>) -> nat
    decreases s.len(),
{
    if s.len() == 0 {
        0
    } else {
        count_true(s.drop_last()) + if s.last() {
            1nat
        } else {
            0nat
        }
    }
}

/// What a display client keeps of the stream: the latest records, oldest
/// first, and which notes are currently pressed.
pub struct Monitor {
    events: Vec<MidiMessage>,
    active: Vec<bool>,
}

impl Monitor {
    pub closed spec fn events_spec(&self) -> Seq<MidiMessage> {
        self.events@
    }

    pub closed spec fn notes_spec(&self) -> Seq<bool> {
        self.active@
    }

    pub closed spec fn wf(&self) -> bool {
        &&& self.events@.len() <= LOG_LIMIT
        &&& self.active@.len() == NOTE_SLOTS
    }

    /// A monitor that has seen nothing.
    pub fn new() -> (r: Monitor)
        ensures
            r.wf(),
            r.events_spec().len() == 0,
            r.notes_spec() == Seq::new(NOTE_SLOTS as nat, |i: int| false),
    {
        let mut active: Vec<bool> = Vec::new();
        let mut i: usize = 0;
        while i < NOTE_SLOTS
            invariant
                i <= NOTE_SLOTS,
                active@ == Seq::new(i as nat, |j: int| false),
            decreases NOTE_SLOTS - i,
        {
            active.push(false);
            i = i + 1;
            assert(active@ =~= Seq::new(i as nat, |j: int| false));
        }
        Monitor { events: Vec::new(), active }
    }

    /// Records one received message: it joins the log, which keeps the
    /// latest `LOG_LIMIT`, and a note message updates its note's state.
    pub fn apply(&mut self, m: MidiMessage)
        requires
            old(self).wf(),
        ensures
            final(self).wf(),
            final(self).events_spec() == last_n(
                old(self).events_spec().push(m),
                LOG_LIMIT as nat,
            ),
            final(self).notes_spec() == notes_after(old(self).notes_spec(), m),
    {
        proof {
            reveal_strlit("NoteOn");
            reveal_strlit("NoteOff");
        }
        let ghost pushed = self.events@.push(m);
        if let Some(n) = m.note {
            if m.message_type == String::from_str("NoteOn") {
                self.active.set(n as usize, true);
            } else if m.message_type == String::from_str("NoteOff") {
                self.active.set(n as usize, false);
            }
        }
        self.events.push(m);
        if self.events.len() > LOG_LIMIT {
            self.events.remove(0);
            assert(self.events@ =~= pushed.subrange(pushed.len() - LOG_LIMIT, pushed.len() as int));
        }
    }

    /// Number of records held.
    pub fn len(&self) -> (r: usize)
        ensures
            r == self.events_spec().len(),
    {
        self.events.len()
    }

    /// Whether `note` is currently pressed.
    pub fn is_active(&self, note: u8) -> (r: bool)
        requires
            self.wf(),
        ensures
            r == self.notes_spec()[note as int],
    {
        self.active[note as usize]
    }

    /// How many notes are currently pressed.
    pub fn active_count(&self) -> (r: usize)
        requires
            self.wf(),
        ensures
            r == count_true(self.notes_spec()),
    {
        let mut count: usize = 0;
        let mut i: usize = 0;
        while i < self.active.len()
            invariant
                i <= self.active@.len(),
                self.active@.len() == NOTE_SLOTS,
                count == count_true(self.active@.subrange(0, i as int)),
                count <= i,
            decreases self.active@.len() - i,
        {
            let ghost before = self.active@.subrange(0, i as int);
            assert(self.active@.subrange(0, i + 1).drop_last() =~= before);
            if self.active[i] {
                count = count + 1;
            }
            i = i + 1;
        }
        assert(self.active@.subrange(0, i as int) =~= self.active@);
        count
    }

    /// The text of the `i`-th record held, oldest first, as the log shows it.
    pub fn line(&self, i: usize) -> (r: String)
        requires
            i < self.events_spec().len(),
        ensures
            r@ == formatted(self.events_spec()[i as int]),
    {
        format_midi_message(&self.events[i])
    }
}

} // verus!
