use vstd::prelude::*;
use vstd::string::StringExecFns;

use crate::decode::{decode, decoded};
use crate::event::Event;

verus! {

/// The wire form of an event: one record per event, with the fields that
/// the event's kind does not carry left empty.
#[derive(Clone, Debug)]
pub struct MidiMessage {
    pub message_type: String,
    pub note: Option<u8>,
    pub velocity: Option<u8>,
    pub control: Option<u8>,
    pub value: Option<u8>,
}

/// The character of one decimal digit.
pub open spec fn digit_char(d: nat) -> char {
    if d == 0 {
        '0'
    } else if d == 1 {
        '1'
    } else if d == 2 {
        '2'
    } else if d == 3 {
        '3'
    } else if d == 4 {
        '4'
    } else if d == 5 {
        '5'
    } else if d == 6 {
        '6'
    } else if d == 7 {
        '7'
    } else if d == 8 {
        '8'
    } else {
        '9'
    }
}

/// The decimal digits of a number, without leading zeros.
pub open spec fn decimal(n: nat) -> Seq<char>
    decreases n,
{
    if n < 10 {
        seq![digit_char(n)]
    } else {
        decimal(n / 10).push(digit_char(n % 10))
    }
}

/// The message type of an unrecognized event: `Unknown(<code>)`.
pub open spec fn unknown_label(code: u8) -> Seq<char> {
    "Unknown("@ + decimal(code as nat) + ")"@
}

/// The message type that names the kind of an event.
pub open spec fn label_of(e: Event) -> Seq<char> {
    match e {
        Event::NoteOn { .. } => "NoteOn"@,
        Event::NoteOff { .. } => "NoteOff"@,
        Event::ControlChange { .. } => "ControlChange"@,
        Event::Unknown { code } => unknown_label(code),
    }
}

pub open spec fn note_of(e: Event) -> Option<u8> {
    match e {
        Event::NoteOn { note, .. } => Some(note),
        Event::NoteOff { note, .. } => Some(note),
        _ => None,
    }
}

pub open spec fn velocity_of(e: Event) -> Option<u8> {
    match e {
        Event::NoteOn { velocity, .. } => Some(velocity),
        Event::NoteOff { velocity, .. } => Some(velocity),
        _ => None,
    }
}

pub open spec fn control_of(e: Event) -> Option<u8> {
    match e {
        Event::ControlChange { control, .. } => Some(control),
        _ => None,
    }
}

pub open spec fn value_of(e: Event) -> Option<u8> {
    match e {
        Event::ControlChange { value, .. } => Some(value),
        _ => None,
    }
}

/// The wire record `m` is the one written for `e`.
pub open spec fn is_message_of(m: MidiMessage, e: Event) -> bool {
    &&& m.message_type@ == label_of(e)
    &&& m.note == note_of(e)
    &&& m.velocity == velocity_of(e)
    &&& m.control == control_of(e)
    &&& m.value == value_of(e)
}

/// The event that a wire record stands for, if any. Fields that the named
/// kind does not carry are not looked at; an unknown message type, or a
/// missing field that the kind needs, gives `None`.
pub open spec fn event_of(m: MidiMessage) -> Option<Event> {
    let t = m.message_type@;
    if t == "NoteOn"@ {
        match (m.note, m.velocity) {
            (Some(note), Some(velocity)) => Some(Event::NoteOn { note, velocity }),
            _ => None,
        }
    } else if t == "NoteOff"@ {
        match (m.note, m.velocity) {
            (Some(note), Some(velocity)) => Some(Event::NoteOff { note, velocity }),
            _ => None,
        }
    } else if t == "ControlChange"@ {
        match (m.control, m.value) {
            (Some(control), Some(value)) => Some(Event::ControlChange { control, value }),
            _ => None,
        }
    } else if exists|c: u8| unknown_label(c) == t {
        Some(Event::Unknown { code: choose|c: u8| unknown_label(c) == t })
    } else {
        None
    }
}

/// Relies on `u8`'s `to_string` (its `Display`): decimal digits without
/// leading zeros.
#[verifier::external_body]
pub(crate) fn decimal_text(n: u8) -> (r: String)
    ensures
        r@ == decimal(n as nat),
{
    n.to_string()
}

fn unknown_text(code: u8) -> (r: String)
    ensures
        r@ == unknown_label(code),
{
    let mut r = String::from_str("Unknown(");
    let digits = decimal_text(code);
    r.append(digits.as_str());
    r.append(")");
    r
}

impl Event {
    /// The wire record of this event.
    pub fn to_message(&self) -> (r: MidiMessage)
        ensures
            is_message_of(r, *self),
    {
        match *self {
            Event::NoteOn { note, velocity } => MidiMessage {
                message_type: String::from_str("NoteOn"),
                note: Some(note),
                velocity: Some(velocity),
                control: None,
                value: None,
            },
            Event::NoteOff { note, velocity } => MidiMessage {
                message_type: String::from_str("NoteOff"),
                note: Some(note),
                velocity: Some(velocity),
                control: None,
                value: None,
            },
            Event::ControlChange { control, value } => MidiMessage {
                message_type: String::from_str("ControlChange"),
                note: None,
                velocity: None,
                control: Some(control),
                value: Some(value),
            },
            Event::Unknown { code } => MidiMessage {
                message_type: unknown_text(code),
                note: None,
                velocity: None,
                control: None,
                value: None,
            },
        }
    }
}

proof fn lemma_decimal_nonempty(n: nat)
    ensures
        decimal(n).len() >= 1,
    decreases n,
{
    if n >= 10 {
        lemma_decimal_nonempty(n / 10);
    }
}

proof fn lemma_digit_injective(a: nat, b: nat)
    requires
        a < 10,
        b < 10,
        digit_char(a) == digit_char(b),
    ensures
        a == b,
{
}

/// Different numbers have different decimal digits.
pub proof fn lemma_decimal_injective(a: nat, b: nat)
    requires
        decimal(a) == decimal(b),
    ensures
        a == b,
    decreases a,
{
    if a < 10 && b < 10 {
        assert(decimal(a)[0] == digit_char(a));
        assert(decimal(b)[0] == digit_char(b));
        lemma_digit_injective(a, b);
    } else if a < 10 {
        lemma_decimal_nonempty(b / 10);
        assert(decimal(b).len() >= 2);
    } else if b < 10 {
        lemma_decimal_nonempty(a / 10);
        assert(decimal(a).len() >= 2);
    } else {
        let da = decimal(a);
        let db = decimal(b);
        assert(da.last() == digit_char(a % 10));
        assert(db.last() == digit_char(b % 10));
        lemma_digit_injective(a % 10, b % 10);
        assert(da.drop_last() =~= decimal(a / 10));
        assert(db.drop_last() =~= decimal(b / 10));
        lemma_decimal_injective(a / 10, b / 10);
        assert(a == (a / 10) * 10 + a % 10);
        assert(b == (b / 10) * 10 + b % 10);
    }
}

/// Different codes have different `Unknown(<code>)` labels.
pub proof fn lemma_unknown_label_injective(a: u8, b: u8)
    requires
        unknown_label(a) == unknown_label(b),
    ensures
        a == b,
{
    reveal_strlit("Unknown(");
    reveal_strlit(")");
    let la = unknown_label(a);
    let lb = unknown_label(b);
    let da = decimal(a as nat);
    let db = decimal(b as nat);
    assert(la.subrange(8, la.len() - 1) =~= da);
    assert(lb.subrange(8, lb.len() - 1) =~= db);
    lemma_decimal_injective(a as nat, b as nat);
}

/// No `Unknown(<code>)` label is one of the three named message types.
proof fn lemma_unknown_label_distinct(c: u8)
    ensures
        unknown_label(c) != "NoteOn"@,
        unknown_label(c) != "NoteOff"@,
        unknown_label(c) != "ControlChange"@,
{
    reveal_strlit("Unknown(");
    reveal_strlit("NoteOn");
    reveal_strlit("NoteOff");
    reveal_strlit("ControlChange");
    assert(unknown_label(c)[0] == 'U');
}

/// A record whose message type is `Unknown(<code>)` stands for that code.
proof fn lemma_unknown_event_of(m: MidiMessage, code: u8)
    requires
        m.message_type@ == unknown_label(code),
    ensures
        event_of(m) == Some(Event::Unknown { code }),
{
    lemma_unknown_label_distinct(code);
    let t = m.message_type@;
    assert(exists|c: u8| unknown_label(c) == t);
    let c = choose|c: u8| unknown_label(c) == t;
    lemma_unknown_label_injective(c, code);
}

/// Writing an event as a wire record and reading the record back gives the
/// same event.
pub proof fn lemma_round_trip(e: Event, m: MidiMessage)
    requires
        is_message_of(m, e),
    ensures
        event_of(m) == Some(e),
{
    reveal_strlit("NoteOn");
    reveal_strlit("NoteOff");
    reveal_strlit("ControlChange");
    assert("NoteOn"@.len() == 6);
    assert("NoteOff"@.len() == 7);
    assert("ControlChange"@.len() == 13);
    if let Event::Unknown { code } = e {
        lemma_unknown_event_of(m, code);
    }
}

impl MidiMessage {
    /// Decodes a raw frame straight to its wire record.
    pub fn from_raw_message(message: &[u8]) -> (r: Option<MidiMessage>)
        ensures
            match decoded(message@) {
                Some(e) => r matches Some(m) && is_message_of(m, e),
                None => r is None,
            },
    {
        match decode(message) {
            Some(e) => Some(e.to_message()),
            None => None,
        }
    }

    /// The event that this wire record stands for; `None` for an unknown
    /// message type or a missing field.
    pub fn to_event(&self) -> (r: Option<Event>)
        ensures
            r == event_of(*self),
    {
        proof {
            reveal_strlit("NoteOn");
            reveal_strlit("NoteOff");
            reveal_strlit("ControlChange");
        }
        let t = &self.message_type;
        if *t == String::from_str("NoteOn") {
            match (self.note, self.velocity) {
                (Some(note), Some(velocity)) => Some(Event::NoteOn { note, velocity }),
                _ => None,
            }
        } else if *t == String::from_str("NoteOff") {
            match (self.note, self.velocity) {
                (Some(note), Some(velocity)) => Some(Event::NoteOff { note, velocity }),
                _ => None,
            }
        } else if *t == String::from_str("ControlChange") {
            match (self.control, self.value) {
                (Some(control), Some(value)) => Some(Event::ControlChange { control, value }),
                _ => None,
            }
        } else {
            let mut c: u16 = 0;
            while c < 256
                invariant
                    c <= 256,
                    forall|k: u8| (k as u16) < c ==> unknown_label(k) != self.message_type@,
                decreases 256 - c,
            {
                let code = c as u8;
                let label = unknown_text(code);
                if self.message_type == label {
                    proof {
                        lemma_unknown_event_of(*self, code);
                    }
                    return Some(Event::Unknown { code });
                }
                assert(label@ != self.message_type@);
                assert forall|k: u8| (k as u16) < c + 1 implies unknown_label(k) != self.message_type@ by {
                    if k as u16 == c {
                        assert(k == code);
                    }
                }
                c = c + 1;
            }
            proof {
                assert forall|k: u8| unknown_label(k) != self.message_type@ by {
                    assert((k as u16) < c);
                }
            }
            None
        }
    }
}

} // verus!
