//! MIDI note numbers.
use vstd::prelude::*;

verus! {

/// Number of MIDI notes; note numbers run from 0 to 127.
pub const NOTE_COUNT: u8 = 128;

/// A MIDI note, 0 (C-1) to 127 (G9).
#[derive(Clone, Copy, Debug, PartialEq, Eq, Structural)]
pub struct Note {
    number: u8,
}

/// `v` clamped to the note range.
pub open spec fn clamp_note(v: int) -> int {
    if v < 0 {
        0
    } else if v > 127 {
        127
    } else {
        v
    }
}

impl Note {
    #[verifier::type_invariant]
    spec fn inv(self) -> bool {
        self.number < NOTE_COUNT
    }

    /// The note number.
    pub closed spec fn value(self) -> nat {
        self.number as nat
    }

    /// The note numbered `number`, if it is a MIDI note.
    pub fn new(number: u8) -> (r: Option<Note>)
        ensures
            r is Some <==> number < NOTE_COUNT,
            r matches Some(n) ==> n.value() == number,
    {
        if number < NOTE_COUNT {
            Some(Note { number })
        } else {
            None
        }
    }

    /// The note number.
    pub fn number(&self) -> (r: u8)
        ensures
            r == self.value(),
            r < NOTE_COUNT,
    {
        proof {
            use_type_invariant(self);
        }
        self.number
    }

    /// The note `offset` semitones away, held to the note range.
    pub fn transpose(self, offset: i8) -> (r: Note)
        ensures
            r.value() == clamp_note(self.value() + offset),
    {
        proof {
            use_type_invariant(&self);
        }
        let v: i16 = self.number as i16 + offset as i16;
        let n: u8 = if v < 0 {
            0
        } else if v > 127 {
            127
        } else {
            v as u8
        };
        Note { number: n }
    }
}

} // verus!
