//! Twelve-key keyboard bitmask (one bit per semitone) and its conversion to
//! note events.
use vstd::prelude::*;
use crate::iter::digits::{bit_set, Edge};
use crate::midi::note::Note;

verus! {

/// Number of keys: one octave of semitones.
pub const SEMITONE_COUNT: u16 = 12;

/// Pressed keys, bit `i` for semitone `i` (C is bit 0, B is bit 11). Bits
/// above the twelfth are ignored.
#[derive(Clone, Copy, Debug, PartialEq, Eq, Structural)]
pub struct Keys(pub u16);

/// A note event derived from a change of the key mask.
#[derive(Clone, Copy, Debug, PartialEq, Eq, Structural)]
pub enum KeysMessage {
    NoteOn(Note),
    NoteOff(Note),
}

/// Why a mask does not name a single note.
#[derive(Clone, Copy, Debug, PartialEq, Eq, Structural)]
pub enum KeysError {
    EmptyMask,
    MultipleNotesInMask,
}

/// A message as (is a note-on, note number).
pub open spec fn message_view(m: KeysMessage) -> (bool, nat) {
    match m {
        KeysMessage::NoteOn(n) => (true, n.value()),
        KeysMessage::NoteOff(n) => (false, n.value()),
    }
}

/// Number of keys among the first `n` whose bit is set in `x`.
pub open spec fn count_keys(x: u16, n: int) -> nat
    decreases n,
{
    if n <= 0 {
        0
    } else {
        count_keys(x, n - 1) + if bit_set(x, (n - 1) as u16) {
            1nat
        } else {
            0nat
        }
    }
}

/// Events for the first `n` keys going from mask `old` to mask `new`, lowest
/// key first: a key pressed only in `new` is a note-on, one pressed only in
/// `old` a note-off.
pub open spec fn midi_events(old: u16, new: u16, n: int) -> Seq<(bool, nat)>
    decreases n,
{
    if n <= 0 {
        Seq::empty()
    } else {
        let k = (n - 1) as u16;
        let prev = midi_events(old, new, n - 1);
        if bit_set(new, k) && !bit_set(old, k) {
            prev.push((true, (n - 1) as nat))
        } else if bit_set(old, k) && !bit_set(new, k) {
            prev.push((false, (n - 1) as nat))
        } else {
            prev
        }
    }
}

/// Messages for per-key edges with key `i` playing note `i` moved by
/// `transpose` semitones, for the first `n` keys.
pub open spec fn edge_events(edges: Seq<Option<Edge>>, transpose: int, n: int) -> Seq<(bool, nat)>
    decreases n,
{
    if n <= 0 {
        Seq::empty()
    } else {
        let prev = edge_events(edges, transpose, n - 1);
        let note = crate::midi::note::clamp_note((n - 1) + transpose) as nat;
        match edges[n - 1] {
            Some(Edge::Rising) => prev.push((true, note)),
            Some(Edge::Falling) => prev.push((false, note)),
            None => prev,
        }
    }
}

/// Note events for per-key edges: a rising key `i` starts note `i` moved by
/// `transpose` semitones (held to the note range), a falling one stops it.
pub fn edge_messages(edges: &Vec<Option<Edge>>, transpose: i8) -> (r: Vec<KeysMessage>)
    requires
        edges@.len() <= 128,
    ensures
        r@.map_values(|m: KeysMessage| message_view(m)) == edge_events(
            edges@,
            transpose as int,
            edges@.len() as int,
        ),
{
    let mut r: Vec<KeysMessage> = Vec::new();
    let mut i: usize = 0;
    while i < edges.len()
        invariant
            edges@.len() <= 128,
            i <= edges@.len(),
            r@.map_values(|m: KeysMessage| message_view(m)) == edge_events(
                edges@,
                transpose as int,
                i as int,
            ),
        decreases edges@.len() - i,
    {
        if let Some(edge) = edges[i] {
            if let Some(base) = Note::new(i as u8) {
                let note = base.transpose(transpose);
                match edge {
                    Edge::Rising => r.push(KeysMessage::NoteOn(note)),
                    Edge::Falling => r.push(KeysMessage::NoteOff(note)),
                }
            }
        }
        assert(r@.map_values(|m: KeysMessage| message_view(m)) =~= edge_events(
            edges@,
            transpose as int,
            i as int + 1,
        ));
        i = i + 1;
    }
    r
}

impl Keys {
    /// The note of the single key pressed in this mask: its semitone index
    /// as a note number. An empty mask and a mask with several keys are
    /// errors.
    pub fn expect_single_note(self) -> (r: Result<Note, KeysError>)
        ensures
            count_keys(self.0, SEMITONE_COUNT as int) == 0 ==> r == Err::<Note, KeysError>(
                KeysError::EmptyMask,
            ),
            count_keys(self.0, SEMITONE_COUNT as int) >= 2 ==> r == Err::<Note, KeysError>(
                KeysError::MultipleNotesInMask,
            ),
            count_keys(self.0, SEMITONE_COUNT as int) == 1 ==> (r matches Ok(n) && n.value()
                < SEMITONE_COUNT && bit_set(self.0, n.value() as u16)),
    {
        let mut count: u16 = 0;
        let mut first: u16 = 0;
        let mut i: u16 = 0;
        while i < SEMITONE_COUNT
            invariant
                i <= SEMITONE_COUNT,
                count == count_keys(self.0, i as int),
                count <= i,
                count >= 1 ==> first < i && bit_set(self.0, first),
            decreases SEMITONE_COUNT - i,
        {
            if (self.0 >> i) & 1 == 1 {
                if count == 0 {
                    first = i;
                }
                count = count + 1;
            }
            i = i + 1;
        }
        if count == 0 {
            Err(KeysError::EmptyMask)
        } else if count >= 2 {
            Err(KeysError::MultipleNotesInMask)
        } else {
            match Note::new(first as u8) {
                Some(n) => Ok(n),
                None => Err(KeysError::EmptyMask),
            }
        }
    }

    /// Note events from mask `prev` to this one, lowest key first.
    pub fn into_midi(self, prev: Keys) -> (r: Vec<KeysMessage>)
        ensures
            r@.map_values(|m: KeysMessage| message_view(m)) == midi_events(
                prev.0,
                self.0,
                SEMITONE_COUNT as int,
            ),
    {
        let mut r: Vec<KeysMessage> = Vec::new();
        let mut i: u16 = 0;
        while i < SEMITONE_COUNT
            invariant
                i <= SEMITONE_COUNT,
                r@.map_values(|m: KeysMessage| message_view(m)) == midi_events(
                    prev.0,
                    self.0,
                    i as int,
                ),
            decreases SEMITONE_COUNT - i,
        {
            let was = (prev.0 >> i) & 1 == 1;
            let now = (self.0 >> i) & 1 == 1;
            let ghost before = r@;
            if now && !was {
                match Note::new(i as u8) {
                    Some(n) => r.push(KeysMessage::NoteOn(n)),
                    None => {},
                }
            } else if was && !now {
                match Note::new(i as u8) {
                    Some(n) => r.push(KeysMessage::NoteOff(n)),
                    None => {},
                }
            }
            assert(r@.map_values(|m: KeysMessage| message_view(m)) =~= midi_events(
                prev.0,
                self.0,
                i as int + 1,
            ));
            i = i + 1;
        }
        r
    }
}

} // verus!
