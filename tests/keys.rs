use paw_one::control::keys::{edge_messages, Keys as SemitoneKeys, KeysError, KeysMessage};
use paw_one::drivers::ttp229::{Keys, TTP229};
use paw_one::iter::digits::{digit_edges, DigitsIter, Edge};
use paw_one::midi::note::Note;

fn note(n: u8) -> Note {
    Note::new(n).unwrap()
}

#[test]
fn bitmask_new_key_is_note_on() {
    let events = SemitoneKeys(0b000000000001).into_midi(SemitoneKeys(0b000000000000));
    assert_eq!(events, vec![KeysMessage::NoteOn(note(0))]);
}

#[test]
fn bitmask_released_key_is_note_off() {
    let events = SemitoneKeys(0b01).into_midi(SemitoneKeys(0b11));
    assert_eq!(events, vec![KeysMessage::NoteOff(note(1))]);
}

#[test]
fn bitmask_unchanged_gives_no_events() {
    assert!(SemitoneKeys(0b01).into_midi(SemitoneKeys(0b01)).is_empty());
}

#[test]
fn bitmask_events_are_lowest_key_first() {
    let events = SemitoneKeys(0b1000_0000_0101).into_midi(SemitoneKeys(0b0000_0001_0110));
    assert_eq!(
        events,
        vec![
            KeysMessage::NoteOn(note(0)),
            KeysMessage::NoteOff(note(1)),
            KeysMessage::NoteOff(note(4)),
            KeysMessage::NoteOn(note(11)),
        ]
    );
    assert!(SemitoneKeys(0xF000).into_midi(SemitoneKeys(0)).is_empty());
}

#[test]
fn single_note_of_a_mask() {
    assert_eq!(SemitoneKeys(1 << 9).expect_single_note(), Ok(note(9)));
    assert_eq!(SemitoneKeys(1).expect_single_note(), Ok(note(0)));
    assert_eq!(SemitoneKeys(0).expect_single_note(), Err(KeysError::EmptyMask));
    assert_eq!(SemitoneKeys(0b101).expect_single_note(), Err(KeysError::MultipleNotesInMask));
}

#[test]
fn key_edges_to_transposed_messages() {
    let mut edges = vec![None; 16];
    edges[0] = Some(Edge::Rising);
    edges[3] = Some(Edge::Falling);
    assert_eq!(
        edge_messages(&edges, 60),
        vec![KeysMessage::NoteOn(note(60)), KeysMessage::NoteOff(note(63))]
    );
    assert_eq!(edge_messages(&edges, 126), vec![KeysMessage::NoteOn(note(126)), KeysMessage::NoteOff(note(127))]);
}

#[test]
fn keypad_mask_queries() {
    let mut levels = vec![false; 16];
    levels[0] = true;
    levels[5] = true;
    levels[15] = true;
    let k = Keys::from_levels(&levels);
    assert_eq!(k, Keys(0b1000_0000_0010_0001));
    assert!(k.is_active(5));
    assert!(!k.is_active(4));
    assert!(k.is_active(15));
    assert_eq!(k.get(5), Some(true));
    assert_eq!(k.get(6), Some(false));
    assert_eq!(k.get(16), None);
    assert_eq!(k.iter_active(), vec![0, 5, 15]);
    assert!(!k.is_empty());
    assert!(Keys::empty().is_empty());
    assert!(Keys::empty().iter_active().is_empty());
}

#[test]
fn keypad_edges_in_base_two() {
    let old = Keys(0b0110);
    let new = Keys(0b1100);
    let e = old.edges(new, 2);
    assert_eq!(e.len(), 16);
    assert_eq!(e[0], None);
    assert_eq!(e[1], Some(Edge::Falling));
    assert_eq!(e[2], None);
    assert_eq!(e[3], Some(Edge::Rising));
    assert!(e[4..].iter().all(|x| x.is_none()));
}

#[test]
fn digit_edges_in_base_ten() {
    let e = digit_edges(10, 1, 10);
    assert_eq!(e[0], Some(Edge::Rising));
    assert_eq!(e[1], Some(Edge::Falling));
    assert_eq!(e[2], None);
    let f = digit_edges(2, 1, 10);
    assert_eq!(f[0], None);
}

#[test]
fn digits_low_first() {
    let mut d = DigitsIter::new(123, 10);
    assert_eq!(d.next(), Some(3));
    assert_eq!(d.next(), Some(2));
    assert_eq!(d.next(), Some(1));
    assert_eq!(d.next(), None);
    let mut b = Keys(0b110).digits(2);
    assert_eq!(b.next(), Some(0));
    assert_eq!(b.next(), Some(1));
    assert_eq!(b.next(), Some(1));
    assert_eq!(b.next(), None);
}

#[test]
fn keypad_clock_timing() {
    assert_eq!(TTP229::new().delay_us(), 1000);
    assert_eq!(TTP229::new().freq(50_000).delay_us(), 20);
    assert_eq!(TTP229::new().freq(1_000_000).delay_us(), 3);
    assert_eq!(TTP229::new().freq(3).delay_us(), 333_334);
    assert_eq!(TTP229::new().freq(1).delay_us(), 1_000_000);
}

#[test]
fn keypad_channels_debounce_independently() {
    let mut pad = TTP229::new();
    let touched = Keys(1 << 5 | 1 << 9);
    let e1 = pad.edges(touched);
    assert!(e1.iter().all(|x| x.is_none()));
    let e2 = pad.edges(Keys(1 << 5));
    assert!(e2.iter().all(|x| x.is_none()));
    let e3 = pad.edges(Keys(1 << 5));
    assert_eq!(e3[5], Some(Edge::Rising));
    assert_eq!(e3[9], None);
    assert_eq!(e3.iter().filter(|x| x.is_some()).count(), 1);
    pad.edges(Keys(0));
    pad.edges(Keys(0));
    let e6 = pad.edges(Keys(0));
    assert_eq!(e6[5], Some(Edge::Falling));
}
