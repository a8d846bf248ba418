use paw_one::audio::AudioRingBuffer;
use paw_one::control::keys::KeysMessage;
use paw_one::midi::note::Note;
use paw_one::synth::{OscName, Synth, Voice, VOICE_COUNT};

fn note(n: u8) -> Note {
    Note::new(n).unwrap()
}

#[test]
fn seventeenth_note_finds_no_voice() {
    let mut synth = Synth::new();
    for i in 0..VOICE_COUNT {
        assert_eq!(synth.note_on(note(40 + i as u8)), Some(i));
    }
    assert_eq!(synth.note_on(note(100)), None);
    let active = synth.active_voices();
    assert_eq!(active.len(), VOICE_COUNT);
    for i in 0..VOICE_COUNT {
        assert_eq!(active[i], note(40 + i as u8));
    }
    assert!(!active.contains(&note(100)));
}

#[test]
fn note_off_of_unsounded_note_changes_nothing() {
    let mut synth = Synth::new();
    synth.note_on(note(60));
    assert_eq!(synth.note_off(note(61)), None);
    assert_eq!(synth.active_voices(), vec![note(60)]);
}

#[test]
fn note_on_off_on_reuses_the_voice() {
    let mut synth = Synth::new();
    synth.note_on(note(50));
    assert_eq!(synth.note_on(note(60)), Some(1));
    synth.note_on(note(70));
    assert_eq!(synth.note_off(note(60)), Some(1));
    assert_eq!(synth.voice_note(1), None);
    assert_eq!(synth.note_on(note(60)), Some(1));
    assert_eq!(synth.voice_note(0), Some(note(50)));
    assert_eq!(synth.voice_note(1), Some(note(60)));
    assert_eq!(synth.voice_note(2), Some(note(70)));
}

#[test]
fn first_idle_voice_is_taken() {
    let mut synth = Synth::new();
    synth.note_on(note(1));
    synth.note_on(note(2));
    synth.note_on(note(3));
    synth.note_off(note(1));
    assert_eq!(synth.note_on(note(4)), Some(0));
    assert_eq!(synth.active_voices(), vec![note(4), note(2), note(3)]);
}

#[test]
fn mix_sums_sounding_voices_only() {
    let mut synth = Synth::new();
    synth.note_on(note(60));
    synth.note_on(note(64));
    let mut samples = vec![1000i32; VOICE_COUNT];
    samples[0] = 300;
    samples[1] = -100;
    assert_eq!(synth.mix(&samples), 200);
    let loud = vec![i32::MAX; VOICE_COUNT];
    assert_eq!(synth.mix(&loud), i32::MAX);
    let quiet = vec![i32::MIN; VOICE_COUNT];
    assert_eq!(synth.mix(&quiet), i32::MIN);
    let idle = Synth::new();
    assert_eq!(idle.mix(&loud), 0);
}

#[test]
fn tick_pushes_a_stereo_frame_until_full() {
    let mut synth = Synth::new();
    synth.note_on(note(69));
    let mut samples = vec![0i32; VOICE_COUNT];
    samples[0] = 12345;
    let mut ring = AudioRingBuffer::new();
    assert!(synth.tick(&samples, &mut ring));
    assert_eq!(ring.pop(), Some((12345, 12345)));
    for _ in 0..ring.capacity() {
        assert!(synth.tick(&samples, &mut ring));
    }
    assert!(!synth.tick(&samples, &mut ring));
    assert_eq!(ring.len(), ring.capacity());
    assert_eq!(ring.underruns(), 0);
}

#[test]
fn apply_dispatches_note_messages() {
    let mut synth = Synth::new();
    assert_eq!(synth.apply(KeysMessage::NoteOn(note(10))), Some(0));
    assert_eq!(synth.apply(KeysMessage::NoteOn(note(11))), Some(1));
    assert_eq!(synth.apply(KeysMessage::NoteOff(note(10))), Some(0));
    assert_eq!(synth.apply(KeysMessage::NoteOff(note(10))), None);
    assert_eq!(synth.active_voices(), vec![note(11)]);
}

#[test]
fn voice_tracks_its_note() {
    let mut v = Voice::new();
    assert_eq!(v.current_note(), None);
    v.note_on(note(42));
    assert_eq!(v.current_note(), Some(note(42)));
    v.note_off();
    assert_eq!(v.current_note(), None);
}

#[test]
fn osc_names() {
    assert_eq!(OscName::Osc1.as_str(), "OSC1");
    assert_eq!(OscName::Osc2.as_str(), "OSC2");
    assert_eq!(OscName::Osc3.as_str(), "OSC3");
}

#[test]
fn note_numbers_and_transpose() {
    assert!(Note::new(127).is_some());
    assert!(Note::new(128).is_none());
    assert_eq!(note(0).transpose(60).number(), 60);
    assert_eq!(note(100).transpose(100).number(), 127);
    assert_eq!(note(5).transpose(-20).number(), 0);
    assert_eq!(note(127).transpose(-128).number(), 0);
}
