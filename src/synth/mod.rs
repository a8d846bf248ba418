//! Polyphonic voice pool: note allocation and per-sample mixing.
use vstd::prelude::*;
use crate::audio::{AudioRingBuffer, Frame, after_push};
use crate::control::keys::KeysMessage;
use crate::midi::note::Note;

verus! {

/// Number of voices in the pool.
pub const VOICE_COUNT: usize = 16;

/// Oscillator kind.
#[derive(Clone, Copy, Debug, PartialEq, Eq, Structural)]
pub enum OscKind {
    Wave,
    Noise,
}

/// Oscillator slot name.
#[derive(Clone, Copy, Debug, PartialEq, Eq, Structural)]
pub enum OscName {
    Osc1,
    Osc2,
    Osc3,
}

impl OscName {
    /// Display label of the slot.
    pub fn as_str(&self) -> (r: &'static str)
        ensures
            *self == OscName::Osc1 ==> r@ == "OSC1"@,
            *self == OscName::Osc2 ==> r@ == "OSC2"@,
            *self == OscName::Osc3 ==> r@ == "OSC3"@,
    {
        proof {
            reveal_strlit("OSC1");
            reveal_strlit("OSC2");
            reveal_strlit("OSC3");
        }
        match self {
            OscName::Osc1 => "OSC1",
            OscName::Osc2 => "OSC2",
            OscName::Osc3 => "OSC3",
        }
    }
}

/// An oscillator's settings.
#[derive(Clone, Copy, Debug)]
pub struct Osc {
    pub kind: OscKind,
    pub name: OscName,
}

/// Index of the first entry of `v` at or after `k` equal to `x`, or `v.len()`.
pub open spec fn first_from(v: Seq<Option<Note>>, k: int, x: Option<Note>) -> int
    decreases v.len() - k,
{
    if k >= v.len() {
        v.len() as int
    } else if v[k] == x {
        k
    } else {
        first_from(v, k + 1, x)
    }
}

/// Index of the first entry of `v` equal to `x`, or `v.len()` when none is.
pub open spec fn first_index(v: Seq<Option<Note>>, x: Option<Note>) -> int {
    first_from(v, 0, x)
}

/// Voice notes after a note-on: the first idle voice takes the note; with no
/// idle voice nothing changes.
pub open spec fn after_note_on(v: Seq<Option<Note>>, n: Note) -> Seq<Option<Note>> {
    let i = first_index(v, None);
    if i < v.len() {
        v.update(i, Some(n))
    } else {
        v
    }
}

/// Voice notes after a note-off: the first voice sounding the note goes idle;
/// with none nothing changes.
pub open spec fn after_note_off(v: Seq<Option<Note>>, n: Note) -> Seq<Option<Note>> {
    let i = first_index(v, Some(n));
    if i < v.len() {
        v.update(i, None)
    } else {
        v
    }
}

/// Voice notes after a note-on for each note of `s` in order.
pub open spec fn after_notes_on(v: Seq<Option<Note>>, s: Seq<Note>) -> Seq<Option<Note>>
    decreases s.len(),
{
    if s.len() == 0 {
        v
    } else {
        after_note_on(after_notes_on(v, s.drop_last()), s.last())
    }
}

/// The pool with every voice idle.
pub open spec fn idle_voices() -> Seq<Option<Note>> {
    Seq::new(VOICE_COUNT as nat, |i: int| None::<Note>)
}

/// Sum of `s[j]` over the voices `j < n` that sound.
pub open spec fn sounding_sum(v: Seq<Option<Note>>, s: Seq<i32>, n: int) -> int
    decreases n,
{
    if n <= 0 {
        0
    } else {
        sounding_sum(v, s, n - 1) + if v[n - 1] is Some {
            s[n - 1] as int
        } else {
            0
        }
    }
}

/// `x` held to the range of `i32`.
pub open spec fn saturate_i32(x: int) -> i32 {
    if x > i32::MAX {
        i32::MAX
    } else if x < i32::MIN {
        i32::MIN
    } else {
        x as i32
    }
}

/// What `first_from` finds: the entry there equals `x` and none before does.
pub proof fn lemma_first_from(v: Seq<Option<Note>>, k: int, x: Option<Note>)
    requires
        0 <= k <= v.len(),
    ensures
        k <= first_from(v, k, x) <= v.len(),
        first_from(v, k, x) < v.len() ==> v[first_from(v, k, x)] == x,
        forall|j: int| k <= j < first_from(v, k, x) ==> v[j] != x,
    decreases v.len() - k,
{
    if k < v.len() && v[k] != x {
        lemma_first_from(v, k + 1, x);
    }
}

/// `first_index` is the index of the first entry equal to `x`.
pub proof fn lemma_first_index_is(v: Seq<Option<Note>>, x: Option<Note>, i: int)
    requires
        0 <= i <= v.len(),
        i < v.len() ==> v[i] == x,
        forall|j: int| 0 <= j < i ==> v[j] != x,
    ensures
        first_index(v, x) == i,
{
    lemma_first_from(v, 0, x);
}

/// One voice: the note it sounds, if any.
#[derive(Clone, Copy, Debug)]
pub struct Voice {
    note: Option<Note>,
}

impl Voice {
    /// The note sounded, if any.
    pub closed spec fn note(&self) -> Option<Note> {
        self.note
    }

    /// An idle voice.
    pub fn new() -> (r: Voice)
        ensures
            r.note() is None,
    {
        Voice { note: None }
    }

    /// Starts sounding `note`.
    pub fn note_on(&mut self, note: Note)
        ensures
            final(self).note() == Some(note),
    {
        self.note = Some(note);
    }

    /// Goes idle.
    pub fn note_off(&mut self)
        ensures
            final(self).note() is None,
    {
        self.note = None;
    }

    /// The note sounded, if any.
    pub fn current_note(&self) -> (r: Option<Note>)
        ensures
            r == self.note(),
    {
        self.note
    }
}

/// The voice pool.
pub struct Synth {
    voices: Vec<Voice>,
}

impl Synth {
    /// The note of each voice, `None` for an idle one.
    pub closed spec fn voices(&self) -> Seq<Option<Note>> {
        self.voices@.map_values(|v: Voice| v.note())
    }

    pub closed spec fn wf(&self) -> bool {
        self.voices@.len() == VOICE_COUNT
    }

    /// A pool of idle voices.
    pub fn new() -> (r: Synth)
        ensures
            r.wf(),
            r.voices() == idle_voices(),
    {
        let mut voices: Vec<Voice> = Vec::new();
        let mut i: usize = 0;
        while i < VOICE_COUNT
            invariant
                i <= VOICE_COUNT,
                voices@.len() == i,
                forall|j: int| 0 <= j < i ==> voices@[j].note() is None,
            decreases VOICE_COUNT - i,
        {
            voices.push(Voice::new());
            i = i + 1;
        }
        let r = Synth { voices };
        assert(r.voices() =~= idle_voices());
        r
    }

    /// Index of the first voice whose note equals `x`, or the voice count.
    fn find(&self, x: Option<Note>) -> (r: usize)
        requires
            self.wf(),
        ensures
            r == first_index(self.voices(), x),
    {
        let ghost v = self.voices();
        let mut i: usize = 0;
        while i < self.voices.len()
            invariant
                self.wf(),
                v == self.voices(),
                i <= VOICE_COUNT,
                first_from(v, i as int, x) == first_index(v, x),
            decreases VOICE_COUNT - i,
        {
            if self.voices[i].note == x {
                return i;
            }
            i = i + 1;
        }
        i
    }

    /// Starts `note` on the first idle voice and returns that voice's index.
    /// With every voice sounding the note is dropped and nothing changes.
    pub fn note_on(&mut self, note: Note) -> (r: Option<usize>)
        requires
            old(self).wf(),
        ensures
            final(self).wf(),
            final(self).voices() == after_note_on(old(self).voices(), note),
            r is Some <==> old(self).voices().contains(None),
            r matches Some(i) ==> i == first_index(old(self).voices(), None),
    {
        let ghost v = self.voices();
        proof {
            lemma_first_from(v, 0, None);
        }
        let i = self.find(None);
        if i < self.voices.len() {
            self.voices.set(i, Voice { note: Some(note) });
            assert(self.voices() =~= v.update(i as int, Some(note)));
            Some(i)
        } else {
            assert(!v.contains(None));
            None
        }
    }

    /// Silences the first voice sounding `note` and returns its index. With
    /// no voice sounding it, nothing changes.
    pub fn note_off(&mut self, note: Note) -> (r: Option<usize>)
        requires
            old(self).wf(),
        ensures
            final(self).wf(),
            final(self).voices() == after_note_off(old(self).voices(), note),
            r is Some <==> old(self).voices().contains(Some(note)),
            r matches Some(i) ==> i == first_index(old(self).voices(), Some(note)),
            !old(self).voices().contains(Some(note)) ==> final(self).voices() == old(self).voices(),
    {
        let ghost v = self.voices();
        proof {
            lemma_first_from(v, 0, Some(note));
        }
        let i = self.find(Some(note));
        if i < self.voices.len() {
            self.voices.set(i, Voice { note: None });
            assert(self.voices() =~= v.update(i as int, None));
            Some(i)
        } else {
            assert(!v.contains(Some(note)));
            None
        }
    }

    /// Dispatches a note event: a note-on to `note_on`, a note-off to
    /// `note_off`. Returns the voice that changed, if any.
    pub fn apply(&mut self, msg: KeysMessage) -> (r: Option<usize>)
        requires
            old(self).wf(),
        ensures
            final(self).wf(),
            msg matches KeysMessage::NoteOn(n) ==> final(self).voices() == after_note_on(
                old(self).voices(),
                n,
            ),
            msg matches KeysMessage::NoteOff(n) ==> final(self).voices() == after_note_off(
                old(self).voices(),
                n,
            ),
    {
        match msg {
            KeysMessage::NoteOn(n) => self.note_on(n),
            KeysMessage::NoteOff(n) => self.note_off(n),
        }
    }

    /// The note of voice `i`, if it sounds.
    pub fn voice_note(&self, i: usize) -> (r: Option<Note>)
        requires
            self.wf(),
            i < VOICE_COUNT,
        ensures
            r == self.voices()[i as int],
    {
        self.voices[i].note
    }

    /// The notes sounding, in voice order.
    pub fn active_voices(&self) -> (r: Vec<Note>)
        requires
            self.wf(),
        ensures
            r@.map_values(|n: Note| Some(n)) == self.voices().filter(|x: Option<Note>| x is Some),
    {
        let ghost v = self.voices();
        let mut r: Vec<Note> = Vec::new();
        let mut i: usize = 0;
        while i < self.voices.len()
            invariant
                self.wf(),
                v == self.voices(),
                i <= VOICE_COUNT,
                r@.map_values(|n: Note| Some(n)) == v.take(i as int).filter(
                    |x: Option<Note>| x is Some,
                ),
            decreases VOICE_COUNT - i,
        {
            let ghost t = v.take(i as int);
            let ghost before = r@;
            proof {
                assert(v.take(i as int + 1) =~= t.push(v[i as int]));
                t.lemma_filter_push(v[i as int], |x: Option<Note>| x is Some);
            }
            if let Some(n) = self.voices[i].note {
                r.push(n);
                assert(r@.map_values(|n: Note| Some(n)) =~= before.map_values(|n: Note| Some(n)).push(Some(n)));
            }
            i = i + 1;
        }
        assert(v.take(VOICE_COUNT as int) =~= v);
        r
    }

    /// Sum of the samples of the sounding voices, held to the `i32` range.
    /// `samples[j]` is voice `j`'s next sample at full scale, gain applied.
    pub fn mix(&self, samples: &Vec<i32>) -> (r: i32)
        requires
            self.wf(),
            samples@.len() == VOICE_COUNT,
        ensures
            r == saturate_i32(sounding_sum(self.voices(), samples@, VOICE_COUNT as int)),
    {
        let ghost v = self.voices();
        let mut acc: i64 = 0;
        let mut i: usize = 0;
        while i < VOICE_COUNT
            invariant
                self.wf(),
                v == self.voices(),
                samples@.len() == VOICE_COUNT,
                i <= VOICE_COUNT,
                acc == sounding_sum(v, samples@, i as int),
                -(i as int) * 0x8000_0000 <= acc <= (i as int) * 0x8000_0000,
            decreases VOICE_COUNT - i,
        {
            if self.voices[i].note.is_some() {
                acc = acc + samples[i] as i64;
            }
            i = i + 1;
        }
        if acc > i32::MAX as i64 {
            i32::MAX
        } else if acc < i32::MIN as i64 {
            i32::MIN
        } else {
            acc as i32
        }
    }

    /// Mixes the sounding voices and offers the result to `ring` as a frame
    /// with equal left and right samples; on a full ring buffer the frame is
    /// dropped. Returns whether it was kept.
    pub fn tick(&self, samples: &Vec<i32>, ring: &mut AudioRingBuffer) -> (r: bool)
        requires
            self.wf(),
            samples@.len() == VOICE_COUNT,
            old(ring).wf(),
        ensures
            final(ring).wf(),
            ({
                let m = saturate_i32(sounding_sum(self.voices(), samples@, VOICE_COUNT as int));
                final(ring).frames() == after_push(old(ring).frames(), (m, m))
            }),
            r == (old(ring).frames().len() < crate::AUDIO_BUFFER_SIZE),
            final(ring).underrun_count() == old(ring).underrun_count(),
    {
        let m = self.mix(samples);
        let frame: Frame = (m, m);
        ring.push(frame)
    }
}

/// Note-ons with distinct notes on an idle pool: the first `VOICE_COUNT`
/// notes each take a voice, and the next one finds none and is not sounded.
pub proof fn lemma_note_beyond_pool_dropped(s: Seq<Note>)
    requires
        s.len() == VOICE_COUNT + 1,
        forall|i: int, j: int| 0 <= i < j < s.len() ==> s[i] != s[j],
    ensures
        forall|j: int| 0 <= j < VOICE_COUNT ==> after_notes_on(idle_voices(), s).contains(Some(s[j])),
        !after_notes_on(idle_voices(), s).contains(Some(s[VOICE_COUNT as int])),
{
    lemma_fill_pool(s, VOICE_COUNT as int);
    let full = after_notes_on(idle_voices(), s.take(VOICE_COUNT as int));
    lemma_first_index_is(full, None, VOICE_COUNT as int);
    assert(s.drop_last() =~= s.take(VOICE_COUNT as int));
    let v = after_notes_on(idle_voices(), s);
    assert(v == full);
    assert forall|j: int| 0 <= j < VOICE_COUNT implies v.contains(Some(s[j])) by {
        assert(v[j] == Some(s[j]));
    }
    if v.contains(Some(s[VOICE_COUNT as int])) {
        let k = choose|k: int| 0 <= k < v.len() && v[k] == Some(s[VOICE_COUNT as int]);
        assert(v[k] == Some(s[k]));
    }
}

/// After the first `m` note-ons on an idle pool, voice `j` sounds note `j`
/// for `j < m` and the rest are idle.
proof fn lemma_fill_pool(s: Seq<Note>, m: int)
    requires
        0 <= m <= VOICE_COUNT,
        m <= s.len(),
    ensures
        after_notes_on(idle_voices(), s.take(m)) =~= Seq::new(
            VOICE_COUNT as nat,
            |j: int| if j < m { Some(s[j]) } else { None },
        ),
    decreases m,
{
    if m == 0 {
        assert(s.take(0) =~= Seq::<Note>::empty());
    } else {
        lemma_fill_pool(s, m - 1);
        let prev = after_notes_on(idle_voices(), s.take(m - 1));
        assert(s.take(m).drop_last() =~= s.take(m - 1));
        lemma_first_index_is(prev, None, m - 1);
    }
}

/// A note-on followed by a note-off of the same note, not sounding before
/// and with a voice idle, restores the pool, so a second note-on takes the
/// same voice as the first.
pub proof fn lemma_note_on_off_restores(v: Seq<Option<Note>>, n: Note)
    requires
        v.contains(None),
        !v.contains(Some(n)),
    ensures
        after_note_off(after_note_on(v, n), n) == v,
        first_index(after_note_off(after_note_on(v, n), n), None) == first_index(v, None),
{
    lemma_first_from(v, 0, None);
    let i = first_index(v, None);
    let w = after_note_on(v, n);
    assert(i < v.len()) by {
        if i >= v.len() {
            let k = choose|k: int| 0 <= k < v.len() && v[k] == None::<Note>;
            assert(v[k] != None::<Note>);
        }
    }
    assert forall|j: int| 0 <= j < i implies w[j] != Some(n) by {
        assert(w[j] == v[j]);
    }
    lemma_first_index_is(w, Some(n), i);
    assert(w.update(i, None) =~= v);
}

} // verus!
