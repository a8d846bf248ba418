//! Bounded FIFO of stereo frames between the sample producer and the DMA
//! consumer, with underrun accounting and packing into the audio bus layout.
use vstd::prelude::*;
use heapless::Deque;
use crate::AUDIO_BUFFER_SIZE;

verus! {

#[verifier::external_type_specification]
#[verifier::external_body]
#[verifier::reject_recursive_types(T)]
pub struct ExDeque<T, const N: usize>(Deque<T, N>);

/// A stereo frame: left and right sample.
pub type Frame = (i32, i32);

/// The frames a deque holds, front first.
pub uninterp spec fn queued_frames(q: Deque<(i32, i32), 1024>) -> Seq<(i32, i32)>;

/// Relies on heapless::Deque::new: a new deque holds nothing.
#[verifier::external_body]
fn deque_new() -> (q: Deque<(i32, i32), 1024>)
    ensures
        queued_frames(q) == Seq::<(i32, i32)>::empty(),
{
    Deque::new()
}

/// Relies on heapless::Deque::len: the number of items held.
#[verifier::external_body]
fn deque_len(q: &Deque<(i32, i32), 1024>) -> (r: usize)
    ensures
        r == queued_frames(*q).len(),
{
    q.len()
}

/// Relies on heapless::Deque::is_full: whether the deque holds its capacity.
#[verifier::external_body]
fn deque_is_full(q: &Deque<(i32, i32), 1024>) -> (r: bool)
    ensures
        r == (queued_frames(*q).len() >= 1024),
{
    q.is_full()
}

/// Relies on heapless::Deque::push_back: the item goes to the back, or, when
/// the deque is full, the deque is unchanged and the item comes back.
#[verifier::external_body]
fn deque_push_back(q: &mut Deque<(i32, i32), 1024>, f: (i32, i32)) -> (r: Result<(), (i32, i32)>)
    ensures
        queued_frames(*old(q)).len() < 1024 ==> r is Ok && queued_frames(*final(q))
            == queued_frames(*old(q)).push(f),
        queued_frames(*old(q)).len() >= 1024 ==> r is Err && queued_frames(*final(q))
            == queued_frames(*old(q)),
{
    q.push_back(f)
}

/// Relies on heapless::Deque::pop_front: removes and returns the front item,
/// or returns nothing when the deque is empty.
#[verifier::external_body]
fn deque_pop_front(q: &mut Deque<(i32, i32), 1024>) -> (r: Option<(i32, i32)>)
    ensures
        queued_frames(*old(q)).len() == 0 ==> r is None && queued_frames(*final(q))
            == queued_frames(*old(q)),
        queued_frames(*old(q)).len() > 0 ==> r == Some(queued_frames(*old(q))[0])
            && queued_frames(*final(q)) == queued_frames(*old(q)).drop_first(),
{
    q.pop_front()
}

/// Upper 16 bits of a sample's two's-complement representation.
pub open spec fn high_word(x: i32) -> u16 {
    ((x as u32) / 0x10000) as u16
}

/// Lower 16 bits of a sample's two's-complement representation.
pub open spec fn low_word(x: i32) -> u16 {
    ((x as u32) % 0x10000) as u16
}

/// Word `k` (0 to 3) of a frame on the audio bus: left high, left low, right
/// high, right low.
pub open spec fn packed_word(f: Frame, k: int) -> u16 {
    if k == 0 {
        high_word(f.0)
    } else if k == 1 {
        low_word(f.0)
    } else if k == 2 {
        high_word(f.1)
    } else {
        low_word(f.1)
    }
}

/// Underrun counter after one more underrun; it stops at its maximum.
pub open spec fn bumped(c: nat) -> nat {
    if c < u64::MAX {
        c + 1
    } else {
        c
    }
}

/// Buffer content after offering one frame: kept at the back unless the
/// buffer is full.
pub open spec fn after_push(s: Seq<Frame>, f: Frame) -> Seq<Frame> {
    if s.len() < AUDIO_BUFFER_SIZE {
        s.push(f)
    } else {
        s
    }
}

/// Buffer content after offering the frames of `fs` one by one.
pub open spec fn after_pushes(s: Seq<Frame>, fs: Seq<Frame>) -> Seq<Frame>
    decreases fs.len(),
{
    if fs.len() == 0 {
        s
    } else {
        after_pushes(after_push(s, fs[0]), fs.drop_first())
    }
}

/// Offering frames to a buffer keeps the oldest of them up to the capacity
/// and drops the rest: pushing one frame more than the capacity into an
/// empty buffer leaves exactly the first `capacity` frames.
pub proof fn lemma_pushes_keep_oldest(s: Seq<Frame>, fs: Seq<Frame>)
    requires
        s.len() <= AUDIO_BUFFER_SIZE,
    ensures
        after_pushes(s, fs) == (s + fs).take(
            if s.len() + fs.len() < AUDIO_BUFFER_SIZE {
                (s.len() + fs.len()) as int
            } else {
                AUDIO_BUFFER_SIZE as int
            },
        ),
        s.len() == 0 && fs.len() == AUDIO_BUFFER_SIZE + 1 ==> after_pushes(s, fs).len()
            == AUDIO_BUFFER_SIZE,
    decreases fs.len(),
{
    if fs.len() > 0 {
        let s1 = after_push(s, fs[0]);
        lemma_pushes_keep_oldest(s1, fs.drop_first());
        let n = if s.len() + fs.len() < AUDIO_BUFFER_SIZE {
            (s.len() + fs.len()) as int
        } else {
            AUDIO_BUFFER_SIZE as int
        };
        if s.len() < AUDIO_BUFFER_SIZE {
            assert(s1 + fs.drop_first() =~= s + fs);
        } else {
            assert((s1 + fs.drop_first()).take(n) =~= (s + fs).take(n));
        }
    } else {
        assert(s + fs =~= s);
    }
}

/// Splits a sample into its upper and lower 16-bit halves.
pub fn split_sample(x: i32) -> (r: (u16, u16))
    ensures
        r.0 == high_word(x),
        r.1 == low_word(x),
{
    let u = x as u32;
    ((u / 0x10000) as u16, (u % 0x10000) as u16)
}

/// Bounded FIFO of stereo frames with a count of consumer underruns.
pub struct AudioRingBuffer {
    frames: Deque<(i32, i32), 1024>,
    underruns: u64,
}

impl AudioRingBuffer {
    /// The frames held, oldest first.
    pub closed spec fn frames(&self) -> Seq<Frame> {
        queued_frames(self.frames)
    }

    /// Number of underruns counted so far.
    pub closed spec fn underrun_count(&self) -> nat {
        self.underruns as nat
    }

    pub closed spec fn wf(&self) -> bool {
        self.frames().len() <= AUDIO_BUFFER_SIZE
    }

    /// An empty buffer with no underruns counted.
    pub fn new() -> (r: AudioRingBuffer)
        ensures
            r.wf(),
            r.frames() == Seq::<Frame>::empty(),
            r.underrun_count() == 0,
    {
        AudioRingBuffer { frames: deque_new(), underruns: 0 }
    }

    /// The most frames the buffer holds.
    pub fn capacity(&self) -> (r: usize)
        ensures
            r == AUDIO_BUFFER_SIZE,
    {
        AUDIO_BUFFER_SIZE
    }

    /// Number of frames held.
    pub fn len(&self) -> (r: usize)
        ensures
            r == self.frames().len(),
    {
        deque_len(&self.frames)
    }

    /// Whether no frame is held.
    pub fn is_empty(&self) -> (r: bool)
        ensures
            r == (self.frames().len() == 0),
    {
        deque_len(&self.frames) == 0
    }

    /// Whether the buffer holds its capacity.
    pub fn is_full(&self) -> (r: bool)
        requires
            self.wf(),
        ensures
            r == (self.frames().len() == AUDIO_BUFFER_SIZE),
    {
        deque_is_full(&self.frames)
    }

    /// Number of underruns counted so far.
    pub fn underruns(&self) -> (r: u64)
        ensures
            r == self.underrun_count(),
    {
        self.underruns
    }

    /// Appends a frame at the back. On a full buffer the frame is dropped and
    /// the buffer is unchanged; the result says whether the frame was kept.
    pub fn push(&mut self, frame: Frame) -> (r: bool)
        requires
            old(self).wf(),
        ensures
            final(self).wf(),
            r == (old(self).frames().len() < AUDIO_BUFFER_SIZE),
            final(self).frames() == after_push(old(self).frames(), frame),
            final(self).underrun_count() == old(self).underrun_count(),
    {
        let res = deque_push_back(&mut self.frames, frame);
        res.is_ok()
    }

    /// Removes and returns the oldest frame, if any.
    pub fn pop(&mut self) -> (r: Option<Frame>)
        requires
            old(self).wf(),
        ensures
            final(self).wf(),
            old(self).frames().len() == 0 ==> r is None,
            old(self).frames().len() == 0 ==> final(self).frames() == old(self).frames(),
            old(self).frames().len() > 0 ==> r == Some(old(self).frames()[0]),
            old(self).frames().len() > 0 ==> final(self).frames() == old(self).frames().drop_first(),
            final(self).underrun_count() == old(self).underrun_count(),
    {
        deque_pop_front(&mut self.frames)
    }

    /// Drains frames into one half of the hardware buffer, four words per
    /// frame, until the half is full or the ring buffer is empty. Returns the
    /// number of frames written. When the ring buffer runs empty first, one
    /// underrun is counted and the words after the last frame written keep
    /// their previous content.
    pub fn drain_into(&mut self, half: &mut Vec<u16>) -> (r: usize)
        requires
            old(self).wf(),
        ensures
            final(self).wf(),
            r == (if old(self).frames().len() < old(half)@.len() / 4 {
                old(self).frames().len() as int
            } else {
                old(half)@.len() as int / 4
            }),
            final(self).frames() == old(self).frames().subrange(
                r as int,
                old(self).frames().len() as int,
            ),
            final(half)@.len() == old(half)@.len(),
            forall|k: int, j: int|
                0 <= k < r && 0 <= j < 4 ==> #[trigger] final(half)@[4 * k + j] == packed_word(
                    old(self).frames()[k],
                    j,
                ),
            forall|i: int|
                4 * r <= i < old(half)@.len() ==> #[trigger] final(half)@[i] == old(half)@[i],
            final(self).underrun_count() == (if old(self).frames().len() < old(half)@.len() / 4 {
                bumped(old(self).underrun_count())
            } else {
                old(self).underrun_count()
            }),
    {
        let ghost frames0 = self.frames();
        let ghost half0 = half@;
        let len = half.len();
        let mut p: usize = 0;
        let mut k: usize = 0;
        while len - p >= 4 && !self.is_empty()
            invariant
                self.wf(),
                p == 4 * k,
                p <= len,
                len == half@.len(),
                len == half0.len(),
                k <= frames0.len(),
                self.frames() == frames0.subrange(k as int, frames0.len() as int),
                self.underrun_count() == old(self).underrun_count(),
                forall|kk: int, j: int|
                    0 <= kk < k && 0 <= j < 4 ==> #[trigger] half@[4 * kk + j] == packed_word(
                        frames0[kk],
                        j,
                    ),
                forall|i: int| p <= i < len ==> #[trigger] half@[i] == half0[i],
            decreases len - p,
        {
            let ghost before = half@;
            let f = self.pop();
            let f = match f {
                Some(f) => f,
                None => { (0, 0) },
            };
            assert(f == frames0[k as int]);
            let (lh, ll) = split_sample(f.0);
            let (rh, rl) = split_sample(f.1);
            half.set(p, lh);
            half.set(p + 1, ll);
            half.set(p + 2, rh);
            half.set(p + 3, rl);
            assert forall|kk: int, j: int| 0 <= kk < k + 1 && 0 <= j < 4 implies #[trigger] half@[4
                * kk + j] == packed_word(frames0[kk], j) by {
                if kk < k {
                    assert(half@[4 * kk + j] == before[4 * kk + j]);
                }
            }
            p = p + 4;
            k = k + 1;
            assert(self.frames() =~= frames0.subrange(k as int, frames0.len() as int));
        }
        if len - p >= 4 {
            self.underruns = self.underruns.saturating_add(1);
        }
        k
    }
}

} // verus!
