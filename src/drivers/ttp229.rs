//! 16-channel capacitive touch keypad read over a serial clock/data pair,
//! with each channel debounced on its own.
use vstd::prelude::*;
use crate::debounce::Debouncer;
use crate::iter::digits::{bit_set, digit_edges, digit, digit_edge, DigitsIter, Edge, DIGIT_COUNT};

verus! {

/// Clock half-period in microseconds before a frequency is set.
pub const DEFAULT_DELAY_US: u32 = 1_000;

/// Highest clock frequency in hertz.
pub const MAX_FREQ: u32 = 400_000;

/// Number of channels.
pub const KEY_COUNT: usize = 16;

/// Samples a channel must hold before its new level is confirmed.
pub const KEY_DEBOUNCE_DEPTH: u8 = 3;

/// Touched channels, bit `i` for channel `i`.
#[derive(Clone, Copy, Debug, PartialEq, Eq, Structural)]
pub struct Keys(pub u16);

/// `freq` held to at most `MAX_FREQ`.
pub open spec fn min_freq(freq: u32) -> u32 {
    if freq < MAX_FREQ {
        freq
    } else {
        MAX_FREQ
    }
}

/// Active channel indices among the first `n`, in increasing order.
pub open spec fn active_upto(x: u16, n: int) -> Seq<usize>
    decreases n,
{
    if n <= 0 {
        Seq::empty()
    } else if bit_set(x, (n - 1) as u16) {
        active_upto(x, n - 1).push((n - 1) as usize)
    } else {
        active_upto(x, n - 1)
    }
}

proof fn lemma_set_bit(s: u16, b: u16, i: u16, j: u16)
    requires
        i < 16,
        j < 16,
        b <= 1,
    ensures
        (s >> j) & 1u16 != 1u16 ==> (s >> j) & 1u16 == 0u16,
        j != i ==> ((s | (b << i)) >> j) & 1u16 == (s >> j) & 1u16,
        j == i && (s >> j) & 1u16 == 0u16 ==> ((s | (b << i)) >> j) & 1u16 == b,
{
    assert((s >> j) & 1u16 != 1u16 ==> (s >> j) & 1u16 == 0u16) by (bit_vector);
    assert(j != i ==> ((s | (b << i)) >> j) & 1u16 == (s >> j) & 1u16) by (bit_vector)
        requires
            i < 16,
            j < 16,
            b <= 1,
    ;
    assert(j == i && (s >> j) & 1u16 == 0u16 ==> ((s | (b << i)) >> j) & 1u16 == b)
        by (bit_vector)
        requires
            i < 16,
            j < 16,
            b <= 1,
    ;
}

impl Keys {
    /// No channel touched.
    pub fn empty() -> (r: Keys)
        ensures
            r.0 == 0,
    {
        Keys(0)
    }

    /// The mask whose bit `i` is `levels[i]`.
    pub fn from_levels(levels: &Vec<bool>) -> (r: Keys)
        requires
            levels@.len() == KEY_COUNT,
        ensures
            forall|i: u16| i < KEY_COUNT ==> bit_set(r.0, i) == levels@[i as int],
    {
        let mut s: u16 = 0;
        let mut i: u16 = 0;
        assert forall|j: u16| j < 16 implies !bit_set(0u16, j) by {
            assert((0u16 >> j) & 1u16 == 0u16) by (bit_vector);
        }
        while i < 16
            invariant
                i <= 16,
                levels@.len() == KEY_COUNT,
                forall|j: u16| j < i ==> bit_set(s, j) == levels@[j as int],
                forall|j: u16| i <= j < 16 ==> !bit_set(s, j),
            decreases 16 - i,
        {
            let b: u16 = if levels[i as usize] {
                1
            } else {
                0
            };
            let ghost s0 = s;
            s = s | (b << i);
            assert forall|j: u16| j < 16 implies bit_set(s, j) == (if j == i {
                b == 1
            } else {
                bit_set(s0, j)
            }) by {
                if j == i {
                    assert(!bit_set(s0, j));
                }
                lemma_set_bit(s0, b, i, j);
            }
            i = i + 1;
        }
        Keys(s)
    }

    /// Whether channel `index` is touched.
    pub fn is_active(&self, index: u16) -> (r: bool)
        requires
            index <= 15,
        ensures
            r == bit_set(self.0, index),
    {
        (self.0 >> index) & 1 == 1
    }

    /// Whether no channel is touched.
    pub fn is_empty(&self) -> (r: bool)
        ensures
            r == (self.0 == 0),
    {
        self.0 == 0
    }

    /// Indices of the touched channels, in increasing order.
    pub fn iter_active(&self) -> (r: Vec<usize>)
        ensures
            r@ == active_upto(self.0, KEY_COUNT as int),
    {
        let mut r: Vec<usize> = Vec::new();
        let mut i: u16 = 0;
        while i < 16
            invariant
                i <= 16,
                r@ == active_upto(self.0, i as int),
            decreases 16 - i,
        {
            if (self.0 >> i) & 1 == 1 {
                r.push(i as usize);
            }
            i = i + 1;
        }
        r
    }

    /// Whether channel `index` is touched, or `None` past the last channel.
    pub fn get(&self, index: u16) -> (r: Option<bool>)
        ensures
            index > 15 ==> r is None,
            index <= 15 ==> r == Some(bit_set(self.0, index)),
    {
        if index > 15 {
            None
        } else {
            Some((self.0 >> index) & 1 == 1)
        }
    }

    /// The digits of the mask in base `base`.
    pub fn digits(self, base: u16) -> (r: DigitsIter)
        requires
            base > 0,
        ensures
            r.rest() == self.0,
            r.base() == base,
    {
        DigitsIter::new(self.0, base)
    }

    /// Per-channel edges from this mask to `other`, compared digit by digit
    /// in base `base`, channel 0 first.
    pub fn edges(self, other: Keys, base: u16) -> (r: Vec<Option<Edge>>)
        requires
            base > 0,
        ensures
            r@.len() == DIGIT_COUNT,
            forall|i: int|
                0 <= i < DIGIT_COUNT ==> #[trigger] r@[i] == digit_edge(
                    digit(self.0, base, i as nat),
                    digit(other.0, base, i as nat),
                ),
    {
        digit_edges(self.0, other.0, base)
    }
}

/// The first `n` channels of a scan of `x` have been fed: `ds` are the
/// debouncers after `d0` and `rr` the edges reported.
pub open spec fn scanned(
    d0: Seq<Debouncer>,
    ds: Seq<Debouncer>,
    rr: Seq<Option<Edge>>,
    x: u16,
    n: int,
) -> bool {
    forall|j: int|
        0 <= j < n ==> d0[j].steps_to(#[trigger] ds[j], bit_set(x, j as u16)) && rr[j]
            == d0[j].edge_after(bit_set(x, j as u16))
}

/// Keypad state: clock timing and one debouncer per channel. Reading the
/// pins is left to the caller, which hands each scan over as a `Keys` mask.
pub struct TTP229 {
    delay_us: u32,
    debouncers: Vec<Debouncer>,
}

impl TTP229 {
    /// The debouncer of each channel.
    pub closed spec fn debouncers(&self) -> Seq<Debouncer> {
        self.debouncers@
    }

    /// Clock half-period in microseconds.
    pub closed spec fn delay(&self) -> u32 {
        self.delay_us
    }

    pub closed spec fn wf(&self) -> bool {
        &&& self.debouncers@.len() == KEY_COUNT
        &&& forall|i: int| 0 <= i < KEY_COUNT ==> (#[trigger] self.debouncers@[i]).wf()
    }

    /// All channels released, at the default clock timing.
    pub fn new() -> (r: TTP229)
        ensures
            r.wf(),
            r.delay() == DEFAULT_DELAY_US,
            forall|i: int|
                0 <= i < KEY_COUNT ==> (#[trigger] r.debouncers()[i]).depth() == KEY_DEBOUNCE_DEPTH
                    && r.debouncers()[i].confirmed() == false,
    {
        let mut debouncers: Vec<Debouncer> = Vec::new();
        let mut i: usize = 0;
        while i < KEY_COUNT
            invariant
                i <= KEY_COUNT,
                debouncers@.len() == i,
                forall|j: int|
                    0 <= j < i ==> (#[trigger] debouncers@[j]).wf() && debouncers@[j].depth()
                        == KEY_DEBOUNCE_DEPTH && debouncers@[j].confirmed() == false,
            decreases KEY_COUNT - i,
        {
            debouncers.push(Debouncer::new(KEY_DEBOUNCE_DEPTH, false));
            i = i + 1;
        }
        TTP229 { delay_us: DEFAULT_DELAY_US, debouncers }
    }

    /// Sets the clock frequency, at most `MAX_FREQ`: the half-period becomes
    /// one second divided by the frequency, rounded up to a microsecond.
    pub fn freq(self, freq: u32) -> (r: TTP229)
        requires
            self.wf(),
            freq > 0,
        ensures
            r.wf(),
            r.debouncers() == self.debouncers(),
            r.delay() == 999_999int / min_freq(freq) as int + 1,
    {
        let f = if freq < MAX_FREQ {
            freq
        } else {
            MAX_FREQ
        };
        TTP229 { delay_us: (1_000_000 - 1) / f + 1, debouncers: self.debouncers }
    }

    /// Clock half-period in microseconds.
    pub fn delay_us(&self) -> (r: u32)
        ensures
            r == self.delay(),
    {
        self.delay_us
    }

    /// Feeds one scan to the channel debouncers and returns each channel's
    /// confirmed edge, channel 0 first.
    pub fn edges(&mut self, states: Keys) -> (r: Vec<Option<Edge>>)
        requires
            old(self).wf(),
        ensures
            final(self).wf(),
            final(self).delay() == old(self).delay(),
            r@.len() == KEY_COUNT,
            forall|i: int|
                0 <= i < KEY_COUNT ==> old(self).debouncers()[i].steps_to(
                    #[trigger] final(self).debouncers()[i],
                    bit_set(states.0, i as u16),
                ) && r@[i] == old(self).debouncers()[i].edge_after(bit_set(states.0, i as u16)),
    {
        let ghost d0 = self.debouncers@;
        let mut r: Vec<Option<Edge>> = Vec::new();
        let mut i: usize = 0;
        while i < KEY_COUNT
            invariant
                i <= KEY_COUNT,
                self.debouncers@.len() == KEY_COUNT,
                d0.len() == KEY_COUNT,
                forall|j: int| 0 <= j < KEY_COUNT ==> (#[trigger] d0[j]).wf(),
                r@.len() == i,
                self.delay_us == old(self).delay_us,
                forall|j: int| i <= j < KEY_COUNT ==> #[trigger] self.debouncers@[j] == d0[j],
                scanned(d0, self.debouncers@, r@, states.0, i as int),
            decreases KEY_COUNT - i,
        {
            let level = (states.0 >> (i as u16)) & 1 == 1;
            let mut d = self.debouncers[i];
            let e = d.update(level);
            let ghost before = self.debouncers@;
            let ghost before_r = r@;
            self.debouncers.set(i, d);
            r.push(e);
            assert(self.debouncers@[i as int] == d);
            assert(r@[i as int] == e);
            assert(level == bit_set(states.0, i as u16));
            assert(d0[i as int].steps_to(self.debouncers@[i as int], bit_set(states.0, i as u16)));
            assert(r@[i as int] == d0[i as int].edge_after(bit_set(states.0, i as u16)));
            assert forall|j: int| 0 <= j < i + 1 implies d0[j].steps_to(
                #[trigger] self.debouncers@[j],
                bit_set(states.0, j as u16),
            ) && r@[j] == d0[j].edge_after(bit_set(states.0, j as u16)) by {
                if j < i {
                    assert(self.debouncers@[j] == before[j]);
                    assert(r@[j] == before_r[j]);
                }
            }
            assert(scanned(d0, self.debouncers@, r@, states.0, i + 1));
            i = i + 1;
        }
        r
    }
}

} // verus!
