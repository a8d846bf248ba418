//! Debounced edge detection over a stream of raw boolean samples.
use vstd::prelude::*;
use crate::iter::digits::Edge;

verus! {

/// True when the last `k` entries of `h` all equal `v`.
pub open spec fn stable_tail(h: Seq<bool>, k: nat, v: bool) -> bool {
    &&& k <= h.len()
    &&& forall|j: int| h.len() - k <= j < h.len() ==> h[j] == v
}

/// The edge that confirming the level `v` produces.
pub open spec fn edge_to(v: bool) -> Edge {
    if v {
        Edge::Rising
    } else {
        Edge::Falling
    }
}

/// Debouncer confirming a new level after `depth` consecutive equal samples.
///
/// Equivalent to a `depth`-bit shift register of the most recent samples: a
/// level is confirmed when the register holds only that level, and an edge is
/// reported when the confirmed level changes. The register is kept as the
/// length of the current run of equal samples, which is all that the
/// all-ones / all-zeros test reads.
#[derive(Clone, Copy)]
pub struct Debouncer {
    depth: u8,
    last: bool,
    run: u8,
    confirmed: bool,
    samples: Ghost<Seq<bool>>,
}

impl Debouncer {
    /// Every sample seen so far, oldest first, preceded by `depth` copies of
    /// the initial level.
    pub closed spec fn samples(&self) -> Seq<bool> {
        self.samples@
    }

    /// Number of equal consecutive samples needed to confirm a level.
    pub closed spec fn depth(&self) -> nat {
        self.depth as nat
    }

    /// The level last confirmed.
    pub closed spec fn confirmed(&self) -> bool {
        self.confirmed
    }

    /// The edge that feeding `raw` reports: one towards `raw` when the last
    /// `depth` samples, `raw` included, all equal `raw` and `raw` differs
    /// from the confirmed level.
    pub open spec fn edge_after(&self, raw: bool) -> Option<Edge> {
        if stable_tail(self.samples().push(raw), self.depth(), raw) && raw != self.confirmed() {
            Some(edge_to(raw))
        } else {
            None
        }
    }

    /// `next` is this debouncer after feeding `raw`.
    pub open spec fn steps_to(&self, next: Debouncer, raw: bool) -> bool {
        &&& next.wf()
        &&& next.depth() == self.depth()
        &&& next.samples() == self.samples().push(raw)
        &&& next.confirmed() == (if self.edge_after(raw) is Some {
            raw
        } else {
            self.confirmed()
        })
    }

    pub closed spec fn wf(&self) -> bool {
        let h = self.samples@;
        &&& 1 <= self.depth <= 8
        &&& 1 <= self.run <= self.depth
        &&& h.len() >= self.depth
        &&& h.last() == self.last
        &&& stable_tail(h, self.run as nat, self.last)
        &&& self.run < self.depth ==> h[h.len() - self.run - 1] != self.last
    }

    /// A debouncer whose register is filled with `initial`, which is also the
    /// confirmed level.
    pub fn new(depth: u8, initial: bool) -> (r: Debouncer)
        requires
            1 <= depth <= 8,
        ensures
            r.wf(),
            r.depth() == depth,
            r.confirmed() == initial,
            r.samples() == Seq::new(depth as nat, |i: int| initial),
    {
        Debouncer {
            depth,
            last: initial,
            run: depth,
            confirmed: initial,
            samples: Ghost(Seq::new(depth as nat, |i: int| initial)),
        }
    }

    /// Feeds one raw sample. An edge towards `raw` is reported exactly when
    /// the last `depth` samples, this one included, all equal `raw` and `raw`
    /// differs from the level confirmed before.
    pub fn update(&mut self, raw: bool) -> (r: Option<Edge>)
        requires
            old(self).wf(),
        ensures
            old(self).steps_to(*final(self), raw),
            r == old(self).edge_after(raw),
    {
        let ghost h = self.samples@;
        let ghost h2 = h.push(raw);
        if raw == self.last {
            if self.run < self.depth {
                self.run = self.run + 1;
            }
        } else {
            self.last = raw;
            self.run = 1;
        }
        self.samples = Ghost(h2);
        proof {
            assert(h2.last() == raw);
            if self.run == self.depth {
                assert(stable_tail(h2, self.depth as nat, raw));
            } else {
                assert(h2[h2.len() - self.run - 1] != raw);
                assert(!stable_tail(h2, self.depth as nat, raw));
            }
        }
        if self.run == self.depth && raw != self.confirmed {
            self.confirmed = raw;
            if raw {
                Some(Edge::Rising)
            } else {
                Some(Edge::Falling)
            }
        } else {
            None
        }
    }

    /// Whether the confirmed level is high.
    pub fn is_high(&self) -> (r: bool)
        ensures
            r == self.confirmed(),
    {
        self.confirmed
    }
}

/// With a depth of two or more, a sample that differs from the one before it
/// never confirms a level: a single-sample flip produces no edge.
pub proof fn lemma_flip_is_never_an_edge(d: Debouncer, raw: bool)
    requires
        d.wf(),
        d.depth() >= 2,
        d.samples().last() != raw,
    ensures
        !stable_tail(d.samples().push(raw), d.depth(), raw),
{
    let h = d.samples().push(raw);
    assert(h[h.len() - 2] == d.samples().last());
}

} // verus!
