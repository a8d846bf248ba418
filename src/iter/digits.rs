//! Digit-wise comparison of two numbers, used to turn a change between two
//! bitmasks into per-digit edges.
use vstd::prelude::*;
use vstd::arithmetic::power::{pow, lemma_pow_positive};
use vstd::arithmetic::div_mod::lemma_div_denominator;

verus! {

/// Number of digits compared: one per bit of a `u16`.
pub const DIGIT_COUNT: usize = 16;

/// A change of a binary signal.
#[derive(Clone, Copy, Debug, PartialEq, Eq, Structural)]
pub enum Edge {
    Rising,
    Falling,
}

/// Whether bit `i` of `x` is set.
pub open spec fn bit_set(x: u16, i: u16) -> bool {
    (x >> i) & 1u16 == 1u16
}

/// Digit `i` of `x` in base `b`, counting from the least significant one.
pub open spec fn digit(x: u16, b: u16, i: nat) -> int {
    (x as int / pow(b as int, i)) % (b as int)
}

/// The edge between an old and a new digit: 0 to 1 rises, 1 to 0 falls,
/// anything else is no edge.
pub open spec fn digit_edge(old_digit: int, new_digit: int) -> Option<Edge> {
    if old_digit == 0 && new_digit == 1 {
        Some(Edge::Rising)
    } else if old_digit == 1 && new_digit == 0 {
        Some(Edge::Falling)
    } else {
        None
    }
}

/// The digits of a number in a base, least significant first, ending at the
/// last nonzero digit.
pub struct DigitsIter {
    n: u16,
    base: u16,
}

impl DigitsIter {
    /// The part of the number not yet enumerated.
    pub closed spec fn rest(&self) -> u16 {
        self.n
    }

    /// The base.
    pub closed spec fn base(&self) -> u16 {
        self.base
    }

    /// Enumerates the digits of `n` in base `base`.
    pub fn new(n: u16, base: u16) -> (r: DigitsIter)
        requires
            base > 0,
        ensures
            r.rest() == n,
            r.base() == base,
    {
        DigitsIter { n, base }
    }

    /// The next digit, or `None` once the remaining number is zero.
    pub fn next(&mut self) -> (r: Option<u16>)
        requires
            old(self).base() > 0,
        ensures
            final(self).base() == old(self).base(),
            old(self).rest() == 0 ==> r is None && final(self).rest() == 0,
            old(self).rest() != 0 ==> r == Some((old(self).rest() % old(self).base()) as u16)
                && final(self).rest() == old(self).rest() / old(self).base(),
    {
        if self.n == 0 {
            None
        } else {
            let d = self.n % self.base;
            self.n = self.n / self.base;
            Some(d)
        }
    }
}

/// Compares `old` and `new` digit by digit in base `base`, least significant
/// digit first, over the 16 digit positions of a `u16`.
pub fn digit_edges(old: u16, new: u16, base: u16) -> (r: Vec<Option<Edge>>)
    requires
        base > 0,
    ensures
        r@.len() == DIGIT_COUNT,
        forall|i: int|
            0 <= i < DIGIT_COUNT ==> #[trigger] r@[i] == digit_edge(
                digit(old, base, i as nat),
                digit(new, base, i as nat),
            ),
{
    let mut a = old;
    let mut c = new;
    let mut r: Vec<Option<Edge>> = Vec::new();
    let mut i: usize = 0;
    proof {
        reveal(pow);
        assert(pow(base as int, 0) == 1);
    }
    while i < DIGIT_COUNT
        invariant
            base > 0,
            i <= DIGIT_COUNT,
            r@.len() == i,
            a as int == old as int / pow(base as int, i as nat),
            c as int == new as int / pow(base as int, i as nat),
            forall|j: int|
                0 <= j < i ==> #[trigger] r@[j] == digit_edge(
                    digit(old, base, j as nat),
                    digit(new, base, j as nat),
                ),
        decreases DIGIT_COUNT - i,
    {
        let da = a % base;
        let dc = c % base;
        let e = if da == 0 && dc == 1 {
            Some(Edge::Rising)
        } else if da == 1 && dc == 0 {
            Some(Edge::Falling)
        } else {
            None
        };
        proof {
            reveal(pow);
            lemma_pow_positive(base as int, i as nat);
            lemma_div_denominator(old as int, pow(base as int, i as nat), base as int);
            lemma_div_denominator(new as int, pow(base as int, i as nat), base as int);
            assert(pow(base as int, (i + 1) as nat) == base * pow(base as int, i as nat));
            assert(pow(base as int, i as nat) * base == base * pow(base as int, i as nat))
                by (nonlinear_arith);
        }
        r.push(e);
        a = a / base;
        c = c / base;
        i = i + 1;
    }
    r
}

} // verus!
