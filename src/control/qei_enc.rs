//! Rotary encoder read through a free-running 16-bit hardware quadrature
//! counter.
use vstd::prelude::*;
use super::enc::EncState;

verus! {

/// Counting direction: `Inverted` corrects an encoder wired the other way.
#[derive(Clone, Copy, Debug, PartialEq, Eq, Structural)]
pub enum Dir {
    Original,
    Inverted,
}

/// +1 or -1 for a direction.
pub open spec fn dir_factor(d: Dir) -> int {
    match d {
        Dir::Original => 1,
        Dir::Inverted => -1,
    }
}

/// The other direction.
pub open spec fn dir_flipped(d: Dir) -> Dir {
    match d {
        Dir::Original => Dir::Inverted,
        Dir::Inverted => Dir::Original,
    }
}

impl Dir {
    /// +1 or -1.
    pub fn factor(&self) -> (r: i32)
        ensures
            r == dir_factor(*self),
    {
        match self {
            Dir::Original => 1,
            Dir::Inverted => -1,
        }
    }

    /// The other direction.
    pub fn inverted(self) -> (r: Dir)
        ensures
            r == dir_flipped(self),
    {
        match self {
            Dir::Original => Dir::Inverted,
            Dir::Inverted => Dir::Original,
        }
    }
}

/// `count - prev` modulo 2^16, read as a signed 16-bit number.
pub open spec fn counter_diff(count: u16, prev: u16) -> int {
    let d = (count as int - prev as int) % 0x10000;
    if d >= 0x8000 {
        d - 0x10000
    } else {
        d
    }
}

/// `x / 2` rounded towards zero.
pub open spec fn half_toward_zero(x: int) -> int {
    if x >= 0 {
        x / 2
    } else {
        -((-x) / 2)
    }
}

/// The tick result for a counter reading: moves of under two counts are
/// jitter within a detent; otherwise half the move, in the set direction.
pub open spec fn qei_result(count: u16, prev: u16, dir: Dir) -> EncState {
    let d = counter_diff(count, prev);
    if -2 < d < 2 {
        EncState::Unchanged
    } else {
        EncState::Changed((half_toward_zero(d) * dir_factor(dir)) as i32)
    }
}

/// `next` is `e` after a tick that read `count`.
pub open spec fn qei_stepped(e: QeiEnc, next: QeiEnc, count: u16) -> bool {
    &&& next.dir() == e.dir()
    &&& next.prev() == (if qei_result(count, e.prev(), e.dir()) is Unchanged {
        e.prev()
    } else {
        count
    })
}

/// Hardware-counter encoder state: the counter value last acted on.
pub struct QeiEnc {
    prev_count: u16,
    dir: Dir,
}

impl QeiEnc {
    /// The counter value last acted on.
    pub closed spec fn prev(&self) -> u16 {
        self.prev_count
    }

    /// The counting direction.
    pub closed spec fn dir(&self) -> Dir {
        self.dir
    }

    /// An encoder whose counter reads `count` now.
    pub fn new(count: u16) -> (r: QeiEnc)
        ensures
            r.prev() == count,
            r.dir() == Dir::Original,
    {
        QeiEnc { prev_count: count, dir: Dir::Original }
    }

    /// The same encoder counting the other way.
    pub fn inverted(self) -> (r: QeiEnc)
        ensures
            r.prev() == self.prev(),
            r.dir() == dir_flipped(self.dir()),
    {
        QeiEnc { prev_count: self.prev_count, dir: self.dir.inverted() }
    }

    /// Reports the movement since the counter value last acted on. A move of
    /// two counts or more is reported and the reading becomes the new
    /// reference; a smaller one is ignored and the reference kept.
    pub fn tick(&mut self, count: u16, _now_millis: u32) -> (r: EncState)
        ensures
            qei_stepped(*old(self), *final(self), count),
            r == qei_result(count, old(self).prev(), old(self).dir()),
    {
        let raw: i32 = count as i32 - self.prev_count as i32;
        let diff: i32 = if raw >= 0x8000 {
            raw - 0x10000
        } else if raw < -0x8000 {
            raw + 0x10000
        } else {
            raw
        };
        assert(diff == counter_diff(count, old(self).prev()));
        if diff >= 2 || diff <= -2 {
            self.prev_count = count;
            let half: i32 = if diff >= 0 {
                diff / 2
            } else {
                -((-diff) / 2)
            };
            EncState::Changed(half * self.dir.factor())
        } else {
            EncState::Unchanged
        }
    }
}

} // verus!
