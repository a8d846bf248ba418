use vstd::prelude::*;

verus! {

/// Frame-rate meter: remembers when the last frame was drawn.
pub struct FPS {
    last_millis: u32,
}

impl FPS {
    /// Time of the last frame, in milliseconds.
    pub closed spec fn last(&self) -> u32 {
        self.last_millis
    }

    /// A meter with no frame drawn yet.
    pub fn new() -> (r: FPS)
        ensures
            r.last() == 0,
    {
        FPS { last_millis: 0 }
    }

    /// Records a frame at `now` and returns the milliseconds since the
    /// previous one, on a wrapping millisecond clock.
    pub fn frame_interval(&mut self, now: u32) -> (r: u32)
        ensures
            final(self).last() == now,
            r == (now as int - old(self).last() as int) % 0x1_0000_0000,
    {
        let r = if now >= self.last_millis {
            now - self.last_millis
        } else {
            ((now as u64 + 0x1_0000_0000) - self.last_millis as u64) as u32
        };
        self.last_millis = now;
        r
    }
}

} // verus!
