//! Two-pin rotary encoders decoded in software. The quadrature state machine
//! that samples the pins reports one rotation step per update; these types
//! turn those steps into per-tick encoder results.
use vstd::prelude::*;

verus! {

/// Least time in milliseconds between two results of an accelerated encoder.
pub const UPDATE_FREQUENCY: u32 = 10;

/// Period in milliseconds of one velocity decay step.
pub const VELOCITY_DEC_FREQUENCY: u32 = 10;

/// Full-scale velocity: velocities are given in thousandths.
pub const VELOCITY_SCALE: u32 = 1000;

/// Encoder result of one control tick.
#[derive(Clone, Copy, Debug, PartialEq, Eq, Structural)]
pub enum EncState {
    Unchanged,
    Changed(i32),
}

/// Accelerated encoder result: detent steps and velocity in thousandths.
#[derive(Clone, Copy, Debug, PartialEq, Eq, Structural)]
pub enum AccelEncState {
    Unchanged,
    Changed(i32, u32),
}

/// Rotation step detected by the quadrature state machine.
#[derive(Clone, Copy, Debug, PartialEq, Eq, Structural)]
pub enum Rotation {
    Still,
    Clockwise,
    Anticlockwise,
}

/// Signed step of a rotation.
pub open spec fn rotation_step(r: Rotation) -> int {
    match r {
        Rotation::Still => 0,
        Rotation::Clockwise => 1,
        Rotation::Anticlockwise => -1,
    }
}

/// `x` held to the range of `i32`.
pub open spec fn saturate(x: int) -> int {
    if x > i32::MAX {
        i32::MAX as int
    } else if x < i32::MIN {
        i32::MIN as int
    } else {
        x
    }
}

/// Milliseconds from `then` to `now` on a wrapping millisecond clock.
pub open spec fn elapsed(now: u32, then: u32) -> int {
    (now as int - then as int) % 0x1_0000_0000
}

fn elapsed_ms(now: u32, then: u32) -> (r: u32)
    ensures
        r == elapsed(now, then),
{
    if now >= then {
        now - then
    } else {
        ((now as u64 + 0x1_0000_0000) - then as u64) as u32
    }
}

/// Standard decoding: each tick reports the step detected since the last.
#[derive(Clone, Copy, Debug)]
pub struct Standard;

/// Accelerated decoding: steps are accumulated and reported with the current
/// velocity at most once per `UPDATE_FREQUENCY` milliseconds.
#[derive(Clone, Copy, Debug)]
pub struct Accelerated;

/// Software-decoded encoder state in a decoding mode.
pub struct Enc<Mode> {
    state: i32,
    last_update: u32,
    mode: Mode,
}

impl<Mode> Enc<Mode> {
    /// Steps accumulated and not yet reported.
    pub closed spec fn pending(&self) -> int {
        self.state as int
    }

    /// Time of the last result.
    pub closed spec fn last_update(&self) -> u32 {
        self.last_update
    }
}

impl Enc<Standard> {
    /// An encoder that has not moved.
    pub fn new_standard() -> (r: Enc<Standard>)
        ensures
            r.pending() == 0,
            r.last_update() == 0,
    {
        Enc { state: 0, last_update: 0, mode: Standard }
    }

    /// Reports the detected step; no step is `Unchanged`, never `Changed(0)`.
    pub fn tick(&mut self, rotation: Rotation, now_millis: u32) -> (r: EncState)
        ensures
            final(self).pending() == 0,
            final(self).last_update() == now_millis,
            rotation_step(rotation) == 0 ==> r is Unchanged,
            rotation_step(rotation) != 0 ==> r == EncState::Changed(rotation_step(rotation) as i32),
    {
        self.state = match rotation {
            Rotation::Still => 0,
            Rotation::Clockwise => 1,
            Rotation::Anticlockwise => -1,
        };
        let state = self.state;
        self.state = 0;
        self.last_update = now_millis;
        if state == 0 {
            EncState::Unchanged
        } else {
            EncState::Changed(state)
        }
    }
}

impl Enc<Accelerated> {
    /// An encoder that has not moved.
    pub fn new() -> (r: Enc<Accelerated>)
        ensures
            r.pending() == 0,
            r.last_update() == 0,
    {
        Enc { state: 0, last_update: 0, mode: Accelerated }
    }

    /// Number of velocity decay steps due at `now_millis`: one per
    /// `VELOCITY_DEC_FREQUENCY` milliseconds since the last result.
    pub fn velocity_decays(&self, now_millis: u32) -> (r: u32)
        ensures
            r == elapsed(now_millis, self.last_update()) / VELOCITY_DEC_FREQUENCY as int,
    {
        elapsed_ms(now_millis, self.last_update) / VELOCITY_DEC_FREQUENCY
    }

    /// Adds the detected step. Until more than `UPDATE_FREQUENCY`
    /// milliseconds have passed since the last result nothing is reported and
    /// the steps keep accumulating; after that the accumulated steps are
    /// reported with `velocity` (thousandths) and the count starts again. A
    /// zero net movement is `Unchanged`.
    pub fn tick(&mut self, rotation: Rotation, now_millis: u32, velocity: u32) -> (r: AccelEncState)
        ensures
            ({
                let total = saturate(old(self).pending() + rotation_step(rotation));
                if elapsed(now_millis, old(self).last_update()) <= UPDATE_FREQUENCY {
                    &&& r is Unchanged
                    &&& final(self).pending() == total
                    &&& final(self).last_update() == old(self).last_update()
                } else {
                    &&& final(self).pending() == 0
                    &&& final(self).last_update() == now_millis
                    &&& total == 0 ==> r is Unchanged
                    &&& total != 0 ==> r == AccelEncState::Changed(total as i32, velocity)
                }
            }),
    {
        let elapsed = elapsed_ms(now_millis, self.last_update);
        match rotation {
            Rotation::Still => {},
            Rotation::Clockwise => {
                if self.state < i32::MAX {
                    self.state = self.state + 1;
                }
            },
            Rotation::Anticlockwise => {
                if self.state > i32::MIN {
                    self.state = self.state - 1;
                }
            },
        }
        if elapsed <= UPDATE_FREQUENCY {
            return AccelEncState::Unchanged;
        }
        let state = self.state;
        self.state = 0;
        self.last_update = now_millis;
        if state == 0 {
            AccelEncState::Unchanged
        } else {
            AccelEncState::Changed(state, velocity)
        }
    }
}

} // verus!
