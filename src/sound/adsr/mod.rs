//! Envelope (delay, attack, hold, decay, sustain, release) parameter model
//! and its encoder-driven editing. Amplitudes and curve bends are kept in
//! thousandths, durations in milliseconds, velocities in thousandths of full
//! scale.
pub mod ui;

use vstd::prelude::*;

verus! {

/// Longest stage duration in milliseconds.
pub const MAX_DURATION_MS: u32 = 10_000;

/// Full-scale amplitude.
pub const AMPLITUDE_SCALE: u32 = 1000;

/// Curve bend bound: bends lie in `-CURVE_BEND_SCALE..=CURVE_BEND_SCALE`.
pub const CURVE_BEND_SCALE: i32 = 1000;

/// `x` held to `lo..=hi`.
pub open spec fn clamp(x: int, lo: int, hi: int) -> int {
    if x < lo {
        lo
    } else if x > hi {
        hi
    } else {
        x
    }
}

/// -1, 0 or 1.
pub open spec fn sign(x: int) -> int {
    if x > 0 {
        1
    } else if x < 0 {
        -1
    } else {
        0
    }
}

/// `a / d` rounded towards zero.
pub open spec fn div_toward_zero(a: int, d: int) -> int {
    if a >= 0 {
        a / d
    } else {
        -((-a) / d)
    }
}

/// `a / d` rounded to the nearest integer, halves away from zero.
pub open spec fn div_round(a: int, d: int) -> int {
    if a >= 0 {
        (a + d / 2) / d
    } else {
        -((-a + d / 2) / d)
    }
}

/// Full-velocity edit step for a duration of `ms` milliseconds, by its order
/// of magnitude: 5 below 10 ms, 10 below 100 ms, 25 below 1 s, 250 above.
pub open spec fn duration_step_base(ms: int) -> int {
    if ms < 10 {
        5
    } else if ms < 100 {
        10
    } else if ms < 1000 {
        25
    } else {
        250
    }
}

/// At least one unit in the direction of `offset` when `step` is zero.
pub open spec fn at_least_unit(step: int, offset: int) -> int {
    if step == 0 {
        sign(offset)
    } else {
        step
    }
}

/// Duration after an encoder edit of `offset` detents at `vel` thousandths.
pub open spec fn edited_duration(ms: int, offset: int, vel: int) -> int {
    let step = div_toward_zero(offset * duration_step_base(ms) * vel, 1000);
    clamp(ms + at_least_unit(step, offset), 0, MAX_DURATION_MS as int)
}

/// Amplitude (thousandths) after an encoder edit: the step is
/// `offset * vel * 0.05`, rounded to hundredths.
pub open spec fn edited_amplitude(amp: int, offset: int, vel: int) -> int {
    let hundredths = div_round(offset * vel, 200);
    clamp(amp + 10 * at_least_unit(hundredths, offset), 0, AMPLITUDE_SCALE as int)
}

/// Curve bend (thousandths) after an encoder edit: the step is
/// `offset * vel * 0.1`.
pub open spec fn edited_bend(bend: int, offset: int, vel: int) -> int {
    clamp(bend + div_toward_zero(offset * vel, 10), -CURVE_BEND_SCALE, CURVE_BEND_SCALE as int)
}

/// An encoder offset times a velocity times a small factor fits in `i128`.
proof fn lemma_product_bound(offset: int, vel: int, k: int)
    requires
        -0x8000_0000 <= offset <= 0x7fff_ffff,
        0 <= vel <= 0xffff_ffff,
        1 <= k <= 250,
    ensures
        -0x1_0000_0000_0000_0000_0000 <= offset * k <= 0x1_0000_0000_0000_0000_0000,
        -0x1_0000_0000_0000_0000_0000 <= offset * vel <= 0x1_0000_0000_0000_0000_0000,
        -0x1_0000_0000_0000_0000_0000 <= offset * k * vel <= 0x1_0000_0000_0000_0000_0000,
{
    assert(-0x8000_0000 * 250 <= offset * k <= 0x8000_0000 * 250) by (nonlinear_arith)
        requires
            -0x8000_0000 <= offset <= 0x7fff_ffff,
            1 <= k <= 250,
    ;
    assert(-0x8000_0000 * 0x1_0000_0000 <= offset * vel <= 0x8000_0000 * 0x1_0000_0000)
        by (nonlinear_arith)
        requires
            -0x8000_0000 <= offset <= 0x7fff_ffff,
            0 <= vel <= 0xffff_ffff,
    ;
    assert(-0x8000_0000 * 250 * 0x1_0000_0000 <= (offset * k) * vel <= 0x8000_0000 * 250
        * 0x1_0000_0000) by (nonlinear_arith)
        requires
            -0x8000_0000 * 250 <= offset * k <= 0x8000_0000 * 250,
            0 <= vel <= 0xffff_ffff,
    ;
}

/// `a / d` rounded towards zero, for a positive `d`.
fn div_toward_zero_exec(a: i128, d: i128) -> (r: i128)
    requires
        d > 0,
        a > i128::MIN,
    ensures
        r == div_toward_zero(a as int, d as int),
{
    if a >= 0 {
        a / d
    } else {
        -((-a) / d)
    }
}

/// `x` held to `lo..=hi`, for `lo <= hi`.
fn clamp_exec(x: i128, lo: i128, hi: i128) -> (r: i128)
    requires
        lo <= hi,
    ensures
        r == clamp(x as int, lo as int, hi as int),
{
    if x < lo {
        lo
    } else if x > hi {
        hi
    } else {
        x
    }
}

fn sign_exec(x: i32) -> (r: i128)
    ensures
        r == sign(x as int),
{
    if x > 0 {
        1
    } else if x < 0 {
        -1
    } else {
        0
    }
}

/// Sustain level, in thousandths of full scale.
#[derive(Clone, Copy, Debug, PartialEq, Eq, Structural)]
pub struct AdsrAmplitude(pub u32);

impl AdsrAmplitude {
    /// Moves the level by `offset` detents at velocity `vel` (thousandths):
    /// at most 5% per detent at full velocity, rounded to whole percent and
    /// at least 1% in the direction turned, held to `0..=AMPLITUDE_SCALE`.
    pub fn edit_by_encoder(&mut self, offset: i32, vel: u32)
        ensures
            final(self).0 == edited_amplitude(old(self).0 as int, offset as int, vel as int),
    {
        proof {
            lemma_product_bound(offset as int, vel as int, 1);
        }
        let a: i128 = offset as i128 * vel as i128;
        let hundredths: i128 = if a >= 0 {
            (a + 100) / 200
        } else {
            -((-a + 100) / 200)
        };
        let step: i128 = if hundredths == 0 {
            sign_exec(offset)
        } else {
            hundredths
        };
        let v = clamp_exec(self.0 as i128 + 10 * step, 0, AMPLITUDE_SCALE as i128);
        self.0 = v as u32;
    }
}

/// Stage duration in milliseconds.
#[derive(Clone, Copy, Debug, PartialEq, Eq, Structural)]
pub struct AdsrDuration(pub u32);

impl AdsrDuration {
    /// Moves the duration by `offset` detents at velocity `vel`
    /// (thousandths). The full-velocity step grows with the duration's order
    /// of magnitude; a step that truncates to zero becomes one millisecond in
    /// the direction turned; the result is held to `0..=MAX_DURATION_MS`.
    /// Sustain has no duration: editing it changes nothing.
    pub fn edit_by_encoder(&mut self, offset: i32, vel: u32, stage: AdsrStage)
        ensures
            stage == AdsrStage::Sustain ==> *final(self) == *old(self),
            stage != AdsrStage::Sustain ==> final(self).0 == edited_duration(
                old(self).0 as int,
                offset as int,
                vel as int,
            ),
    {
        if let AdsrStage::Sustain = stage {
            return;
        }
        let current = self.0;
        let base: i128 = if current < 10 {
            5
        } else if current < 100 {
            10
        } else if current < 1000 {
            25
        } else {
            250
        };
        proof {
            lemma_product_bound(offset as int, vel as int, base as int);
        }
        let a: i128 = offset as i128 * base * vel as i128;
        let scaled = div_toward_zero_exec(a, 1000);
        let step: i128 = if scaled == 0 {
            sign_exec(offset)
        } else {
            scaled
        };
        let v = clamp_exec(current as i128 + step, 0, MAX_DURATION_MS as i128);
        self.0 = v as u32;
    }
}

/// Curve bend of a ramp, in thousandths: negative bends one way, positive
/// the other, zero is linear.
#[derive(Clone, Copy, Debug, PartialEq, Eq, Structural)]
pub struct AdsrCurveBend(i32);

impl AdsrCurveBend {
    /// The bend in thousandths.
    pub closed spec fn value(&self) -> int {
        self.0 as int
    }

    /// A bend of `bend` thousandths.
    pub fn new(bend: i32) -> (r: AdsrCurveBend)
        requires
            -CURVE_BEND_SCALE <= bend <= CURVE_BEND_SCALE,
        ensures
            r.value() == bend,
    {
        AdsrCurveBend(bend)
    }

    /// The bend in thousandths.
    pub fn get(&self) -> (r: i32)
        ensures
            r == self.value(),
    {
        self.0
    }

    /// Moves the bend by `offset` detents at velocity `vel` (thousandths),
    /// at most 0.1 per detent, held to the bend range.
    pub fn edit_by_encoder(&mut self, offset: i32, vel: u32)
        ensures
            final(self).value() == edited_bend(old(self).value(), offset as int, vel as int),
    {
        proof {
            lemma_product_bound(offset as int, vel as int, 1);
        }
        let a: i128 = offset as i128 * vel as i128;
        let step = div_toward_zero_exec(a, 10);
        let v = clamp_exec(self.0 as i128 + step, -CURVE_BEND_SCALE as i128, CURVE_BEND_SCALE as i128);
        self.0 = v as i32;
    }
}

/// A ramp: its duration and curve bend.
#[derive(Clone, Copy, Debug, PartialEq, Eq, Structural)]
pub struct DurationSlope {
    pub duration: AdsrDuration,
    pub bend: AdsrCurveBend,
}

/// An envelope stage.
#[derive(Clone, Copy, Debug, PartialEq, Eq, Structural)]
pub enum AdsrStage {
    Delay,
    Attack,
    Hold,
    Decay,
    Sustain,
    Release,
}

/// Position of a stage in the envelope, from 0 (delay) to 5 (release).
pub open spec fn stage_index(s: AdsrStage) -> int {
    match s {
        AdsrStage::Delay => 0,
        AdsrStage::Attack => 1,
        AdsrStage::Hold => 2,
        AdsrStage::Decay => 3,
        AdsrStage::Sustain => 4,
        AdsrStage::Release => 5,
    }
}

/// The stages in envelope order.
pub open spec fn all_stages() -> Seq<AdsrStage> {
    seq![
        AdsrStage::Delay,
        AdsrStage::Attack,
        AdsrStage::Hold,
        AdsrStage::Decay,
        AdsrStage::Sustain,
        AdsrStage::Release,
    ]
}

impl AdsrStage {
    /// Position of the stage in the envelope.
    pub fn index(&self) -> (r: usize)
        ensures
            r == stage_index(*self),
    {
        match self {
            AdsrStage::Delay => 0,
            AdsrStage::Attack => 1,
            AdsrStage::Hold => 2,
            AdsrStage::Decay => 3,
            AdsrStage::Sustain => 4,
            AdsrStage::Release => 5,
        }
    }

    /// Every stage, in envelope order.
    pub fn each() -> (r: Vec<AdsrStage>)
        ensures
            r@ == all_stages(),
    {
        let r = vec![
            AdsrStage::Delay,
            AdsrStage::Attack,
            AdsrStage::Hold,
            AdsrStage::Decay,
            AdsrStage::Sustain,
            AdsrStage::Release,
        ];
        assert(r@ =~= all_stages());
        r
    }
}

/// The parameters of one stage.
#[derive(Clone, Copy, Debug, PartialEq, Eq, Structural)]
pub enum AdsrStageValue {
    Duration(AdsrDuration),
    DurationSlope(DurationSlope),
    Amplitude(AdsrAmplitude),
}

/// An envelope's parameters.
#[derive(Clone, Copy, Debug, PartialEq, Eq, Structural)]
pub struct Adsr {
    pub delay: AdsrDuration,
    pub attack: DurationSlope,
    pub hold: AdsrDuration,
    pub decay: DurationSlope,
    pub sustain: AdsrAmplitude,
    pub release: DurationSlope,
}

/// The parameters of stage `s` of `a`.
pub open spec fn stage_value(a: Adsr, s: AdsrStage) -> AdsrStageValue {
    match s {
        AdsrStage::Delay => AdsrStageValue::Duration(a.delay),
        AdsrStage::Attack => AdsrStageValue::DurationSlope(a.attack),
        AdsrStage::Hold => AdsrStageValue::Duration(a.hold),
        AdsrStage::Decay => AdsrStageValue::DurationSlope(a.decay),
        AdsrStage::Sustain => AdsrStageValue::Amplitude(a.sustain),
        AdsrStage::Release => AdsrStageValue::DurationSlope(a.release),
    }
}

impl Adsr {
    /// The parameters of one stage.
    pub fn stage(&self, stage: AdsrStage) -> (r: AdsrStageValue)
        ensures
            r == stage_value(*self, stage),
    {
        match stage {
            AdsrStage::Delay => AdsrStageValue::Duration(self.delay),
            AdsrStage::Attack => AdsrStageValue::DurationSlope(self.attack),
            AdsrStage::Hold => AdsrStageValue::Duration(self.hold),
            AdsrStage::Decay => AdsrStageValue::DurationSlope(self.decay),
            AdsrStage::Sustain => AdsrStageValue::Amplitude(self.sustain),
            AdsrStage::Release => AdsrStageValue::DurationSlope(self.release),
        }
    }

    /// The parameters of every stage, in envelope order.
    pub fn iter(&self) -> (r: Vec<AdsrStageValue>)
        ensures
            r@.len() == 6,
            forall|i: int| 0 <= i < 6 ==> #[trigger] r@[i] == stage_value(*self, all_stages()[i]),
    {
        let r = vec![
            self.stage(AdsrStage::Delay),
            self.stage(AdsrStage::Attack),
            self.stage(AdsrStage::Hold),
            self.stage(AdsrStage::Decay),
            self.stage(AdsrStage::Sustain),
            self.stage(AdsrStage::Release),
        ];
        r
    }
}

/// One value per stage.
#[derive(Clone, Copy)]
pub struct AdsrStages<T> {
    delay: T,
    attack: T,
    hold: T,
    decay: T,
    sustain: T,
    release: T,
}

impl<T> AdsrStages<T> {
    /// The value of stage `s`.
    pub closed spec fn value_of(&self, s: AdsrStage) -> T {
        match s {
            AdsrStage::Delay => self.delay,
            AdsrStage::Attack => self.attack,
            AdsrStage::Hold => self.hold,
            AdsrStage::Decay => self.decay,
            AdsrStage::Sustain => self.sustain,
            AdsrStage::Release => self.release,
        }
    }

    /// Values for the stages in envelope order.
    pub fn new(delay: T, attack: T, hold: T, decay: T, sustain: T, release: T) -> (r: AdsrStages<T>)
        ensures
            r.value_of(AdsrStage::Delay) == delay,
            r.value_of(AdsrStage::Attack) == attack,
            r.value_of(AdsrStage::Hold) == hold,
            r.value_of(AdsrStage::Decay) == decay,
            r.value_of(AdsrStage::Sustain) == sustain,
            r.value_of(AdsrStage::Release) == release,
    {
        AdsrStages { delay, attack, hold, decay, sustain, release }
    }

    /// The value of one stage.
    pub fn stage(&self, stage: AdsrStage) -> (r: &T)
        ensures
            *r == self.value_of(stage),
    {
        match stage {
            AdsrStage::Delay => &self.delay,
            AdsrStage::Attack => &self.attack,
            AdsrStage::Hold => &self.hold,
            AdsrStage::Decay => &self.decay,
            AdsrStage::Sustain => &self.sustain,
            AdsrStage::Release => &self.release,
        }
    }
}

impl<T: Copy> AdsrStages<T> {
    /// The values in envelope order.
    pub fn iter(&self) -> (r: Vec<T>)
        ensures
            r@.len() == 6,
            forall|i: int| 0 <= i < 6 ==> #[trigger] r@[i] == self.value_of(all_stages()[i]),
    {
        vec![self.delay, self.attack, self.hold, self.decay, self.sustain, self.release]
    }
}

} // verus!
