//! Envelope editing: one stage active at a time, two encoder-edited
//! parameters per stage.
use vstd::prelude::*;
use super::{Adsr, AdsrStage, edited_amplitude, edited_bend, edited_duration, stage_index};

verus! {

/// The stage before `s`, wrapping from delay to release.
pub open spec fn stage_before(s: AdsrStage) -> AdsrStage {
    match s {
        AdsrStage::Delay => AdsrStage::Release,
        AdsrStage::Attack => AdsrStage::Delay,
        AdsrStage::Hold => AdsrStage::Attack,
        AdsrStage::Decay => AdsrStage::Hold,
        AdsrStage::Sustain => AdsrStage::Decay,
        AdsrStage::Release => AdsrStage::Sustain,
    }
}

/// The stage after `s`, wrapping from release to delay.
pub open spec fn stage_after(s: AdsrStage) -> AdsrStage {
    match s {
        AdsrStage::Delay => AdsrStage::Attack,
        AdsrStage::Attack => AdsrStage::Hold,
        AdsrStage::Hold => AdsrStage::Decay,
        AdsrStage::Decay => AdsrStage::Sustain,
        AdsrStage::Sustain => AdsrStage::Release,
        AdsrStage::Release => AdsrStage::Delay,
    }
}

/// `a` after editing the first parameter of stage `s`: the duration, or the
/// level for sustain.
pub open spec fn first_param_edited(a: Adsr, s: AdsrStage, offset: int, vel: int) -> Adsr {
    match s {
        AdsrStage::Delay => Adsr {
            delay: super::AdsrDuration(edited_duration(a.delay.0 as int, offset, vel) as u32),
            ..a
        },
        AdsrStage::Attack => Adsr {
            attack: super::DurationSlope {
                duration: super::AdsrDuration(
                    edited_duration(a.attack.duration.0 as int, offset, vel) as u32,
                ),
                ..a.attack
            },
            ..a
        },
        AdsrStage::Hold => Adsr {
            hold: super::AdsrDuration(edited_duration(a.hold.0 as int, offset, vel) as u32),
            ..a
        },
        AdsrStage::Decay => Adsr {
            decay: super::DurationSlope {
                duration: super::AdsrDuration(
                    edited_duration(a.decay.duration.0 as int, offset, vel) as u32,
                ),
                ..a.decay
            },
            ..a
        },
        AdsrStage::Sustain => Adsr {
            sustain: super::AdsrAmplitude(edited_amplitude(a.sustain.0 as int, offset, vel) as u32),
            ..a
        },
        AdsrStage::Release => Adsr {
            release: super::DurationSlope {
                duration: super::AdsrDuration(
                    edited_duration(a.release.duration.0 as int, offset, vel) as u32,
                ),
                ..a.release
            },
            ..a
        },
    }
}

/// Envelope editor: the parameters and the stage being edited.
#[derive(Clone, Copy, Debug)]
pub struct AdsrEdit {
    pub adsr: Adsr,
    pub active: AdsrStage,
}

impl AdsrEdit {
    /// The stage before the active one.
    pub fn prev_stage(&self) -> (r: AdsrStage)
        ensures
            r == stage_before(self.active),
            stage_index(r) == (stage_index(self.active) + 5) % 6,
    {
        match self.active {
            AdsrStage::Delay => AdsrStage::Release,
            AdsrStage::Attack => AdsrStage::Delay,
            AdsrStage::Hold => AdsrStage::Attack,
            AdsrStage::Decay => AdsrStage::Hold,
            AdsrStage::Sustain => AdsrStage::Decay,
            AdsrStage::Release => AdsrStage::Sustain,
        }
    }

    /// The stage after the active one.
    pub fn next_stage(&self) -> (r: AdsrStage)
        ensures
            r == stage_after(self.active),
            stage_index(r) == (stage_index(self.active) + 1) % 6,
    {
        match self.active {
            AdsrStage::Delay => AdsrStage::Attack,
            AdsrStage::Attack => AdsrStage::Hold,
            AdsrStage::Hold => AdsrStage::Decay,
            AdsrStage::Decay => AdsrStage::Sustain,
            AdsrStage::Sustain => AdsrStage::Release,
            AdsrStage::Release => AdsrStage::Delay,
        }
    }

    /// Edits the active stage's first parameter: its duration, or for
    /// sustain its level.
    pub fn edit_first_param(&mut self, offset: i32, vel: u32)
        ensures
            final(self).active == old(self).active,
            final(self).adsr == first_param_edited(
                old(self).adsr,
                old(self).active,
                offset as int,
                vel as int,
            ),
    {
        match self.active {
            AdsrStage::Delay => {
                self.adsr.delay.edit_by_encoder(offset, vel, AdsrStage::Delay);
            },
            AdsrStage::Attack => {
                self.adsr.attack.duration.edit_by_encoder(offset, vel, AdsrStage::Attack);
            },
            AdsrStage::Hold => {
                self.adsr.hold.edit_by_encoder(offset, vel, AdsrStage::Hold);
            },
            AdsrStage::Decay => {
                self.adsr.decay.duration.edit_by_encoder(offset, vel, AdsrStage::Decay);
            },
            AdsrStage::Sustain => {
                self.adsr.sustain.edit_by_encoder(offset, vel);
            },
            AdsrStage::Release => {
                self.adsr.release.duration.edit_by_encoder(offset, vel, AdsrStage::Release);
            },
        }
    }

    /// Edits the active stage's curve bend. Delay, hold and sustain have
    /// none: editing them changes nothing.
    pub fn edit_second_param(&mut self, offset: i32, vel: u32)
        ensures
            final(self).active == old(self).active,
            final(self).adsr.delay == old(self).adsr.delay,
            final(self).adsr.hold == old(self).adsr.hold,
            final(self).adsr.sustain == old(self).adsr.sustain,
            final(self).adsr.attack.duration == old(self).adsr.attack.duration,
            final(self).adsr.decay.duration == old(self).adsr.decay.duration,
            final(self).adsr.release.duration == old(self).adsr.release.duration,
            final(self).adsr.attack.bend.value() == (if old(self).active == AdsrStage::Attack {
                edited_bend(old(self).adsr.attack.bend.value(), offset as int, vel as int)
            } else {
                old(self).adsr.attack.bend.value()
            }),
            final(self).adsr.decay.bend.value() == (if old(self).active == AdsrStage::Decay {
                edited_bend(old(self).adsr.decay.bend.value(), offset as int, vel as int)
            } else {
                old(self).adsr.decay.bend.value()
            }),
            final(self).adsr.release.bend.value() == (if old(self).active == AdsrStage::Release {
                edited_bend(old(self).adsr.release.bend.value(), offset as int, vel as int)
            } else {
                old(self).adsr.release.bend.value()
            }),
    {
        match self.active {
            AdsrStage::Attack => {
                self.adsr.attack.bend.edit_by_encoder(offset, vel);
            },
            AdsrStage::Decay => {
                self.adsr.decay.bend.edit_by_encoder(offset, vel);
            },
            AdsrStage::Release => {
                self.adsr.release.bend.edit_by_encoder(offset, vel);
            },
            _ => {},
        }
    }
}

} // verus!
