use paw_one::sound::adsr::ui::AdsrEdit;
use paw_one::sound::adsr::{
    Adsr, AdsrAmplitude, AdsrCurveBend, AdsrDuration, AdsrStage, AdsrStageValue, AdsrStages,
    DurationSlope,
};

fn slope(ms: u32, bend: i32) -> DurationSlope {
    DurationSlope { duration: AdsrDuration(ms), bend: AdsrCurveBend::new(bend) }
}

fn envelope() -> Adsr {
    Adsr {
        delay: AdsrDuration(0),
        attack: slope(10, 0),
        hold: AdsrDuration(100),
        decay: slope(500, -300),
        sustain: AdsrAmplitude(700),
        release: slope(2000, 400),
    }
}

#[test]
fn duration_step_follows_magnitude() {
    let mut d = AdsrDuration(0);
    d.edit_by_encoder(1, 1000, AdsrStage::Attack);
    assert_eq!(d, AdsrDuration(5));
    let mut d = AdsrDuration(50);
    d.edit_by_encoder(1, 1000, AdsrStage::Delay);
    assert_eq!(d, AdsrDuration(60));
    let mut d = AdsrDuration(500);
    d.edit_by_encoder(2, 500, AdsrStage::Decay);
    assert_eq!(d, AdsrDuration(525));
    let mut d = AdsrDuration(5000);
    d.edit_by_encoder(-1, 1000, AdsrStage::Release);
    assert_eq!(d, AdsrDuration(4750));
}

#[test]
fn duration_step_at_least_one_and_clamped() {
    let mut d = AdsrDuration(5);
    d.edit_by_encoder(1, 100, AdsrStage::Hold);
    assert_eq!(d, AdsrDuration(6));
    let mut d = AdsrDuration(5);
    d.edit_by_encoder(-1, 0, AdsrStage::Hold);
    assert_eq!(d, AdsrDuration(4));
    let mut d = AdsrDuration(9990);
    d.edit_by_encoder(1, 1000, AdsrStage::Attack);
    assert_eq!(d, AdsrDuration(10_000));
    let mut d = AdsrDuration(3);
    d.edit_by_encoder(-1, 1000, AdsrStage::Attack);
    assert_eq!(d, AdsrDuration(0));
    let mut d = AdsrDuration(300);
    d.edit_by_encoder(4, 1000, AdsrStage::Sustain);
    assert_eq!(d, AdsrDuration(300));
}

#[test]
fn amplitude_steps_in_hundredths() {
    let mut a = AdsrAmplitude(500);
    a.edit_by_encoder(1, 1000);
    assert_eq!(a, AdsrAmplitude(550));
    let mut a = AdsrAmplitude(500);
    a.edit_by_encoder(1, 10);
    assert_eq!(a, AdsrAmplitude(510));
    let mut a = AdsrAmplitude(500);
    a.edit_by_encoder(1, 300);
    assert_eq!(a, AdsrAmplitude(520));
    let mut a = AdsrAmplitude(100);
    a.edit_by_encoder(-3, 1000);
    assert_eq!(a, AdsrAmplitude(0));
    let mut a = AdsrAmplitude(990);
    a.edit_by_encoder(2, 1000);
    assert_eq!(a, AdsrAmplitude(1000));
}

#[test]
fn bend_steps_and_clamps() {
    let mut b = AdsrCurveBend::new(0);
    b.edit_by_encoder(1, 1000);
    assert_eq!(b.get(), 100);
    let mut b = AdsrCurveBend::new(950);
    b.edit_by_encoder(1, 1000);
    assert_eq!(b.get(), 1000);
    let mut b = AdsrCurveBend::new(-1000);
    b.edit_by_encoder(-1, 500);
    assert_eq!(b.get(), -1000);
    let mut b = AdsrCurveBend::new(0);
    b.edit_by_encoder(-3, 250);
    assert_eq!(b.get(), -75);
}

#[test]
fn stage_order_and_index() {
    let stages = AdsrStage::each();
    assert_eq!(
        stages,
        vec![
            AdsrStage::Delay,
            AdsrStage::Attack,
            AdsrStage::Hold,
            AdsrStage::Decay,
            AdsrStage::Sustain,
            AdsrStage::Release,
        ]
    );
    for (i, s) in stages.iter().enumerate() {
        assert_eq!(s.index(), i);
    }
}

#[test]
fn envelope_stage_values() {
    let a = envelope();
    assert_eq!(a.stage(AdsrStage::Delay), AdsrStageValue::Duration(AdsrDuration(0)));
    assert_eq!(a.stage(AdsrStage::Sustain), AdsrStageValue::Amplitude(AdsrAmplitude(700)));
    assert_eq!(a.stage(AdsrStage::Release), AdsrStageValue::DurationSlope(slope(2000, 400)));
    let all = a.iter();
    assert_eq!(all.len(), 6);
    assert_eq!(all[3], AdsrStageValue::DurationSlope(slope(500, -300)));
}

#[test]
fn per_stage_values() {
    let s = AdsrStages::new(1, 2, 3, 4, 5, 6);
    assert_eq!(*s.stage(AdsrStage::Hold), 3);
    assert_eq!(*s.stage(AdsrStage::Release), 6);
    assert_eq!(s.iter(), vec![1, 2, 3, 4, 5, 6]);
}

#[test]
fn editor_moves_between_stages() {
    let e = AdsrEdit { adsr: envelope(), active: AdsrStage::Delay };
    assert_eq!(e.prev_stage(), AdsrStage::Release);
    assert_eq!(e.next_stage(), AdsrStage::Attack);
    let r = AdsrEdit { adsr: envelope(), active: AdsrStage::Release };
    assert_eq!(r.next_stage(), AdsrStage::Delay);
    assert_eq!(r.prev_stage(), AdsrStage::Sustain);
}

#[test]
fn editor_first_param() {
    let mut e = AdsrEdit { adsr: envelope(), active: AdsrStage::Decay };
    e.edit_first_param(1, 1000);
    assert_eq!(e.adsr.decay, slope(525, -300));
    assert_eq!(e.adsr.attack, slope(10, 0));
    e.active = AdsrStage::Sustain;
    e.edit_first_param(-1, 1000);
    assert_eq!(e.adsr.sustain, AdsrAmplitude(650));
    e.active = AdsrStage::Hold;
    e.edit_first_param(1, 1000);
    assert_eq!(e.adsr.hold, AdsrDuration(125));
}

#[test]
fn editor_second_param() {
    let mut e = AdsrEdit { adsr: envelope(), active: AdsrStage::Release };
    e.edit_second_param(2, 1000);
    assert_eq!(e.adsr.release, slope(2000, 600));
    e.active = AdsrStage::Hold;
    let before = e.adsr;
    e.edit_second_param(5, 1000);
    assert_eq!(e.adsr, before);
    e.active = AdsrStage::Attack;
    e.edit_second_param(-1, 1000);
    assert_eq!(e.adsr.attack, slope(10, -100));
}
