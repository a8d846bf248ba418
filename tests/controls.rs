use paw_one::control::btn::{Btn, BtnState, PullDown, PullUp};
use paw_one::control::enc::{AccelEncState, Accelerated, Enc, EncState, Rotation};
use paw_one::control::qei_enc::{Dir, QeiEnc};
use paw_one::control::{
    ControlPanel, ControlsState, ControlsStateBuilder, ControlsStateChanged, PanelReadings,
};
use paw_one::ui::Event;

#[test]
fn qei_counter_sequence() {
    let mut enc = QeiEnc::new(0);
    let got: Vec<EncState> = [0u16, 1, 3, 5, 5, 2].iter().map(|&c| enc.tick(c, 0)).collect();
    assert_eq!(
        got,
        vec![
            EncState::Unchanged,
            EncState::Unchanged,
            EncState::Changed(1),
            EncState::Changed(1),
            EncState::Unchanged,
            EncState::Changed(-1),
        ]
    );
}

#[test]
fn qei_jitter_accumulates_against_the_reference() {
    let mut enc = QeiEnc::new(10);
    assert_eq!(enc.tick(11, 0), EncState::Unchanged);
    assert_eq!(enc.tick(9, 0), EncState::Unchanged);
    assert_eq!(enc.tick(12, 0), EncState::Changed(1));
    assert_eq!(enc.tick(20, 0), EncState::Changed(4));
}

#[test]
fn qei_wraps_around_the_counter() {
    let mut enc = QeiEnc::new(65535);
    assert_eq!(enc.tick(1, 0), EncState::Changed(1));
    assert_eq!(enc.tick(65533, 0), EncState::Changed(-2));
}

#[test]
fn qei_inverted_flips_the_sign() {
    let mut enc = QeiEnc::new(0).inverted();
    assert_eq!(enc.tick(6, 0), EncState::Changed(-3));
    assert_eq!(enc.tick(0, 0), EncState::Changed(3));
    let mut back = QeiEnc::new(0).inverted().inverted();
    assert_eq!(back.tick(6, 0), EncState::Changed(3));
}

#[test]
fn dir_factor_and_inversion() {
    assert_eq!(Dir::Original.factor(), 1);
    assert_eq!(Dir::Inverted.factor(), -1);
    assert_eq!(Dir::Original.inverted(), Dir::Inverted);
    assert_eq!(Dir::Inverted.inverted(), Dir::Original);
}

#[test]
fn pull_up_button_press_and_release() {
    let mut btn = Btn::new(PullUp);
    assert_eq!(btn.tick(true), BtnState::Idle);
    assert_eq!(btn.tick(true), BtnState::Up);
    assert_eq!(btn.tick(true), BtnState::Idle);
    assert_eq!(btn.tick(false), BtnState::Idle);
    assert_eq!(btn.tick(false), BtnState::Down);
}

#[test]
fn pull_down_button_maps_the_other_way() {
    let mut btn = Btn::new(PullDown);
    assert_eq!(btn.tick(true), BtnState::Idle);
    assert_eq!(btn.tick(true), BtnState::Down);
    assert_eq!(btn.tick(false), BtnState::Idle);
    assert_eq!(btn.tick(false), BtnState::Up);
}

#[test]
fn builder_with_only_main_encoder() {
    let built = ControlsStateBuilder {
        main_enc: EncState::Changed(3),
        main_enc_btn: BtnState::Idle,
        red_enc: EncState::Unchanged,
        green_enc: EncState::Unchanged,
    }
    .build();
    assert_eq!(
        built,
        ControlsState::Changed(ControlsStateChanged {
            main_enc: EncState::Changed(3),
            main_enc_btn: BtnState::Idle,
            red_enc: EncState::Unchanged,
            green_enc: EncState::Unchanged,
        })
    );
    let idle = ControlsStateBuilder {
        main_enc: EncState::Unchanged,
        main_enc_btn: BtnState::Idle,
        red_enc: EncState::Unchanged,
        green_enc: EncState::Unchanged,
    }
    .build();
    assert_eq!(idle, ControlsState::Unchanged);
}

fn readings(main: u16, btn: bool, red: u16, green: u16) -> PanelReadings {
    PanelReadings { main_count: main, main_btn_level: btn, red_count: red, green_count: green }
}

#[test]
fn panel_tick_main_encoder_only() {
    let mut panel = ControlPanel::new(
        QeiEnc::new(100),
        Btn::new(PullUp),
        QeiEnc::new(200),
        QeiEnc::new(300),
    );
    assert_eq!(panel.tick(0, readings(100, false, 200, 300)), ControlsState::Unchanged);
    assert_eq!(
        panel.tick(1, readings(106, false, 200, 300)),
        ControlsState::Changed(ControlsStateChanged {
            main_enc: EncState::Changed(3),
            main_enc_btn: BtnState::Idle,
            red_enc: EncState::Unchanged,
            green_enc: EncState::Unchanged,
        })
    );
    assert_eq!(panel.tick(2, readings(106, false, 201, 299)), ControlsState::Unchanged);
}

#[test]
fn panel_tick_reports_every_input() {
    let mut panel = ControlPanel::new(
        QeiEnc::new(0).inverted(),
        Btn::new(PullUp),
        QeiEnc::new(0),
        QeiEnc::new(0),
    );
    assert_eq!(panel.tick(0, readings(0, true, 0, 0)), ControlsState::Unchanged);
    assert_eq!(
        panel.tick(1, readings(4, true, 2, 65534)),
        ControlsState::Changed(ControlsStateChanged {
            main_enc: EncState::Changed(-2),
            main_enc_btn: BtnState::Up,
            red_enc: EncState::Changed(1),
            green_enc: EncState::Changed(-1),
        })
    );
}

#[test]
fn changed_state_into_events() {
    let c = ControlsStateChanged {
        main_enc: EncState::Changed(-2),
        main_enc_btn: BtnState::Down,
        red_enc: EncState::Changed(5),
        green_enc: EncState::Unchanged,
    };
    assert_eq!(c.into_events(), vec![Event::MainEncChange(-2, 1000), Event::MainEncClickDown]);
    let up = ControlsStateChanged {
        main_enc: EncState::Unchanged,
        main_enc_btn: BtnState::Up,
        red_enc: EncState::Unchanged,
        green_enc: EncState::Unchanged,
    };
    assert_eq!(up.into_events(), vec![Event::MainEncClickUp]);
}

#[test]
fn standard_encoder_reports_each_step() {
    let mut enc = Enc::new_standard();
    assert_eq!(enc.tick(Rotation::Still, 1), EncState::Unchanged);
    assert_eq!(enc.tick(Rotation::Clockwise, 2), EncState::Changed(1));
    assert_eq!(enc.tick(Rotation::Anticlockwise, 3), EncState::Changed(-1));
    assert_eq!(enc.tick(Rotation::Still, 4), EncState::Unchanged);
}

#[test]
fn accelerated_encoder_reports_at_most_every_period() {
    let mut enc: Enc<Accelerated> = Enc::new();
    assert_eq!(enc.velocity_decays(35), 3);
    assert_eq!(enc.tick(Rotation::Clockwise, 5, 700), AccelEncState::Unchanged);
    assert_eq!(enc.tick(Rotation::Clockwise, 8, 700), AccelEncState::Unchanged);
    assert_eq!(enc.tick(Rotation::Clockwise, 12, 800), AccelEncState::Changed(3, 800));
    assert_eq!(enc.velocity_decays(12), 0);
    assert_eq!(enc.tick(Rotation::Still, 30, 800), AccelEncState::Unchanged);
    assert_eq!(enc.tick(Rotation::Clockwise, 31, 500), AccelEncState::Unchanged);
    assert_eq!(enc.tick(Rotation::Anticlockwise, 40, 500), AccelEncState::Unchanged);
    assert_eq!(enc.tick(Rotation::Anticlockwise, 50, 400), AccelEncState::Changed(-1, 400));
}

#[test]
fn accelerated_encoder_waits_for_more_than_the_period() {
    let mut enc: Enc<Accelerated> = Enc::new();
    assert_eq!(enc.tick(Rotation::Clockwise, 10, 900), AccelEncState::Unchanged);
    assert_eq!(enc.tick(Rotation::Clockwise, 11, 900), AccelEncState::Changed(2, 900));
    assert_eq!(enc.tick(Rotation::Anticlockwise, 21, 100), AccelEncState::Unchanged);
    assert_eq!(enc.tick(Rotation::Clockwise, 22, 100), AccelEncState::Unchanged);
}
