//! Control panel: the encoders and the encoder button, ticked together once
//! per control cycle.
pub mod btn;
pub mod enc;
pub mod keys;
pub mod qei_enc;

use vstd::prelude::*;
use btn::{btn_state_of, Btn, BtnState, PullEdge};
use enc::{EncState, VELOCITY_SCALE};
use qei_enc::{qei_result, qei_stepped, QeiEnc};
use crate::ui::Event;

verus! {

/// Results of one control tick in which something happened.
#[derive(Clone, Copy, Debug, PartialEq, Eq, Structural)]
pub struct ControlsStateChanged {
    pub main_enc: EncState,
    pub main_enc_btn: BtnState,
    pub red_enc: EncState,
    pub green_enc: EncState,
}

/// Result of one control tick.
#[derive(Clone, Copy, Debug, PartialEq, Eq, Structural)]
pub enum ControlsState {
    Unchanged,
    Changed(ControlsStateChanged),
}

/// Interface events of a tick: the main encoder's change at full velocity,
/// then its button's release or press.
pub open spec fn events_of(c: ControlsStateChanged) -> Seq<Event> {
    let enc: Seq<Event> = match c.main_enc {
        EncState::Changed(x) => seq![Event::MainEncChange(x, VELOCITY_SCALE)],
        EncState::Unchanged => Seq::empty(),
    };
    let btn: Seq<Event> = match c.main_enc_btn {
        BtnState::Up => seq![Event::MainEncClickUp],
        BtnState::Down => seq![Event::MainEncClickDown],
        BtnState::Idle => Seq::empty(),
    };
    enc + btn
}

/// The tick result for the sub-results: `Unchanged` only when every one of
/// them is empty.
pub open spec fn controls_state_of(
    main_enc: EncState,
    main_enc_btn: BtnState,
    red_enc: EncState,
    green_enc: EncState,
) -> ControlsState {
    if main_enc is Unchanged && main_enc_btn is Idle && red_enc is Unchanged
        && green_enc is Unchanged {
        ControlsState::Unchanged
    } else {
        ControlsState::Changed(
            ControlsStateChanged { main_enc, main_enc_btn, red_enc, green_enc },
        )
    }
}

impl ControlsStateChanged {
    /// The interface events this tick produces.
    pub fn into_events(self) -> (r: Vec<Event>)
        ensures
            r@ == events_of(self),
    {
        let mut events: Vec<Event> = Vec::new();
        if let EncState::Changed(main_enc) = self.main_enc {
            events.push(Event::MainEncChange(main_enc, VELOCITY_SCALE));
        }
        if let BtnState::Up = self.main_enc_btn {
            events.push(Event::MainEncClickUp);
        }
        if let BtnState::Down = self.main_enc_btn {
            events.push(Event::MainEncClickDown);
        }
        assert(events@ =~= events_of(self));
        events
    }
}

/// Sub-results gathered during a tick.
#[derive(Clone, Copy, Debug, PartialEq, Eq, Structural)]
pub struct ControlsStateBuilder {
    pub main_enc: EncState,
    pub main_enc_btn: BtnState,
    pub red_enc: EncState,
    pub green_enc: EncState,
}

impl ControlsStateBuilder {
    /// Folds the sub-results into the tick result.
    pub fn build(self) -> (r: ControlsState)
        ensures
            r == controls_state_of(self.main_enc, self.main_enc_btn, self.red_enc, self.green_enc),
    {
        match (self.main_enc, self.main_enc_btn, self.red_enc, self.green_enc) {
            (EncState::Unchanged, BtnState::Idle, EncState::Unchanged, EncState::Unchanged) => {
                ControlsState::Unchanged
            },
            _ => ControlsState::Changed(
                ControlsStateChanged {
                    main_enc: self.main_enc,
                    main_enc_btn: self.main_enc_btn,
                    red_enc: self.red_enc,
                    green_enc: self.green_enc,
                },
            ),
        }
    }
}

/// Raw readings of one control tick: the three hardware counters and the
/// main encoder button's pin level.
#[derive(Clone, Copy, Debug, PartialEq, Eq, Structural)]
pub struct PanelReadings {
    pub main_count: u16,
    pub main_btn_level: bool,
    pub red_count: u16,
    pub green_count: u16,
}

/// The panel's inputs.
pub struct ControlPanel<Pull: PullEdge> {
    main_enc: QeiEnc,
    main_enc_btn: Btn<Pull>,
    red_enc: QeiEnc,
    green_enc: QeiEnc,
}

impl<Pull: PullEdge> ControlPanel<Pull> {
    pub closed spec fn main_enc(&self) -> QeiEnc {
        self.main_enc
    }

    pub closed spec fn main_enc_btn(&self) -> Btn<Pull> {
        self.main_enc_btn
    }

    pub closed spec fn red_enc(&self) -> QeiEnc {
        self.red_enc
    }

    pub closed spec fn green_enc(&self) -> QeiEnc {
        self.green_enc
    }

    pub closed spec fn wf(&self) -> bool {
        self.main_enc_btn.wf()
    }

    /// A panel of the given inputs.
    pub fn new(main_enc: QeiEnc, main_enc_btn: Btn<Pull>, red_enc: QeiEnc, green_enc: QeiEnc) -> (r:
        ControlPanel<Pull>)
        requires
            main_enc_btn.wf(),
        ensures
            r.wf(),
            r.main_enc() == main_enc,
            r.main_enc_btn() == main_enc_btn,
            r.red_enc() == red_enc,
            r.green_enc() == green_enc,
    {
        ControlPanel { main_enc, main_enc_btn, red_enc, green_enc }
    }

    /// Ticks each input once, in the order main encoder, its button, red
    /// encoder, green encoder, and folds the results.
    pub fn tick(&mut self, now_millis: u32, readings: PanelReadings) -> (r: ControlsState)
        requires
            old(self).wf(),
        ensures
            final(self).wf(),
            qei_stepped(old(self).main_enc(), final(self).main_enc(), readings.main_count),
            qei_stepped(old(self).red_enc(), final(self).red_enc(), readings.red_count),
            qei_stepped(old(self).green_enc(), final(self).green_enc(), readings.green_count),
            final(self).main_enc_btn().pull() == old(self).main_enc_btn().pull(),
            old(self).main_enc_btn().debouncer().steps_to(
                final(self).main_enc_btn().debouncer(),
                readings.main_btn_level,
            ),
            r == controls_state_of(
                qei_result(
                    readings.main_count,
                    old(self).main_enc().prev(),
                    old(self).main_enc().dir(),
                ),
                btn_state_of(
                    old(self).main_enc_btn().pull(),
                    old(self).main_enc_btn().debouncer().edge_after(readings.main_btn_level),
                ),
                qei_result(readings.red_count, old(self).red_enc().prev(), old(self).red_enc().dir()),
                qei_result(
                    readings.green_count,
                    old(self).green_enc().prev(),
                    old(self).green_enc().dir(),
                ),
            ),
    {
        let builder = ControlsStateBuilder {
            main_enc: self.main_enc.tick(readings.main_count, now_millis),
            main_enc_btn: self.main_enc_btn.tick(readings.main_btn_level),
            red_enc: self.red_enc.tick(readings.red_count, now_millis),
            green_enc: self.green_enc.tick(readings.green_count, now_millis),
        };
        builder.build()
    }
}

} // verus!
