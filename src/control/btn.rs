//! Debounced push button with a wiring polarity.
use vstd::prelude::*;
use crate::debounce::Debouncer;
use crate::iter::digits::Edge;

verus! {

/// Samples a button level must hold before it is confirmed.
pub const BTN_DEBOUNCE_DEPTH: u8 = 2;

/// What a button did during one control tick.
#[derive(Clone, Copy, Debug, PartialEq, Eq, Structural)]
pub enum BtnState {
    Idle,
    Up,
    Down,
}

/// Button wired with a pull-up: a rising level is a release.
#[derive(Clone, Copy, Debug)]
pub struct PullUp;

/// Button wired with a pull-down: a rising level is a press.
#[derive(Clone, Copy, Debug)]
pub struct PullDown;

/// Maps a confirmed level change to what the button did.
pub trait PullEdge {
    spec fn edge_state(&self, edge: Edge) -> BtnState;

    fn to_state(&self, edge: Edge) -> (r: BtnState)
        ensures
            r == self.edge_state(edge),
    ;
}

impl PullEdge for PullUp {
    open spec fn edge_state(&self, edge: Edge) -> BtnState {
        match edge {
            Edge::Rising => BtnState::Up,
            Edge::Falling => BtnState::Down,
        }
    }

    fn to_state(&self, edge: Edge) -> (r: BtnState) {
        match edge {
            Edge::Rising => BtnState::Up,
            Edge::Falling => BtnState::Down,
        }
    }
}

impl PullEdge for PullDown {
    open spec fn edge_state(&self, edge: Edge) -> BtnState {
        match edge {
            Edge::Rising => BtnState::Down,
            Edge::Falling => BtnState::Up,
        }
    }

    fn to_state(&self, edge: Edge) -> (r: BtnState) {
        match edge {
            Edge::Rising => BtnState::Down,
            Edge::Falling => BtnState::Up,
        }
    }
}

/// What a button reports for a debouncer result.
pub open spec fn btn_state_of<Pull: PullEdge>(pull: Pull, edge: Option<Edge>) -> BtnState {
    match edge {
        Some(e) => pull.edge_state(e),
        None => BtnState::Idle,
    }
}

/// A debounced button. The caller samples the pin and hands the level over.
pub struct Btn<Pull: PullEdge> {
    debouncer: Debouncer,
    pull: Pull,
}

impl<Pull: PullEdge> Btn<Pull> {
    /// The level debouncer.
    pub closed spec fn debouncer(&self) -> Debouncer {
        self.debouncer
    }

    /// The wiring polarity.
    pub closed spec fn pull(&self) -> Pull {
        self.pull
    }

    pub closed spec fn wf(&self) -> bool {
        self.debouncer.wf()
    }

    /// A released button (low level confirmed) with the given polarity.
    pub fn new(pull: Pull) -> (r: Btn<Pull>)
        ensures
            r.wf(),
            r.pull() == pull,
            r.debouncer().depth() == BTN_DEBOUNCE_DEPTH,
            r.debouncer().confirmed() == false,
    {
        Btn { debouncer: Debouncer::new(BTN_DEBOUNCE_DEPTH, false), pull }
    }

    /// Feeds the sampled pin level and reports a confirmed press or release.
    pub fn tick(&mut self, level: bool) -> (r: BtnState)
        requires
            old(self).wf(),
        ensures
            final(self).wf(),
            final(self).pull() == old(self).pull(),
            old(self).debouncer().steps_to(final(self).debouncer(), level),
            r == btn_state_of(old(self).pull(), old(self).debouncer().edge_after(level)),
    {
        match self.debouncer.update(level) {
            Some(edge) => self.pull.to_state(edge),
            None => BtnState::Idle,
        }
    }
}

} // verus!
