use vstd::prelude::*;

verus! {

/// A physical encoder of the panel.
#[derive(Clone, Copy, Debug, PartialEq, Eq, Structural)]
pub enum Encoder {
    Main,
    Red,
    Green,
}

/// What an encoder button did.
#[derive(Clone, Copy, Debug, PartialEq, Eq, Structural)]
pub enum ButtonEvent {
    Press,
}

/// Panel input addressed to a widget: an encoder's detent steps with a
/// velocity in thousandths, or an encoder button.
#[derive(Clone, Copy, Debug, PartialEq, Eq, Structural)]
pub enum Event {
    Encoder(Encoder, i32, u32),
    EncoderButton(Encoder, ButtonEvent),
}

/// An event was consumed by a widget.
#[derive(Clone, Copy, Debug, PartialEq, Eq, Structural)]
pub enum EventCaptured {
    Captured,
}

/// An event was left for others.
#[derive(Clone, Copy, Debug, PartialEq, Eq, Structural)]
pub enum EventIgnored {
    Ignored,
}

} // verus!
