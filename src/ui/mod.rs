pub mod builder;
pub mod event;
pub mod fps;
pub mod kit;

use vstd::prelude::*;

verus! {

/// Interface input event. Encoder changes carry detent steps and a velocity
/// in thousandths of full scale.
#[derive(Clone, Copy, Debug, PartialEq, Eq, Structural)]
pub enum Event {
    MainEncChange(i32, u32),
    MainEncClickDown,
    MainEncClickUp,
    RedEncChange(i32, u32),
    GreenEncChange(i32, u32),
}

} // verus!
