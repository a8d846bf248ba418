use vstd::prelude::*;

verus! {

#[derive(Clone, Copy, Debug, PartialEq, Eq, Structural)]
pub enum HorizontalAlign {
    Left,
    Middle,
    Right,
}

#[derive(Clone, Copy, Debug, PartialEq, Eq, Structural)]
pub enum VerticalAlign {
    Top,
    Middle,
    Bottom,
}

#[derive(Clone, Copy, Debug, PartialEq, Eq, Structural)]
pub enum LinearDirection {
    Horizontal,
    Vertical,
}

/// Placement of a component's content.
#[derive(Clone, Copy, Debug, PartialEq, Eq, Structural)]
pub struct LayoutComponent {
    pub horizontal_align: HorizontalAlign,
    pub vertical_align: VerticalAlign,
    pub linear_direction: LinearDirection,
}

} // verus!
