//! Where on screen an item is drawn.
use vstd::prelude::*;

verus! {

/// A rectangle of terminal cells: its top-left corner and its size.
#[derive(Clone, Copy, Debug, PartialEq, Eq, Structural)]
pub struct Area {
    pub x: u16,
    pub y: u16,
    pub width: u16,
    pub height: u16,
}

impl Area {
    /// The empty rectangle at the origin.
    pub open spec fn zero() -> Area {
        Area { x: 0, y: 0, width: 0, height: 0 }
    }
}

/// Layout state that the control loop sets before each redraw; it carries no
/// telemetry.
pub struct ViewState {
    area: Area,
}

impl View for ViewState {
    type V = Area;

    closed spec fn view(&self) -> Area {
        self.area
    }
}

impl ViewState {
    pub fn new() -> (r: Self)
        ensures
            r@ == Area::zero(),
    {
        Self { area: Area { x: 0, y: 0, width: 0, height: 0 } }
    }

    pub fn with_area(self, area: Area) -> (r: Self)
        ensures
            r@ == area,
    {
        let mut s = self;
        s.area = area;
        s
    }

    pub fn area(&self) -> (r: Area)
        ensures
            r == self@,
    {
        self.area
    }

    pub fn set_area(&mut self, area: Area)
        ensures
            final(self)@ == area,
    {
        self.area = area;
    }
}

} // verus!
