//! Pixel geometry in the display's physical coordinate space.
//!
//! Each executable type has a mathematical view over unbounded integers, so
//! that contracts and laws are free of machine limits.

use vstd::prelude::*;

verus! {

/// A point of the unbounded pixel plane.
pub struct Point {
    pub x: int,
    pub y: int,
}

/// A width and a height, in pixels.
pub struct Extent {
    pub width: nat,
    pub height: nat,
}

/// An axis-aligned rectangle: its top-left corner and its size.
pub struct Rect {
    pub x: int,
    pub y: int,
    pub width: nat,
    pub height: nat,
}

impl Rect {
    /// The x coordinate just past the right edge.
    pub open spec fn right(self) -> int {
        self.x + self.width
    }

    /// The y coordinate just past the bottom edge.
    pub open spec fn bottom(self) -> int {
        self.y + self.height
    }
}

/// The bounds of one display in the global coordinate space.
#[derive(Clone, Copy, Debug, PartialEq, Eq, Structural)]
pub struct MonitorGeometry {
    pub x: i32,
    pub y: i32,
    pub width: u32,
    pub height: u32,
}

impl View for MonitorGeometry {
    type V = Rect;

    open spec fn view(&self) -> Rect {
        Rect {
            x: self.x as int,
            y: self.y as int,
            width: self.width as nat,
            height: self.height as nat,
        }
    }
}

/// The outer size of a window, decorations included.
#[derive(Clone, Copy, Debug, PartialEq, Eq, Structural)]
pub struct WindowSize {
    pub width: u32,
    pub height: u32,
}

impl View for WindowSize {
    type V = Extent;

    open spec fn view(&self) -> Extent {
        Extent { width: self.width as nat, height: self.height as nat }
    }
}

/// The top-left coordinate a window is moved to.
#[derive(Clone, Copy, Debug, PartialEq, Eq, Structural)]
pub struct TargetPosition {
    pub x: i32,
    pub y: i32,
}

impl View for TargetPosition {
    type V = Point;

    open spec fn view(&self) -> Point {
        Point { x: self.x as int, y: self.y as int }
    }
}

} // verus!
