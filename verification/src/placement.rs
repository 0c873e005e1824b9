//! Where the widget goes: the bottom-right corner of its monitor, a fixed
//! margin away from both edges.
//!
//! The position is a single expression over the monitor's bounds, the
//! window's outer size and the margin. Nothing is clamped: a window larger
//! than its monitor starts before the monitor's origin and hangs off-screen.

use vstd::prelude::*;
use crate::geometry::{Extent, MonitorGeometry, Point, Rect, TargetPosition, WindowSize};

verus! {

/// Gap, in pixels, kept between the window's edges and the monitor's edges.
pub const MARGIN: u32 = 14;

/// Width assumed for the window when its outer size cannot be read.
pub const FALLBACK_WIDTH: u32 = 210;

/// Height assumed for the window when its outer size cannot be read.
pub const FALLBACK_HEIGHT: u32 = 56;

/// The top-left point at which a window of size `window` has its
/// bottom-right corner `margin` pixels inside the bottom-right corner of
/// `monitor`.
pub open spec fn anchor(monitor: Rect, window: Extent, margin: nat) -> Point {
    Point {
        x: monitor.right() - window.width - margin,
        y: monitor.bottom() - window.height - margin,
    }
}

/// A window of size `window` placed at `position` ends exactly `margin`
/// pixels before the right and the bottom edge of `monitor`.
pub open spec fn sits_in_corner(
    monitor: Rect,
    window: Extent,
    margin: nat,
    position: Point,
) -> bool {
    &&& position.x + window.width + margin == monitor.right()
    &&& position.y + window.height + margin == monitor.bottom()
}

/// Both coordinates of `point` fit the signed 32-bit coordinates in which a
/// position is handed to the display.
pub open spec fn representable(point: Point) -> bool {
    &&& i32::MIN <= point.x <= i32::MAX
    &&& i32::MIN <= point.y <= i32::MAX
}

/// The size that stands in for a window whose outer size is unknown.
pub open spec fn fallback_size() -> WindowSize {
    WindowSize { width: FALLBACK_WIDTH, height: FALLBACK_HEIGHT }
}

impl WindowSize {
    /// The size that stands in for a window whose outer size is unknown.
    pub fn fallback() -> (size: WindowSize)
        ensures
            size == fallback_size(),
    {
        WindowSize { width: FALLBACK_WIDTH, height: FALLBACK_HEIGHT }
    }
}

/// One coordinate of the anchor, wide enough that no input overflows it.
fn anchor_axis(origin: i32, extent: u32, window: u32, margin: u32) -> (coordinate: i64)
    ensures
        coordinate == origin + extent - window - margin,
{
    let far_edge: i64 = origin as i64 + extent as i64;
    far_edge - window as i64 - margin as i64
}

/// Whether `coordinate` fits a signed 32-bit coordinate.
fn fits_i32(coordinate: i64) -> (fits: bool)
    ensures
        fits <==> i32::MIN <= coordinate <= i32::MAX,
{
    i32::MIN as i64 <= coordinate && coordinate <= i32::MAX as i64
}

/// Computes the top-left coordinate that anchors a window of size `window`
/// to the bottom-right corner of `monitor`, `margin` pixels away from both
/// edges.
///
/// The position must fit signed 32-bit coordinates, as it does for any real
/// display; [`checked_corner_position`] is the variant without that demand.
pub fn corner_position(
    monitor: MonitorGeometry,
    window: WindowSize,
    margin: u32,
) -> (position: TargetPosition)
    requires
        representable(anchor(monitor@, window@, margin as nat)),
    ensures
        position@ == anchor(monitor@, window@, margin as nat),
        sits_in_corner(monitor@, window@, margin as nat, position@),
{
    let x: i64 = anchor_axis(monitor.x, monitor.width, window.width, margin);
    let y: i64 = anchor_axis(monitor.y, monitor.height, window.height, margin);
    TargetPosition { x: x as i32, y: y as i32 }
}

/// Computes the same position as [`corner_position`], or `None` exactly when
/// one of its coordinates does not fit a signed 32-bit coordinate.
pub fn checked_corner_position(
    monitor: MonitorGeometry,
    window: WindowSize,
    margin: u32,
) -> (placed: Option<TargetPosition>)
    ensures
        placed is Some <==> representable(anchor(monitor@, window@, margin as nat)),
        placed matches Some(position) ==> position@ == anchor(monitor@, window@, margin as nat),
        placed matches Some(position) ==> sits_in_corner(
            monitor@,
            window@,
            margin as nat,
            position@,
        ),
{
    let x: i64 = anchor_axis(monitor.x, monitor.width, window.width, margin);
    let y: i64 = anchor_axis(monitor.y, monitor.height, window.height, margin);
    if fits_i32(x) && fits_i32(y) {
        Some(TargetPosition { x: x as i32, y: y as i32 })
    } else {
        None
    }
}

/// The anchor sits in the corner: for every monitor, window size and margin,
/// the anchored window's right edge plus the margin is the monitor's right
/// edge, and likewise for the bottom edge. This holds whether or not the
/// window fits the monitor.
pub proof fn anchor_sits_in_corner(monitor: Rect, window: Extent, margin: nat)
    ensures
        sits_in_corner(monitor, window, margin, anchor(monitor, window, margin)),
        anchor(monitor, window, margin).x + window.width + margin == monitor.x + monitor.width,
        anchor(monitor, window, margin).y + window.height + margin == monitor.y + monitor.height,
{
}

/// Only one point sits in the corner: two positions that both keep the
/// margin to the monitor's right and bottom edge are the same point, and
/// that point is the anchor.
pub proof fn corner_is_unique(
    monitor: Rect,
    window: Extent,
    margin: nat,
    first: Point,
    second: Point,
)
    requires
        sits_in_corner(monitor, window, margin, first),
        sits_in_corner(monitor, window, margin, second),
    ensures
        first == second,
        first == anchor(monitor, window, margin),
{
}

/// Placement has no hidden state: two results computed for the same
/// monitor, window size and margin are the same position.
pub proof fn placement_is_deterministic(
    monitor: MonitorGeometry,
    window: WindowSize,
    margin: u32,
    first: TargetPosition,
    second: TargetPosition,
)
    requires
        first@ == anchor(monitor@, window@, margin as nat),
        second@ == anchor(monitor@, window@, margin as nat),
    ensures
        first == second,
{
}

/// With no margin the window is flush with the monitor: its right edge is
/// the monitor's right edge and its bottom edge is the monitor's bottom edge.
pub proof fn zero_margin_is_flush(monitor: Rect, window: Extent)
    ensures
        anchor(monitor, window, 0).x + window.width == monitor.right(),
        anchor(monitor, window, 0).y + window.height == monitor.bottom(),
{
}

/// Nothing is clamped: on an axis on which the window is larger than the
/// monitor, the anchor lies before the monitor's origin.
pub proof fn oversized_window_starts_before_origin(monitor: Rect, window: Extent, margin: nat)
    ensures
        window.width > monitor.width ==> anchor(monitor, window, margin).x < monitor.x,
        window.height > monitor.height ==> anchor(monitor, window, margin).y < monitor.y,
        anchor(monitor, window, margin).x - monitor.x == monitor.width - window.width - margin,
        anchor(monitor, window, margin).y - monitor.y == monitor.height - window.height - margin,
{
}

/// A window that fits the monitor together with its margin lies wholly
/// inside the monitor.
pub proof fn fitting_window_stays_inside(monitor: Rect, window: Extent, margin: nat)
    requires
        window.width + margin <= monitor.width,
        window.height + margin <= monitor.height,
    ensures
        monitor.x <= anchor(monitor, window, margin).x,
        monitor.y <= anchor(monitor, window, margin).y,
        anchor(monitor, window, margin).x + window.width <= monitor.right(),
        anchor(monitor, window, margin).y + window.height <= monitor.bottom(),
{
}

} // verus!
