use vstd::prelude::*;

use crate::draw::DrawCommand;
use crate::geometry::PIXEL_LIMIT;
use crate::style::Color;

verus! {

/// One editor window as the editor describes it for a frame.
#[derive(Debug)]
pub struct WindowRenderInfo {
    pub grid_id: u64,
    /// Position of the window's top-left cell in the outer grid.
    pub grid_position: (u16, u16),
    /// Width in cells.
    pub width: u16,
    /// Height in cells.
    pub height: u16,
    /// Whether the window's surface must be rebuilt from scratch.
    pub should_clear: bool,
    pub draw_commands: Vec<DrawCommand>,
}

/// Everything the editor hands over for one frame.
#[derive(Debug)]
pub struct FrameRenderInfo {
    pub windows: Vec<WindowRenderInfo>,
    pub closed_window_ids: Vec<u64>,
}

/// The off-screen surface kept for a window, as its pixel size.
#[derive(Clone, Copy, Debug, PartialEq, Eq, Structural)]
pub struct Surface {
    pub width: i64,
    pub height: i64,
}

/// What the cache keeps for a window between frames.
#[derive(Debug)]
pub struct RenderedWindow {
    pub surface: Surface,
    /// The smoothed on-screen pixel position, trailing the window's target position.
    pub current_position: (i64, i64),
}

/// A new surface to allocate, cleared to `background`.
#[derive(Clone, Copy, Debug, PartialEq, Eq, Structural)]
pub struct SurfaceRequest {
    pub width: i64,
    pub height: i64,
    pub background: Color,
}

/// What happens to a window's surface this frame.
#[derive(Clone, Copy, Debug, PartialEq, Eq, Structural)]
pub enum SurfaceAction {
    /// The cached surface is drawn into again.
    Reuse,
    /// Any cached surface is dropped and a new one allocated.
    Create(SurfaceRequest),
    /// A new surface is allocated, the cached one is copied onto it at the origin, then dropped.
    Resize(SurfaceRequest),
}

/// One smoothing step on one axis: the position moves two fifths of the way to the
/// target, the step rounded up to a whole pixel so that the target is reached.
pub open spec fn smoothed(current: int, target: int) -> int {
    if target >= current {
        current + ((target - current) * 2 + 4) / 5
    } else {
        current - ((current - target) * 2 + 4) / 5
    }
}

pub open spec fn abs(x: int) -> int {
    if x >= 0 { x } else { -x }
}

/// Advances one axis of a window's position by one frame.
pub fn smooth_axis(current: i64, target: i64) -> (r: i64)
    requires
        0 <= current <= PIXEL_LIMIT,
        0 <= target <= PIXEL_LIMIT,
    ensures
        r == smoothed(current as int, target as int),
        0 <= r <= PIXEL_LIMIT,
{
    if target >= current {
        current + ((target - current) * 2 + 4) / 5
    } else {
        current - ((current - target) * 2 + 4) / 5
    }
}

/// With the target held still, each frame leaves three fifths of the distance to it,
/// rounded down to a whole pixel, and exactly three fifths when five divides the distance.
pub proof fn lemma_smoothing_contracts(current: int, target: int)
    ensures
        3 * abs(current - target) - 5 < 5 * abs(smoothed(current, target) - target) <= 3 * abs(current - target),
        (current - target) % 5 == 0 ==> 5 * abs(smoothed(current, target) - target) == 3 * abs(current - target),
        abs(smoothed(current, target) - target) == (3 * abs(current - target)) / 5,
        current <= target ==> current <= smoothed(current, target) <= target,
        target <= current ==> target <= smoothed(current, target) <= current,
{
}

/// A window that is already at its target stays there.
pub proof fn lemma_smoothing_fixed_point(target: int)
    ensures
        smoothed(target, target) == target,
{
}

/// What a surface holds at pixel `(x, y)` after the action, given what the cached
/// surface of size `old` held before: a resize keeps the old pixels where the two
/// overlap, anchored at the origin, and shows the background elsewhere.
pub open spec fn pixel_after(action: SurfaceAction, old: Surface, old_pixel: spec_fn(int, int) -> Color, x: int, y: int) -> Color {
    match action {
        SurfaceAction::Reuse => old_pixel(x, y),
        SurfaceAction::Create(req) => req.background,
        SurfaceAction::Resize(req) => if x < old.width && y < old.height {
            old_pixel(x, y)
        } else {
            req.background
        },
    }
}

} // verus!
