use vstd::prelude::*;

use crate::geometry::FontMetrics;
use crate::renderer::{
    after_window, after_windows, declares, frame_drawn, target_position, target_size,
    window_drawn, without_closed, Frame, Renderer, WindowDraw,
};
use crate::style::{Color, Style};
use crate::window::{
    abs, lemma_smoothing_contracts, pixel_after, smoothed, FrameRenderInfo, RenderedWindow,
    SurfaceAction, WindowRenderInfo,
};

verus! {

/// Drawing windows adds exactly the ids they declare to the cache.
pub proof fn lemma_after_windows_keys(m: FontMetrics, cache: Map<u64, RenderedWindow>, infos: Seq<WindowRenderInfo>, id: u64)
    ensures
        after_windows(m, cache, infos).contains_key(id) <==> cache.contains_key(id) || declares(infos, id),
    decreases infos.len(),
{
    if infos.len() > 0 {
        let prefix = infos.drop_last();
        lemma_after_windows_keys(m, cache, prefix, id);
        if declares(prefix, id) {
            let j = choose|j: int| 0 <= j < prefix.len() && #[trigger] prefix[j].grid_id == id;
            assert(infos[j].grid_id == id);
        }
        if declares(infos, id) && infos.last().grid_id != id {
            let j = choose|j: int| 0 <= j < infos.len() && #[trigger] infos[j].grid_id == id;
            assert(prefix[j].grid_id == id);
        }
        if infos.last().grid_id == id {
            assert(infos[infos.len() - 1].grid_id == id);
        }
    }
}

/// After a frame, a window is cached exactly when that frame declared it, or it was
/// cached before and the frame did not close it.
pub proof fn lemma_frame_cache_keys(before: Renderer, after: Renderer, frame: FrameRenderInfo, d: Style, loaded_font: Option<FontMetrics>, out: Frame, id: u64)
    requires
        frame_drawn(before, after, frame, d, loaded_font, out),
    ensures
        after.windows().contains_key(id) <==> declares(frame.windows@, id) || (before.windows().contains_key(id)
            && !frame.closed_window_ids@.contains(id)),
{
    let m = after.metrics();
    lemma_after_windows_keys(m, without_closed(before.windows(), frame.closed_window_ids@), frame.windows@, id);
}

/// A window that a frame closes and does not declare is gone from the cache after it.
pub proof fn lemma_closed_window_evicted(before: Renderer, after: Renderer, frame: FrameRenderInfo, d: Style, loaded_font: Option<FontMetrics>, out: Frame, id: u64)
    requires
        frame_drawn(before, after, frame, d, loaded_font, out),
        frame.closed_window_ids@.contains(id),
        !declares(frame.windows@, id),
    ensures
        !after.windows().contains_key(id),
{
    lemma_frame_cache_keys(before, after, frame, d, loaded_font, out, id);
}

/// A window absent from the cache stays absent through a frame that does not declare it.
pub proof fn lemma_absent_window_stays_absent(before: Renderer, after: Renderer, frame: FrameRenderInfo, d: Style, loaded_font: Option<FontMetrics>, out: Frame, id: u64)
    requires
        frame_drawn(before, after, frame, d, loaded_font, out),
        !before.windows().contains_key(id),
        !declares(frame.windows@, id),
    ensures
        !after.windows().contains_key(id),
{
    lemma_frame_cache_keys(before, after, frame, d, loaded_font, out, id);
}

/// A window that asks to be cleared is placed at its target at once, whatever its history,
/// on a new surface cleared to the default background.
pub proof fn lemma_clear_snaps_to_target(m: FontMetrics, cache: Map<u64, RenderedWindow>, info: WindowRenderInfo, d: Style, out: WindowDraw)
    requires
        window_drawn(m, cache, info, d, out),
        info.should_clear,
    ensures
        out.position == target_position(m, info),
        after_window(m, cache, info)[info.grid_id].current_position == target_position(m, info),
        out.surface is Create,
{
}

/// A cached window moves towards its target: on each axis three fifths of the distance
/// remain, rounded down to a whole pixel.
pub proof fn lemma_window_approaches_target(m: FontMetrics, cache: Map<u64, RenderedWindow>, info: WindowRenderInfo, d: Style, out: WindowDraw)
    requires
        window_drawn(m, cache, info, d, out),
        !info.should_clear,
        cache.contains_key(info.grid_id),
    ensures
        ({
            let p = cache[info.grid_id].current_position;
            let t = target_position(m, info);
            &&& out.position.0 == smoothed(p.0 as int, t.0 as int)
            &&& out.position.1 == smoothed(p.1 as int, t.1 as int)
            &&& abs(out.position.0 - t.0) == (3 * abs(p.0 - t.0)) / 5
            &&& abs(out.position.1 - t.1) == (3 * abs(p.1 - t.1)) / 5
        }),
{
    let p = cache[info.grid_id].current_position;
    let t = target_position(m, info);
    lemma_smoothing_contracts(p.0 as int, t.0 as int);
    lemma_smoothing_contracts(p.1 as int, t.1 as int);
}

/// Resizing a cached window keeps its content where the old and new surfaces overlap,
/// anchored at the origin, shows the default background in the newly exposed area, and
/// keeps the window under its id with its smoothing state carried on.
pub proof fn lemma_resize_keeps_content(m: FontMetrics, cache: Map<u64, RenderedWindow>, info: WindowRenderInfo, d: Style, out: WindowDraw, old_pixel: spec_fn(int, int) -> Color, x: int, y: int)
    requires
        d.is_complete(),
        window_drawn(m, cache, info, d, out),
        !info.should_clear,
        cache.contains_key(info.grid_id),
        cache[info.grid_id].surface != target_size(m, info),
        0 <= x < target_size(m, info).width,
        0 <= y < target_size(m, info).height,
    ensures
        out.surface is Resize,
        ({
            let old = cache[info.grid_id].surface;
            let px = pixel_after(out.surface, old, old_pixel, x, y);
            &&& x < old.width && y < old.height ==> px == old_pixel(x, y)
            &&& !(x < old.width && y < old.height) ==> Some(px) == d.colors.background
        }),
        after_window(m, cache, info).contains_key(info.grid_id),
        out.position == after_window(m, cache, info)[info.grid_id].current_position,
        out.position.0 == smoothed(cache[info.grid_id].current_position.0 as int, target_position(m, info).0 as int),
        out.position.1 == smoothed(cache[info.grid_id].current_position.1 as int, target_position(m, info).1 as int),
{
}

} // verus!
