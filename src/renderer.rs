use vstd::prelude::*;
use vstd::hash_map::HashMapWithView;

use crate::draw::{
    background_op, draw_background, draw_foreground, foreground_ops, models, DrawCommand, DrawOp,
    OpModel,
};
use crate::geometry::{lemma_cell_product_bounds, rect, FontMetrics, PixelRect, PIXEL_LIMIT};
use crate::style::{Color, Style};
use crate::window::{
    smooth_axis, smoothed, FrameRenderInfo, RenderedWindow, Surface, SurfaceAction, SurfaceRequest,
    WindowRenderInfo,
};

verus! {

broadcast use vstd::std_specs::hash::group_hash_axioms;

/// What drawing one window produced this frame.
#[derive(Debug)]
pub struct WindowDraw {
    pub grid_id: u64,
    /// What to do with the window's surface before drawing into it.
    pub surface: SurfaceAction,
    /// The instructions to carry out on the window's surface, in order.
    pub ops: Vec<DrawOp>,
    /// Where the surface is composited onto the root target.
    pub position: (i64, i64),
    /// The on-screen region of the window.
    pub region: PixelRect,
}

/// What drawing one frame produced.
#[derive(Debug)]
pub struct Frame {
    /// The color the root target is cleared to before anything else is drawn.
    pub clear_color: Color,
    /// The windows, in the order the frame declared them; each is composited in turn.
    pub windows: Vec<WindowDraw>,
    /// Whether the font changed this frame.
    pub font_changed: bool,
}

/// The frame-rendering core: one cached surface per window, the font metrics, and the
/// regions of the windows drawn in the last frame.
pub struct Renderer {
    rendered_windows: HashMapWithView<u64, RenderedWindow>,
    pub font_width: u32,
    pub font_height: u32,
    underline_position: u32,
    font_size: u32,
    pub window_regions: Vec<(u64, PixelRect)>,
}

/// A smoothed position lies where a window can be placed.
pub open spec fn position_in_range(w: RenderedWindow) -> bool {
    0 <= w.current_position.0 <= PIXEL_LIMIT && 0 <= w.current_position.1 <= PIXEL_LIMIT
}

/// The pixel position a window is heading to.
pub open spec fn target_position(m: FontMetrics, info: WindowRenderInfo) -> (i64, i64) {
    (
        (info.grid_position.0 * m.font_width) as i64,
        (info.grid_position.1 * m.font_height) as i64,
    )
}

/// The pixel size a window's surface must have.
pub open spec fn target_size(m: FontMetrics, info: WindowRenderInfo) -> Surface {
    Surface { width: (info.width * m.font_width) as i64, height: (info.height * m.font_height) as i64 }
}

/// Whether the window starts over this frame: asked to, or not cached.
pub open spec fn starts_fresh(cache: Map<u64, RenderedWindow>, info: WindowRenderInfo) -> bool {
    info.should_clear || !cache.contains_key(info.grid_id)
}

/// The cache entry of a window after it is drawn.
pub open spec fn next_window(m: FontMetrics, cache: Map<u64, RenderedWindow>, info: WindowRenderInfo) -> RenderedWindow {
    let t = target_position(m, info);
    if starts_fresh(cache, info) {
        RenderedWindow { surface: target_size(m, info), current_position: t }
    } else {
        let p = cache[info.grid_id].current_position;
        RenderedWindow {
            surface: target_size(m, info),
            current_position: (smoothed(p.0 as int, t.0 as int) as i64, smoothed(p.1 as int, t.1 as int) as i64),
        }
    }
}

/// What happens to the window's surface when it is drawn.
pub open spec fn surface_action(m: FontMetrics, cache: Map<u64, RenderedWindow>, info: WindowRenderInfo, d: Style) -> SurfaceAction {
    let size = target_size(m, info);
    let req = SurfaceRequest { width: size.width, height: size.height, background: d.colors.background.unwrap() };
    if starts_fresh(cache, info) {
        SurfaceAction::Create(req)
    } else if cache[info.grid_id].surface == size {
        SurfaceAction::Reuse
    } else {
        SurfaceAction::Resize(req)
    }
}

/// The background pass over a list of commands.
pub open spec fn background_pass(m: FontMetrics, cmds: Seq<DrawCommand>, d: Style) -> Seq<OpModel>
    decreases cmds.len(),
{
    if cmds.len() == 0 {
        seq![]
    } else {
        background_pass(m, cmds.drop_last(), d).push(background_op(m, cmds.last(), d))
    }
}

/// The foreground pass over a list of commands.
pub open spec fn foreground_pass(m: FontMetrics, cmds: Seq<DrawCommand>, d: Style) -> Seq<OpModel>
    decreases cmds.len(),
{
    if cmds.len() == 0 {
        seq![]
    } else {
        foreground_pass(m, cmds.drop_last(), d) + foreground_ops(m, cmds.last(), d)
    }
}

/// `out` is what drawing the window produces against the given cache: the surface
/// action, the full background pass then the full foreground pass, and the smoothed
/// position with the window's region.
pub open spec fn window_drawn(m: FontMetrics, cache: Map<u64, RenderedWindow>, info: WindowRenderInfo, d: Style, out: WindowDraw) -> bool {
    let w = next_window(m, cache, info);
    let p = w.current_position;
    &&& out.grid_id == info.grid_id
    &&& out.surface == surface_action(m, cache, info, d)
    &&& out.position == p
    &&& out.region == rect(p.0 as int, p.1 as int, p.0 + w.surface.width, p.1 + w.surface.height)
    &&& models(out.ops@) == background_pass(m, info.draw_commands@, d) + foreground_pass(m, info.draw_commands@, d)
}

/// The cache after drawing the window.
pub open spec fn after_window(m: FontMetrics, cache: Map<u64, RenderedWindow>, info: WindowRenderInfo) -> Map<u64, RenderedWindow> {
    cache.insert(info.grid_id, next_window(m, cache, info))
}

/// The cache after drawing the windows in order.
pub open spec fn after_windows(m: FontMetrics, cache: Map<u64, RenderedWindow>, infos: Seq<WindowRenderInfo>) -> Map<u64, RenderedWindow>
    decreases infos.len(),
{
    if infos.len() == 0 {
        cache
    } else {
        after_window(m, after_windows(m, cache, infos.drop_last()), infos.last())
    }
}

/// The cache without the closed windows.
pub open spec fn without_closed(cache: Map<u64, RenderedWindow>, closed: Seq<u64>) -> Map<u64, RenderedWindow> {
    Map::new(|k: u64| cache.contains_key(k) && !closed.contains(k), |k: u64| cache[k])
}

/// Whether one of the windows has the given id.
pub open spec fn declares(infos: Seq<WindowRenderInfo>, id: u64) -> bool {
    exists|j: int| 0 <= j < infos.len() && #[trigger] infos[j].grid_id == id
}

/// `after` and `out` are what drawing `frame` on `before` gives: the root target is
/// cleared to the default background, the font changes exactly when one was loaded,
/// the closed windows leave the cache, and each window is drawn in order against the
/// cache as the windows before it left it.
pub open spec fn frame_drawn(before: Renderer, after: Renderer, frame: FrameRenderInfo, d: Style, loaded_font: Option<FontMetrics>, out: Frame) -> bool {
    let m = match loaded_font {
        Some(f) => f,
        None => before.metrics(),
    };
    let base = without_closed(before.windows(), frame.closed_window_ids@);
    let infos = frame.windows@;
    &&& after.wf()
    &&& out.font_changed == loaded_font is Some
    &&& out.clear_color == d.colors.background.unwrap()
    &&& after.metrics() == m
    &&& after.windows() == after_windows(m, base, infos)
    &&& out.windows@.len() == infos.len()
    &&& forall|j: int| 0 <= j < infos.len() ==> window_drawn(m, after_windows(m, base, #[trigger] infos.subrange(0, j)), infos[j], d, out.windows@[j])
    &&& after.regions().len() == infos.len()
    &&& forall|j: int| 0 <= j < infos.len() ==> #[trigger] after.regions()[j] == (out.windows@[j].grid_id, out.windows@[j].region)
}

impl Renderer {
    /// The current font metrics.
    pub closed spec fn metrics(&self) -> FontMetrics {
        FontMetrics {
            font_width: self.font_width,
            font_height: self.font_height,
            underline_position: self.underline_position,
            font_size: self.font_size,
        }
    }

    /// The cached windows, by grid id.
    pub closed spec fn windows(&self) -> Map<u64, RenderedWindow> {
        self.rendered_windows@
    }

    /// The regions of the windows drawn in the last frame.
    pub closed spec fn regions(&self) -> Seq<(u64, PixelRect)> {
        self.window_regions@
    }

    /// Every cached window's position lies in range.
    pub open spec fn wf(&self) -> bool {
        forall|k: u64| #[trigger] self.windows().contains_key(k) ==> position_in_range(self.windows()[k])
    }

    /// A renderer with no cached window, using the given font metrics.
    pub fn new(metrics: FontMetrics) -> (r: Renderer)
        ensures
            r.wf(),
            r.metrics() == metrics,
            r.windows() == Map::<u64, RenderedWindow>::empty(),
            r.regions() == Seq::<(u64, PixelRect)>::empty(),
    {
        Renderer {
            rendered_windows: HashMapWithView::new(),
            font_width: metrics.font_width,
            font_height: metrics.font_height,
            underline_position: metrics.underline_position,
            font_size: metrics.font_size,
            window_regions: Vec::new(),
        }
    }

    /// The current font metrics.
    pub fn font_metrics(&self) -> (r: FontMetrics)
        ensures
            r == self.metrics(),
    {
        FontMetrics {
            font_width: self.font_width,
            font_height: self.font_height,
            underline_position: self.underline_position,
            font_size: self.font_size,
        }
    }

    /// Takes the metrics of a font that the shaping cache has just loaded, if it loaded one;
    /// returns whether the font changed.
    pub fn update_font(&mut self, loaded: Option<FontMetrics>) -> (changed: bool)
        ensures
            changed == loaded is Some,
            final(self).metrics() == match loaded {
                Some(m) => m,
                None => old(self).metrics(),
            },
            final(self).windows() == old(self).windows(),
            final(self).regions() == old(self).regions(),
    {
        match loaded {
            Some(m) => {
                self.font_width = m.font_width;
                self.font_height = m.font_height;
                self.underline_position = m.underline_position;
                self.font_size = m.font_size;
                true
            },
            None => false,
        }
    }

    /// The surface to allocate for a window of the given pixel size: cleared to the
    /// default background.
    pub fn build_window_surface(&self, default_style: &Style, dimensions: (i64, i64)) -> (r: SurfaceRequest)
        requires
            default_style.is_complete(),
        ensures
            r == (SurfaceRequest {
                width: dimensions.0,
                height: dimensions.1,
                background: default_style.colors.background.unwrap(),
            }),
    {
        SurfaceRequest { width: dimensions.0, height: dimensions.1, background: default_style.colors.background.unwrap() }
    }

    /// Draws one window: resolves or creates its surface, advances its position, and
    /// repaints its commands; the window is then cached under its id.
    pub fn draw_window(&mut self, window_render_info: &WindowRenderInfo, default_style: &Style) -> (r: WindowDraw)
        requires
            old(self).wf(),
            default_style.is_complete(),
        ensures
            final(self).wf(),
            final(self).metrics() == old(self).metrics(),
            final(self).regions() == old(self).regions(),
            final(self).windows() == after_window(old(self).metrics(), old(self).windows(), *window_render_info),
            window_drawn(old(self).metrics(), old(self).windows(), *window_render_info, *default_style, r),
    {
        let info = window_render_info;
        let m = self.font_metrics();
        let ghost cache = self.windows();
        proof {
            lemma_cell_product_bounds(info.grid_position.0 as int, m.font_width as int);
            lemma_cell_product_bounds(info.grid_position.1 as int, m.font_height as int);
            lemma_cell_product_bounds(info.width as int, m.font_width as int);
            lemma_cell_product_bounds(info.height as int, m.font_height as int);
        }
        let target_left = info.grid_position.0 as i64 * m.font_width as i64;
        let target_top = info.grid_position.1 as i64 * m.font_height as i64;
        let image_width = info.width as i64 * m.font_width as i64;
        let image_height = info.height as i64 * m.font_height as i64;
        let size = Surface { width: image_width, height: image_height };

        let cached = if info.should_clear {
            None
        } else {
            self.rendered_windows.remove(&info.grid_id)
        };
        let (surface, start) = match cached {
            None => {
                let req = self.build_window_surface(default_style, (image_width, image_height));
                (SurfaceAction::Create(req), (target_left, target_top))
            },
            Some(w) => {
                if w.surface.width != image_width || w.surface.height != image_height {
                    let req = self.build_window_surface(default_style, (image_width, image_height));
                    (SurfaceAction::Resize(req), w.current_position)
                } else {
                    (SurfaceAction::Reuse, w.current_position)
                }
            },
        };
        let left = smooth_axis(start.0, target_left);
        let top = smooth_axis(start.1, target_top);

        let mut ops: Vec<DrawOp> = Vec::new();
        let cmds = &info.draw_commands;
        let mut i: usize = 0;
        while i < cmds.len()
            invariant
                i <= cmds@.len(),
                default_style.is_complete(),
                models(ops@) == background_pass(m, cmds@.subrange(0, i as int), *default_style),
            decreases cmds@.len() - i,
        {
            draw_background(&mut ops, &m, &cmds[i], default_style);
            assert(cmds@.subrange(0, i + 1).drop_last() =~= cmds@.subrange(0, i as int));
            i = i + 1;
        }
        assert(cmds@.subrange(0, cmds@.len() as int) =~= cmds@);
        let ghost back = models(ops@);
        let mut i: usize = 0;
        while i < cmds.len()
            invariant
                i <= cmds@.len(),
                default_style.is_complete(),
                models(ops@) == back + foreground_pass(m, cmds@.subrange(0, i as int), *default_style),
            decreases cmds@.len() - i,
        {
            draw_foreground(&mut ops, &m, &cmds[i], default_style);
            assert(cmds@.subrange(0, i + 1).drop_last() =~= cmds@.subrange(0, i as int));
            assert(models(ops@) =~= back + foreground_pass(m, cmds@.subrange(0, i + 1), *default_style));
            i = i + 1;
        }
        assert(cmds@.subrange(0, cmds@.len() as int) =~= cmds@);

        self.rendered_windows.insert(info.grid_id, RenderedWindow { surface: size, current_position: (left, top) });
        proof {
            assert(self.windows() =~= after_window(m, cache, *info));
        }
        WindowDraw {
            grid_id: info.grid_id,
            surface,
            ops,
            position: (left, top),
            region: PixelRect { left, top, right: left + image_width, bottom: top + image_height },
        }
    }

    /// Draws one frame: takes the metrics of a newly loaded font if there is one, drops
    /// the closed windows from the cache, then draws every window in order. The regions
    /// of the windows drawn replace those of the previous frame.
    pub fn draw(&mut self, frame: &FrameRenderInfo, default_style: &Style, loaded_font: Option<FontMetrics>) -> (r: Frame)
        requires
            old(self).wf(),
            default_style.is_complete(),
        ensures
            frame_drawn(*old(self), *final(self), *frame, *default_style, loaded_font, r),
    {
        let font_changed = self.update_font(loaded_font);
        let ghost m = self.metrics();
        let ghost start = self.windows();
        let closed = &frame.closed_window_ids;
        let mut i: usize = 0;
        while i < closed.len()
            invariant
                i <= closed@.len(),
                self.wf(),
                self.metrics() == m,
                self.windows() == without_closed(start, closed@.subrange(0, i as int)),
            decreases closed@.len() - i,
        {
            let _ = self.rendered_windows.remove(&closed[i]);
            proof {
                let prev = closed@.subrange(0, i as int);
                let next = closed@.subrange(0, i + 1);
                assert(next =~= prev.push(closed@[i as int]));
                assert forall|k: u64| next.contains(k) <==> prev.contains(k) || k == closed@[i as int] by {
                    if next.contains(k) {
                        let j = choose|j: int| 0 <= j < next.len() && next[j] == k;
                        if j < i {
                            assert(prev[j] == k);
                        }
                    }
                    if prev.contains(k) {
                        let j = choose|j: int| 0 <= j < prev.len() && prev[j] == k;
                        assert(next[j] == k);
                    }
                    if k == closed@[i as int] {
                        assert(next[i as int] == k);
                    }
                }
                assert(self.windows() =~= without_closed(start, next));
            }
            i = i + 1;
        }
        assert(closed@.subrange(0, closed@.len() as int) =~= closed@);
        let ghost base = self.windows();

        let windows = &frame.windows;
        let mut drawn: Vec<WindowDraw> = Vec::new();
        let mut regions: Vec<(u64, PixelRect)> = Vec::new();
        let mut i: usize = 0;
        while i < windows.len()
            invariant
                i <= windows@.len(),
                self.wf(),
                default_style.is_complete(),
                self.metrics() == m,
                self.windows() == after_windows(m, base, windows@.subrange(0, i as int)),
                drawn@.len() == i,
                regions@.len() == i,
                forall|j: int| 0 <= j < i ==> window_drawn(m, after_windows(m, base, #[trigger] windows@.subrange(0, j)), windows@[j], *default_style, drawn@[j]),
                forall|j: int| 0 <= j < i ==> #[trigger] regions@[j] == (drawn@[j].grid_id, drawn@[j].region),
            decreases windows@.len() - i,
        {
            let out = self.draw_window(&windows[i], default_style);
            assert(windows@.subrange(0, i + 1).drop_last() =~= windows@.subrange(0, i as int));
            regions.push((out.grid_id, out.region));
            drawn.push(out);
            i = i + 1;
        }
        assert(windows@.subrange(0, windows@.len() as int) =~= windows@);
        self.window_regions = regions;
        Frame { clear_color: default_style.colors.background.unwrap(), windows: drawn, font_changed }
    }
}

} // verus!
