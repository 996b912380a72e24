use grid_renderer::draw::{draw_foreground, DrawCommand, DrawOp};
use grid_renderer::geometry::{compute_text_region, FontMetrics, PixelRect};
use grid_renderer::renderer::Renderer;
use grid_renderer::style::{resolve_style, Color, Colors, Style};
use grid_renderer::window::{
    smooth_axis, FrameRenderInfo, Surface, SurfaceAction, SurfaceRequest, WindowRenderInfo,
};

const BG: Color = Color { r: 10, g: 20, b: 30, a: 255 };
const FG: Color = Color { r: 200, g: 200, b: 200, a: 255 };
const SP: Color = Color { r: 255, g: 0, b: 0, a: 255 };

fn metrics(w: u32, h: u32) -> FontMetrics {
    FontMetrics { font_width: w, font_height: h, underline_position: 3, font_size: 20 }
}

fn default_style() -> Style {
    Style {
        colors: Colors { foreground: Some(FG), background: Some(BG), special: Some(SP) },
        bold: false,
        italic: false,
        underline: false,
        undercurl: false,
        strikethrough: false,
    }
}

fn plain(bold: bool) -> Style {
    Style {
        colors: Colors { foreground: None, background: None, special: None },
        bold,
        italic: false,
        underline: false,
        undercurl: false,
        strikethrough: false,
    }
}

fn command(x: u16, y: u16, w: u16, text: &str, style: Option<Style>) -> DrawCommand {
    DrawCommand { grid_position: (x, y), cell_width: w, text: text.to_string(), style }
}

fn window(id: u64, pos: (u16, u16), w: u16, h: u16, clear: bool, cmds: Vec<DrawCommand>) -> WindowRenderInfo {
    WindowRenderInfo { grid_id: id, grid_position: pos, width: w, height: h, should_clear: clear, draw_commands: cmds }
}

fn frame(windows: Vec<WindowRenderInfo>, closed: Vec<u64>) -> FrameRenderInfo {
    FrameRenderInfo { windows, closed_window_ids: closed }
}

fn rect(left: i64, top: i64, right: i64, bottom: i64) -> PixelRect {
    PixelRect { left, top, right, bottom }
}

#[test]
fn region_follows_font_metrics() {
    let m = metrics(8, 16);
    assert_eq!(compute_text_region(&m, (3, 2), 5), rect(24, 32, 64, 48));
    assert_eq!(compute_text_region(&m, (0, 0), 0), rect(0, 0, 0, 16));
    let big = metrics(u32::MAX, u32::MAX);
    let r = compute_text_region(&big, (u16::MAX, u16::MAX), u16::MAX);
    assert_eq!(r.left, 65535 * 4294967295);
    assert_eq!(r.right, 2 * 65535 * 4294967295);
}

#[test]
fn smoothing_keeps_three_fifths_of_the_distance() {
    assert_eq!(smooth_axis(0, 100), 40);
    assert_eq!(smooth_axis(40, 100), 64);
    assert_eq!(smooth_axis(100, 0), 60);
    assert_eq!(smooth_axis(50, 50), 50);
    // The step is rounded up, so a window a pixel or two away reaches its target.
    assert_eq!(smooth_axis(0, 1), 1);
    assert_eq!(smooth_axis(0, 2), 1);
    assert_eq!(smooth_axis(1, 2), 2);
    assert_eq!(smooth_axis(7, 0), 4);
}

#[test]
fn unstyled_command_uses_default_style() {
    let mut d = default_style();
    d.bold = true;
    d.underline = true;
    let r = resolve_style(&None, &d);
    assert_eq!((r.background, r.foreground, r.special), (BG, FG, SP));
    assert!(!r.bold && !r.italic && !r.underline && !r.undercurl && !r.strikethrough);

    let mut s = plain(true);
    s.colors.background = Some(SP);
    let r = resolve_style(&Some(s), &d);
    assert_eq!((r.background, r.foreground, r.special), (SP, FG, SP));
    assert!(r.bold && !r.underline);
}

#[test]
fn first_frame_creates_surface_and_region() {
    let m = metrics(8, 16);
    let mut renderer = Renderer::new(m);
    let f = frame(vec![window(1, (0, 0), 10, 5, true, vec![command(0, 0, 5, "hello", None)])], vec![]);
    let out = renderer.draw(&f, &default_style(), None);
    assert!(!out.font_changed);
    assert_eq!(out.clear_color, BG);
    assert_eq!(out.windows.len(), 1);
    let w = &out.windows[0];
    assert_eq!(w.surface, SurfaceAction::Create(SurfaceRequest { width: 80, height: 80, background: BG }));
    assert_eq!(w.position, (0, 0));
    assert_eq!(renderer.window_regions, vec![(1, rect(0, 0, 80, 80))]);
    assert_eq!(w.ops.len(), 5);
    assert!(matches!(w.ops[0], DrawOp::FillRect { rect: r, color } if r == rect(0, 0, 40, 16) && color == BG));
    assert!(matches!(w.ops[1], DrawOp::Save));
    assert!(matches!(w.ops[2], DrawOp::ClipRect { rect: r } if r == rect(0, 0, 40, 16)));
    match &w.ops[3] {
        DrawOp::Text { text, bold, italic, origin, color } => {
            assert_eq!(text, "hello");
            assert!(!bold && !italic);
            assert_eq!(*origin, (0, 0));
            assert_eq!(*color, FG);
        }
        other => panic!("expected text, got {:?}", other),
    }
    assert!(matches!(w.ops[4], DrawOp::Restore));
}

#[test]
fn moved_window_eases_towards_target() {
    let m = metrics(10, 20);
    let mut renderer = Renderer::new(m);
    let d = default_style();
    renderer.draw(&frame(vec![window(1, (0, 0), 10, 5, true, vec![])], vec![]), &d, None);
    let out = renderer.draw(&frame(vec![window(1, (2, 0), 10, 5, false, vec![])], vec![]), &d, None);
    // Target is 20 pixels away: the window moves 0.4 of that.
    assert_eq!(out.windows[0].position, (8, 0));
    assert_eq!(out.windows[0].surface, SurfaceAction::Reuse);
    assert_eq!(renderer.window_regions, vec![(1, rect(8, 0, 108, 100))]);
    let out = renderer.draw(&frame(vec![window(1, (2, 0), 10, 5, false, vec![])], vec![]), &d, None);
    // 12 pixels remain; the step of 4.8 is rounded up.
    assert_eq!(out.windows[0].position, (13, 0));
}

#[test]
fn clear_snaps_to_target() {
    let m = metrics(10, 20);
    let mut renderer = Renderer::new(m);
    let d = default_style();
    renderer.draw(&frame(vec![window(7, (0, 0), 4, 4, true, vec![])], vec![]), &d, None);
    let out = renderer.draw(&frame(vec![window(7, (5, 3), 4, 4, true, vec![])], vec![]), &d, None);
    assert_eq!(out.windows[0].position, (50, 60));
    assert_eq!(out.windows[0].surface, SurfaceAction::Create(SurfaceRequest { width: 40, height: 80, background: BG }));
}

#[test]
fn resize_copies_old_surface() {
    let m = metrics(10, 20);
    let mut renderer = Renderer::new(m);
    let d = default_style();
    renderer.draw(&frame(vec![window(3, (0, 0), 10, 5, true, vec![])], vec![]), &d, None);
    renderer.draw(&frame(vec![window(3, (5, 0), 10, 5, false, vec![])], vec![]), &d, None);
    let out = renderer.draw(&frame(vec![window(3, (5, 0), 12, 5, false, vec![])], vec![]), &d, None);
    assert_eq!(out.windows[0].surface, SurfaceAction::Resize(SurfaceRequest { width: 120, height: 100, background: BG }));
    // The smoothing carried on from 20 towards 50.
    assert_eq!(out.windows[0].position, (32, 0));
    assert_eq!(renderer.window_regions, vec![(3, rect(32, 0, 152, 100))]);
}

#[test]
fn font_change_resizes_surfaces() {
    let mut renderer = Renderer::new(metrics(10, 20));
    let d = default_style();
    renderer.draw(&frame(vec![window(3, (0, 0), 10, 5, true, vec![])], vec![]), &d, None);
    let out = renderer.draw(&frame(vec![window(3, (0, 0), 10, 5, false, vec![])], vec![]), &d, Some(metrics(12, 24)));
    assert!(out.font_changed);
    assert_eq!(renderer.font_width, 12);
    assert_eq!(renderer.font_height, 24);
    assert_eq!(out.windows[0].surface, SurfaceAction::Resize(SurfaceRequest { width: 120, height: 120, background: BG }));
}

#[test]
fn closed_window_is_evicted() {
    let mut renderer = Renderer::new(metrics(10, 20));
    let d = default_style();
    renderer.draw(&frame(vec![window(4, (1, 1), 2, 2, true, vec![]), window(5, (0, 0), 2, 2, true, vec![])], vec![]), &d, None);
    let out = renderer.draw(&frame(vec![window(5, (0, 0), 2, 2, false, vec![])], vec![4]), &d, None);
    assert_eq!(renderer.window_regions, vec![(5, rect(0, 0, 20, 40))]);
    assert_eq!(out.windows[0].surface, SurfaceAction::Reuse);
    renderer.draw(&frame(vec![], vec![]), &d, None);
    assert!(renderer.window_regions.is_empty());
    // Declared again without a clear, it starts over on a new surface at its target.
    let out = renderer.draw(&frame(vec![window(4, (1, 1), 2, 2, false, vec![])], vec![]), &d, None);
    assert_eq!(out.windows[0].surface, SurfaceAction::Create(SurfaceRequest { width: 20, height: 40, background: BG }));
    assert_eq!(out.windows[0].position, (10, 20));
}

#[test]
fn two_passes_paint_backgrounds_first() {
    let mut renderer = Renderer::new(metrics(10, 20));
    let d = default_style();
    let cmds = vec![command(0, 0, 2, "ab", None), command(2, 0, 3, "cde", Some(plain(true)))];
    let out = renderer.draw(&frame(vec![window(1, (0, 0), 10, 1, true, cmds)], vec![]), &d, None);
    let ops = &out.windows[0].ops;
    assert_eq!(ops.len(), 2 + 2 * 4);
    assert!(matches!(ops[0], DrawOp::FillRect { rect: r, .. } if r == rect(0, 0, 20, 20)));
    assert!(matches!(ops[1], DrawOp::FillRect { rect: r, .. } if r == rect(20, 0, 50, 20)));
    assert!(matches!(ops[2], DrawOp::Save));
    match &ops[8] {
        DrawOp::Text { text, bold, origin, .. } => {
            assert_eq!(text, "cde");
            assert!(*bold);
            assert_eq!(*origin, (20, 0));
        }
        other => panic!("expected text, got {:?}", other),
    }
    assert!(matches!(ops[9], DrawOp::Restore));
}

#[test]
fn trailing_whitespace_is_trimmed() {
    let m = metrics(10, 20);
    let d = default_style();
    let mut ops = Vec::new();
    draw_foreground(&mut ops, &m, &command(1, 1, 6, "hi \t  ", None), &d);
    assert_eq!(ops.len(), 4);
    match &ops[2] {
        DrawOp::Text { text, origin, .. } => {
            assert_eq!(text, "hi");
            assert_eq!(*origin, (10, 20));
        }
        other => panic!("expected text, got {:?}", other),
    }
    let mut ops = Vec::new();
    draw_foreground(&mut ops, &m, &command(1, 1, 6, "     ", None), &d);
    assert_eq!(ops.len(), 3);
    assert!(matches!(ops[2], DrawOp::Restore));
}

#[test]
fn decorations_use_special_color() {
    let m = metrics(10, 20);
    let d = default_style();
    let mut s = plain(false);
    s.undercurl = true;
    s.strikethrough = true;
    let mut ops = Vec::new();
    draw_foreground(&mut ops, &m, &command(1, 0, 2, "x", Some(s)), &d);
    assert_eq!(ops.len(), 6);
    match &ops[2] {
        DrawOp::Line { from, to, color, stroke_width, dash } => {
            assert_eq!((*from, *to), ((10, 17), (30, 17)));
            assert_eq!(*color, SP);
            assert_eq!(*stroke_width, 2);
            assert_eq!(*dash, Some(4));
        }
        other => panic!("expected line, got {:?}", other),
    }
    match &ops[4] {
        DrawOp::Line { from, to, dash, .. } => {
            assert_eq!((*from, *to), ((10, 10), (30, 10)));
            assert_eq!(*dash, None);
        }
        other => panic!("expected line, got {:?}", other),
    }
    let mut u = plain(false);
    u.underline = true;
    let mut ops = Vec::new();
    draw_foreground(&mut ops, &m, &command(0, 0, 1, "", Some(u)), &d);
    assert_eq!(ops.len(), 4);
    assert!(matches!(ops[2], DrawOp::Line { dash: None, stroke_width: 2, .. }));
}

#[test]
fn build_window_surface_uses_default_background() {
    let renderer = Renderer::new(metrics(10, 20));
    let req = renderer.build_window_surface(&default_style(), (30, 40));
    assert_eq!(req, SurfaceRequest { width: 30, height: 40, background: BG });
    let _ = Surface { width: 30, height: 40 };
}
