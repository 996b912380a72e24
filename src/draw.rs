use vstd::prelude::*;
use vstd::string::StrSliceExecFns;

use crate::geometry::{compute_text_region, text_region, FontMetrics, PixelRect};
use crate::style::{resolve_style, resolved, Color, ResolvedStyle, Style};

verus! {

/// One run of styled text in a window's grid.
#[derive(Debug)]
pub struct DrawCommand {
    pub grid_position: (u16, u16),
    pub cell_width: u16,
    pub text: String,
    pub style: Option<Style>,
}

/// A drawing instruction for a surface, carried out in order by the drawing backend.
#[derive(Debug)]
pub enum DrawOp {
    /// Fill a rectangle with a color.
    FillRect { rect: PixelRect, color: Color },
    /// Push the clip and paint state.
    Save,
    /// Pop the clip and paint state pushed by the matching `Save`.
    Restore,
    /// Restrict drawing to a rectangle until the next `Restore`.
    ClipRect { rect: PixelRect },
    /// A horizontal or vertical line; `dash` is the length of each segment and gap.
    Line { from: (i64, i64), to: (i64, i64), color: Color, stroke_width: i64, dash: Option<i64> },
    /// Shape `text` with the given flags and draw it with its origin at `origin`.
    Text { text: String, bold: bool, italic: bool, origin: (i64, i64), color: Color },
}

/// The meaning of a `DrawOp`, with its text as a sequence of characters.
pub enum OpModel {
    FillRect { rect: PixelRect, color: Color },
    Save,
    Restore,
    ClipRect { rect: PixelRect },
    Line { from: (i64, i64), to: (i64, i64), color: Color, stroke_width: i64, dash: Option<i64> },
    Text { text: Seq<char>, bold: bool, italic: bool, origin: (i64, i64), color: Color },
}

impl View for DrawOp {
    type V = OpModel;

    open spec fn view(&self) -> OpModel {
        match *self {
            DrawOp::FillRect { rect, color } => OpModel::FillRect { rect, color },
            DrawOp::Save => OpModel::Save,
            DrawOp::Restore => OpModel::Restore,
            DrawOp::ClipRect { rect } => OpModel::ClipRect { rect },
            DrawOp::Line { from, to, color, stroke_width, dash } => OpModel::Line {
                from,
                to,
                color,
                stroke_width,
                dash,
            },
            DrawOp::Text { text, bold, italic, origin, color } => OpModel::Text {
                text: text@,
                bold,
                italic,
                origin,
                color,
            },
        }
    }
}

/// The models of a sequence of instructions.
pub open spec fn models(s: Seq<DrawOp>) -> Seq<OpModel> {
    s.map_values(|o: DrawOp| o@)
}

/// What `str::trim_end` leaves of a string: it without its trailing whitespace.
pub uninterp spec fn trimmed_end(s: Seq<char>) -> Seq<char>;

/// Relies on `str::trim_end`: the result is the argument without its trailing
/// whitespace, so a prefix of it.
#[verifier::external_body]
fn trim_trailing_whitespace(s: &String) -> (r: String)
    ensures
        r@ == trimmed_end(s@),
        r@.len() <= s@.len(),
        r@ == s@.subrange(0, r@.len() as int),
{
    s.trim_end().to_string()
}

/// The cell region of a command.
pub open spec fn command_region(m: FontMetrics, c: DrawCommand) -> PixelRect {
    text_region(
        m.font_width as int,
        m.font_height as int,
        c.grid_position.0 as int,
        c.grid_position.1 as int,
        c.cell_width as int,
    )
}

/// Width of decoration strokes: a tenth of the font size.
pub open spec fn stroke_width(m: FontMetrics) -> i64 {
    (m.font_size / 10) as i64
}

/// The background pass's instruction for one command.
pub open spec fn background_op(m: FontMetrics, c: DrawCommand, d: Style) -> OpModel {
    OpModel::FillRect { rect: command_region(m, c), color: resolved(c.style, d).background }
}

/// The underline or undercurl of a command, if its style asks for one.
pub open spec fn underline_ops(m: FontMetrics, c: DrawCommand, s: ResolvedStyle) -> Seq<OpModel> {
    let r = command_region(m, c);
    let y = r.bottom - m.underline_position;
    if s.underline || s.undercurl {
        seq![OpModel::Line {
            from: (r.left, y as i64),
            to: (r.right, y as i64),
            color: s.special,
            stroke_width: stroke_width(m),
            dash: if s.undercurl { Some((2 * stroke_width(m)) as i64) } else { None },
        }]
    } else {
        seq![]
    }
}

/// The glyphs of a command: its text without trailing whitespace, if any is left.
pub open spec fn text_ops(m: FontMetrics, c: DrawCommand, s: ResolvedStyle) -> Seq<OpModel> {
    let r = command_region(m, c);
    let t = trimmed_end(c.text@);
    if t.len() > 0 {
        seq![OpModel::Text { text: t, bold: s.bold, italic: s.italic, origin: (r.left, r.top), color: s.foreground }]
    } else {
        seq![]
    }
}

/// The strikethrough of a command, if its style asks for one: through the middle of its region.
pub open spec fn strikethrough_ops(m: FontMetrics, c: DrawCommand, s: ResolvedStyle) -> Seq<OpModel> {
    let r = command_region(m, c);
    let y = r.top + m.font_height / 2;
    if s.strikethrough {
        seq![OpModel::Line {
            from: (r.left, y as i64),
            to: (r.right, y as i64),
            color: s.special,
            stroke_width: stroke_width(m),
            dash: None,
        }]
    } else {
        seq![]
    }
}

/// The foreground pass's instructions for one command, clipped to its region and
/// bracketed by a save and a restore so that nothing leaks into the next command.
pub open spec fn foreground_ops(m: FontMetrics, c: DrawCommand, d: Style) -> Seq<OpModel> {
    let s = resolved(c.style, d);
    seq![OpModel::Save, OpModel::ClipRect { rect: command_region(m, c) }]
        + underline_ops(m, c, s)
        + text_ops(m, c, s)
        + strikethrough_ops(m, c, s)
        + seq![OpModel::Restore]
}

fn push_op(ops: &mut Vec<DrawOp>, op: DrawOp)
    ensures
        models(final(ops)@) == models(old(ops)@).push(op@),
{
    ops.push(op);
    assert(models(ops@) =~= models(old(ops)@).push(op@));
}

/// Appends the background fill of one command.
pub fn draw_background(ops: &mut Vec<DrawOp>, metrics: &FontMetrics, command: &DrawCommand, default_style: &Style)
    requires
        default_style.is_complete(),
    ensures
        models(final(ops)@) == models(old(ops)@).push(background_op(*metrics, *command, *default_style)),
{
    let region = compute_text_region(metrics, command.grid_position, command.cell_width);
    let style = resolve_style(&command.style, default_style);
    push_op(ops, DrawOp::FillRect { rect: region, color: style.background });
}

/// Appends the decorations and glyphs of one command.
pub fn draw_foreground(ops: &mut Vec<DrawOp>, metrics: &FontMetrics, command: &DrawCommand, default_style: &Style)
    requires
        default_style.is_complete(),
    ensures
        models(final(ops)@) == models(old(ops)@) + foreground_ops(*metrics, *command, *default_style),
{
    let ghost start = models(old(ops)@);
    let ghost m = *metrics;
    let ghost c = *command;
    let region = compute_text_region(metrics, command.grid_position, command.cell_width);
    let style = resolve_style(&command.style, default_style);
    let stroke = (metrics.font_size / 10) as i64;
    push_op(ops, DrawOp::Save);
    push_op(ops, DrawOp::ClipRect { rect: region });
    let ghost s = resolved(c.style, *default_style);
    assert(models(ops@) =~= start + seq![OpModel::Save, OpModel::ClipRect { rect: command_region(m, c) }]);
    let ghost mid1 = models(ops@);

    if style.underline || style.undercurl {
        let y = region.bottom - metrics.underline_position as i64;
        let dash = if style.undercurl { Some(2 * stroke) } else { None };
        push_op(ops, DrawOp::Line { from: (region.left, y), to: (region.right, y), color: style.special, stroke_width: stroke, dash });
    }
    assert(models(ops@) =~= mid1 + underline_ops(m, c, s));
    let ghost mid2 = models(ops@);

    let text = trim_trailing_whitespace(&command.text);
    if text.as_str().unicode_len() > 0 {
        push_op(ops, DrawOp::Text { text, bold: style.bold, italic: style.italic, origin: (region.left, region.top), color: style.foreground });
    }
    assert(models(ops@) =~= mid2 + text_ops(m, c, s));
    let ghost mid3 = models(ops@);

    if style.strikethrough {
        let y = region.top + (metrics.font_height / 2) as i64;
        push_op(ops, DrawOp::Line { from: (region.left, y), to: (region.right, y), color: style.special, stroke_width: stroke, dash: None });
    }
    assert(models(ops@) =~= mid3 + strikethrough_ops(m, c, s));

    push_op(ops, DrawOp::Restore);
    assert(models(ops@) =~= start + foreground_ops(m, c, *default_style));
}

} // verus!
