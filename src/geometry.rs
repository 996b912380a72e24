use vstd::prelude::*;

verus! {

/// Largest product of a cell coordinate or count (a `u16`) and a font dimension (a `u32`):
/// pixel coordinates stay within twice this, far inside `i64`.
pub const PIXEL_LIMIT: i64 = 281470681677825;

/// An axis-aligned pixel rectangle: left, top, right, bottom.
#[derive(Clone, Copy, Debug, PartialEq, Eq, Structural)]
pub struct PixelRect {
    pub left: i64,
    pub top: i64,
    pub right: i64,
    pub bottom: i64,
}

/// Font metrics in whole pixels, as the shaping cache reports them.
#[derive(Clone, Copy, Debug, PartialEq, Eq, Structural)]
pub struct FontMetrics {
    pub font_width: u32,
    pub font_height: u32,
    /// Distance of the underline above the bottom of a cell.
    pub underline_position: u32,
    /// Size of the font; decoration strokes are a tenth of it.
    pub font_size: u32,
}

/// The rectangle with the given corners.
pub open spec fn rect(left: int, top: int, right: int, bottom: int) -> PixelRect {
    PixelRect { left: left as i64, top: top as i64, right: right as i64, bottom: bottom as i64 }
}

/// The pixel rectangle covered by `cell_width` cells starting at cell `(gx, gy)`.
pub open spec fn text_region(fw: int, fh: int, gx: int, gy: int, cell_width: int) -> PixelRect {
    rect(gx * fw, gy * fh, gx * fw + cell_width * fw, gy * fh + fh)
}

pub(crate) proof fn lemma_cell_product_bounds(a: int, f: int)
    requires
        0 <= a <= 65535,
        0 <= f <= 4294967295,
    ensures
        0 <= a * f <= PIXEL_LIMIT,
{
    assert(a * f <= 65535 * 4294967295) by (nonlinear_arith)
        requires 0 <= a <= 65535, 0 <= f <= 4294967295;
    assert(0 <= a * f) by (nonlinear_arith)
        requires 0 <= a, 0 <= f;
}

/// Maps a run of `cell_width` cells at `grid_pos` to pixels under the given font metrics.
pub fn compute_text_region(metrics: &FontMetrics, grid_pos: (u16, u16), cell_width: u16) -> (r: PixelRect)
    ensures
        r == text_region(
            metrics.font_width as int,
            metrics.font_height as int,
            grid_pos.0 as int,
            grid_pos.1 as int,
            cell_width as int,
        ),
        0 <= r.left <= r.right <= 2 * PIXEL_LIMIT,
        0 <= r.top <= r.bottom <= 2 * PIXEL_LIMIT,
        r.left <= PIXEL_LIMIT && r.top <= PIXEL_LIMIT,
{
    let (grid_x, grid_y) = grid_pos;
    let fw = metrics.font_width as i64;
    let fh = metrics.font_height as i64;
    proof {
        lemma_cell_product_bounds(grid_x as int, fw as int);
        lemma_cell_product_bounds(grid_y as int, fh as int);
        lemma_cell_product_bounds(cell_width as int, fw as int);
    }
    let x = grid_x as i64 * fw;
    let y = grid_y as i64 * fh;
    let width = cell_width as i64 * fw;
    PixelRect { left: x, top: y, right: x + width, bottom: y + fh }
}

} // verus!
