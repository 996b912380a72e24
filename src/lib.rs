//! The frame-rendering core of a text-editor front-end: one cached surface per editor
//! window, a two-pass cell draw pipeline, window position smoothing, and frame
//! orchestration. Drawing is produced as instructions for a backend to carry out.
use vstd::prelude::*;

pub mod draw;
pub mod geometry;
pub mod laws;
pub mod renderer;
pub mod style;
pub mod window;

pub use draw::{DrawCommand, DrawOp};
pub use geometry::{compute_text_region, FontMetrics, PixelRect};
pub use renderer::{Frame, Renderer, WindowDraw};
pub use style::{Color, Colors, ResolvedStyle, Style};
pub use window::{FrameRenderInfo, RenderedWindow, Surface, SurfaceAction, SurfaceRequest, WindowRenderInfo};

verus! {

} // verus!
