use vstd::prelude::*;

pub mod atlas;
pub mod color;
pub mod frame_loop;
pub mod grid;
pub mod input;
pub mod setup;

pub use atlas::{char_to_uvs, Uv, FONT_COLUMNS, FONT_ROWS};
pub use color::Color;
pub use frame_loop::{cell_at, App, FrameLoop, GlyphSize, LoopAction, LoopEvent};
pub use grid::{create_frame, Frame, GridPoint, Vertex, MAX_CELLS};
pub use input::{KeyCode, Update};
pub use setup::{glyph_size, load_font, prepare, window_size, Config, Font, Prepared, SetupError};

verus! {

} // verus!
