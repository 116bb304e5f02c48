use vstd::prelude::*;
use crate::atlas::{FONT_COLUMNS, FONT_ROWS};
use crate::frame_loop::{FrameLoop, GlyphSize};
use crate::grid::{blank_uv, create_frame, MAX_CELLS};

verus! {

/// What the application asks for: a window title, the grid's size in cells,
/// and the font atlas as PNG bytes.
pub struct Config<'a> {
    pub title: &'a str,
    pub width: i32,
    pub height: i32,
    pub font: &'a [u8],
}

/// Why setting up a run failed.
#[derive(Clone, Copy, PartialEq, Eq, Structural, Debug)]
pub enum SetupError {
    /// The font bytes are not a PNG image.
    FontDecode,
    /// The font image does not split into a grid of 16 by 16 glyphs.
    FontLayout,
    /// The grid has no cells, too many cells, or a window too large in pixels.
    GridSize,
}

/// A decoded font atlas: its pixels, row by row, and its size in pixels.
pub struct Font {
    pub bytes: Vec<u8>,
    pub width: u32,
    pub height: u32,
}

/// The image that PNG bytes `b` decode to, as width, height and pixel bytes;
/// `None` where they do not decode.
pub uninterp spec fn png_image(b: Seq<u8>) -> Option<(u32, u32, Seq<u8>)>;

/// Relies on the png crate's `Decoder::read_info` and `Reader::next_frame`:
/// the first frame of the image, with its width and height, or `None` where
/// decoding fails. The outcome depends on the bytes alone.
#[verifier::external_body]
fn decode_png(bytes: &[u8]) -> (r: Option<Font>)
    ensures
        png_image(bytes@) is None <==> r is None,
        r matches Some(f) ==> png_image(bytes@) == Some((f.width, f.height, f.bytes@)),
{
    let mut reader = match png::Decoder::new(bytes).read_info() {
        Ok(reader) => reader,
        Err(_) => return None,
    };
    let mut buffer = vec![0u8; reader.output_buffer_size()];
    match reader.next_frame(&mut buffer) {
        Ok(info) => Some(Font { bytes: buffer, width: info.width, height: info.height }),
        Err(_) => None,
    }
}

/// Decodes a PNG font atlas.
pub fn load_font(bytes: &[u8]) -> (r: Result<Font, SetupError>)
    ensures
        png_image(bytes@) is Some <==> r is Ok,
        r matches Err(e) ==> e == SetupError::FontDecode,
        r matches Ok(f) ==> png_image(bytes@) == Some((f.width, f.height, f.bytes@)),
{
    match decode_png(bytes) {
        Some(font) => Ok(font),
        None => Err(SetupError::FontDecode),
    }
}

/// A font of `w` by `h` pixels splits into a 16 by 16 grid of non-empty glyphs.
pub open spec fn font_layout_ok(w: int, h: int) -> bool {
    &&& w >= FONT_COLUMNS
    &&& h >= FONT_ROWS
    &&& w % FONT_COLUMNS as int == 0
    &&& h % FONT_ROWS as int == 0
}

/// The size of one glyph of a font of `font_width` by `font_height` pixels.
pub fn glyph_size(font_width: u32, font_height: u32) -> (r: Result<GlyphSize, SetupError>)
    ensures
        font_layout_ok(font_width as int, font_height as int) <==> r is Ok,
        r matches Err(e) ==> e == SetupError::FontLayout,
        r matches Ok(g) ==> g.spec_width() == font_width / FONT_COLUMNS && g.spec_height()
            == font_height / FONT_ROWS,
{
    if font_width < FONT_COLUMNS || font_height < FONT_ROWS || font_width % FONT_COLUMNS != 0
        || font_height % FONT_ROWS != 0 {
        return Err(SetupError::FontLayout);
    }
    match GlyphSize::new((font_width / FONT_COLUMNS) as i32, (font_height / FONT_ROWS) as i32) {
        Some(g) => Ok(g),
        None => Err(SetupError::FontLayout),
    }
}

/// A grid of `w` by `h` cells of `gw` by `gh` pixels can be built and shown.
pub open spec fn grid_size_ok(w: int, h: int, gw: int, gh: int) -> bool {
    &&& 0 < w
    &&& 0 < h
    &&& w * h <= MAX_CELLS
    &&& w * gw <= u32::MAX
    &&& h * gh <= u32::MAX
}

/// The window's size in pixels for `width` by `height` cells of the glyph size.
pub fn window_size(width: i32, height: i32, glyph: &GlyphSize) -> (r: Result<(u32, u32), SetupError>)
    ensures
        grid_size_ok(width as int, height as int, glyph.spec_width(), glyph.spec_height())
            <==> r is Ok,
        r matches Err(e) ==> e == SetupError::GridSize,
        r matches Ok(p) ==> p.0 == width * glyph.spec_width() && p.1 == height
            * glyph.spec_height(),
{
    if width <= 0 || height <= 0 {
        return Err(SetupError::GridSize);
    }
    let gw = glyph.width();
    let gh = glyph.height();
    proof {
        assert(0 <= width * height <= i32::MAX * i32::MAX) by (nonlinear_arith)
            requires
                0 < width,
                0 < height,
        ;
        assert(0 <= width * gw <= i32::MAX * i32::MAX) by (nonlinear_arith)
            requires
                0 < width,
                0 < gw,
        ;
        assert(0 <= height * gh <= i32::MAX * i32::MAX) by (nonlinear_arith)
            requires
                0 < height,
                0 < gh,
        ;
    }
    let cells = (width as u64) * (height as u64);
    let pixel_width = (width as u64) * (gw as u64);
    let pixel_height = (height as u64) * (gh as u64);
    if cells > MAX_CELLS as u64 || pixel_width > u32::MAX as u64 || pixel_height > u32::MAX as u64 {
        return Err(SetupError::GridSize);
    }
    Ok((pixel_width as u32, pixel_height as u32))
}

/// Everything a run needs before the window opens.
pub struct Prepared {
    pub font: Font,
    pub pixel_width: u32,
    pub pixel_height: u32,
    pub frame_loop: FrameLoop,
}

/// Decodes the font, checks the glyph layout and grid size, and builds a
/// blank grid inside a running frame loop.
pub fn prepare(config: &Config) -> (r: Result<Prepared, SetupError>)
    ensures
        r is Ok <==> (png_image(config.font@) matches Some(img) && font_layout_ok(
            img.0 as int,
            img.1 as int,
        ) && grid_size_ok(
            config.width as int,
            config.height as int,
            (img.0 / FONT_COLUMNS) as int,
            (img.1 / FONT_ROWS) as int,
        )),
        r matches Err(e) ==> e == match png_image(config.font@) {
            None => SetupError::FontDecode,
            Some(img) => if !font_layout_ok(img.0 as int, img.1 as int) {
                SetupError::FontLayout
            } else {
                SetupError::GridSize
            },
        },
        r matches Ok(p) ==> {
            &&& png_image(config.font@) == Some((p.font.width, p.font.height, p.font.bytes@))
            &&& p.pixel_width == config.width * (p.font.width / FONT_COLUMNS)
            &&& p.pixel_height == config.height * (p.font.height / FONT_ROWS)
            &&& p.frame_loop.spec_running()
            &&& p.frame_loop.spec_glyph().spec_width() == p.font.width / FONT_COLUMNS
            &&& p.frame_loop.spec_glyph().spec_height() == p.font.height / FONT_ROWS
            &&& p.frame_loop.spec_frame().spec_width() == config.width
            &&& p.frame_loop.spec_frame().spec_height() == config.height
            &&& forall|i: int|
                0 <= i < p.frame_loop.spec_frame()@.len() ==> (#[trigger] p.frame_loop.spec_frame()@[i]).uv
                    == blank_uv()
            &&& p.frame_loop.spec_input().keys() == Set::<u32>::empty()
        },
{
    let font = match load_font(config.font) {
        Ok(font) => font,
        Err(e) => return Err(e),
    };
    let glyph = match glyph_size(font.width, font.height) {
        Ok(glyph) => glyph,
        Err(e) => return Err(e),
    };
    let (pixel_width, pixel_height) = match window_size(config.width, config.height, &glyph) {
        Ok(size) => size,
        Err(e) => return Err(e),
    };
    let frame = create_frame(config.width, config.height);
    Ok(Prepared { font, pixel_width, pixel_height, frame_loop: FrameLoop::new(frame, glyph) })
}

} // verus!
