use cone::{glyph_size, load_font, prepare, window_size, Config, GlyphSize, SetupError};

fn png_bytes(width: u32, height: u32) -> Vec<u8> {
    let mut out = Vec::new();
    {
        let mut encoder = png::Encoder::new(&mut out, width, height);
        encoder.set_color(png::ColorType::Rgba);
        encoder.set_depth(png::BitDepth::Eight);
        let mut writer = encoder.write_header().unwrap();
        let pixels: Vec<u8> = (0..width * height * 4).map(|i| (i % 251) as u8).collect();
        writer.write_image_data(&pixels).unwrap();
        writer.finish().unwrap();
    }
    out
}

#[test]
fn load_font_decodes_pixels() {
    let bytes = png_bytes(32, 16);
    let font = load_font(&bytes).unwrap();
    assert_eq!((font.width, font.height), (32, 16));
    assert_eq!(font.bytes.len(), 32 * 16 * 4);
    let expected: Vec<u8> = (0..32u32 * 16 * 4).map(|i| (i % 251) as u8).collect();
    assert_eq!(font.bytes, expected);
}

#[test]
fn load_font_rejects_non_png() {
    assert_eq!(load_font(b"not a png").err(), Some(SetupError::FontDecode));
    assert_eq!(load_font(&[]).err(), Some(SetupError::FontDecode));
}

#[test]
fn glyph_size_from_font() {
    let g = glyph_size(192, 192).unwrap();
    assert_eq!((g.width(), g.height()), (12, 12));
    let g = glyph_size(128, 256).unwrap();
    assert_eq!((g.width(), g.height()), (8, 16));
    assert_eq!(glyph_size(100, 192).err(), Some(SetupError::FontLayout));
    assert_eq!(glyph_size(192, 200).err(), Some(SetupError::FontLayout));
    assert_eq!(glyph_size(0, 192).err(), Some(SetupError::FontLayout));
}

#[test]
fn window_size_in_pixels() {
    let g = GlyphSize::new(12, 12).unwrap();
    assert_eq!(window_size(80, 50, &g), Ok((960, 600)));
    assert_eq!(window_size(0, 50, &g), Err(SetupError::GridSize));
    assert_eq!(window_size(80, -1, &g), Err(SetupError::GridSize));
    assert_eq!(window_size(i32::MAX, i32::MAX, &g), Err(SetupError::GridSize));
    let wide = GlyphSize::new(i32::MAX, 1).unwrap();
    assert_eq!(window_size(3, 1, &wide), Err(SetupError::GridSize));
}

#[test]
fn prepare_builds_running_loop() {
    let bytes = png_bytes(192, 192);
    let config = Config { title: "t", width: 80, height: 50, font: &bytes };
    let prepared = prepare(&config).ok().unwrap();
    assert_eq!((prepared.pixel_width, prepared.pixel_height), (960, 600));
    assert!(prepared.frame_loop.is_running());
    assert_eq!(prepared.frame_loop.frame().width(), 80);
    assert_eq!(prepared.frame_loop.frame().height(), 50);
    assert_eq!(prepared.font.width, 192);
}

#[test]
fn prepare_reports_each_error() {
    let bad = Config { title: "t", width: 80, height: 50, font: b"nope" };
    assert_eq!(prepare(&bad).err(), Some(SetupError::FontDecode));
    let odd = png_bytes(20, 16);
    let config = Config { title: "t", width: 80, height: 50, font: &odd };
    assert_eq!(prepare(&config).err(), Some(SetupError::FontLayout));
    let good = png_bytes(16, 16);
    let config = Config { title: "t", width: 0, height: 50, font: &good };
    assert_eq!(prepare(&config).err(), Some(SetupError::GridSize));
}
