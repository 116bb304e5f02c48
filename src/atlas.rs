use vstd::prelude::*;

verus! {

/// Number of glyph columns in the font atlas.
pub const FONT_COLUMNS: u32 = 16;

/// Number of glyph rows in the font atlas.
pub const FONT_ROWS: u32 = 16;

/// Slot used for characters that the atlas does not hold.
pub const FALLBACK_SLOT: u32 = 1;

/// A texture coordinate in atlas steps: `u` counts glyph widths
/// (1 / FONT_COLUMNS of the texture), `v` counts glyph heights
/// (1 / FONT_ROWS of the texture). The texture spans `0..=16` on each axis.
#[derive(Clone, Copy, PartialEq, Eq, Structural, Debug, Default)]
pub struct Uv {
    pub u: u32,
    pub v: u32,
}

/// The atlas slot that shows character `c`.
pub open spec fn glyph_slot(c: char) -> nat {
    if (c as nat) < (FONT_ROWS * FONT_COLUMNS) as nat {
        c as nat
    } else {
        FALLBACK_SLOT as nat
    }
}

/// Offset of corner `k` of a quad, in the order top-left, bottom-left,
/// top-right, bottom-right: `(right, down)`.
pub open spec fn corner_offset(k: int) -> (int, int) {
    (if k >= 2 { 1 } else { 0 }, if k % 2 == 1 { 1 } else { 0 })
}

/// Corner `k` of the atlas cell of slot `s`.
pub open spec fn slot_corner(s: nat, k: int) -> Uv {
    Uv {
        u: ((s % FONT_COLUMNS as nat) as int + corner_offset(k).0) as u32,
        v: ((s / FONT_COLUMNS as nat) as int + corner_offset(k).1) as u32,
    }
}

/// Corner `k` of the glyph that shows character `c`.
pub open spec fn glyph_corner(c: char, k: int) -> Uv {
    slot_corner(glyph_slot(c), k)
}

/// The four texture corners of the glyph for `ch`: top-left, bottom-left,
/// top-right, bottom-right. Characters past the atlas show the fallback slot.
pub fn char_to_uvs(ch: char) -> (r: [Uv; 4])
    ensures
        forall|k: int| 0 <= k < 4 ==> #[trigger] r[k] == glyph_corner(ch, k),
        forall|k: int|
            0 <= k < 4 ==> #[trigger] r[k].u <= FONT_COLUMNS && r[k].v <= FONT_ROWS,
        (ch as u32) >= FONT_ROWS * FONT_COLUMNS ==> forall|k: int|
            0 <= k < 4 ==> #[trigger] r[k] == glyph_corner('\u{1}', k),
    no_unwind
{
    let mut idx: u32 = ch as u32;
    if idx >= FONT_ROWS * FONT_COLUMNS {
        idx = FALLBACK_SLOT;
    }
    let i = idx % FONT_COLUMNS;
    let j = idx / FONT_COLUMNS;
    let u0 = i;
    let v0 = j;
    let u1 = u0 + 1;
    let v1 = v0 + 1;
    [Uv { u: u0, v: v0 }, Uv { u: u0, v: v1 }, Uv { u: u1, v: v0 }, Uv { u: u1, v: v1 }]
}

} // verus!
