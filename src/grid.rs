use vstd::prelude::*;
use vstd::arithmetic::div_mod::lemma_fundamental_div_mod_converse;
use crate::atlas::{char_to_uvs, corner_offset, glyph_corner, Uv};
use crate::color::Color;

verus! {

/// A point on the lines between cells: `x` counts column edges from the left,
/// `y` counts row edges from the top.
#[derive(Clone, Copy, PartialEq, Eq, Structural, Debug, Default)]
pub struct GridPoint {
    pub x: i32,
    pub y: i32,
}

/// One corner of a cell's quad.
#[derive(Clone, Copy, PartialEq, Eq, Structural, Debug, Default)]
pub struct Vertex {
    pub position: GridPoint,
    pub uv: Uv,
    pub color: Color,
}

/// Largest number of cells in a grid, so that every vertex has a `u32` index.
pub const MAX_CELLS: i64 = 0x3fff_ffff;

/// The texture coordinate of an empty cell.
pub open spec fn blank_uv() -> Uv {
    Uv { u: 0, v: 0 }
}

/// The color a vertex has before anything is written to its cell.
pub open spec fn initial_color() -> Color {
    Color { r: 0, g: 0, b: 0, a: 0 }
}

pub open spec fn in_grid(w: int, h: int, x: int, y: int) -> bool {
    0 <= x < w && 0 <= y < h
}

/// Linear index of cell `(x, y)`: cells are stored column by column.
pub open spec fn cell_of(h: int, x: int, y: int) -> int {
    x * h + y
}

/// Position of corner `k` of cell `(x, y)`.
pub open spec fn corner_position(x: int, y: int, k: int) -> GridPoint {
    GridPoint { x: (x + corner_offset(k).0) as i32, y: (y + corner_offset(k).1) as i32 }
}

/// Position of the vertex at index `i` in a grid of height `h`.
pub open spec fn vertex_position(h: int, i: int) -> GridPoint {
    corner_position((i / 4) / h, (i / 4) % h, i % 4)
}

/// Which corner each of the six indices of a quad names: two triangles,
/// (top-left, bottom-left, bottom-right) and (top-right, top-left, bottom-right).
pub open spec fn quad_corner(t: int) -> int {
    if t == 0 {
        0
    } else if t == 1 {
        1
    } else if t == 2 {
        3
    } else if t == 3 {
        2
    } else if t == 4 {
        0
    } else {
        3
    }
}

/// The index at position `t` of the index buffer.
pub open spec fn index_value(t: int) -> u32 {
    (4 * (t / 6) + quad_corner(t % 6)) as u32
}

/// The dimensions and index buffer of a grid of `w` by `h` cells: four
/// vertices and six indices per cell.
pub open spec fn grid_dims(w: int, h: int, n_vertices: int, indices: Seq<u32>) -> bool {
    &&& 0 < w
    &&& 0 < h
    &&& w * h <= MAX_CELLS
    &&& n_vertices == 4 * (w * h)
    &&& indices.len() == 6 * (w * h)
    &&& forall|t: int| 0 <= t < indices.len() ==> #[trigger] indices[t] == index_value(t)
}

/// The vertices after `clear`: every texture coordinate blank, the rest kept.
pub open spec fn cleared(vs: Seq<Vertex>) -> Seq<Vertex> {
    Seq::new(vs.len(), |i: int| Vertex { uv: blank_uv(), ..vs[i] })
}

/// The vertices after writing `ch` in `color` at `(x, y)`; nothing changes
/// outside the grid.
pub open spec fn put_char_spec(
    vs: Seq<Vertex>,
    w: int,
    h: int,
    x: int,
    y: int,
    ch: char,
    color: Color,
) -> Seq<Vertex> {
    if in_grid(w, h, x, y) {
        let c = cell_of(h, x, y);
        Seq::new(
            vs.len(),
            |i: int|
                if 4 * c <= i < 4 * c + 4 {
                    Vertex { position: vs[i].position, uv: glyph_corner(ch, i - 4 * c), color }
                } else {
                    vs[i]
                },
        )
    } else {
        vs
    }
}

/// The vertices after writing `s` from `(x, y)` rightwards, one cell per character.
pub open spec fn put_str_spec(
    vs: Seq<Vertex>,
    w: int,
    h: int,
    x: int,
    y: int,
    s: Seq<char>,
    color: Color,
) -> Seq<Vertex>
    decreases s.len(),
{
    if s.len() == 0 {
        vs
    } else {
        put_char_spec(
            put_str_spec(vs, w, h, x, y, s.drop_last(), color),
            w,
            h,
            x + s.len() - 1,
            y,
            s.last(),
            color,
        )
    }
}

proof fn lemma_cell_in_range(w: int, h: int, x: int, y: int)
    requires
        in_grid(w, h, x, y),
    ensures
        0 <= cell_of(h, x, y) < w * h,
{
    assert(0 <= x * h + y < w * h) by (nonlinear_arith)
        requires
            0 <= x < w,
            0 <= y < h,
    ;
}

proof fn lemma_vertex_of_cell(h: int, x: int, y: int, k: int)
    requires
        0 < h,
        0 <= x,
        0 <= y < h,
        0 <= k < 4,
    ensures
        vertex_position(h, 4 * cell_of(h, x, y) + k) == corner_position(x, y, k),
{
    let c = cell_of(h, x, y);
    lemma_fundamental_div_mod_converse(4 * c + k, 4, c, k);
    lemma_fundamental_div_mod_converse(c, h, x, y);
}

proof fn lemma_index_of_quad(c: int, t: int)
    requires
        0 <= c,
        0 <= t < 6,
    ensures
        index_value(6 * c + t) == (4 * c + quad_corner(t)) as u32,
{
    lemma_fundamental_div_mod_converse(6 * c + t, 6, c, t);
}

/// Writing a character at a cell inside the grid and then reading any of the
/// cell's four corners gives the glyph's texture corner and the color written.
pub proof fn lemma_put_char_then_read(
    vs: Seq<Vertex>,
    w: int,
    h: int,
    x: int,
    y: int,
    ch: char,
    color: Color,
    corner: int,
)
    requires
        vs.len() == 4 * (w * h),
        in_grid(w, h, x, y),
        0 <= corner < 4,
    ensures
        put_char_spec(vs, w, h, x, y, ch, color)[4 * cell_of(h, x, y) + corner].uv == glyph_corner(
            ch,
            corner,
        ),
        put_char_spec(vs, w, h, x, y, ch, color)[4 * cell_of(h, x, y) + corner].color == color,
        put_char_spec(vs, w, h, x, y, ch, color)[4 * cell_of(h, x, y) + corner].position
            == vs[4 * cell_of(h, x, y) + corner].position,
{
    lemma_cell_in_range(w, h, x, y);
}

/// Writing a character at a cell outside the grid changes nothing.
pub proof fn lemma_put_char_outside(
    vs: Seq<Vertex>,
    w: int,
    h: int,
    x: int,
    y: int,
    ch: char,
    color: Color,
)
    requires
        !in_grid(w, h, x, y),
    ensures
        put_char_spec(vs, w, h, x, y, ch, color) == vs,
{
}

/// Clearing twice is clearing once, and after a clear every texture
/// coordinate is blank.
pub proof fn lemma_clear_idempotent(vs: Seq<Vertex>)
    ensures
        cleared(cleared(vs)) == cleared(vs),
        forall|i: int| 0 <= i < vs.len() ==> (#[trigger] cleared(vs)[i]).uv == blank_uv(),
{
    assert(cleared(cleared(vs)) =~= cleared(vs));
}

/// Writing a two-character string is writing its first character and then
/// its second one cell to the right.
pub proof fn lemma_put_str_two(
    vs: Seq<Vertex>,
    w: int,
    h: int,
    x: int,
    y: int,
    a: char,
    b: char,
    color: Color,
)
    ensures
        put_str_spec(vs, w, h, x, y, seq![a, b], color) == put_char_spec(
            put_char_spec(vs, w, h, x, y, a, color),
            w,
            h,
            x + 1,
            y,
            b,
            color,
        ),
{
    let s = seq![a, b];
    assert(s.drop_last() =~= seq![a]);
    assert(seq![a].drop_last() =~= Seq::<char>::empty());
    assert(s.last() == b);
    assert(seq![a].last() == a);
    reveal_with_fuel(put_str_spec, 3);
    assert(put_str_spec(vs, w, h, x, y, seq![a], color) == put_char_spec(
        vs,
        w,
        h,
        x,
        y,
        a,
        color,
    ));
}

/// A grid of character cells, each drawn as a quad of four vertices.
pub struct Frame {
    width: i32,
    height: i32,
    vertices: Vec<Vertex>,
    indices: Vec<u32>,
}

impl View for Frame {
    type V = Seq<Vertex>;

    closed spec fn view(&self) -> Seq<Vertex> {
        self.vertices@
    }
}

impl Frame {
    pub closed spec fn spec_width(&self) -> int {
        self.width as int
    }

    pub closed spec fn spec_height(&self) -> int {
        self.height as int
    }

    pub closed spec fn spec_indices(&self) -> Seq<u32> {
        self.indices@
    }

    /// Blanks the texture coordinate of every vertex; positions and colors stay.
    pub fn clear(&mut self)
        ensures
            final(self)@ == cleared(old(self)@),
            final(self).spec_width() == old(self).spec_width(),
            final(self).spec_height() == old(self).spec_height(),
            final(self).spec_indices() == old(self).spec_indices(),
        no_unwind
    {
        proof {
            use_type_invariant(&*self);
        }
        let ghost before = self.vertices@;
        let ghost start = *self;
        let n = self.vertices.len();
        let mut i: usize = 0;
        while i < n
            invariant
                0 <= i <= n,
                n == before.len(),
                self.vertices@.len() == n,
                self.width == start.width,
                self.height == start.height,
                self.indices == start.indices,
                grid_dims(self.width as int, self.height as int, n as int, self.indices@),
                forall|v: int|
                    0 <= v < n ==> #[trigger] self.vertices@[v] == if v < i {
                        Vertex { uv: blank_uv(), ..before[v] }
                    } else {
                        before[v]
                    },
            decreases n - i,
        {
            let mut vertex = self.vertices[i];
            vertex.uv = Uv { u: 0, v: 0 };
            self.vertices[i] = vertex;
            i = i + 1;
        }
        assert(self.vertices@ =~= cleared(before));
    }

    /// Writes `ch` in `color` at column `x`, row `y`; a cell outside the grid
    /// is left alone.
    pub fn put_char(&mut self, x: i32, y: i32, ch: char, color: Color)
        ensures
            final(self)@ == put_char_spec(
                old(self)@,
                old(self).spec_width(),
                old(self).spec_height(),
                x as int,
                y as int,
                ch,
                color,
            ),
            final(self).spec_width() == old(self).spec_width(),
            final(self).spec_height() == old(self).spec_height(),
            final(self).spec_indices() == old(self).spec_indices(),
        no_unwind
    {
        proof {
            use_type_invariant(&*self);
        }
        if x < 0 || y < 0 || x >= self.width || y >= self.height {
            return;
        }
        proof {
            lemma_cell_in_range(self.width as int, self.height as int, x as int, y as int);
        }
        let ghost before = self.vertices@;
        let ghost start = *self;
        let ghost c = cell_of(self.height as int, x as int, y as int);
        let index: usize = 4 * (x as usize * self.height as usize + y as usize);
        let uvs = char_to_uvs(ch);
        let mut k: usize = 0;
        while k < 4
            invariant
                0 <= k <= 4,
                index == 4 * c,
                0 <= c < self.width * self.height,
                grid_dims(self.width as int, self.height as int, before.len() as int, self.indices@),
                self.vertices@.len() == before.len(),
                self.width == start.width,
                self.height == start.height,
                self.indices == start.indices,
                forall|j: int| 0 <= j < 4 ==> #[trigger] uvs[j] == glyph_corner(ch, j),
                forall|v: int|
                    0 <= v < before.len() ==> #[trigger] self.vertices@[v] == if index <= v < index + k {
                        Vertex { position: before[v].position, uv: glyph_corner(ch, v - index), color }
                    } else {
                        before[v]
                    },
            decreases 4 - k,
        {
            let mut vertex = self.vertices[index + k];
            vertex.uv = uvs[k];
            vertex.color = color;
            self.vertices[index + k] = vertex;
            k = k + 1;
        }
        assert(self.vertices@ =~= put_char_spec(
            before,
            self.width as int,
            self.height as int,
            x as int,
            y as int,
            ch,
            color,
        ));
    }

    /// Writes the characters of `text` from column `x` rightwards on row `y`,
    /// one cell each; characters that fall outside the grid are dropped.
    pub fn put_str(&mut self, x: i32, y: i32, text: &str, color: Color)
        ensures
            final(self)@ == put_str_spec(
                old(self)@,
                old(self).spec_width(),
                old(self).spec_height(),
                x as int,
                y as int,
                text@,
                color,
            ),
            final(self).spec_width() == old(self).spec_width(),
            final(self).spec_height() == old(self).spec_height(),
            final(self).spec_indices() == old(self).spec_indices(),
    {
        proof {
            use_type_invariant(&*self);
            broadcast use vstd::string::axiom_spec_iter;
        }
        let ghost start = *self;
        let mut column: i64 = x as i64;
        for ch in it: text.chars()
            invariant
                it.seq() == text@,
                column == if x + it.index() <= i32::MAX {
                    x + it.index()
                } else {
                    i32::MAX + 1
                },
                self.spec_width() == start.spec_width(),
                self.spec_height() == start.spec_height(),
                self.spec_indices() == start.spec_indices(),
                self@ == put_str_spec(
                    start@,
                    start.spec_width(),
                    start.spec_height(),
                    x as int,
                    y as int,
                    text@.take(it.index() as int),
                    color,
                ),
        {
            let ghost i = it.index();
            proof {
                use_type_invariant(&*self);
                assert(text@.take(i + 1).drop_last() =~= text@.take(i as int));
            }
            if column <= i32::MAX as i64 {
                self.put_char(column as i32, y, ch, color);
                column = column + 1;
            }
        }
        assert(text@.take(text@.len() as int) =~= text@);
    }

    pub fn width(&self) -> (w: i32)
        ensures
            w == self.spec_width(),
            w > 0,
    {
        proof {
            use_type_invariant(self);
        }
        self.width
    }

    pub fn height(&self) -> (h: i32)
        ensures
            h == self.spec_height(),
            h > 0,
    {
        proof {
            use_type_invariant(self);
        }
        self.height
    }

    /// Corner `corner` (top-left, bottom-left, top-right, bottom-right) of
    /// cell `(x, y)`, or `None` outside the grid.
    pub fn vertex(&self, x: i32, y: i32, corner: usize) -> (r: Option<Vertex>)
        ensures
            r == if in_grid(self.spec_width(), self.spec_height(), x as int, y as int) && corner
                < 4 {
                Some(self@[4 * cell_of(self.spec_height(), x as int, y as int) + corner])
            } else {
                None::<Vertex>
            },
    {
        proof {
            use_type_invariant(self);
        }
        if x < 0 || y < 0 || x >= self.width || y >= self.height || corner >= 4 {
            return None;
        }
        proof {
            lemma_cell_in_range(self.width as int, self.height as int, x as int, y as int);
        }
        let index: usize = 4 * (x as usize * self.height as usize + y as usize) + corner;
        Some(self.vertices[index])
    }

    /// All vertices, four per cell, cell `(x, y)` at `4 * (x * height + y)`.
    pub fn vertices(&self) -> (r: &Vec<Vertex>)
        ensures
            r@ == self@,
    {
        &self.vertices
    }

    /// The index buffer: six indices per cell, two triangles over its quad.
    pub fn indices(&self) -> (r: &Vec<u32>)
        ensures
            r@ == self.spec_indices(),
            r@.len() == 6 * (self.spec_width() * self.spec_height()),
            forall|t: int| 0 <= t < r@.len() ==> #[trigger] r@[t] == index_value(t),
    {
        proof {
            use_type_invariant(self);
        }
        &self.indices
    }

    #[verifier::type_invariant]
    closed spec fn shape_holds(&self) -> bool {
        grid_dims(self.width as int, self.height as int, self.vertices@.len() as int, self.indices@)
    }
}

/// Builds a grid of `width` by `height` blank cells. Cell `(x, y)` covers
/// column edges `x..x + 1` and row edges `y..y + 1`; its quad has the vertices
/// `4 * (x * height + y) ..` and is drawn by six indices.
pub fn create_frame(width: i32, height: i32) -> (f: Frame)
    requires
        0 < width,
        0 < height,
        width * height <= MAX_CELLS,
    ensures
        f.spec_width() == width,
        f.spec_height() == height,
        f@.len() == 4 * (width * height),
        forall|i: int|
            0 <= i < f@.len() ==> (#[trigger] f@[i]).uv == blank_uv() && f@[i].color
                == initial_color() && f@[i].position == vertex_position(height as int, i),
        f.spec_indices().len() == 6 * (width * height),
        forall|t: int|
            0 <= t < f.spec_indices().len() ==> #[trigger] f.spec_indices()[t] == index_value(t),
{
    let ghost h = height as int;
    let mut vertices: Vec<Vertex> = Vec::new();
    let mut indices: Vec<u32> = Vec::new();
    let mut i: i32 = 0;
    while i < width
        invariant
            0 <= i <= width,
            0 < height,
            width * height <= MAX_CELLS,
            h == height,
            vertices.len() == 4 * (i * h),
            indices.len() == 6 * (i * h),
            forall|v: int|
                0 <= v < vertices.len() ==> (#[trigger] vertices[v]).uv == blank_uv()
                    && vertices[v].color == initial_color() && vertices[v].position
                    == vertex_position(h, v),
            forall|t: int| 0 <= t < indices.len() ==> #[trigger] indices[t] == index_value(t),
        decreases width - i,
    {
        let mut j: i32 = 0;
        while j < height
            invariant
                0 <= i < width,
                0 <= j <= height,
                width * height <= MAX_CELLS,
                h == height,
                vertices.len() == 4 * (i * h + j),
                indices.len() == 6 * (i * h + j),
                forall|v: int|
                    0 <= v < vertices.len() ==> (#[trigger] vertices[v]).uv == blank_uv()
                        && vertices[v].color == initial_color() && vertices[v].position
                        == vertex_position(h, v),
                forall|t: int| 0 <= t < indices.len() ==> #[trigger] indices[t] == index_value(t),
            decreases height - j,
        {
            let ghost c = cell_of(h, i as int, j as int);
            proof {
                lemma_cell_in_range(width as int, h, i as int, j as int);
                lemma_vertex_of_cell(h, i as int, j as int, 0);
                lemma_vertex_of_cell(h, i as int, j as int, 1);
                lemma_vertex_of_cell(h, i as int, j as int, 2);
                lemma_vertex_of_cell(h, i as int, j as int, 3);
                lemma_index_of_quad(c, 0);
                lemma_index_of_quad(c, 1);
                lemma_index_of_quad(c, 2);
                lemma_index_of_quad(c, 3);
                lemma_index_of_quad(c, 4);
                lemma_index_of_quad(c, 5);
            }
            let index = vertices.len() as u32;
            indices.push(index);
            indices.push(index + 1);
            indices.push(index + 3);
            indices.push(index + 2);
            indices.push(index);
            indices.push(index + 3);
            let x0 = i;
            let y0 = j;
            let x1 = i + 1;
            let y1 = j + 1;
            let blank = Uv { u: 0, v: 0 };
            let unset = Color { r: 0, g: 0, b: 0, a: 0 };
            vertices.push(Vertex { position: GridPoint { x: x0, y: y0 }, uv: blank, color: unset });
            vertices.push(Vertex { position: GridPoint { x: x0, y: y1 }, uv: blank, color: unset });
            vertices.push(Vertex { position: GridPoint { x: x1, y: y0 }, uv: blank, color: unset });
            vertices.push(Vertex { position: GridPoint { x: x1, y: y1 }, uv: blank, color: unset });
            j = j + 1;
        }
        proof {
            assert(i * h + h == (i + 1) * h) by (nonlinear_arith);
        }
        i = i + 1;
    }
    Frame { width, height, vertices, indices }
}

} // verus!
