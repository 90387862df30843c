use vstd::prelude::*;
use vstd::string::StringSliceAdditionalSpecFns;
use vstd::string::StrSliceExecFns;

verus! {

/// The rows of the 5x7 pixel font glyph for `c` (5 low bits per row, most
/// significant = leftmost column). Only the letters of "DITHERWAVE" are
/// drawn; every other character is blank.
pub open spec fn glyph_rows(c: char) -> Seq<u8> {
    if c == 'A' {
        seq![0b01110u8, 0b10001, 0b10001, 0b11111, 0b10001, 0b10001, 0b10001]
    } else if c == 'D' {
        seq![0b11110u8, 0b10001, 0b10001, 0b10001, 0b10001, 0b10001, 0b11110]
    } else if c == 'E' {
        seq![0b11111u8, 0b10000, 0b10000, 0b11100, 0b10000, 0b10000, 0b11111]
    } else if c == 'H' {
        seq![0b10001u8, 0b10001, 0b10001, 0b11111, 0b10001, 0b10001, 0b10001]
    } else if c == 'I' {
        seq![0b11111u8, 0b00100, 0b00100, 0b00100, 0b00100, 0b00100, 0b11111]
    } else if c == 'R' {
        seq![0b11110u8, 0b10001, 0b10001, 0b11110, 0b10010, 0b10001, 0b10001]
    } else if c == 'T' {
        seq![0b11111u8, 0b00100, 0b00100, 0b00100, 0b00100, 0b00100, 0b00100]
    } else if c == 'V' {
        seq![0b10001u8, 0b10001, 0b10001, 0b10001, 0b10001, 0b01010, 0b00100]
    } else if c == 'W' {
        seq![0b10001u8, 0b10001, 0b10001, 0b10101, 0b10101, 0b11011, 0b10001]
    } else {
        seq![0u8, 0, 0, 0, 0, 0, 0]
    }
}

/// The 5x7 pixel font glyph for `c`, one row per entry.
pub fn glyph(c: char) -> (g: [u8; 7])
    ensures
        g@ == glyph_rows(c),
{
    let g: [u8; 7] = if c == 'A' {
        [0b01110, 0b10001, 0b10001, 0b11111, 0b10001, 0b10001, 0b10001]
    } else if c == 'D' {
        [0b11110, 0b10001, 0b10001, 0b10001, 0b10001, 0b10001, 0b11110]
    } else if c == 'E' {
        [0b11111, 0b10000, 0b10000, 0b11100, 0b10000, 0b10000, 0b11111]
    } else if c == 'H' {
        [0b10001, 0b10001, 0b10001, 0b11111, 0b10001, 0b10001, 0b10001]
    } else if c == 'I' {
        [0b11111, 0b00100, 0b00100, 0b00100, 0b00100, 0b00100, 0b11111]
    } else if c == 'R' {
        [0b11110, 0b10001, 0b10001, 0b11110, 0b10010, 0b10001, 0b10001]
    } else if c == 'T' {
        [0b11111, 0b00100, 0b00100, 0b00100, 0b00100, 0b00100, 0b00100]
    } else if c == 'V' {
        [0b10001, 0b10001, 0b10001, 0b10001, 0b10001, 0b01010, 0b00100]
    } else if c == 'W' {
        [0b10001, 0b10001, 0b10001, 0b10101, 0b10101, 0b11011, 0b10001]
    } else {
        [0; 7]
    };
    assert(g@ =~= glyph_rows(c));
    g
}

/// Width in pixels of `text` drawn at `scale`: each glyph (one per byte)
/// is five cells wide plus a one-cell gap, without the trailing gap.
pub fn text_width(text: &str, scale: i32) -> (w: i32)
    requires
        text.spec_bytes().len() * 6 <= 0x7fff_ffff,
        -0x8000_0000 <= text.spec_bytes().len() * 6 * scale <= 0x7fff_ffff,
        -0x8000_0000 <= text.spec_bytes().len() * 6 * scale - scale <= 0x7fff_ffff,
    ensures
        w == text.spec_bytes().len() * 6 * scale - scale,
{
    let len = text.len();
    (len as i32) * (5 + 1) * scale - scale
}

/// The star-scatter hash of the demo backdrop (a multiplicative integer
/// hash with xor-shifts), reduced to `0..10000`.
pub open spec fn hash_bucket_spec(n: u32) -> u32 {
    let a = ((n as int * 2654435761) % 0x1_0000_0000) as u32;
    let b = a ^ (a >> 15u32);
    let c = ((b as int * 2246822519) % 0x1_0000_0000) as u32;
    let d = c ^ (c >> 13u32);
    d % 10000
}

/// The star-scatter hash of the demo backdrop, reduced to `0..10000` (the
/// caller divides by 10000 for a fraction in `[0, 1)`).
pub fn hash_bucket(n: u32) -> (r: u32)
    ensures
        r == hash_bucket_spec(n),
        r < 10000,
{
    let mut x: u32 = n.wrapping_mul(2654435761);
    x = x ^ (x >> 15u32);
    x = x.wrapping_mul(2246822519);
    x = x ^ (x >> 13u32);
    x % 10000
}

} // verus!

verus! {

/// Whether `(x, y)` lies on a `width`x`height` canvas.
pub open spec fn on_canvas(width: int, height: int, x: int, y: int) -> bool {
    0 <= x < width && 0 <= y < height
}

/// The position of pixel `(x, y)` in a row-major buffer `width` wide.
pub open spec fn pixel_index(width: int, x: int, y: int) -> int {
    y * width + x
}

/// Whether bit `col` (0 = leftmost of five) of row `row` of `c`'s glyph is lit.
pub open spec fn glyph_bit(c: char, row: int, col: int) -> bool {
    (glyph_rows(c)[row] >> ((4 - col) as u8)) & 1u8 == 1u8
}

/// Whether the `scale`x`scale` cell with top-left corner `(px, py)` holds
/// pixel `(x, y)`.
pub open spec fn cell_covers(px: int, py: int, scale: int, x: int, y: int) -> bool {
    px <= x < px + scale && py <= y < py + scale
}

/// Whether a lit cell among the first rows of `c`'s glyph, drawn with its
/// top-left corner at `(gx, gy)` and cells `scale` pixels wide, holds
/// `(x, y)`; the cells taken are those before row `row`, column `col`.
pub open spec fn glyph_prefix_covers(
    c: char,
    gx: int,
    gy: int,
    scale: int,
    row: int,
    col: int,
    x: int,
    y: int,
) -> bool {
    exists|r: int, k: int|
        0 <= r < 7 && 0 <= k < 5 && (r < row || (r == row && k < col)) && #[trigger] glyph_bit(c, r, k)
            && cell_covers(gx + k * scale, gy + r * scale, scale, x, y)
}

/// Whether `c`'s glyph, drawn with its top-left corner at `(gx, gy)` and
/// cells `scale` pixels wide, covers pixel `(x, y)`.
pub open spec fn glyph_covers(c: char, gx: int, gy: int, scale: int, x: int, y: int) -> bool {
    glyph_prefix_covers(c, gx, gy, scale, 7, 0, x, y)
}

/// Whether one of the first `count` glyphs of `text`, drawn from `(x0, y0)`
/// with each glyph six cells after the one before, covers pixel `(x, y)`.
pub open spec fn text_prefix_covers(
    text: Seq<char>,
    count: int,
    x0: int,
    y0: int,
    scale: int,
    x: int,
    y: int,
) -> bool {
    exists|i: int|
        0 <= i < count && i < text.len() && #[trigger] glyph_covers(
            text[i],
            x0 + 6 * scale * i,
            y0,
            scale,
            x,
            y,
        )
}

/// Whether `text`, drawn from `(x0, y0)` at `scale`, covers pixel `(x, y)`.
pub open spec fn text_covers(text: Seq<char>, x0: int, y0: int, scale: int, x: int, y: int) -> bool {
    text_prefix_covers(text, text.len() as int, x0, y0, scale, x, y)
}

/// The width of `count` glyphs at `scale`: five cells each plus a one-cell
/// gap between neighbours.
pub open spec fn glyph_run_width(count: int, scale: int) -> int {
    count * 6 * scale - scale
}

/// Distinct pixels of a canvas sit at distinct buffer positions, all inside
/// the buffer.
proof fn lemma_pixel_index(width: int, height: int, x: int, y: int, x2: int, y2: int)
    requires
        on_canvas(width, height, x, y),
        on_canvas(width, height, x2, y2),
    ensures
        0 <= pixel_index(width, x, y) < width * height,
        pixel_index(width, x, y) == pixel_index(width, x2, y2) ==> x == x2 && y == y2,
{
    assert(0 <= y * width + x < width * height) by (nonlinear_arith)
        requires
            0 <= x < width,
            0 <= y < height,
    ;
    if y * width + x == y2 * width + x2 {
        if y < y2 {
            assert(y * width + x < y2 * width + x2) by (nonlinear_arith)
                requires
                    y < y2,
                    0 <= x < width,
                    0 <= x2,
            ;
        } else if y2 < y {
            assert(y2 * width + x2 < y * width + x) by (nonlinear_arith)
                requires
                    y2 < y,
                    0 <= x2 < width,
                    0 <= x,
            ;
        }
    }
}

/// A `width`x`height` canvas, row-major: each pixel holds the colour last
/// drawn on it, or `None` where nothing was drawn.
#[derive(Debug, Clone)]
pub struct Canvas<C> {
    pub width: usize,
    pub height: usize,
    pub pixels: Vec<Option<C>>,
}

impl<C> Canvas<C> {
    /// The buffer holds one entry per pixel.
    pub open spec fn well_formed(&self) -> bool {
        self.pixels@.len() == self.width * self.height
    }

    /// `self` is `before` with exactly the on-canvas pixels that `covered`
    /// holds set to `color`.
    pub open spec fn painted(
        &self,
        before: Canvas<C>,
        covered: spec_fn(int, int) -> bool,
        color: C,
    ) -> bool {
        &&& self.width == before.width
        &&& self.height == before.height
        &&& self.pixels@.len() == before.pixels@.len()
        &&& forall|x: int, y: int|
            on_canvas(self.width as int, self.height as int, x, y) ==> #[trigger] self.pixels@[pixel_index(
                self.width as int,
                x,
                y,
            )] == if covered(x, y) {
                Some(color)
            } else {
                before.pixels@[pixel_index(self.width as int, x, y)]
            }
    }
}

impl<C: Copy> Canvas<C> {
    /// A blank `width`x`height` canvas.
    pub fn new(width: usize, height: usize) -> (c: Self)
        requires
            width * height <= usize::MAX,
        ensures
            c.width == width,
            c.height == height,
            c.well_formed(),
            forall|k: int| 0 <= k < c.pixels@.len() ==> c.pixels@[k] is None,
    {
        let n = width * height;
        let mut pixels: Vec<Option<C>> = Vec::new();
        let mut k: usize = 0;
        while k < n
            invariant
                k <= n,
                pixels@.len() == k,
                forall|j: int| 0 <= j < k ==> pixels@[j] is None,
            decreases n - k,
        {
            pixels.push(None);
            k = k + 1;
        }
        Canvas { width, height, pixels }
    }

    /// Paints pixel `(x, y)`; a pixel off the canvas is ignored.
    pub fn set(&mut self, x: i32, y: i32, color: C)
        requires
            old(self).well_formed(),
        ensures
            final(self).well_formed(),
            final(self).painted(*old(self), |px: int, py: int| px == x && py == y, color),
    {
        let n = self.pixels.len();
        if x < 0 || y < 0 || x as usize >= self.width || y as usize >= self.height {
            assert forall|px: int, py: int|
                on_canvas(self.width as int, self.height as int, px, py) implies !(px == x && py == y) by {}
            return;
        }
        let ghost before = *self;
        proof {
            lemma_pixel_index(self.width as int, self.height as int, x as int, y as int, x as int, y as int);
        }
        let i = (y as usize) * self.width + (x as usize);
        self.pixels.set(i, Some(color));
        proof {
            assert forall|px: int, py: int|
                on_canvas(self.width as int, self.height as int, px, py) implies #[trigger] self.pixels@[pixel_index(
                    self.width as int,
                    px,
                    py,
                )] == if px == x && py == y {
                    Some(color)
                } else {
                    before.pixels@[pixel_index(self.width as int, px, py)]
                } by {
                lemma_pixel_index(self.width as int, self.height as int, px, py, x as int, y as int);
            }
        }
    }
}

/// Painting `first` and then `second` paints every pixel either holds.
proof fn lemma_paint_chain<C>(
    c0: Canvas<C>,
    c1: Canvas<C>,
    c2: Canvas<C>,
    first: spec_fn(int, int) -> bool,
    second: spec_fn(int, int) -> bool,
    both: spec_fn(int, int) -> bool,
    color: C,
)
    requires
        c1.painted(c0, first, color),
        c2.painted(c1, second, color),
        forall|x: int, y: int| #[trigger] both(x, y) == (first(x, y) || second(x, y)),
    ensures
        c2.painted(c0, both, color),
{
    assert forall|x: int, y: int|
        on_canvas(c2.width as int, c2.height as int, x, y) implies #[trigger] c2.pixels@[pixel_index(
            c2.width as int,
            x,
            y,
        )] == if both(x, y) {
            Some(color)
        } else {
            c0.pixels@[pixel_index(c2.width as int, x, y)]
        } by {
        assert(c1.pixels@[pixel_index(c1.width as int, x, y)] == if first(x, y) {
            Some(color)
        } else {
            c0.pixels@[pixel_index(c1.width as int, x, y)]
        });
    }
}

/// Painting nothing leaves a canvas as it is.
proof fn lemma_paint_nothing<C>(c: Canvas<C>, nothing: spec_fn(int, int) -> bool, color: C)
    requires
        forall|x: int, y: int| !#[trigger] nothing(x, y),
    ensures
        c.painted(c, nothing, color),
{
}

impl<C: Copy> Canvas<C> {
    /// Fills the `scale`x`scale` cell whose top-left corner is `(px, py)`.
    fn fill_cell(&mut self, px: i32, py: i32, scale: i32, color: C)
        requires
            old(self).well_formed(),
            px + scale <= 0x7fff_ffff,
            py + scale <= 0x7fff_ffff,
        ensures
            final(self).well_formed(),
            final(self).painted(
                *old(self),
                |x: int, y: int| cell_covers(px as int, py as int, scale as int, x, y),
                color,
            ),
    {
        let ghost start = *self;
        proof {
            lemma_paint_nothing(start, |x: int, y: int| px <= x < px + scale && py <= y < py + 0, color);
        }
        let mut dy: i32 = 0;
        while dy < scale
            invariant
                0 <= dy <= scale || (scale < 0 && dy == 0),
                py + scale <= 0x7fff_ffff,
                px + scale <= 0x7fff_ffff,
                self.well_formed(),
                self.painted(
                    start,
                    |x: int, y: int| px <= x < px + scale && py <= y < py + dy,
                    color,
                ),
            decreases scale - dy,
        {
            let mut dx: i32 = 0;
            while dx < scale
                invariant
                    0 <= dx <= scale,
                    0 <= dy < scale,
                    py + scale <= 0x7fff_ffff,
                    px + scale <= 0x7fff_ffff,
                    self.well_formed(),
                    self.painted(
                        start,
                        |x: int, y: int|
                            px <= x < px + scale && (py <= y < py + dy || (y == py + dy && px <= x
                                < px + dx)),
                        color,
                    ),
                decreases scale - dx,
            {
                let ghost mid = *self;
                self.set(px + dx, py + dy, color);
                proof {
                    lemma_paint_chain(
                        start,
                        mid,
                        *self,
                        |x: int, y: int|
                            px <= x < px + scale && (py <= y < py + dy || (y == py + dy && px <= x
                                < px + dx)),
                        |x: int, y: int| x == px + dx && y == py + dy,
                        |x: int, y: int|
                            px <= x < px + scale && (py <= y < py + dy || (y == py + dy && px <= x
                                < px + dx + 1)),
                        color,
                    );
                }
                dx = dx + 1;
            }
            proof {
                assert(self.painted(
                    start,
                    |x: int, y: int| px <= x < px + scale && py <= y < py + dy + 1,
                    color,
                )) by {
                    let ghost a = |x: int, y: int|
                        px <= x < px + scale && (py <= y < py + dy || (y == py + dy && px <= x
                            < px + dx));
                    let ghost b = |x: int, y: int| px <= x < px + scale && py <= y < py + dy + 1;
                    assert(forall|x: int, y: int| #[trigger] a(x, y) == b(x, y));
                    assert(a =~= b);
                }
            }
            dy = dy + 1;
        }
        proof {
            let ghost a = |x: int, y: int| px <= x < px + scale && py <= y < py + dy;
            let ghost b = |x: int, y: int| cell_covers(px as int, py as int, scale as int, x, y);
            assert(a =~= b);
        }
    }
}

/// Taking one more cell of a glyph, in row-major order, adds exactly that
/// cell where its bit is lit.
proof fn lemma_glyph_prefix_step(
    c: char,
    gx: int,
    gy: int,
    scale: int,
    row: int,
    col: int,
    x: int,
    y: int,
)
    requires
        0 <= row < 7,
        0 <= col < 5,
    ensures
        glyph_prefix_covers(c, gx, gy, scale, row, col + 1, x, y) == (glyph_prefix_covers(
            c,
            gx,
            gy,
            scale,
            row,
            col,
            x,
            y,
        ) || (glyph_bit(c, row, col) && cell_covers(gx + col * scale, gy + row * scale, scale, x, y))),
{
    if glyph_prefix_covers(c, gx, gy, scale, row, col + 1, x, y) {
        let (r, k) = choose|r: int, k: int|
            0 <= r < 7 && 0 <= k < 5 && (r < row || (r == row && k < col + 1)) && #[trigger] glyph_bit(
                c,
                r,
                k,
            ) && cell_covers(gx + k * scale, gy + r * scale, scale, x, y);
        if !(r == row && k == col) {
            assert(glyph_bit(c, r, k));
        }
    }
    if glyph_prefix_covers(c, gx, gy, scale, row, col, x, y) {
        let (r, k) = choose|r: int, k: int|
            0 <= r < 7 && 0 <= k < 5 && (r < row || (r == row && k < col)) && #[trigger] glyph_bit(c, r, k)
                && cell_covers(gx + k * scale, gy + r * scale, scale, x, y);
        assert(glyph_bit(c, r, k));
    }
    if glyph_bit(c, row, col) && cell_covers(gx + col * scale, gy + row * scale, scale, x, y) {
        assert(glyph_bit(c, row, col));
    }
}

/// After the last column of a row, the next row starts with the same cells.
proof fn lemma_glyph_prefix_next_row(
    c: char,
    gx: int,
    gy: int,
    scale: int,
    row: int,
    x: int,
    y: int,
)
    ensures
        glyph_prefix_covers(c, gx, gy, scale, row, 5, x, y) == glyph_prefix_covers(
            c,
            gx,
            gy,
            scale,
            row + 1,
            0,
            x,
            y,
        ),
{
    if glyph_prefix_covers(c, gx, gy, scale, row, 5, x, y) {
        let (r, k) = choose|r: int, k: int|
            0 <= r < 7 && 0 <= k < 5 && (r < row || (r == row && k < 5)) && #[trigger] glyph_bit(c, r, k)
                && cell_covers(gx + k * scale, gy + r * scale, scale, x, y);
        assert(glyph_bit(c, r, k));
    }
    if glyph_prefix_covers(c, gx, gy, scale, row + 1, 0, x, y) {
        let (r, k) = choose|r: int, k: int|
            0 <= r < 7 && 0 <= k < 5 && (r < row + 1 || (r == row + 1 && k < 0)) && #[trigger] glyph_bit(
                c,
                r,
                k,
            ) && cell_covers(gx + k * scale, gy + r * scale, scale, x, y);
        assert(glyph_bit(c, r, k));
    }
}

/// Taking one more glyph of a text adds exactly the pixels that glyph covers.
proof fn lemma_text_prefix_step(
    text: Seq<char>,
    count: int,
    x0: int,
    y0: int,
    scale: int,
    x: int,
    y: int,
)
    requires
        0 <= count < text.len(),
    ensures
        text_prefix_covers(text, count + 1, x0, y0, scale, x, y) == (text_prefix_covers(
            text,
            count,
            x0,
            y0,
            scale,
            x,
            y,
        ) || glyph_covers(text[count], x0 + 6 * scale * count, y0, scale, x, y)),
{
    if text_prefix_covers(text, count + 1, x0, y0, scale, x, y) {
        let i = choose|i: int|
            0 <= i < count + 1 && i < text.len() && #[trigger] glyph_covers(
                text[i],
                x0 + 6 * scale * i,
                y0,
                scale,
                x,
                y,
            );
        if i < count {
            assert(glyph_covers(text[i], x0 + 6 * scale * i, y0, scale, x, y));
        }
    }
    if text_prefix_covers(text, count, x0, y0, scale, x, y) {
        let i = choose|i: int|
            0 <= i < count && i < text.len() && #[trigger] glyph_covers(
                text[i],
                x0 + 6 * scale * i,
                y0,
                scale,
                x,
                y,
            );
        assert(glyph_covers(text[i], x0 + 6 * scale * i, y0, scale, x, y));
    }
    if glyph_covers(text[count], x0 + 6 * scale * count, y0, scale, x, y) {
        assert(glyph_covers(text[count], x0 + 6 * scale * count, y0, scale, x, y));
    }
}

impl<C: Copy> Canvas<C> {
    /// Draws the glyph of `c` with its top-left corner at `(gx, gy)`, each
    /// font cell `scale` pixels square.
    fn draw_glyph(&mut self, c: char, gx: i32, gy: i32, scale: i32, color: C)
        requires
            old(self).well_formed(),
            -0x8000_0000 <= 6 * scale <= 0x7fff_ffff,
            -0x8000_0000 <= gx + 5 * scale <= 0x7fff_ffff,
            -0x8000_0000 <= gy + 7 * scale <= 0x7fff_ffff,
        ensures
            final(self).well_formed(),
            final(self).painted(
                *old(self),
                |x: int, y: int| glyph_covers(c, gx as int, gy as int, scale as int, x, y),
                color,
            ),
    {
        let ghost start = *self;
        let g = glyph(c);
        proof {
            lemma_paint_nothing(
                start,
                |x: int, y: int| glyph_prefix_covers(c, gx as int, gy as int, scale as int, 0, 0, x, y),
                color,
            );
        }
        let mut row: u8 = 0;
        while row < 7
            invariant
                row <= 7,
                g@ == glyph_rows(c),
                -0x8000_0000 <= 6 * scale <= 0x7fff_ffff,
                -0x8000_0000 <= gx + 5 * scale <= 0x7fff_ffff,
                -0x8000_0000 <= gy + 7 * scale <= 0x7fff_ffff,
                self.well_formed(),
                self.painted(
                    start,
                    |x: int, y: int|
                        glyph_prefix_covers(c, gx as int, gy as int, scale as int, row as int, 0, x, y),
                    color,
                ),
            decreases 7 - row,
        {
            let bits = g[row as usize];
            let mut col: u8 = 0;
            while col < 5
                invariant
                    row < 7,
                    col <= 5,
                    bits == glyph_rows(c)[row as int],
                    -0x8000_0000 <= 6 * scale <= 0x7fff_ffff,
                    -0x8000_0000 <= gx + 5 * scale <= 0x7fff_ffff,
                    -0x8000_0000 <= gy + 7 * scale <= 0x7fff_ffff,
                    self.well_formed(),
                    self.painted(
                        start,
                        |x: int, y: int|
                            glyph_prefix_covers(
                                c,
                                gx as int,
                                gy as int,
                                scale as int,
                                row as int,
                                col as int,
                                x,
                                y,
                            ),
                        color,
                    ),
                decreases 5 - col,
            {
                let ghost mid = *self;
                let ghost before_cells = |x: int, y: int|
                    glyph_prefix_covers(c, gx as int, gy as int, scale as int, row as int, col as int, x, y);
                let ghost after_cells = |x: int, y: int|
                    glyph_prefix_covers(
                        c,
                        gx as int,
                        gy as int,
                        scale as int,
                        row as int,
                        col + 1,
                        x,
                        y,
                    );
                assert(-0x8000_0000 <= col * scale <= 0x7fff_ffff && -0x8000_0000 <= row * scale
                    <= 0x7fff_ffff) by (nonlinear_arith)
                    requires
                        -0x8000_0000 <= 6 * scale <= 0x7fff_ffff,
                        col < 5,
                        row < 7,
                ;
                assert(-0x8000_0000 <= gx + col * scale <= 0x7fff_ffff && gx + col * scale + scale
                    <= 0x7fff_ffff && -0x8000_0000 <= gy + row * scale <= 0x7fff_ffff && gy + row
                    * scale + scale <= 0x7fff_ffff) by (nonlinear_arith)
                    requires
                        -0x8000_0000 <= gx <= 0x7fff_ffff,
                        -0x8000_0000 <= gy <= 0x7fff_ffff,
                        -0x8000_0000 <= gx + 5 * scale <= 0x7fff_ffff,
                        -0x8000_0000 <= gy + 7 * scale <= 0x7fff_ffff,
                        0 <= col < 5,
                        0 <= row < 7,
                ;
                if (bits >> (4 - col)) & 1u8 == 1u8 {
                    let px = gx + (col as i32) * scale;
                    let py = gy + (row as i32) * scale;
                    self.fill_cell(px, py, scale, color);
                    proof {
                        assert(glyph_bit(c, row as int, col as int));
                        assert forall|x: int, y: int| #[trigger] after_cells(x, y) == (before_cells(x, y)
                            || cell_covers(px as int, py as int, scale as int, x, y)) by {
                            lemma_glyph_prefix_step(c, gx as int, gy as int, scale as int, row as int, col as int, x, y);
                        }
                        lemma_paint_chain(
                            start,
                            mid,
                            *self,
                            before_cells,
                            |x: int, y: int| cell_covers(px as int, py as int, scale as int, x, y),
                            after_cells,
                            color,
                        );
                    }
                } else {
                    proof {
                        assert(!glyph_bit(c, row as int, col as int));
                        assert forall|x: int, y: int| #[trigger] after_cells(x, y) == before_cells(x, y) by {
                            lemma_glyph_prefix_step(c, gx as int, gy as int, scale as int, row as int, col as int, x, y);
                        }
                        assert(after_cells =~= before_cells);
                    }
                }
                col = col + 1;
            }
            proof {
                let ghost a = |x: int, y: int|
                    glyph_prefix_covers(c, gx as int, gy as int, scale as int, row as int, 5, x, y);
                let ghost b = |x: int, y: int|
                    glyph_prefix_covers(c, gx as int, gy as int, scale as int, row + 1, 0, x, y);
                assert forall|x: int, y: int| #[trigger] a(x, y) == b(x, y) by {
                    lemma_glyph_prefix_next_row(c, gx as int, gy as int, scale as int, row as int, x, y);
                }
                assert(a =~= b);
            }
            row = row + 1;
        }
        proof {
            let ghost a = |x: int, y: int|
                glyph_prefix_covers(c, gx as int, gy as int, scale as int, 7, 0, x, y);
            let ghost b = |x: int, y: int| glyph_covers(c, gx as int, gy as int, scale as int, x, y);
            assert(a =~= b);
        }
    }
}

impl<C: Copy> Canvas<C> {
    /// Draws `text` in the 5x7 pixel font with its top-left corner at
    /// `(start_x, start_y)`, each font cell `scale` pixels square and each
    /// glyph six cells after the one before; returns the x just past the
    /// last glyph (without the trailing one-cell gap).
    pub fn draw_text(&mut self, text: &str, start_x: i32, start_y: i32, scale: i32, color: C) -> (end:
        i32)
        requires
            old(self).well_formed(),
            -0x8000_0000 <= 6 * scale <= 0x7fff_ffff,
            -0x8000_0000 <= start_x + text@.len() * 6 * scale <= 0x7fff_ffff,
            -0x8000_0000 <= start_x + glyph_run_width(text@.len() as int, scale as int) <= 0x7fff_ffff,
            -0x8000_0000 <= start_y + 7 * scale <= 0x7fff_ffff,
        ensures
            final(self).well_formed(),
            final(self).painted(
                *old(self),
                |x: int, y: int| text_covers(text@, start_x as int, start_y as int, scale as int, x, y),
                color,
            ),
            end == start_x + glyph_run_width(text@.len() as int, scale as int),
    {
        let ghost start = *self;
        let n = text.unicode_len();
        proof {
            lemma_paint_nothing(
                start,
                |x: int, y: int| text_prefix_covers(text@, 0, start_x as int, start_y as int, scale as int, x, y),
                color,
            );
        }
        let mut x: i32 = start_x;
        let mut i: usize = 0;
        while i < n
            invariant
                n == text@.len(),
                i <= n,
                x == start_x + 6 * scale * i,
                -0x8000_0000 <= 6 * scale <= 0x7fff_ffff,
                -0x8000_0000 <= start_x + text@.len() * 6 * scale <= 0x7fff_ffff,
                -0x8000_0000 <= start_y + 7 * scale <= 0x7fff_ffff,
                self.well_formed(),
                self.painted(
                    start,
                    |px: int, py: int|
                        text_prefix_covers(text@, i as int, start_x as int, start_y as int, scale as int, px, py),
                    color,
                ),
            decreases n - i,
        {
            let c = text.get_char(i);
            assert(-0x8000_0000 <= x + 5 * scale <= 0x7fff_ffff && -0x8000_0000 <= x + 6 * scale
                <= 0x7fff_ffff) by (nonlinear_arith)
                requires
                    x == start_x + 6 * scale * i,
                    0 <= i < n,
                    -0x8000_0000 <= start_x <= 0x7fff_ffff,
                    -0x8000_0000 <= start_x + n * 6 * scale <= 0x7fff_ffff,
            ;
            let ghost mid = *self;
            self.draw_glyph(c, x, start_y, scale, color);
            proof {
                let ghost before_glyphs = |px: int, py: int|
                    text_prefix_covers(text@, i as int, start_x as int, start_y as int, scale as int, px, py);
                let ghost after_glyphs = |px: int, py: int|
                    text_prefix_covers(text@, i + 1, start_x as int, start_y as int, scale as int, px, py);
                assert forall|px: int, py: int| #[trigger] after_glyphs(px, py) == (before_glyphs(px, py)
                    || glyph_covers(c, x as int, start_y as int, scale as int, px, py)) by {
                    lemma_text_prefix_step(text@, i as int, start_x as int, start_y as int, scale as int, px, py);
                }
                lemma_paint_chain(
                    start,
                    mid,
                    *self,
                    before_glyphs,
                    |px: int, py: int| glyph_covers(c, x as int, start_y as int, scale as int, px, py),
                    after_glyphs,
                    color,
                );
            }
            assert(x + 6 * scale == start_x + 6 * scale * (i + 1)) by (nonlinear_arith)
                requires
                    x == start_x + 6 * scale * i,
            ;
            x = x + 6 * scale;
            i = i + 1;
        }
        proof {
            assert(x == start_x + text@.len() * 6 * scale) by (nonlinear_arith)
                requires
                    x == start_x + 6 * scale * i,
                    i == text@.len(),
            ;
            let ghost a = |px: int, py: int|
                text_prefix_covers(text@, i as int, start_x as int, start_y as int, scale as int, px, py);
            let ghost b = |px: int, py: int|
                text_covers(text@, start_x as int, start_y as int, scale as int, px, py);
            assert(a =~= b);
        }
        x - scale
    }
}

/// For ASCII text, one glyph per byte, `text_width` is how far `draw_text`
/// moves the pen: the x it returns minus the x it started from.
pub proof fn lemma_text_width_is_pen_advance(text: &str, scale: int)
    requires
        vstd::string::is_ascii(text),
    ensures
        text.spec_bytes().len() * 6 * scale - scale == glyph_run_width(text@.len() as int, scale),
{
    vstd::string::is_ascii_spec_bytes(text);
}

/// Where the logo's `i`-th waveform bar, `h` cells tall, stands on a
/// `grid`-cell square holding `count` bars `bar_width` cells wide with
/// `gap` cells between them: its left column (the bars centred as a
/// group), and its top and bottom rows (the bar centred vertically,
/// the odd cell going below the middle).
pub open spec fn bar_span(grid: int, count: int, bar_width: int, gap: int, i: int, h: int) -> (
    int,
    int,
    int,
) {
    let total = count * bar_width + (count - 1) * gap;
    ((grid - total) / 2 + i * (bar_width + gap), grid / 2 - h / 2, grid / 2 + (h + 1) / 2)
}

/// The column and row span of every bar of the logo mark (see [`bar_span`]).
pub fn logo_bar_spans(grid: usize, heights: &Vec<usize>, bar_width: usize, gap: usize) -> (spans: Vec<
    (usize, usize, usize),
>)
    requires
        heights@.len() >= 1,
        bar_width + gap <= usize::MAX,
        heights@.len() * bar_width + (heights@.len() - 1) * gap <= grid,
        forall|i: int| 0 <= i < heights@.len() ==> heights@[i] <= grid,
    ensures
        spans@.len() == heights@.len(),
        forall|i: int|
            0 <= i < heights@.len() ==> {
                let (x, top, bottom) = bar_span(
                    grid as int,
                    heights@.len() as int,
                    bar_width as int,
                    gap as int,
                    i,
                    heights@[i] as int,
                );
                &&& (#[trigger] spans@[i]).0 == x
                &&& spans@[i].1 == top
                &&& spans@[i].2 == bottom
            },
{
    let n = heights.len();
    assert((n - 1) * gap <= grid && n * bar_width <= grid) by (nonlinear_arith)
        requires
            n >= 1,
            n * bar_width + (n - 1) * gap <= grid,
    ;
    let total = n * bar_width + (n - 1) * gap;
    let start_x = (grid - total) / 2;
    let mut spans: Vec<(usize, usize, usize)> = Vec::new();
    let mut i: usize = 0;
    while i < n
        invariant
            n == heights@.len(),
            n >= 1,
            total == n * bar_width + (n - 1) * gap,
            total <= grid,
            bar_width + gap <= usize::MAX,
            start_x == (grid - total) / 2,
            forall|j: int| 0 <= j < heights@.len() ==> heights@[j] <= grid,
            i <= n,
            spans@.len() == i,
            forall|j: int|
                0 <= j < i ==> {
                    let (x, top, bottom) = bar_span(
                        grid as int,
                        n as int,
                        bar_width as int,
                        gap as int,
                        j,
                        heights@[j] as int,
                    );
                    &&& (#[trigger] spans@[j]).0 == x
                    &&& spans@[j].1 == top
                    &&& spans@[j].2 == bottom
                },
        decreases n - i,
    {
        let h = heights[i];
        assert(i * (bar_width + gap) <= total) by (nonlinear_arith)
            requires
                i < n,
                total == n * bar_width + (n - 1) * gap,
        ;
        let x = start_x + i * (bar_width + gap);
        let top = grid / 2 - h / 2;
        let bottom = grid / 2 + (h / 2 + h % 2);
        assert(h / 2 + h % 2 == (h + 1) / 2);
        spans.push((x, top, bottom));
        i = i + 1;
    }
    spans
}

} // verus!
