use vstd::prelude::*;
use super::{clamp, resolve_int_param};
use crate::category::EffectCategory;
use crate::image::{channel_index, channel_of, column_of, row_of, WorkingImage};

verus! {

/// Shifts the red and blue channels in opposite horizontal directions,
/// leaving green in place: a classic lens/compression-defect look.
#[derive(Debug, Clone, Copy)]
pub struct ChromaticAberration;

/// The buffer index a chromatic-aberration output channel is read from: red
/// comes from `amount` pixels to the left, blue from `amount` pixels to the
/// right, clamped to the row's edge.
pub open spec fn aberration_source(width: int, x: int, y: int, c: int, amount: int) -> int {
    let sx = if c == 0 {
        x - amount
    } else {
        x + amount
    };
    channel_index(width, clamp(sx, 0, width - 1), y, c)
}

/// The shift in pixels, from the `amount` parameter (default 4, limited to
/// `0..=256`).
pub open spec fn aberration_amount(raw: Option<i64>) -> int {
    clamp(
        match raw {
            Some(r) => r as int,
            None => 4,
        },
        0,
        256,
    )
}

/// The channel a chromatic-aberration output reads lies in the image and is
/// the same channel (red from red, blue from blue) of some pixel.
proof fn lemma_aberration_source_same_channel(width: int, height: int, k: int, amount: int)
    requires
        0 <= width,
        0 <= height,
        0 <= k < width * height * 4,
    ensures
        ({
            let src = aberration_source(
                width,
                column_of(width, k),
                row_of(width, k),
                channel_of(k),
                amount,
            );
            0 <= src < width * height * 4 && channel_of(src) == channel_of(k)
        }),
{
    let c = channel_of(k);
    let p = k / 4;
    assert(width > 0 && height > 0) by (nonlinear_arith)
        requires
            0 <= width,
            0 <= height,
            0 <= k < width * height * 4,
    ;
    let x = column_of(width, k);
    let y = row_of(width, k);
    assert(0 <= p < width * height && 0 <= c < 4) by (nonlinear_arith)
        requires
            0 <= k < width * height * 4,
            p == k / 4,
            c == k % 4,
    ;
    assert(0 <= y < height && 0 <= x < width) by (nonlinear_arith)
        requires
            0 <= p < width * height,
            width > 0,
            x == p % width,
            y == p / width,
    ;
    let sx = if c == 0 {
        x - amount
    } else {
        x + amount
    };
    let cx = clamp(sx, 0, width - 1);
    let src = channel_index(width, cx, y, c);
    assert(0 <= src < width * height * 4 && src % 4 == c) by (nonlinear_arith)
        requires
            0 <= y < height,
            0 <= cx < width,
            0 <= c < 4,
            src == (y * width + cx) * 4 + c,
    ;
}

impl ChromaticAberration {
    pub const KEY: &'static str = "glitch.chromatic_aberration";

    pub fn key(&self) -> (k: &'static str)
        ensures
            k@ == "glitch.chromatic_aberration"@,
    {
        "glitch.chromatic_aberration"
    }

    pub fn display_name(&self) -> (n: &'static str)
        ensures
            n@ == "Chromatic Aberration"@,
    {
        "Chromatic Aberration"
    }

    pub fn category(&self) -> (c: EffectCategory)
        ensures
            c == EffectCategory::Glitch,
    {
        EffectCategory::Glitch
    }

    /// The effect itself: every red channel takes the red of the pixel
    /// `amount` to its left, every blue channel the blue of the pixel
    /// `amount` to its right (both clamped to the row), green and alpha stay.
    pub fn apply<T: Copy>(&self, input: &WorkingImage<T>, amount_param: Option<i64>) -> (out:
        WorkingImage<T>)
        requires
            input.well_formed(),
        ensures
            out.same_shape(input),
            forall|k: int|
                0 <= k < out.pixels@.len() ==> #[trigger] out.pixels@[k] == if channel_of(k) == 0
                    || channel_of(k) == 2 {
                    input.pixels@[aberration_source(
                        input.width as int,
                        column_of(input.width as int, k),
                        row_of(input.width as int, k),
                        channel_of(k),
                        aberration_amount(amount_param),
                    )]
                } else {
                    input.pixels@[k]
                },
            input.is_solid() ==> out.pixels@ == input.pixels@,
    {
        let amount: i64 = resolve_int_param(amount_param, 4, 0, 256);
        let w = input.width;
        let h = input.height;
        let n = input.pixels.len();
        let mut pixels: Vec<T> = Vec::new();
        let mut k: usize = 0;
        while k < n
            invariant
                k <= n,
                n == input.pixels@.len(),
                n == w * h * 4,
                w == input.width,
                h == input.height,
                amount == aberration_amount(amount_param),
                pixels@.len() == k,
                forall|j: int|
                    0 <= j < k ==> #[trigger] pixels@[j] == if channel_of(j) == 0 || channel_of(j)
                        == 2 {
                        input.pixels@[aberration_source(
                            w as int,
                            column_of(w as int, j),
                            row_of(w as int, j),
                            channel_of(j),
                            amount as int,
                        )]
                    } else {
                        input.pixels@[j]
                    },
            decreases n - k,
        {
            let c = k % 4;
            if c == 0 || c == 2 {
                let p = k / 4;
                assert(w > 0) by (nonlinear_arith)
                    requires
                        k < w * h * 4,
                ;
                let x = p % (w as usize);
                let y = p / (w as usize);
                assert(y < h) by (nonlinear_arith)
                    requires
                        p == k / 4,
                        k < w * h * 4,
                        y == p / (w as usize),
                        w > 0,
                ;
                let sx: i64 = if c == 0 {
                    x as i64 - amount
                } else {
                    x as i64 + amount
                };
                let cx: i64 = if sx < 0 {
                    0
                } else if sx > w as i64 - 1 {
                    w as i64 - 1
                } else {
                    sx
                };
                assert((y * w + cx) * 4 + c < w * h * 4) by (nonlinear_arith)
                    requires
                        0 <= y < h,
                        0 <= cx < w,
                        c < 4,
                ;
                let src = ((y as usize) * (w as usize) + (cx as usize)) * 4 + c;
                pixels.push(input.pixels[src]);
            } else {
                pixels.push(input.pixels[k]);
            }
            k = k + 1;
        }
        proof {
            if input.is_solid() {
                assert forall|j: int| 0 <= j < n implies pixels@[j] == input.pixels@[j] by {
                    if channel_of(j) == 0 || channel_of(j) == 2 {
                        lemma_aberration_source_same_channel(w as int, h as int, j, amount as int);
                        let src = aberration_source(
                            w as int,
                            column_of(w as int, j),
                            row_of(w as int, j),
                            channel_of(j),
                            amount as int,
                        );
                        assert(input.pixels@[src] == input.pixels@[channel_of(src)]);
                        assert(input.pixels@[j] == input.pixels@[channel_of(j)]);
                    }
                }
                assert(pixels@ =~= input.pixels@);
            }
        }
        WorkingImage { width: w, height: h, color_space: input.color_space, pixels }
    }
}

/// Darkens every `spacing`-th row, for a CRT/interlace look.
#[derive(Debug, Clone, Copy)]
pub struct Scanlines;

/// The row spacing, from the `spacing` parameter (default 2, limited to
/// `1..=4096`).
pub open spec fn scanline_spacing(raw: Option<i64>) -> int {
    clamp(
        match raw {
            Some(r) => r as int,
            None => 2,
        },
        1,
        4096,
    )
}

impl Scanlines {
    pub const KEY: &'static str = "glitch.scanlines";

    pub fn key(&self) -> (k: &'static str)
        ensures
            k@ == "glitch.scanlines"@,
    {
        "glitch.scanlines"
    }

    pub fn display_name(&self) -> (n: &'static str)
        ensures
            n@ == "Scanlines"@,
    {
        "Scanlines"
    }

    pub fn category(&self) -> (c: EffectCategory)
        ensures
            c == EffectCategory::Glitch,
    {
        EffectCategory::Glitch
    }

    /// The effect itself: the red, green and blue channels of every row whose
    /// index is a multiple of the spacing are passed through `darken` (which
    /// scales them by `1 - strength`); every other value is kept.
    pub fn apply<T: Copy, F: Fn(T) -> T>(
        &self,
        input: &WorkingImage<T>,
        spacing_param: Option<i64>,
        darken: F,
    ) -> (out: WorkingImage<T>)
        requires
            input.well_formed(),
            forall|t: T| darken.requires((t,)),
        ensures
            out.same_shape(input),
            forall|k: int|
                0 <= k < out.pixels@.len() ==> if row_of(input.width as int, k) % scanline_spacing(
                    spacing_param,
                ) == 0 && channel_of(k) < 3 {
                    darken.ensures((input.pixels@[k],), #[trigger] out.pixels@[k])
                } else {
                    out.pixels@[k] == input.pixels@[k]
                },
    {
        let spacing: i64 = resolve_int_param(spacing_param, 2, 1, 4096);
        let w = input.width;
        let n = input.pixels.len();
        let mut pixels: Vec<T> = Vec::new();
        let mut k: usize = 0;
        while k < n
            invariant
                k <= n,
                n == input.pixels@.len(),
                w == input.width,
                n == w * input.height * 4,
                spacing == scanline_spacing(spacing_param),
                forall|t: T| darken.requires((t,)),
                pixels@.len() == k,
                forall|j: int|
                    0 <= j < k ==> if row_of(w as int, j) % (spacing as int) == 0 && channel_of(j)
                        < 3 {
                        darken.ensures((input.pixels@[j],), #[trigger] pixels@[j])
                    } else {
                        pixels@[j] == input.pixels@[j]
                    },
            decreases n - k,
        {
            let v = input.pixels[k];
            let selected = if w == 0 {
                false
            } else {
                let y = (k / 4) / (w as usize);
                (y as u64) % (spacing as u64) == 0 && k % 4 < 3
            };
            if selected {
                pixels.push(darken(v));
            } else {
                pixels.push(v);
            }
            k = k + 1;
        }
        WorkingImage { width: w, height: input.height, color_space: input.color_space, pixels }
    }
}

} // verus!
