use vstd::prelude::*;
use super::{clamp, resolve_bool_param, resolve_levels};
use crate::category::EffectCategory;
use crate::image::channel_index;

verus! {

/// An error-diffusion kernel: each tap `(dx, dy, weight)` passes
/// `weight / denominator` of a pixel's quantization error to the pixel
/// `(dx, dy)` away from it (in left-to-right scan order).
#[derive(Debug, Clone)]
pub struct DiffusionKernel {
    pub taps: Vec<(i32, i32, u32)>,
    pub denominator: u32,
}

/// The sum of the tap weights of a kernel (in units of its denominator).
pub open spec fn weight_total(taps: Seq<(i32, i32, u32)>) -> int
    decreases taps.len(),
{
    if taps.len() == 0 {
        0
    } else {
        weight_total(taps.drop_last()) + taps.last().2
    }
}

/// The column visited at position `step` of row `y`: left to right, or right
/// to left on odd rows of a serpentine scan.
pub open spec fn scan_column_spec(width: int, y: int, step: int, serpentine: bool) -> int {
    if serpentine && y % 2 == 1 {
        width - 1 - step
    } else {
        step
    }
}

/// Where the error of pixel `(x, y)` goes for tap `(dx, dy)`: the buffer
/// index of the red channel of the target pixel, or nothing when it falls
/// outside the image. On a reversed (right-to-left) row the tap is mirrored.
pub open spec fn diffusion_target_spec(
    width: int,
    height: int,
    x: int,
    y: int,
    dx: int,
    dy: int,
    reverse: bool,
) -> Option<int> {
    let nx = x + if reverse {
        -dx
    } else {
        dx
    };
    let ny = y + dy;
    if 0 <= nx < width && 0 <= ny < height {
        Some(channel_index(width, nx, ny, 0))
    } else {
        None
    }
}

/// The position at which the scan of row `y` visits column `x`: counted
/// from the left, or from the right on a reversed row.
pub open spec fn scan_step(width: int, y: int, x: int, serpentine: bool) -> int {
    if serpentine && y % 2 == 1 {
        width - 1 - x
    } else {
        x
    }
}

/// Error only flows forward: for a tap pointing ahead of the pixel (a row
/// below, or further along the same row), the pixel that receives the
/// error lies the tap's distance away and is one the scan visits strictly
/// later, so no error lands on a pixel that is already quantized.
pub proof fn lemma_diffusion_targets_come_later(
    width: int,
    height: int,
    x: int,
    y: int,
    dx: int,
    dy: int,
    serpentine: bool,
)
    requires
        0 <= x < width,
        0 <= y < height,
        dy > 0 || (dy == 0 && dx > 0),
    ensures
        scan_column_spec(width, y, scan_step(width, y, x, serpentine), serpentine) == x,
        0 <= scan_step(width, y, x, serpentine) < width,
        diffusion_target_spec(width, height, x, y, dx, dy, serpentine && y % 2 == 1) matches Some(i)
            ==> exists|tx: int, ty: int|
            0 <= tx < width && 0 <= ty < height && i == #[trigger] channel_index(width, tx, ty, 0) && ty
                == y + dy && (tx - x == dx || x - tx == dx) && (ty > y || scan_step(
                width,
                ty,
                tx,
                serpentine,
            ) > scan_step(width, y, x, serpentine)),
{
    let reverse = serpentine && y % 2 == 1;
    if let Some(i) = diffusion_target_spec(width, height, x, y, dx, dy, reverse) {
        let tx = if reverse {
            x - dx
        } else {
            x + dx
        };
        let ty = y + dy;
        assert(i == channel_index(width, tx, ty, 0));
    }
}

/// On a row scanned right to left every tap is mirrored: tap `(dx, dy)`
/// reaches the pixel that tap `(-dx, dy)` reaches on a left-to-right row.
pub proof fn lemma_reversed_row_mirrors_taps(
    width: int,
    height: int,
    x: int,
    y: int,
    dx: int,
    dy: int,
)
    ensures
        diffusion_target_spec(width, height, x, y, dx, dy, true) == diffusion_target_spec(
            width,
            height,
            x,
            y,
            -dx,
            dy,
            false,
        ),
        diffusion_target_spec(width, height, x, y, dx, dy, false) == if 0 <= x + dx < width && 0
            <= y + dy < height {
            Some(((y + dy) * width + x + dx) * 4)
        } else {
            None::<int>
        },
{
}

/// The column visited at position `step` of row `y`.
pub fn scan_column(width: u32, y: u32, step: u32, serpentine: bool) -> (x: u32)
    requires
        step < width,
    ensures
        x == scan_column_spec(width as int, y as int, step as int, serpentine),
        x < width,
{
    if serpentine && y % 2 == 1 {
        width - 1 - step
    } else {
        step
    }
}

/// Whether row `y` is scanned right to left.
pub fn row_is_reversed(y: u32, serpentine: bool) -> (r: bool)
    ensures
        r == (serpentine && y % 2 == 1),
{
    serpentine && y % 2 == 1
}

/// The buffer index the error of pixel `(x, y)` is diffused to for tap
/// `(dx, dy)`, if that neighbor lies inside the image.
pub fn diffusion_target(
    width: u32,
    height: u32,
    x: u32,
    y: u32,
    dx: i32,
    dy: i32,
    reverse: bool,
) -> (t: Option<usize>)
    requires
        width * height * 4 <= usize::MAX,
    ensures
        t matches Some(i) ==> diffusion_target_spec(
            width as int,
            height as int,
            x as int,
            y as int,
            dx as int,
            dy as int,
            reverse,
        ) == Some(i as int),
        t is None ==> diffusion_target_spec(
            width as int,
            height as int,
            x as int,
            y as int,
            dx as int,
            dy as int,
            reverse,
        ) is None,
{
    let ddx: i64 = if reverse {
        -(dx as i64)
    } else {
        dx as i64
    };
    let nx: i64 = x as i64 + ddx;
    let ny: i64 = y as i64 + dy as i64;
    if 0 <= nx && nx < width as i64 && 0 <= ny && ny < height as i64 {
        assert((ny * width + nx) * 4 < width * height * 4) by (nonlinear_arith)
            requires
                0 <= nx < width,
                0 <= ny < height,
        ;
        Some(((ny as usize) * (width as usize) + (nx as usize)) * 4)
    } else {
        None
    }
}

/// The `serpentine` parameter of the error-diffusion dithers (default on).
pub fn resolve_serpentine(raw: Option<bool>) -> (s: bool)
    ensures
        s == match raw {
            Some(b) => b,
            None => true,
        },
{
    resolve_bool_param(raw, true)
}

/// The classic 1976 error-diffusion dither.
#[derive(Debug, Clone, Copy)]
pub struct FloydSteinberg;

/// The taps of the Floyd-Steinberg kernel.
pub open spec fn floyd_steinberg_taps() -> Seq<(i32, i32, u32)> {
    seq![(1i32, 0i32, 7u32), (-1i32, 1i32, 3u32), (0i32, 1i32, 5u32), (1i32, 1i32, 1u32)]
}

impl FloydSteinberg {
    pub const KEY: &'static str = "error_diffusion.floyd_steinberg";

    pub fn key(&self) -> (k: &'static str)
        ensures
            k@ == "error_diffusion.floyd_steinberg"@,
    {
        "error_diffusion.floyd_steinberg"
    }

    pub fn display_name(&self) -> (n: &'static str)
        ensures
            n@ == "Floyd-Steinberg"@,
    {
        "Floyd-Steinberg"
    }

    pub fn category(&self) -> (c: EffectCategory)
        ensures
            c == EffectCategory::ErrorDiffusion,
    {
        EffectCategory::ErrorDiffusion
    }

    /// The kernel: weights in units of 1/16.
    pub fn kernel(&self) -> (k: DiffusionKernel)
        ensures
            k.taps@ == floyd_steinberg_taps(),
            k.denominator == 16,
    {
        let mut taps: Vec<(i32, i32, u32)> = Vec::new();
        taps.push((1, 0, 7));
        taps.push((-1, 1, 3));
        taps.push((0, 1, 5));
        taps.push((1, 1, 1));
        DiffusionKernel { taps, denominator: 16 }
    }

    /// Quantization levels per channel (`levels` parameter: default 2,
    /// limited to `2..=256`).
    pub fn levels(&self, raw: Option<i64>) -> (l: u32)
        ensures
            l == clamp(
                match raw {
                    Some(r) => r as int,
                    None => 2,
                },
                2,
                256,
            ),
    {
        resolve_levels(raw)
    }

    /// Whether odd rows are scanned right to left (`serpentine` parameter,
    /// default on).
    pub fn serpentine(&self, raw: Option<bool>) -> (s: bool)
        ensures
            s == match raw {
                Some(b) => b,
                None => true,
            },
    {
        resolve_serpentine(raw)
    }
}

/// Bill Atkinson's dither for the original Macintosh: only diffuses 6/8 of the
/// error (vs. Floyd-Steinberg's full error), which loses some shadow/highlight
/// detail but gives noticeably higher-contrast output.
#[derive(Debug, Clone, Copy)]
pub struct Atkinson;

/// The taps of the Atkinson kernel.
pub open spec fn atkinson_taps() -> Seq<(i32, i32, u32)> {
    seq![(1i32, 0i32, 1u32), (2i32, 0i32, 1u32), (-1i32, 1i32, 1u32), (0i32, 1i32, 1u32), (1i32, 1i32, 1u32), (0i32, 2i32, 1u32)]
}

impl Atkinson {
    pub const KEY: &'static str = "error_diffusion.atkinson";

    pub fn key(&self) -> (k: &'static str)
        ensures
            k@ == "error_diffusion.atkinson"@,
    {
        "error_diffusion.atkinson"
    }

    pub fn display_name(&self) -> (n: &'static str)
        ensures
            n@ == "Atkinson"@,
    {
        "Atkinson"
    }

    pub fn category(&self) -> (c: EffectCategory)
        ensures
            c == EffectCategory::ErrorDiffusion,
    {
        EffectCategory::ErrorDiffusion
    }

    /// The kernel: weights in units of 1/8.
    pub fn kernel(&self) -> (k: DiffusionKernel)
        ensures
            k.taps@ == atkinson_taps(),
            k.denominator == 8,
    {
        let mut taps: Vec<(i32, i32, u32)> = Vec::new();
        taps.push((1, 0, 1));
        taps.push((2, 0, 1));
        taps.push((-1, 1, 1));
        taps.push((0, 1, 1));
        taps.push((1, 1, 1));
        taps.push((0, 2, 1));
        DiffusionKernel { taps, denominator: 8 }
    }

    /// Quantization levels per channel (`levels` parameter: default 2,
    /// limited to `2..=256`).
    pub fn levels(&self, raw: Option<i64>) -> (l: u32)
        ensures
            l == clamp(
                match raw {
                    Some(r) => r as int,
                    None => 2,
                },
                2,
                256,
            ),
    {
        resolve_levels(raw)
    }

    /// Whether odd rows are scanned right to left (`serpentine` parameter,
    /// default on).
    pub fn serpentine(&self, raw: Option<bool>) -> (s: bool)
        ensures
            s == match raw {
                Some(b) => b,
                None => true,
            },
    {
        resolve_serpentine(raw)
    }
}

/// Spreads error across a wider 3-row, 5-column neighborhood than
/// Floyd-Steinberg, trading a softer look for fewer directional artifacts.
#[derive(Debug, Clone, Copy)]
pub struct JarvisJudiceNinke;

/// The taps of the Jarvis-Judice-Ninke kernel.
pub open spec fn jarvis_judice_ninke_taps() -> Seq<(i32, i32, u32)> {
    seq![(1i32, 0i32, 7u32), (2i32, 0i32, 5u32), (-2i32, 1i32, 3u32), (-1i32, 1i32, 5u32), (0i32, 1i32, 7u32), (1i32, 1i32, 5u32), (2i32, 1i32, 3u32), (-2i32, 2i32, 1u32), (-1i32, 2i32, 3u32), (0i32, 2i32, 5u32), (1i32, 2i32, 3u32), (2i32, 2i32, 1u32)]
}

impl JarvisJudiceNinke {
    pub const KEY: &'static str = "error_diffusion.jarvis_judice_ninke";

    pub fn key(&self) -> (k: &'static str)
        ensures
            k@ == "error_diffusion.jarvis_judice_ninke"@,
    {
        "error_diffusion.jarvis_judice_ninke"
    }

    pub fn display_name(&self) -> (n: &'static str)
        ensures
            n@ == "Jarvis-Judice-Ninke"@,
    {
        "Jarvis-Judice-Ninke"
    }

    pub fn category(&self) -> (c: EffectCategory)
        ensures
            c == EffectCategory::ErrorDiffusion,
    {
        EffectCategory::ErrorDiffusion
    }

    /// The kernel: weights in units of 1/48.
    pub fn kernel(&self) -> (k: DiffusionKernel)
        ensures
            k.taps@ == jarvis_judice_ninke_taps(),
            k.denominator == 48,
    {
        let mut taps: Vec<(i32, i32, u32)> = Vec::new();
        taps.push((1, 0, 7));
        taps.push((2, 0, 5));
        taps.push((-2, 1, 3));
        taps.push((-1, 1, 5));
        taps.push((0, 1, 7));
        taps.push((1, 1, 5));
        taps.push((2, 1, 3));
        taps.push((-2, 2, 1));
        taps.push((-1, 2, 3));
        taps.push((0, 2, 5));
        taps.push((1, 2, 3));
        taps.push((2, 2, 1));
        DiffusionKernel { taps, denominator: 48 }
    }

    /// Quantization levels per channel (`levels` parameter: default 2,
    /// limited to `2..=256`).
    pub fn levels(&self, raw: Option<i64>) -> (l: u32)
        ensures
            l == clamp(
                match raw {
                    Some(r) => r as int,
                    None => 2,
                },
                2,
                256,
            ),
    {
        resolve_levels(raw)
    }

    /// Whether odd rows are scanned right to left (`serpentine` parameter,
    /// default on).
    pub fn serpentine(&self, raw: Option<bool>) -> (s: bool)
        ensures
            s == match raw {
                Some(b) => b,
                None => true,
            },
    {
        resolve_serpentine(raw)
    }
}

/// A refinement of Jarvis-Judice-Ninke with sharper, less blurry output at a
/// similar cost.
#[derive(Debug, Clone, Copy)]
pub struct Stucki;

/// The taps of the Stucki kernel.
pub open spec fn stucki_taps() -> Seq<(i32, i32, u32)> {
    seq![(1i32, 0i32, 8u32), (2i32, 0i32, 4u32), (-2i32, 1i32, 2u32), (-1i32, 1i32, 4u32), (0i32, 1i32, 8u32), (1i32, 1i32, 4u32), (2i32, 1i32, 2u32), (-2i32, 2i32, 1u32), (-1i32, 2i32, 2u32), (0i32, 2i32, 4u32), (1i32, 2i32, 2u32), (2i32, 2i32, 1u32)]
}

impl Stucki {
    pub const KEY: &'static str = "error_diffusion.stucki";

    pub fn key(&self) -> (k: &'static str)
        ensures
            k@ == "error_diffusion.stucki"@,
    {
        "error_diffusion.stucki"
    }

    pub fn display_name(&self) -> (n: &'static str)
        ensures
            n@ == "Stucki"@,
    {
        "Stucki"
    }

    pub fn category(&self) -> (c: EffectCategory)
        ensures
            c == EffectCategory::ErrorDiffusion,
    {
        EffectCategory::ErrorDiffusion
    }

    /// The kernel: weights in units of 1/42.
    pub fn kernel(&self) -> (k: DiffusionKernel)
        ensures
            k.taps@ == stucki_taps(),
            k.denominator == 42,
    {
        let mut taps: Vec<(i32, i32, u32)> = Vec::new();
        taps.push((1, 0, 8));
        taps.push((2, 0, 4));
        taps.push((-2, 1, 2));
        taps.push((-1, 1, 4));
        taps.push((0, 1, 8));
        taps.push((1, 1, 4));
        taps.push((2, 1, 2));
        taps.push((-2, 2, 1));
        taps.push((-1, 2, 2));
        taps.push((0, 2, 4));
        taps.push((1, 2, 2));
        taps.push((2, 2, 1));
        DiffusionKernel { taps, denominator: 42 }
    }

    /// Quantization levels per channel (`levels` parameter: default 2,
    /// limited to `2..=256`).
    pub fn levels(&self, raw: Option<i64>) -> (l: u32)
        ensures
            l == clamp(
                match raw {
                    Some(r) => r as int,
                    None => 2,
                },
                2,
                256,
            ),
    {
        resolve_levels(raw)
    }

    /// Whether odd rows are scanned right to left (`serpentine` parameter,
    /// default on).
    pub fn serpentine(&self, raw: Option<bool>) -> (s: bool)
        ensures
            s == match raw {
                Some(b) => b,
                None => true,
            },
    {
        resolve_serpentine(raw)
    }
}

/// Frankie Sierra's 3-row filter: similar quality to Stucki/JJN with a
/// smaller, cheaper kernel.
#[derive(Debug, Clone, Copy)]
pub struct Sierra;

/// The taps of the Sierra kernel.
pub open spec fn sierra_taps() -> Seq<(i32, i32, u32)> {
    seq![(1i32, 0i32, 5u32), (2i32, 0i32, 3u32), (-2i32, 1i32, 2u32), (-1i32, 1i32, 4u32), (0i32, 1i32, 5u32), (1i32, 1i32, 4u32), (2i32, 1i32, 2u32), (-1i32, 2i32, 2u32), (0i32, 2i32, 3u32), (1i32, 2i32, 2u32)]
}

impl Sierra {
    pub const KEY: &'static str = "error_diffusion.sierra";

    pub fn key(&self) -> (k: &'static str)
        ensures
            k@ == "error_diffusion.sierra"@,
    {
        "error_diffusion.sierra"
    }

    pub fn display_name(&self) -> (n: &'static str)
        ensures
            n@ == "Sierra"@,
    {
        "Sierra"
    }

    pub fn category(&self) -> (c: EffectCategory)
        ensures
            c == EffectCategory::ErrorDiffusion,
    {
        EffectCategory::ErrorDiffusion
    }

    /// The kernel: weights in units of 1/32.
    pub fn kernel(&self) -> (k: DiffusionKernel)
        ensures
            k.taps@ == sierra_taps(),
            k.denominator == 32,
    {
        let mut taps: Vec<(i32, i32, u32)> = Vec::new();
        taps.push((1, 0, 5));
        taps.push((2, 0, 3));
        taps.push((-2, 1, 2));
        taps.push((-1, 1, 4));
        taps.push((0, 1, 5));
        taps.push((1, 1, 4));
        taps.push((2, 1, 2));
        taps.push((-1, 2, 2));
        taps.push((0, 2, 3));
        taps.push((1, 2, 2));
        DiffusionKernel { taps, denominator: 32 }
    }

    /// Quantization levels per channel (`levels` parameter: default 2,
    /// limited to `2..=256`).
    pub fn levels(&self, raw: Option<i64>) -> (l: u32)
        ensures
            l == clamp(
                match raw {
                    Some(r) => r as int,
                    None => 2,
                },
                2,
                256,
            ),
    {
        resolve_levels(raw)
    }

    /// Whether odd rows are scanned right to left (`serpentine` parameter,
    /// default on).
    pub fn serpentine(&self, raw: Option<bool>) -> (s: bool)
        ensures
            s == match raw {
                Some(b) => b,
                None => true,
            },
    {
        resolve_serpentine(raw)
    }
}

/// A tiny 2-pixel, 2-row Sierra variant: the cheapest error diffusion here.
#[derive(Debug, Clone, Copy)]
pub struct SierraLite;

/// The taps of the Sierra Lite kernel.
pub open spec fn sierra_lite_taps() -> Seq<(i32, i32, u32)> {
    seq![(1i32, 0i32, 2u32), (-1i32, 1i32, 1u32), (0i32, 1i32, 1u32)]
}

impl SierraLite {
    pub const KEY: &'static str = "error_diffusion.sierra_lite";

    pub fn key(&self) -> (k: &'static str)
        ensures
            k@ == "error_diffusion.sierra_lite"@,
    {
        "error_diffusion.sierra_lite"
    }

    pub fn display_name(&self) -> (n: &'static str)
        ensures
            n@ == "Sierra Lite"@,
    {
        "Sierra Lite"
    }

    pub fn category(&self) -> (c: EffectCategory)
        ensures
            c == EffectCategory::ErrorDiffusion,
    {
        EffectCategory::ErrorDiffusion
    }

    /// The kernel: weights in units of 1/4.
    pub fn kernel(&self) -> (k: DiffusionKernel)
        ensures
            k.taps@ == sierra_lite_taps(),
            k.denominator == 4,
    {
        let mut taps: Vec<(i32, i32, u32)> = Vec::new();
        taps.push((1, 0, 2));
        taps.push((-1, 1, 1));
        taps.push((0, 1, 1));
        DiffusionKernel { taps, denominator: 4 }
    }

    /// Quantization levels per channel (`levels` parameter: default 2,
    /// limited to `2..=256`).
    pub fn levels(&self, raw: Option<i64>) -> (l: u32)
        ensures
            l == clamp(
                match raw {
                    Some(r) => r as int,
                    None => 2,
                },
                2,
                256,
            ),
    {
        resolve_levels(raw)
    }

    /// Whether odd rows are scanned right to left (`serpentine` parameter,
    /// default on).
    pub fn serpentine(&self, raw: Option<bool>) -> (s: bool)
        ensures
            s == match raw {
                Some(b) => b,
                None => true,
            },
    {
        resolve_serpentine(raw)
    }
}

/// A 2-row simplification of Stucki, dropping the third row for a cheaper
/// kernel at a similar quality to Sierra.
#[derive(Debug, Clone, Copy)]
pub struct Burkes;

/// The taps of the Burkes kernel.
pub open spec fn burkes_taps() -> Seq<(i32, i32, u32)> {
    seq![(1i32, 0i32, 8u32), (2i32, 0i32, 4u32), (-2i32, 1i32, 2u32), (-1i32, 1i32, 4u32), (0i32, 1i32, 8u32), (1i32, 1i32, 4u32), (2i32, 1i32, 2u32)]
}

impl Burkes {
    pub const KEY: &'static str = "error_diffusion.burkes";

    pub fn key(&self) -> (k: &'static str)
        ensures
            k@ == "error_diffusion.burkes"@,
    {
        "error_diffusion.burkes"
    }

    pub fn display_name(&self) -> (n: &'static str)
        ensures
            n@ == "Burkes"@,
    {
        "Burkes"
    }

    pub fn category(&self) -> (c: EffectCategory)
        ensures
            c == EffectCategory::ErrorDiffusion,
    {
        EffectCategory::ErrorDiffusion
    }

    /// The kernel: weights in units of 1/32.
    pub fn kernel(&self) -> (k: DiffusionKernel)
        ensures
            k.taps@ == burkes_taps(),
            k.denominator == 32,
    {
        let mut taps: Vec<(i32, i32, u32)> = Vec::new();
        taps.push((1, 0, 8));
        taps.push((2, 0, 4));
        taps.push((-2, 1, 2));
        taps.push((-1, 1, 4));
        taps.push((0, 1, 8));
        taps.push((1, 1, 4));
        taps.push((2, 1, 2));
        DiffusionKernel { taps, denominator: 32 }
    }

    /// Quantization levels per channel (`levels` parameter: default 2,
    /// limited to `2..=256`).
    pub fn levels(&self, raw: Option<i64>) -> (l: u32)
        ensures
            l == clamp(
                match raw {
                    Some(r) => r as int,
                    None => 2,
                },
                2,
                256,
            ),
    {
        resolve_levels(raw)
    }

    /// Whether odd rows are scanned right to left (`serpentine` parameter,
    /// default on).
    pub fn serpentine(&self, raw: Option<bool>) -> (s: bool)
        ensures
            s == match raw {
                Some(b) => b,
                None => true,
            },
    {
        resolve_serpentine(raw)
    }
}

/// Every kernel except Atkinson's passes on the whole quantization error
/// (its weights sum to the denominator); Atkinson's deliberately passes on
/// only 6/8 of it.
pub proof fn lemma_kernel_weight_totals()
    ensures
        weight_total(floyd_steinberg_taps()) == 16,
        weight_total(jarvis_judice_ninke_taps()) == 48,
        weight_total(stucki_taps()) == 42,
        weight_total(sierra_taps()) == 32,
        weight_total(sierra_lite_taps()) == 4,
        weight_total(burkes_taps()) == 32,
        weight_total(atkinson_taps()) == 6,
{
    reveal_with_fuel(weight_total, 13);
    assert(weight_total(floyd_steinberg_taps()) == 16);
    assert(weight_total(jarvis_judice_ninke_taps()) == 48);
    assert(weight_total(stucki_taps()) == 42);
    assert(weight_total(sierra_taps()) == 32);
    assert(weight_total(sierra_lite_taps()) == 4);
    assert(weight_total(burkes_taps()) == 32);
    assert(weight_total(atkinson_taps()) == 6);
}

/// Every tap of a kernel points ahead of its pixel: to a later row, or
/// further along the same row.
pub open spec fn taps_point_ahead(taps: Seq<(i32, i32, u32)>) -> bool {
    forall|t: int|
        0 <= t < taps.len() ==> (#[trigger] taps[t]).1 > 0 || (taps[t].1 == 0 && taps[t].0 > 0)
}

/// All the built-in kernels only push error ahead in the scan, so with
/// `lemma_diffusion_targets_come_later` no tap of theirs reaches a pixel
/// already quantized.
pub proof fn lemma_kernel_taps_point_ahead()
    ensures
        taps_point_ahead(floyd_steinberg_taps()),
        taps_point_ahead(atkinson_taps()),
        taps_point_ahead(jarvis_judice_ninke_taps()),
        taps_point_ahead(stucki_taps()),
        taps_point_ahead(sierra_taps()),
        taps_point_ahead(sierra_lite_taps()),
        taps_point_ahead(burkes_taps()),
{
}

} // verus!
