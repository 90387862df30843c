use vstd::prelude::*;

verus! {

/// Color space a [`WorkingImage`]'s pixel data is stored in.
#[derive(Debug, Clone, Copy, PartialEq, Eq, Structural)]
pub enum ColorSpace {
    /// Gamma-encoded sRGB, the space classic error-diffusion dithering works in.
    Srgb,
    /// Linear light, for physically based blur/convolution effects.
    Linear,
    /// Perceptual Oklab, for palette matching and perceptual color distance.
    Oklab,
}

/// The in-memory image every effect operates on: row-major RGBA, four
/// channel values of type `T` per pixel, tagged with its color space.
#[derive(Debug, Clone)]
pub struct WorkingImage<T> {
    pub width: u32,
    pub height: u32,
    pub color_space: ColorSpace,
    pub pixels: Vec<T>,
}

/// Index into a row-major RGBA buffer of the channel `c` of pixel `(x, y)`.
pub open spec fn channel_index(width: int, x: int, y: int, c: int) -> int {
    (y * width + x) * 4 + c
}

/// The channel (0 = red .. 3 = alpha) that buffer index `k` holds.
pub open spec fn channel_of(k: int) -> int {
    k % 4
}

/// The column of the pixel that buffer index `k` belongs to.
pub open spec fn column_of(width: int, k: int) -> int {
    (k / 4) % width
}

/// The row of the pixel that buffer index `k` belongs to.
pub open spec fn row_of(width: int, k: int) -> int {
    (k / 4) / width
}

impl<T> WorkingImage<T> {
    /// The buffer holds exactly four channels per pixel.
    pub open spec fn well_formed(&self) -> bool {
        self.pixels@.len() == self.width * self.height * 4
    }

    /// Same dimensions and color space as `other`.
    pub open spec fn same_shape<U>(&self, other: &WorkingImage<U>) -> bool {
        &&& self.width == other.width
        &&& self.height == other.height
        &&& self.color_space == other.color_space
        &&& self.pixels@.len() == other.pixels@.len()
    }

    /// Every pixel holds the same four channel values as the first one.
    pub open spec fn is_solid(&self) -> bool {
        forall|k: int| 0 <= k < self.pixels@.len() ==> #[trigger] self.pixels@[k] == self.pixels@[channel_of(k)]
    }
}

impl<T: Copy> WorkingImage<T> {
    /// A `width`x`height` image with every channel of every pixel set to `fill`.
    pub fn new(width: u32, height: u32, color_space: ColorSpace, fill: T) -> (img: Self)
        requires
            width * height * 4 <= usize::MAX,
        ensures
            img.width == width,
            img.height == height,
            img.color_space == color_space,
            img.well_formed(),
            forall|k: int| 0 <= k < img.pixels@.len() ==> img.pixels@[k] == fill,
    {
        let n: usize = (width as usize) * (height as usize) * 4;
        let mut pixels: Vec<T> = Vec::new();
        let mut k: usize = 0;
        while k < n
            invariant
                k <= n,
                pixels@.len() == k,
                forall|j: int| 0 <= j < k ==> pixels@[j] == fill,
            decreases n - k,
        {
            pixels.push(fill);
            k = k + 1;
        }
        WorkingImage { width, height, color_space, pixels }
    }
}

/// Applies `f` to the red, green and blue channel of every pixel, leaving
/// alpha untouched.
pub fn map_rgb<T: Copy, F: Fn(T) -> T>(input: &WorkingImage<T>, f: F) -> (out: WorkingImage<T>)
    requires
        forall|t: T| f.requires((t,)),
    ensures
        out.same_shape(input),
        forall|k: int|
            0 <= k < out.pixels@.len() ==> if channel_of(k) < 3 {
                f.ensures((input.pixels@[k],), #[trigger] out.pixels@[k])
            } else {
                out.pixels@[k] == input.pixels@[k]
            },
{
    let n = input.pixels.len();
    let mut pixels: Vec<T> = Vec::new();
    let mut k: usize = 0;
    while k < n
        invariant
            k <= n,
            n == input.pixels@.len(),
            pixels@.len() == k,
            forall|t: T| f.requires((t,)),
            forall|j: int|
                0 <= j < k ==> if channel_of(j) < 3 {
                    f.ensures((input.pixels@[j],), #[trigger] pixels@[j])
                } else {
                    pixels@[j] == input.pixels@[j]
                },
        decreases n - k,
    {
        let v = input.pixels[k];
        if k % 4 < 3 {
            pixels.push(f(v));
        } else {
            pixels.push(v);
        }
        k = k + 1;
    }
    WorkingImage {
        width: input.width,
        height: input.height,
        color_space: input.color_space,
        pixels,
    }
}

/// Combines the red, green and blue channels of two equally sized buffers
/// with `f` (first image's value first), keeping the first image's alpha.
pub fn zip_rgb<T: Copy, F: Fn(T, T) -> T>(input: &WorkingImage<T>, other: &Vec<T>, f: F) -> (out:
    WorkingImage<T>)
    requires
        other@.len() == input.pixels@.len(),
        forall|a: T, b: T| f.requires((a, b)),
    ensures
        out.same_shape(input),
        forall|k: int|
            0 <= k < out.pixels@.len() ==> if channel_of(k) < 3 {
                f.ensures((input.pixels@[k], other@[k]), #[trigger] out.pixels@[k])
            } else {
                out.pixels@[k] == input.pixels@[k]
            },
{
    let n = input.pixels.len();
    let mut pixels: Vec<T> = Vec::new();
    let mut k: usize = 0;
    while k < n
        invariant
            k <= n,
            n == input.pixels@.len(),
            other@.len() == n,
            pixels@.len() == k,
            forall|a: T, b: T| f.requires((a, b)),
            forall|j: int|
                0 <= j < k ==> if channel_of(j) < 3 {
                    f.ensures((input.pixels@[j], other@[j]), #[trigger] pixels@[j])
                } else {
                    pixels@[j] == input.pixels@[j]
                },
        decreases n - k,
    {
        let v = input.pixels[k];
        if k % 4 < 3 {
            pixels.push(f(v, other[k]));
        } else {
            pixels.push(v);
        }
        k = k + 1;
    }
    WorkingImage {
        width: input.width,
        height: input.height,
        color_space: input.color_space,
        pixels,
    }
}

} // verus!
