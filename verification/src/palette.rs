use vstd::prelude::*;
use vstd::string::StringExecFns;

verus! {

/// A palette given as 8-bit sRGB colors: the built-in retro palettes are
/// defined this way, and become channel values in `[0, 1]` by dividing
/// each component by 255.
#[derive(Debug, Clone)]
pub struct PaletteRgb8 {
    pub name: String,
    pub colors: Vec<(u8, u8, u8)>,
}

/// The classic 4-shade Game Boy (DMG) green palette, darkest first.
pub open spec fn game_boy_colors() -> Seq<(u8, u8, u8)> {
    seq![
        (0x0fu8, 0x38u8, 0x0fu8),
        (0x30u8, 0x62u8, 0x30u8),
        (0x8bu8, 0xacu8, 0x0fu8),
        (0x9bu8, 0xbcu8, 0x0fu8),
    ]
}

/// The 16-color PICO-8 fantasy-console palette.
pub open spec fn pico8_colors() -> Seq<(u8, u8, u8)> {
    seq![
        (0x00u8, 0x00u8, 0x00u8),
        (0x1du8, 0x2bu8, 0x53u8),
        (0x7eu8, 0x25u8, 0x53u8),
        (0x00u8, 0x87u8, 0x51u8),
        (0xabu8, 0x52u8, 0x36u8),
        (0x5fu8, 0x57u8, 0x4fu8),
        (0xc2u8, 0xc3u8, 0xc7u8),
        (0xffu8, 0xf1u8, 0xe8u8),
        (0xffu8, 0x00u8, 0x4du8),
        (0xffu8, 0xa3u8, 0x00u8),
        (0xffu8, 0xecu8, 0x27u8),
        (0x00u8, 0xe4u8, 0x36u8),
        (0x29u8, 0xadu8, 0xffu8),
        (0x83u8, 0x76u8, 0x9cu8),
        (0xffu8, 0x77u8, 0xa8u8),
        (0xffu8, 0xccu8, 0xaau8),
    ]
}

impl PaletteRgb8 {
    /// The classic 4-shade Game Boy (DMG) green palette.
    pub fn game_boy() -> (p: Self)
        ensures
            p.name@ == "Game Boy"@,
            p.colors@ == game_boy_colors(),
    {
        let mut colors: Vec<(u8, u8, u8)> = Vec::new();
        colors.push((0x0f, 0x38, 0x0f));
        colors.push((0x30, 0x62, 0x30));
        colors.push((0x8b, 0xac, 0x0f));
        colors.push((0x9b, 0xbc, 0x0f));
        PaletteRgb8 { name: String::from_str("Game Boy"), colors }
    }

    /// The 16-color PICO-8 fantasy-console palette.
    pub fn pico8() -> (p: Self)
        ensures
            p.name@ == "PICO-8"@,
            p.colors@ == pico8_colors(),
    {
        let mut colors: Vec<(u8, u8, u8)> = Vec::new();
        colors.push((0x00, 0x00, 0x00));
        colors.push((0x1d, 0x2b, 0x53));
        colors.push((0x7e, 0x25, 0x53));
        colors.push((0x00, 0x87, 0x51));
        colors.push((0xab, 0x52, 0x36));
        colors.push((0x5f, 0x57, 0x4f));
        colors.push((0xc2, 0xc3, 0xc7));
        colors.push((0xff, 0xf1, 0xe8));
        colors.push((0xff, 0x00, 0x4d));
        colors.push((0xff, 0xa3, 0x00));
        colors.push((0xff, 0xec, 0x27));
        colors.push((0x00, 0xe4, 0x36));
        colors.push((0x29, 0xad, 0xff));
        colors.push((0x83, 0x76, 0x9c));
        colors.push((0xff, 0x77, 0xa8));
        colors.push((0xff, 0xcc, 0xaa));
        PaletteRgb8 { name: String::from_str("PICO-8"), colors }
    }
}

/// One xorshift64 step (shifts 13, 7, 17).
pub open spec fn xorshift_step(s: u64) -> u64 {
    let a = s ^ (s << 13u64);
    let b = a ^ (a >> 7u64);
    b ^ (b << 17u64)
}

/// A tiny deterministic xorshift64 generator, so palette extraction is
/// reproducible for a given seed.
pub struct Xorshift64 {
    state: u64,
}

impl Xorshift64 {
    /// The generator's current state.
    pub closed spec fn state(&self) -> u64 {
        self.state
    }

    /// The state never becomes zero (xorshift would stay at zero forever).
    #[verifier::type_invariant]
    spec fn nonzero(&self) -> bool {
        self.state != 0
    }

    /// A generator seeded with `seed`; seed 0, for which xorshift is
    /// degenerate, is replaced by a fixed nonzero seed.
    pub fn new(seed: u64) -> (r: Self)
        ensures
            r.state() == if seed == 0 {
                0x9E3779B97F4A7C15u64
            } else {
                seed
            },
    {
        Xorshift64 { state: if seed == 0 { 0x9E3779B97F4A7C15 } else { seed } }
    }

    /// Advances the generator and returns its new state.
    pub fn next_u64(&mut self) -> (r: u64)
        ensures
            r == xorshift_step(old(self).state()),
            final(self).state() == r,
            r != 0,
    {
        proof {
            use_type_invariant(&*self);
        }
        let s = self.state;
        let a = s ^ (s << 13u64);
        let b = a ^ (a >> 7u64);
        let c = b ^ (b << 17u64);
        proof {
            lemma_xorshift_nonzero(s);
        }
        self.state = c;
        c
    }

    /// Advances the generator and maps its new state to `0..bound`.
    pub fn next_index(&mut self, bound: usize) -> (r: usize)
        requires
            bound > 0,
        ensures
            r == xorshift_step(old(self).state()) % (bound as u64),
            final(self).state() == xorshift_step(old(self).state()),
            r < bound,
    {
        let v = self.next_u64();
        (v % (bound as u64)) as usize
    }
}

/// A nonzero state never steps to zero.
pub proof fn lemma_xorshift_nonzero(s: u64)
    requires
        s != 0,
    ensures
        xorshift_step(s) != 0,
{
    assert(s != 0 ==> (((s ^ (s << 13u64)) ^ ((s ^ (s << 13u64)) >> 7u64)) ^ (((s ^ (s << 13u64)) ^ ((
    s ^ (s << 13u64)) >> 7u64)) << 17u64)) != 0) by (bit_vector);
}

/// Extraction looks at no more than about this many pixels.
pub const MAX_SAMPLES: usize = 8192;

/// Number of k-means refinement rounds.
pub const KMEANS_ITERATIONS: usize = 10;

/// The sampling stride for an image of `pixel_count` pixels: every pixel up
/// to 2 * `MAX_SAMPLES` pixels, then every `pixel_count / MAX_SAMPLES`-th.
pub open spec fn sample_stride(pixel_count: int) -> int {
    if pixel_count / 8192 >= 1 {
        pixel_count / 8192
    } else {
        1
    }
}

/// The pixels k-means extraction samples: `0, stride, 2 * stride, ...`,
/// every multiple of the stride below `pixel_count`.
pub fn kmeans_sample_pixels(pixel_count: usize) -> (r: Vec<usize>)
    ensures
        forall|m: int| 0 <= m < r@.len() ==> #[trigger] r@[m] == m * sample_stride(pixel_count as int),
        forall|m: int| 0 <= m < r@.len() ==> #[trigger] r@[m] < pixel_count,
        r@.len() * sample_stride(pixel_count as int) >= pixel_count,
{
    let q = pixel_count / MAX_SAMPLES;
    let stride: usize = if q >= 1 {
        q
    } else {
        1
    };
    let mut r: Vec<usize> = Vec::new();
    let mut i: usize = 0;
    assert(r@.len() * stride == 0) by (nonlinear_arith)
        requires
            r@.len() == 0,
    ;
    while i < pixel_count
        invariant
            stride == sample_stride(pixel_count as int),
            stride >= 1,
            i <= pixel_count,
            r@.len() * stride >= i,
            i < pixel_count ==> i == r@.len() * stride,
            forall|m: int| 0 <= m < r@.len() ==> #[trigger] r@[m] == m * stride,
            forall|m: int| 0 <= m < r@.len() ==> #[trigger] r@[m] < pixel_count,
        decreases pixel_count - i,
    {
        let ghost old_len = r@.len();
        r.push(i);
        assert(old_len * stride + stride == r@.len() * stride) by (nonlinear_arith)
            requires
                r@.len() == old_len + 1,
        ;
        if pixel_count - i <= stride {
            i = pixel_count;
        } else {
            i = i + stride;
        }
    }
    r
}

/// How many clusters extraction actually uses: at least one, and no more
/// than there are samples (when there are any).
pub fn kmeans_cluster_count(k: usize, samples: usize) -> (n: usize)
    ensures
        n == {
            let kk = if k >= 1 { k as int } else { 1 };
            let ss = if samples >= 1 { samples as int } else { 1 };
            if kk <= ss { kk } else { ss }
        },
        n >= 1,
{
    let kk = if k >= 1 {
        k
    } else {
        1
    };
    let ss = if samples >= 1 {
        samples
    } else {
        1
    };
    if kk <= ss {
        kk
    } else {
        ss
    }
}

} // verus!
