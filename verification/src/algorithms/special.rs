use vstd::prelude::*;
use super::{clamp, resolve_int_param};
use crate::category::EffectCategory;
use crate::image::{channel_index, channel_of, zip_rgb, WorkingImage};

verus! {

/// A soft bloom/halo around bright areas: the image is box-blurred, and
/// only the parts where the blur is brighter than the original are added
/// back, scaled by a strength.
#[derive(Debug, Clone, Copy)]
pub struct EpsilonGlow;

/// The blur radius, from the `radius` parameter (default 6, limited to
/// `1..=256`).
pub open spec fn glow_radius(raw: Option<i64>) -> int {
    clamp(
        match raw {
            Some(r) => r as int,
            None => 6,
        },
        1,
        256,
    )
}

/// Buffer index of channel `c` of pixel `(x, y)`, with coordinates outside
/// the image clamped to its nearest edge (how the blur reads past borders).
pub fn clamped_index(width: u32, height: u32, x: i64, y: i64, c: usize) -> (i: usize)
    requires
        width > 0,
        height > 0,
        width * height * 4 <= usize::MAX,
        c < 4,
    ensures
        i == channel_index(
            width as int,
            clamp(x as int, 0, width - 1),
            clamp(y as int, 0, height - 1),
            c as int,
        ),
        i < width * height * 4,
{
    let cx: i64 = if x < 0 {
        0
    } else if x > width as i64 - 1 {
        width as i64 - 1
    } else {
        x
    };
    let cy: i64 = if y < 0 {
        0
    } else if y > height as i64 - 1 {
        height as i64 - 1
    } else {
        y
    };
    assert((cy * width + cx) * 4 + c < width * height * 4) by (nonlinear_arith)
        requires
            0 <= cx < width,
            0 <= cy < height,
            c < 4,
    ;
    ((cy as usize) * (width as usize) + (cx as usize)) * 4 + c
}

impl EpsilonGlow {
    pub const KEY: &'static str = "special.epsilon_glow";

    pub fn key(&self) -> (k: &'static str)
        ensures
            k@ == "special.epsilon_glow"@,
    {
        "special.epsilon_glow"
    }

    pub fn display_name(&self) -> (n: &'static str)
        ensures
            n@ == "Epsilon Glow"@,
    {
        "Epsilon Glow"
    }

    pub fn category(&self) -> (c: EffectCategory)
        ensures
            c == EffectCategory::Special,
    {
        EffectCategory::Special
    }

    /// The blur radius in pixels (`radius` parameter).
    pub fn radius(&self, raw: Option<i64>) -> (r: i64)
        ensures
            r == glow_radius(raw),
    {
        resolve_int_param(raw, 6, 1, 256)
    }

    /// The final step: each color channel is combined with the same channel
    /// of the blurred buffer by `add_glow` (original first); alpha is kept.
    pub fn combine<T: Copy, F: Fn(T, T) -> T>(
        &self,
        input: &WorkingImage<T>,
        blurred: &Vec<T>,
        add_glow: F,
    ) -> (out: WorkingImage<T>)
        requires
            blurred@.len() == input.pixels@.len(),
            forall|a: T, b: T| add_glow.requires((a, b)),
        ensures
            out.same_shape(input),
            forall|k: int|
                0 <= k < out.pixels@.len() ==> if channel_of(k) < 3 {
                    add_glow.ensures((input.pixels@[k], blurred@[k]), #[trigger] out.pixels@[k])
                } else {
                    out.pixels@[k] == input.pixels@[k]
                },
    {
        zip_rgb(input, blurred, add_glow)
    }
}

} // verus!
