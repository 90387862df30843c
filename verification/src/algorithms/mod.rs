//! The built-in effects: their metadata, parameter handling and the integer
//! layout arithmetic (scan orders, kernels, threshold matrices, index maps)
//! that each algorithm runs on.

pub mod color;
pub mod error_diffusion;
pub mod glitch;
pub mod ordered;
pub mod pattern;
pub mod special;

use color::PaletteMap;
use error_diffusion::{Atkinson, Burkes, FloydSteinberg, JarvisJudiceNinke, Sierra, SierraLite, Stucki};
use glitch::{ChromaticAberration, Scanlines};
use ordered::Bayer4x4;
use pattern::{ClusteredDot4x4, ClusteredDot8x8, Threshold};
use special::EpsilonGlow;

use vstd::prelude::*;
use crate::category::EffectCategory;

verus! {

/// `v` limited to the closed range `[lo, hi]`.
pub open spec fn clamp(v: int, lo: int, hi: int) -> int {
    if v < lo {
        lo
    } else if v > hi {
        hi
    } else {
        v
    }
}

/// Reads an integer parameter: the value given, or `default` when the value
/// was absent or not an integer, limited to `[lo, hi]`.
pub fn resolve_int_param(raw: Option<i64>, default: i64, lo: i64, hi: i64) -> (v: i64)
    requires
        lo <= hi,
    ensures
        v == clamp(
            match raw {
                Some(r) => r as int,
                None => default as int,
            },
            lo as int,
            hi as int,
        ),
{
    let v = match raw {
        Some(r) => r,
        None => default,
    };
    if v < lo {
        lo
    } else if v > hi {
        hi
    } else {
        v
    }
}

/// Reads a boolean parameter: the value given, or `default` when the value
/// was absent or not a boolean.
pub fn resolve_bool_param(raw: Option<bool>, default: bool) -> (v: bool)
    ensures
        v == match raw {
            Some(b) => b,
            None => default,
        },
{
    match raw {
        Some(b) => b,
        None => default,
    }
}

/// The number of quantization levels per channel, from the `levels`
/// parameter shared by the dithers (default 2, limited to `2..=256`).
pub fn resolve_levels(raw: Option<i64>) -> (levels: u32)
    ensures
        levels == clamp(
            match raw {
                Some(r) => r as int,
                None => 2,
            },
            2,
            256,
        ),
{
    resolve_int_param(raw, 2, 2, 256) as u32
}


/// Every algorithm built into the library, for registering into a
/// [`Registry`](crate::registry::Registry).
#[derive(Debug, Clone, Copy, PartialEq, Eq, Structural)]
pub enum BuiltinEffect {
    FloydSteinberg,
    Atkinson,
    JarvisJudiceNinke,
    Stucki,
    Sierra,
    SierraLite,
    Burkes,
    Bayer4x4,
    Threshold,
    ClusteredDot4x4,
    ClusteredDot8x8,
    PaletteMap,
    ChromaticAberration,
    Scanlines,
    EpsilonGlow,
}

/// The registry key of each built-in effect.
pub open spec fn builtin_key(e: BuiltinEffect) -> Seq<char> {
    match e {
        BuiltinEffect::FloydSteinberg => "error_diffusion.floyd_steinberg"@,
        BuiltinEffect::Atkinson => "error_diffusion.atkinson"@,
        BuiltinEffect::JarvisJudiceNinke => "error_diffusion.jarvis_judice_ninke"@,
        BuiltinEffect::Stucki => "error_diffusion.stucki"@,
        BuiltinEffect::Sierra => "error_diffusion.sierra"@,
        BuiltinEffect::SierraLite => "error_diffusion.sierra_lite"@,
        BuiltinEffect::Burkes => "error_diffusion.burkes"@,
        BuiltinEffect::Bayer4x4 => "ordered.bayer_4x4"@,
        BuiltinEffect::Threshold => "pattern.threshold"@,
        BuiltinEffect::ClusteredDot4x4 => "pattern.clustered_dot_4x4"@,
        BuiltinEffect::ClusteredDot8x8 => "pattern.clustered_dot_8x8"@,
        BuiltinEffect::PaletteMap => "color.palette_map"@,
        BuiltinEffect::ChromaticAberration => "glitch.chromatic_aberration"@,
        BuiltinEffect::Scanlines => "glitch.scanlines"@,
        BuiltinEffect::EpsilonGlow => "special.epsilon_glow"@,
    }
}

/// The name each built-in effect is shown under in the effect list.
pub open spec fn builtin_display_name(e: BuiltinEffect) -> Seq<char> {
    match e {
        BuiltinEffect::FloydSteinberg => "Floyd-Steinberg"@,
        BuiltinEffect::Atkinson => "Atkinson"@,
        BuiltinEffect::JarvisJudiceNinke => "Jarvis-Judice-Ninke"@,
        BuiltinEffect::Stucki => "Stucki"@,
        BuiltinEffect::Sierra => "Sierra"@,
        BuiltinEffect::SierraLite => "Sierra Lite"@,
        BuiltinEffect::Burkes => "Burkes"@,
        BuiltinEffect::Bayer4x4 => "Bayer 4x4"@,
        BuiltinEffect::Threshold => "Threshold"@,
        BuiltinEffect::ClusteredDot4x4 => "Clustered Dot 4x4"@,
        BuiltinEffect::ClusteredDot8x8 => "Clustered Dot 8x8"@,
        BuiltinEffect::PaletteMap => "Palette Map"@,
        BuiltinEffect::ChromaticAberration => "Chromatic Aberration"@,
        BuiltinEffect::Scanlines => "Scanlines"@,
        BuiltinEffect::EpsilonGlow => "Epsilon Glow"@,
    }
}

/// All built-in effects, in the order they are registered.
pub open spec fn all_builtins() -> Seq<BuiltinEffect> {
    seq![
        BuiltinEffect::FloydSteinberg,
        BuiltinEffect::Atkinson,
        BuiltinEffect::JarvisJudiceNinke,
        BuiltinEffect::Stucki,
        BuiltinEffect::Sierra,
        BuiltinEffect::SierraLite,
        BuiltinEffect::Burkes,
        BuiltinEffect::Bayer4x4,
        BuiltinEffect::Threshold,
        BuiltinEffect::ClusteredDot4x4,
        BuiltinEffect::ClusteredDot8x8,
        BuiltinEffect::PaletteMap,
        BuiltinEffect::ChromaticAberration,
        BuiltinEffect::Scanlines,
        BuiltinEffect::EpsilonGlow,
    ]
}

impl BuiltinEffect {
    /// The stable registry key of this effect.
    pub fn key(&self) -> (k: &'static str)
        ensures
            k@ == builtin_key(*self),
    {
        match self {
            BuiltinEffect::FloydSteinberg => error_diffusion::FloydSteinberg.key(),
            BuiltinEffect::Atkinson => error_diffusion::Atkinson.key(),
            BuiltinEffect::JarvisJudiceNinke => error_diffusion::JarvisJudiceNinke.key(),
            BuiltinEffect::Stucki => error_diffusion::Stucki.key(),
            BuiltinEffect::Sierra => error_diffusion::Sierra.key(),
            BuiltinEffect::SierraLite => error_diffusion::SierraLite.key(),
            BuiltinEffect::Burkes => error_diffusion::Burkes.key(),
            BuiltinEffect::Bayer4x4 => ordered::Bayer4x4.key(),
            BuiltinEffect::Threshold => pattern::Threshold.key(),
            BuiltinEffect::ClusteredDot4x4 => pattern::ClusteredDot4x4.key(),
            BuiltinEffect::ClusteredDot8x8 => pattern::ClusteredDot8x8.key(),
            BuiltinEffect::PaletteMap => color::PaletteMap.key(),
            BuiltinEffect::ChromaticAberration => glitch::ChromaticAberration.key(),
            BuiltinEffect::Scanlines => glitch::Scanlines.key(),
            BuiltinEffect::EpsilonGlow => special::EpsilonGlow.key(),
        }
    }

    /// The name shown in the effect list.
    pub fn display_name(&self) -> (n: &'static str)
        ensures
            n@ == builtin_display_name(*self),
    {
        match self {
            BuiltinEffect::FloydSteinberg => error_diffusion::FloydSteinberg.display_name(),
            BuiltinEffect::Atkinson => error_diffusion::Atkinson.display_name(),
            BuiltinEffect::JarvisJudiceNinke => error_diffusion::JarvisJudiceNinke.display_name(),
            BuiltinEffect::Stucki => error_diffusion::Stucki.display_name(),
            BuiltinEffect::Sierra => error_diffusion::Sierra.display_name(),
            BuiltinEffect::SierraLite => error_diffusion::SierraLite.display_name(),
            BuiltinEffect::Burkes => error_diffusion::Burkes.display_name(),
            BuiltinEffect::Bayer4x4 => ordered::Bayer4x4.display_name(),
            BuiltinEffect::Threshold => pattern::Threshold.display_name(),
            BuiltinEffect::ClusteredDot4x4 => pattern::ClusteredDot4x4.display_name(),
            BuiltinEffect::ClusteredDot8x8 => pattern::ClusteredDot8x8.display_name(),
            BuiltinEffect::PaletteMap => color::PaletteMap.display_name(),
            BuiltinEffect::ChromaticAberration => glitch::ChromaticAberration.display_name(),
            BuiltinEffect::Scanlines => glitch::Scanlines.display_name(),
            BuiltinEffect::EpsilonGlow => special::EpsilonGlow.display_name(),
        }
    }

    /// The family the effect belongs to.
    pub fn category(&self) -> (c: EffectCategory)
        ensures
            c == builtin_category(*self),
    {
        match self {
            BuiltinEffect::FloydSteinberg => error_diffusion::FloydSteinberg.category(),
            BuiltinEffect::Atkinson => error_diffusion::Atkinson.category(),
            BuiltinEffect::JarvisJudiceNinke => error_diffusion::JarvisJudiceNinke.category(),
            BuiltinEffect::Stucki => error_diffusion::Stucki.category(),
            BuiltinEffect::Sierra => error_diffusion::Sierra.category(),
            BuiltinEffect::SierraLite => error_diffusion::SierraLite.category(),
            BuiltinEffect::Burkes => error_diffusion::Burkes.category(),
            BuiltinEffect::Bayer4x4 => ordered::Bayer4x4.category(),
            BuiltinEffect::Threshold => pattern::Threshold.category(),
            BuiltinEffect::ClusteredDot4x4 => pattern::ClusteredDot4x4.category(),
            BuiltinEffect::ClusteredDot8x8 => pattern::ClusteredDot8x8.category(),
            BuiltinEffect::PaletteMap => color::PaletteMap.category(),
            BuiltinEffect::ChromaticAberration => glitch::ChromaticAberration.category(),
            BuiltinEffect::Scanlines => glitch::Scanlines.category(),
            BuiltinEffect::EpsilonGlow => special::EpsilonGlow.category(),
        }
    }
}

/// The family each built-in effect belongs to.
pub open spec fn builtin_category(e: BuiltinEffect) -> EffectCategory {
    match e {
        BuiltinEffect::FloydSteinberg => EffectCategory::ErrorDiffusion,
        BuiltinEffect::Atkinson => EffectCategory::ErrorDiffusion,
        BuiltinEffect::JarvisJudiceNinke => EffectCategory::ErrorDiffusion,
        BuiltinEffect::Stucki => EffectCategory::ErrorDiffusion,
        BuiltinEffect::Sierra => EffectCategory::ErrorDiffusion,
        BuiltinEffect::SierraLite => EffectCategory::ErrorDiffusion,
        BuiltinEffect::Burkes => EffectCategory::ErrorDiffusion,
        BuiltinEffect::Bayer4x4 => EffectCategory::Ordered,
        BuiltinEffect::Threshold => EffectCategory::Pattern,
        BuiltinEffect::ClusteredDot4x4 => EffectCategory::Pattern,
        BuiltinEffect::ClusteredDot8x8 => EffectCategory::Pattern,
        BuiltinEffect::PaletteMap => EffectCategory::Color,
        BuiltinEffect::ChromaticAberration => EffectCategory::Glitch,
        BuiltinEffect::Scanlines => EffectCategory::Glitch,
        BuiltinEffect::EpsilonGlow => EffectCategory::Special,
    }
}

/// Every built-in effect, in registration order.
pub fn builtins() -> (v: Vec<BuiltinEffect>)
    ensures
        v@ == all_builtins(),
{
    let mut v: Vec<BuiltinEffect> = Vec::new();
    v.push(BuiltinEffect::FloydSteinberg);
    v.push(BuiltinEffect::Atkinson);
    v.push(BuiltinEffect::JarvisJudiceNinke);
    v.push(BuiltinEffect::Stucki);
    v.push(BuiltinEffect::Sierra);
    v.push(BuiltinEffect::SierraLite);
    v.push(BuiltinEffect::Burkes);
    v.push(BuiltinEffect::Bayer4x4);
    v.push(BuiltinEffect::Threshold);
    v.push(BuiltinEffect::ClusteredDot4x4);
    v.push(BuiltinEffect::ClusteredDot8x8);
    v.push(BuiltinEffect::PaletteMap);
    v.push(BuiltinEffect::ChromaticAberration);
    v.push(BuiltinEffect::Scanlines);
    v.push(BuiltinEffect::EpsilonGlow);
    v
}

/// The position of each built-in effect in registration order.
pub open spec fn builtin_index(e: BuiltinEffect) -> int {
    match e {
        BuiltinEffect::FloydSteinberg => 0,
        BuiltinEffect::Atkinson => 1,
        BuiltinEffect::JarvisJudiceNinke => 2,
        BuiltinEffect::Stucki => 3,
        BuiltinEffect::Sierra => 4,
        BuiltinEffect::SierraLite => 5,
        BuiltinEffect::Burkes => 6,
        BuiltinEffect::Bayer4x4 => 7,
        BuiltinEffect::Threshold => 8,
        BuiltinEffect::ClusteredDot4x4 => 9,
        BuiltinEffect::ClusteredDot8x8 => 10,
        BuiltinEffect::PaletteMap => 11,
        BuiltinEffect::ChromaticAberration => 12,
        BuiltinEffect::Scanlines => 13,
        BuiltinEffect::EpsilonGlow => 14,
    }
}

proof fn lemma_builtin_key_injective()
    ensures
        forall|a: BuiltinEffect, b: BuiltinEffect|
            a != b ==> #[trigger] builtin_key(a) != #[trigger] builtin_key(b),
{
    reveal_strlit("error_diffusion.floyd_steinberg");
    reveal_strlit("error_diffusion.atkinson");
    reveal_strlit("error_diffusion.jarvis_judice_ninke");
    reveal_strlit("error_diffusion.stucki");
    reveal_strlit("error_diffusion.sierra");
    reveal_strlit("error_diffusion.sierra_lite");
    reveal_strlit("error_diffusion.burkes");
    reveal_strlit("ordered.bayer_4x4");
    reveal_strlit("pattern.threshold");
    reveal_strlit("pattern.clustered_dot_4x4");
    reveal_strlit("pattern.clustered_dot_8x8");
    reveal_strlit("color.palette_map");
    reveal_strlit("glitch.chromatic_aberration");
    reveal_strlit("glitch.scanlines");
    reveal_strlit("special.epsilon_glow");
    assert forall|a: BuiltinEffect, b: BuiltinEffect|
        a != b implies #[trigger] builtin_key(a) != #[trigger] builtin_key(b) by {
        match a {
            BuiltinEffect::FloydSteinberg => match b {
                BuiltinEffect::FloydSteinberg => {},
                BuiltinEffect::Atkinson => assert(builtin_key(a).len() != builtin_key(b).len()),
                BuiltinEffect::JarvisJudiceNinke => assert(builtin_key(a).len() != builtin_key(b).len()),
                BuiltinEffect::Stucki => assert(builtin_key(a).len() != builtin_key(b).len()),
                BuiltinEffect::Sierra => assert(builtin_key(a).len() != builtin_key(b).len()),
                BuiltinEffect::SierraLite => assert(builtin_key(a).len() != builtin_key(b).len()),
                BuiltinEffect::Burkes => assert(builtin_key(a).len() != builtin_key(b).len()),
                BuiltinEffect::Bayer4x4 => assert(builtin_key(a).len() != builtin_key(b).len()),
                BuiltinEffect::Threshold => assert(builtin_key(a).len() != builtin_key(b).len()),
                BuiltinEffect::ClusteredDot4x4 => assert(builtin_key(a).len() != builtin_key(b).len()),
                BuiltinEffect::ClusteredDot8x8 => assert(builtin_key(a).len() != builtin_key(b).len()),
                BuiltinEffect::PaletteMap => assert(builtin_key(a).len() != builtin_key(b).len()),
                BuiltinEffect::ChromaticAberration => assert(builtin_key(a).len() != builtin_key(b).len()),
                BuiltinEffect::Scanlines => assert(builtin_key(a).len() != builtin_key(b).len()),
                BuiltinEffect::EpsilonGlow => assert(builtin_key(a).len() != builtin_key(b).len()),
            },
            BuiltinEffect::Atkinson => match b {
                BuiltinEffect::FloydSteinberg => assert(builtin_key(a).len() != builtin_key(b).len()),
                BuiltinEffect::Atkinson => {},
                BuiltinEffect::JarvisJudiceNinke => assert(builtin_key(a).len() != builtin_key(b).len()),
                BuiltinEffect::Stucki => assert(builtin_key(a).len() != builtin_key(b).len()),
                BuiltinEffect::Sierra => assert(builtin_key(a).len() != builtin_key(b).len()),
                BuiltinEffect::SierraLite => assert(builtin_key(a).len() != builtin_key(b).len()),
                BuiltinEffect::Burkes => assert(builtin_key(a).len() != builtin_key(b).len()),
                BuiltinEffect::Bayer4x4 => assert(builtin_key(a).len() != builtin_key(b).len()),
                BuiltinEffect::Threshold => assert(builtin_key(a).len() != builtin_key(b).len()),
                BuiltinEffect::ClusteredDot4x4 => assert(builtin_key(a).len() != builtin_key(b).len()),
                BuiltinEffect::ClusteredDot8x8 => assert(builtin_key(a).len() != builtin_key(b).len()),
                BuiltinEffect::PaletteMap => assert(builtin_key(a).len() != builtin_key(b).len()),
                BuiltinEffect::ChromaticAberration => assert(builtin_key(a).len() != builtin_key(b).len()),
                BuiltinEffect::Scanlines => assert(builtin_key(a).len() != builtin_key(b).len()),
                BuiltinEffect::EpsilonGlow => assert(builtin_key(a).len() != builtin_key(b).len()),
            },
            BuiltinEffect::JarvisJudiceNinke => match b {
                BuiltinEffect::FloydSteinberg => assert(builtin_key(a).len() != builtin_key(b).len()),
                BuiltinEffect::Atkinson => assert(builtin_key(a).len() != builtin_key(b).len()),
                BuiltinEffect::JarvisJudiceNinke => {},
                BuiltinEffect::Stucki => assert(builtin_key(a).len() != builtin_key(b).len()),
                BuiltinEffect::Sierra => assert(builtin_key(a).len() != builtin_key(b).len()),
                BuiltinEffect::SierraLite => assert(builtin_key(a).len() != builtin_key(b).len()),
                BuiltinEffect::Burkes => assert(builtin_key(a).len() != builtin_key(b).len()),
                BuiltinEffect::Bayer4x4 => assert(builtin_key(a).len() != builtin_key(b).len()),
                BuiltinEffect::Threshold => assert(builtin_key(a).len() != builtin_key(b).len()),
                BuiltinEffect::ClusteredDot4x4 => assert(builtin_key(a).len() != builtin_key(b).len()),
                BuiltinEffect::ClusteredDot8x8 => assert(builtin_key(a).len() != builtin_key(b).len()),
                BuiltinEffect::PaletteMap => assert(builtin_key(a).len() != builtin_key(b).len()),
                BuiltinEffect::ChromaticAberration => assert(builtin_key(a).len() != builtin_key(b).len()),
                BuiltinEffect::Scanlines => assert(builtin_key(a).len() != builtin_key(b).len()),
                BuiltinEffect::EpsilonGlow => assert(builtin_key(a).len() != builtin_key(b).len()),
            },
            BuiltinEffect::Stucki => match b {
                BuiltinEffect::FloydSteinberg => assert(builtin_key(a).len() != builtin_key(b).len()),
                BuiltinEffect::Atkinson => assert(builtin_key(a).len() != builtin_key(b).len()),
                BuiltinEffect::JarvisJudiceNinke => assert(builtin_key(a).len() != builtin_key(b).len()),
                BuiltinEffect::Stucki => {},
                BuiltinEffect::Sierra => assert(builtin_key(a)[17] != builtin_key(b)[17]),
                BuiltinEffect::SierraLite => assert(builtin_key(a).len() != builtin_key(b).len()),
                BuiltinEffect::Burkes => assert(builtin_key(a)[16] != builtin_key(b)[16]),
                BuiltinEffect::Bayer4x4 => assert(builtin_key(a).len() != builtin_key(b).len()),
                BuiltinEffect::Threshold => assert(builtin_key(a).len() != builtin_key(b).len()),
                BuiltinEffect::ClusteredDot4x4 => assert(builtin_key(a).len() != builtin_key(b).len()),
                BuiltinEffect::ClusteredDot8x8 => assert(builtin_key(a).len() != builtin_key(b).len()),
                BuiltinEffect::PaletteMap => assert(builtin_key(a).len() != builtin_key(b).len()),
                BuiltinEffect::ChromaticAberration => assert(builtin_key(a).len() != builtin_key(b).len()),
                BuiltinEffect::Scanlines => assert(builtin_key(a).len() != builtin_key(b).len()),
                BuiltinEffect::EpsilonGlow => assert(builtin_key(a).len() != builtin_key(b).len()),
            },
            BuiltinEffect::Sierra => match b {
                BuiltinEffect::FloydSteinberg => assert(builtin_key(a).len() != builtin_key(b).len()),
                BuiltinEffect::Atkinson => assert(builtin_key(a).len() != builtin_key(b).len()),
                BuiltinEffect::JarvisJudiceNinke => assert(builtin_key(a).len() != builtin_key(b).len()),
                BuiltinEffect::Stucki => assert(builtin_key(a)[17] != builtin_key(b)[17]),
                BuiltinEffect::Sierra => {},
                BuiltinEffect::SierraLite => assert(builtin_key(a).len() != builtin_key(b).len()),
                BuiltinEffect::Burkes => assert(builtin_key(a)[16] != builtin_key(b)[16]),
                BuiltinEffect::Bayer4x4 => assert(builtin_key(a).len() != builtin_key(b).len()),
                BuiltinEffect::Threshold => assert(builtin_key(a).len() != builtin_key(b).len()),
                BuiltinEffect::ClusteredDot4x4 => assert(builtin_key(a).len() != builtin_key(b).len()),
                BuiltinEffect::ClusteredDot8x8 => assert(builtin_key(a).len() != builtin_key(b).len()),
                BuiltinEffect::PaletteMap => assert(builtin_key(a).len() != builtin_key(b).len()),
                BuiltinEffect::ChromaticAberration => assert(builtin_key(a).len() != builtin_key(b).len()),
                BuiltinEffect::Scanlines => assert(builtin_key(a).len() != builtin_key(b).len()),
                BuiltinEffect::EpsilonGlow => assert(builtin_key(a).len() != builtin_key(b).len()),
            },
            BuiltinEffect::SierraLite => match b {
                BuiltinEffect::FloydSteinberg => assert(builtin_key(a).len() != builtin_key(b).len()),
                BuiltinEffect::Atkinson => assert(builtin_key(a).len() != builtin_key(b).len()),
                BuiltinEffect::JarvisJudiceNinke => assert(builtin_key(a).len() != builtin_key(b).len()),
                BuiltinEffect::Stucki => assert(builtin_key(a).len() != builtin_key(b).len()),
                BuiltinEffect::Sierra => assert(builtin_key(a).len() != builtin_key(b).len()),
                BuiltinEffect::SierraLite => {},
                BuiltinEffect::Burkes => assert(builtin_key(a).len() != builtin_key(b).len()),
                BuiltinEffect::Bayer4x4 => assert(builtin_key(a).len() != builtin_key(b).len()),
                BuiltinEffect::Threshold => assert(builtin_key(a).len() != builtin_key(b).len()),
                BuiltinEffect::ClusteredDot4x4 => assert(builtin_key(a).len() != builtin_key(b).len()),
                BuiltinEffect::ClusteredDot8x8 => assert(builtin_key(a).len() != builtin_key(b).len()),
                BuiltinEffect::PaletteMap => assert(builtin_key(a).len() != builtin_key(b).len()),
                BuiltinEffect::ChromaticAberration => assert(builtin_key(a)[0] != builtin_key(b)[0]),
                BuiltinEffect::Scanlines => assert(builtin_key(a).len() != builtin_key(b).len()),
                BuiltinEffect::EpsilonGlow => assert(builtin_key(a).len() != builtin_key(b).len()),
            },
            BuiltinEffect::Burkes => match b {
                BuiltinEffect::FloydSteinberg => assert(builtin_key(a).len() != builtin_key(b).len()),
                BuiltinEffect::Atkinson => assert(builtin_key(a).len() != builtin_key(b).len()),
                BuiltinEffect::JarvisJudiceNinke => assert(builtin_key(a).len() != builtin_key(b).len()),
                BuiltinEffect::Stucki => assert(builtin_key(a)[16] != builtin_key(b)[16]),
                BuiltinEffect::Sierra => assert(builtin_key(a)[16] != builtin_key(b)[16]),
                BuiltinEffect::SierraLite => assert(builtin_key(a).len() != builtin_key(b).len()),
                BuiltinEffect::Burkes => {},
                BuiltinEffect::Bayer4x4 => assert(builtin_key(a).len() != builtin_key(b).len()),
                BuiltinEffect::Threshold => assert(builtin_key(a).len() != builtin_key(b).len()),
                BuiltinEffect::ClusteredDot4x4 => assert(builtin_key(a).len() != builtin_key(b).len()),
                BuiltinEffect::ClusteredDot8x8 => assert(builtin_key(a).len() != builtin_key(b).len()),
                BuiltinEffect::PaletteMap => assert(builtin_key(a).len() != builtin_key(b).len()),
                BuiltinEffect::ChromaticAberration => assert(builtin_key(a).len() != builtin_key(b).len()),
                BuiltinEffect::Scanlines => assert(builtin_key(a).len() != builtin_key(b).len()),
                BuiltinEffect::EpsilonGlow => assert(builtin_key(a).len() != builtin_key(b).len()),
            },
            BuiltinEffect::Bayer4x4 => match b {
                BuiltinEffect::FloydSteinberg => assert(builtin_key(a).len() != builtin_key(b).len()),
                BuiltinEffect::Atkinson => assert(builtin_key(a).len() != builtin_key(b).len()),
                BuiltinEffect::JarvisJudiceNinke => assert(builtin_key(a).len() != builtin_key(b).len()),
                BuiltinEffect::Stucki => assert(builtin_key(a).len() != builtin_key(b).len()),
                BuiltinEffect::Sierra => assert(builtin_key(a).len() != builtin_key(b).len()),
                BuiltinEffect::SierraLite => assert(builtin_key(a).len() != builtin_key(b).len()),
                BuiltinEffect::Burkes => assert(builtin_key(a).len() != builtin_key(b).len()),
                BuiltinEffect::Bayer4x4 => {},
                BuiltinEffect::Threshold => assert(builtin_key(a)[0] != builtin_key(b)[0]),
                BuiltinEffect::ClusteredDot4x4 => assert(builtin_key(a).len() != builtin_key(b).len()),
                BuiltinEffect::ClusteredDot8x8 => assert(builtin_key(a).len() != builtin_key(b).len()),
                BuiltinEffect::PaletteMap => assert(builtin_key(a)[0] != builtin_key(b)[0]),
                BuiltinEffect::ChromaticAberration => assert(builtin_key(a).len() != builtin_key(b).len()),
                BuiltinEffect::Scanlines => assert(builtin_key(a).len() != builtin_key(b).len()),
                BuiltinEffect::EpsilonGlow => assert(builtin_key(a).len() != builtin_key(b).len()),
            },
            BuiltinEffect::Threshold => match b {
                BuiltinEffect::FloydSteinberg => assert(builtin_key(a).len() != builtin_key(b).len()),
                BuiltinEffect::Atkinson => assert(builtin_key(a).len() != builtin_key(b).len()),
                BuiltinEffect::JarvisJudiceNinke => assert(builtin_key(a).len() != builtin_key(b).len()),
                BuiltinEffect::Stucki => assert(builtin_key(a).len() != builtin_key(b).len()),
                BuiltinEffect::Sierra => assert(builtin_key(a).len() != builtin_key(b).len()),
                BuiltinEffect::SierraLite => assert(builtin_key(a).len() != builtin_key(b).len()),
                BuiltinEffect::Burkes => assert(builtin_key(a).len() != builtin_key(b).len()),
                BuiltinEffect::Bayer4x4 => assert(builtin_key(a)[0] != builtin_key(b)[0]),
                BuiltinEffect::Threshold => {},
                BuiltinEffect::ClusteredDot4x4 => assert(builtin_key(a).len() != builtin_key(b).len()),
                BuiltinEffect::ClusteredDot8x8 => assert(builtin_key(a).len() != builtin_key(b).len()),
                BuiltinEffect::PaletteMap => assert(builtin_key(a)[0] != builtin_key(b)[0]),
                BuiltinEffect::ChromaticAberration => assert(builtin_key(a).len() != builtin_key(b).len()),
                BuiltinEffect::Scanlines => assert(builtin_key(a).len() != builtin_key(b).len()),
                BuiltinEffect::EpsilonGlow => assert(builtin_key(a).len() != builtin_key(b).len()),
            },
            BuiltinEffect::ClusteredDot4x4 => match b {
                BuiltinEffect::FloydSteinberg => assert(builtin_key(a).len() != builtin_key(b).len()),
                BuiltinEffect::Atkinson => assert(builtin_key(a).len() != builtin_key(b).len()),
                BuiltinEffect::JarvisJudiceNinke => assert(builtin_key(a).len() != builtin_key(b).len()),
                BuiltinEffect::Stucki => assert(builtin_key(a).len() != builtin_key(b).len()),
                BuiltinEffect::Sierra => assert(builtin_key(a).len() != builtin_key(b).len()),
                BuiltinEffect::SierraLite => assert(builtin_key(a).len() != builtin_key(b).len()),
                BuiltinEffect::Burkes => assert(builtin_key(a).len() != builtin_key(b).len()),
                BuiltinEffect::Bayer4x4 => assert(builtin_key(a).len() != builtin_key(b).len()),
                BuiltinEffect::Threshold => assert(builtin_key(a).len() != builtin_key(b).len()),
                BuiltinEffect::ClusteredDot4x4 => {},
                BuiltinEffect::ClusteredDot8x8 => assert(builtin_key(a)[22] != builtin_key(b)[22]),
                BuiltinEffect::PaletteMap => assert(builtin_key(a).len() != builtin_key(b).len()),
                BuiltinEffect::ChromaticAberration => assert(builtin_key(a).len() != builtin_key(b).len()),
                BuiltinEffect::Scanlines => assert(builtin_key(a).len() != builtin_key(b).len()),
                BuiltinEffect::EpsilonGlow => assert(builtin_key(a).len() != builtin_key(b).len()),
            },
            BuiltinEffect::ClusteredDot8x8 => match b {
                BuiltinEffect::FloydSteinberg => assert(builtin_key(a).len() != builtin_key(b).len()),
                BuiltinEffect::Atkinson => assert(builtin_key(a).len() != builtin_key(b).len()),
                BuiltinEffect::JarvisJudiceNinke => assert(builtin_key(a).len() != builtin_key(b).len()),
                BuiltinEffect::Stucki => assert(builtin_key(a).len() != builtin_key(b).len()),
                BuiltinEffect::Sierra => assert(builtin_key(a).len() != builtin_key(b).len()),
                BuiltinEffect::SierraLite => assert(builtin_key(a).len() != builtin_key(b).len()),
                BuiltinEffect::Burkes => assert(builtin_key(a).len() != builtin_key(b).len()),
                BuiltinEffect::Bayer4x4 => assert(builtin_key(a).len() != builtin_key(b).len()),
                BuiltinEffect::Threshold => assert(builtin_key(a).len() != builtin_key(b).len()),
                BuiltinEffect::ClusteredDot4x4 => assert(builtin_key(a)[22] != builtin_key(b)[22]),
                BuiltinEffect::ClusteredDot8x8 => {},
                BuiltinEffect::PaletteMap => assert(builtin_key(a).len() != builtin_key(b).len()),
                BuiltinEffect::ChromaticAberration => assert(builtin_key(a).len() != builtin_key(b).len()),
                BuiltinEffect::Scanlines => assert(builtin_key(a).len() != builtin_key(b).len()),
                BuiltinEffect::EpsilonGlow => assert(builtin_key(a).len() != builtin_key(b).len()),
            },
            BuiltinEffect::PaletteMap => match b {
                BuiltinEffect::FloydSteinberg => assert(builtin_key(a).len() != builtin_key(b).len()),
                BuiltinEffect::Atkinson => assert(builtin_key(a).len() != builtin_key(b).len()),
                BuiltinEffect::JarvisJudiceNinke => assert(builtin_key(a).len() != builtin_key(b).len()),
                BuiltinEffect::Stucki => assert(builtin_key(a).len() != builtin_key(b).len()),
                BuiltinEffect::Sierra => assert(builtin_key(a).len() != builtin_key(b).len()),
                BuiltinEffect::SierraLite => assert(builtin_key(a).len() != builtin_key(b).len()),
                BuiltinEffect::Burkes => assert(builtin_key(a).len() != builtin_key(b).len()),
                BuiltinEffect::Bayer4x4 => assert(builtin_key(a)[0] != builtin_key(b)[0]),
                BuiltinEffect::Threshold => assert(builtin_key(a)[0] != builtin_key(b)[0]),
                BuiltinEffect::ClusteredDot4x4 => assert(builtin_key(a).len() != builtin_key(b).len()),
                BuiltinEffect::ClusteredDot8x8 => assert(builtin_key(a).len() != builtin_key(b).len()),
                BuiltinEffect::PaletteMap => {},
                BuiltinEffect::ChromaticAberration => assert(builtin_key(a).len() != builtin_key(b).len()),
                BuiltinEffect::Scanlines => assert(builtin_key(a).len() != builtin_key(b).len()),
                BuiltinEffect::EpsilonGlow => assert(builtin_key(a).len() != builtin_key(b).len()),
            },
            BuiltinEffect::ChromaticAberration => match b {
                BuiltinEffect::FloydSteinberg => assert(builtin_key(a).len() != builtin_key(b).len()),
                BuiltinEffect::Atkinson => assert(builtin_key(a).len() != builtin_key(b).len()),
                BuiltinEffect::JarvisJudiceNinke => assert(builtin_key(a).len() != builtin_key(b).len()),
                BuiltinEffect::Stucki => assert(builtin_key(a).len() != builtin_key(b).len()),
                BuiltinEffect::Sierra => assert(builtin_key(a).len() != builtin_key(b).len()),
                BuiltinEffect::SierraLite => assert(builtin_key(a)[0] != builtin_key(b)[0]),
                BuiltinEffect::Burkes => assert(builtin_key(a).len() != builtin_key(b).len()),
                BuiltinEffect::Bayer4x4 => assert(builtin_key(a).len() != builtin_key(b).len()),
                BuiltinEffect::Threshold => assert(builtin_key(a).len() != builtin_key(b).len()),
                BuiltinEffect::ClusteredDot4x4 => assert(builtin_key(a).len() != builtin_key(b).len()),
                BuiltinEffect::ClusteredDot8x8 => assert(builtin_key(a).len() != builtin_key(b).len()),
                BuiltinEffect::PaletteMap => assert(builtin_key(a).len() != builtin_key(b).len()),
                BuiltinEffect::ChromaticAberration => {},
                BuiltinEffect::Scanlines => assert(builtin_key(a).len() != builtin_key(b).len()),
                BuiltinEffect::EpsilonGlow => assert(builtin_key(a).len() != builtin_key(b).len()),
            },
            BuiltinEffect::Scanlines => match b {
                BuiltinEffect::FloydSteinberg => assert(builtin_key(a).len() != builtin_key(b).len()),
                BuiltinEffect::Atkinson => assert(builtin_key(a).len() != builtin_key(b).len()),
                BuiltinEffect::JarvisJudiceNinke => assert(builtin_key(a).len() != builtin_key(b).len()),
                BuiltinEffect::Stucki => assert(builtin_key(a).len() != builtin_key(b).len()),
                BuiltinEffect::Sierra => assert(builtin_key(a).len() != builtin_key(b).len()),
                BuiltinEffect::SierraLite => assert(builtin_key(a).len() != builtin_key(b).len()),
                BuiltinEffect::Burkes => assert(builtin_key(a).len() != builtin_key(b).len()),
                BuiltinEffect::Bayer4x4 => assert(builtin_key(a).len() != builtin_key(b).len()),
                BuiltinEffect::Threshold => assert(builtin_key(a).len() != builtin_key(b).len()),
                BuiltinEffect::ClusteredDot4x4 => assert(builtin_key(a).len() != builtin_key(b).len()),
                BuiltinEffect::ClusteredDot8x8 => assert(builtin_key(a).len() != builtin_key(b).len()),
                BuiltinEffect::PaletteMap => assert(builtin_key(a).len() != builtin_key(b).len()),
                BuiltinEffect::ChromaticAberration => assert(builtin_key(a).len() != builtin_key(b).len()),
                BuiltinEffect::Scanlines => {},
                BuiltinEffect::EpsilonGlow => assert(builtin_key(a).len() != builtin_key(b).len()),
            },
            BuiltinEffect::EpsilonGlow => match b {
                BuiltinEffect::FloydSteinberg => assert(builtin_key(a).len() != builtin_key(b).len()),
                BuiltinEffect::Atkinson => assert(builtin_key(a).len() != builtin_key(b).len()),
                BuiltinEffect::JarvisJudiceNinke => assert(builtin_key(a).len() != builtin_key(b).len()),
                BuiltinEffect::Stucki => assert(builtin_key(a).len() != builtin_key(b).len()),
                BuiltinEffect::Sierra => assert(builtin_key(a).len() != builtin_key(b).len()),
                BuiltinEffect::SierraLite => assert(builtin_key(a).len() != builtin_key(b).len()),
                BuiltinEffect::Burkes => assert(builtin_key(a).len() != builtin_key(b).len()),
                BuiltinEffect::Bayer4x4 => assert(builtin_key(a).len() != builtin_key(b).len()),
                BuiltinEffect::Threshold => assert(builtin_key(a).len() != builtin_key(b).len()),
                BuiltinEffect::ClusteredDot4x4 => assert(builtin_key(a).len() != builtin_key(b).len()),
                BuiltinEffect::ClusteredDot8x8 => assert(builtin_key(a).len() != builtin_key(b).len()),
                BuiltinEffect::PaletteMap => assert(builtin_key(a).len() != builtin_key(b).len()),
                BuiltinEffect::ChromaticAberration => assert(builtin_key(a).len() != builtin_key(b).len()),
                BuiltinEffect::Scanlines => assert(builtin_key(a).len() != builtin_key(b).len()),
                BuiltinEffect::EpsilonGlow => {},
            },
        }
    }
}

/// No two built-in effects share a registry key: registering them all
/// yields one registry entry per built-in effect.
pub proof fn lemma_builtin_keys_distinct()
    ensures
        all_builtins().len() == 15,
        forall|i: int, j: int|
            0 <= i < all_builtins().len() && 0 <= j < all_builtins().len() && i != j
                ==> builtin_key(#[trigger] all_builtins()[i]) != builtin_key(#[trigger] all_builtins()[j]),
{
    lemma_builtin_key_injective();
    assert forall|i: int| 0 <= i < 15 implies builtin_index(#[trigger] all_builtins()[i]) == i by {
        if i == 0 {
            assert(all_builtins()[0] == BuiltinEffect::FloydSteinberg);
        } else if i == 1 {
            assert(all_builtins()[1] == BuiltinEffect::Atkinson);
        } else if i == 2 {
            assert(all_builtins()[2] == BuiltinEffect::JarvisJudiceNinke);
        } else if i == 3 {
            assert(all_builtins()[3] == BuiltinEffect::Stucki);
        } else if i == 4 {
            assert(all_builtins()[4] == BuiltinEffect::Sierra);
        } else if i == 5 {
            assert(all_builtins()[5] == BuiltinEffect::SierraLite);
        } else if i == 6 {
            assert(all_builtins()[6] == BuiltinEffect::Burkes);
        } else if i == 7 {
            assert(all_builtins()[7] == BuiltinEffect::Bayer4x4);
        } else if i == 8 {
            assert(all_builtins()[8] == BuiltinEffect::Threshold);
        } else if i == 9 {
            assert(all_builtins()[9] == BuiltinEffect::ClusteredDot4x4);
        } else if i == 10 {
            assert(all_builtins()[10] == BuiltinEffect::ClusteredDot8x8);
        } else if i == 11 {
            assert(all_builtins()[11] == BuiltinEffect::PaletteMap);
        } else if i == 12 {
            assert(all_builtins()[12] == BuiltinEffect::ChromaticAberration);
        } else if i == 13 {
            assert(all_builtins()[13] == BuiltinEffect::Scanlines);
        } else if i == 14 {
            assert(all_builtins()[14] == BuiltinEffect::EpsilonGlow);
        }
    }
    assert forall|i: int, j: int|
        0 <= i < all_builtins().len() && 0 <= j < all_builtins().len() && i != j implies builtin_key(
            #[trigger] all_builtins()[i],
        ) != builtin_key(#[trigger] all_builtins()[j]) by {
        assert(builtin_index(all_builtins()[i]) == i);
        assert(builtin_index(all_builtins()[j]) == j);
    }
}

/// Every built-in effect appears in the registration list, at its index.
pub proof fn lemma_every_builtin_listed()
    ensures
        forall|b: BuiltinEffect| #[trigger] all_builtins()[builtin_index(b)] == b,
        forall|b: BuiltinEffect| 0 <= #[trigger] builtin_index(b) < all_builtins().len(),
{
    assert forall|b: BuiltinEffect| #[trigger] all_builtins()[builtin_index(b)] == b by {
        match b {
            BuiltinEffect::FloydSteinberg => assert(all_builtins()[0] == BuiltinEffect::FloydSteinberg),
            BuiltinEffect::Atkinson => assert(all_builtins()[1] == BuiltinEffect::Atkinson),
            BuiltinEffect::JarvisJudiceNinke => assert(all_builtins()[2] == BuiltinEffect::JarvisJudiceNinke),
            BuiltinEffect::Stucki => assert(all_builtins()[3] == BuiltinEffect::Stucki),
            BuiltinEffect::Sierra => assert(all_builtins()[4] == BuiltinEffect::Sierra),
            BuiltinEffect::SierraLite => assert(all_builtins()[5] == BuiltinEffect::SierraLite),
            BuiltinEffect::Burkes => assert(all_builtins()[6] == BuiltinEffect::Burkes),
            BuiltinEffect::Bayer4x4 => assert(all_builtins()[7] == BuiltinEffect::Bayer4x4),
            BuiltinEffect::Threshold => assert(all_builtins()[8] == BuiltinEffect::Threshold),
            BuiltinEffect::ClusteredDot4x4 => assert(all_builtins()[9] == BuiltinEffect::ClusteredDot4x4),
            BuiltinEffect::ClusteredDot8x8 => assert(all_builtins()[10] == BuiltinEffect::ClusteredDot8x8),
            BuiltinEffect::PaletteMap => assert(all_builtins()[11] == BuiltinEffect::PaletteMap),
            BuiltinEffect::ChromaticAberration => assert(all_builtins()[12] == BuiltinEffect::ChromaticAberration),
            BuiltinEffect::Scanlines => assert(all_builtins()[13] == BuiltinEffect::Scanlines),
            BuiltinEffect::EpsilonGlow => assert(all_builtins()[14] == BuiltinEffect::EpsilonGlow),
        }
    }
}

} // verus!
