use vstd::prelude::*;
use crate::text::str_eq;

verus! {

/// The family an effect belongs to, used to group effects in the UI.
#[derive(Debug, Clone, Copy, PartialEq, Eq, Structural)]
pub enum EffectCategory {
    ErrorDiffusion,
    Ordered,
    Pattern,
    Glitch,
    Special,
    Color,
}

/// The manifest spelling of each category, as plugin manifests write it.
pub open spec fn category_key(c: EffectCategory) -> Seq<char> {
    match c {
        EffectCategory::ErrorDiffusion => "error_diffusion"@,
        EffectCategory::Ordered => "ordered"@,
        EffectCategory::Pattern => "pattern"@,
        EffectCategory::Glitch => "glitch"@,
        EffectCategory::Special => "special"@,
        EffectCategory::Color => "color"@,
    }
}

/// The name each category is shown under in the effect list.
pub open spec fn category_name_spec(c: EffectCategory) -> Seq<char> {
    match c {
        EffectCategory::ErrorDiffusion => "ErrorDiffusion"@,
        EffectCategory::Ordered => "Ordered"@,
        EffectCategory::Pattern => "Pattern"@,
        EffectCategory::Glitch => "Glitch"@,
        EffectCategory::Special => "Special"@,
        EffectCategory::Color => "Color"@,
    }
}

/// The name a category is shown under in the effect list.
pub fn category_name(c: EffectCategory) -> (n: &'static str)
    ensures
        n@ == category_name_spec(c),
{
    match c {
        EffectCategory::ErrorDiffusion => "ErrorDiffusion",
        EffectCategory::Ordered => "Ordered",
        EffectCategory::Pattern => "Pattern",
        EffectCategory::Glitch => "Glitch",
        EffectCategory::Special => "Special",
        EffectCategory::Color => "Color",
    }
}

/// Parses a category spelling: `Some` exactly for the six manifest
/// spellings of [`category_key`].
pub fn category_from_key(s: &str) -> (r: Option<EffectCategory>)
    ensures
        r matches Some(c) ==> category_key(c) == s@,
        r is None ==> forall|c: EffectCategory| category_key(c) != s@,
{
    if str_eq(s, "error_diffusion") {
        Some(EffectCategory::ErrorDiffusion)
    } else if str_eq(s, "ordered") {
        Some(EffectCategory::Ordered)
    } else if str_eq(s, "pattern") {
        Some(EffectCategory::Pattern)
    } else if str_eq(s, "glitch") {
        Some(EffectCategory::Glitch)
    } else if str_eq(s, "special") {
        Some(EffectCategory::Special)
    } else if str_eq(s, "color") {
        Some(EffectCategory::Color)
    } else {
        None
    }
}

} // verus!
