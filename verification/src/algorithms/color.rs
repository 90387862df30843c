use vstd::prelude::*;
use super::{clamp, resolve_bool_param, resolve_int_param};
use crate::category::EffectCategory;
use crate::text::str_eq;

verus! {

/// Quantizes an image to a fixed or extracted color palette, either by a
/// plain nearest-color remap or, with `dither` on, by Floyd-Steinberg error
/// diffusion that picks each pixel's nearest palette color jointly across
/// the three channels.
#[derive(Debug, Clone, Copy)]
pub struct PaletteMap;

/// Which palette a palette-map run quantizes against.
#[derive(Debug, Clone, Copy, PartialEq, Eq, Structural)]
pub enum PaletteSource {
    GameBoy,
    Pico8,
    /// Extracted from the image itself by k-means.
    Extract,
}

/// The palette named by the `palette` parameter: `"gameboy"` (also the
/// default when it is absent), `"pico8"`, and anything else extracts one.
pub open spec fn palette_source_spec(choice: Option<Seq<char>>) -> PaletteSource {
    match choice {
        None => PaletteSource::GameBoy,
        Some(s) => if s == "gameboy"@ {
            PaletteSource::GameBoy
        } else if s == "pico8"@ {
            PaletteSource::Pico8
        } else {
            PaletteSource::Extract
        },
    }
}

/// Each option the `palette` parameter offers selects its own palette:
/// `"gameboy"` (and no choice at all) the Game Boy greens, `"pico8"` the
/// PICO-8 colors, `"extract"` a palette extracted from the image.
pub proof fn lemma_palette_options_select_their_palettes()
    ensures
        palette_source_spec(None) == PaletteSource::GameBoy,
        palette_source_spec(Some("gameboy"@)) == PaletteSource::GameBoy,
        palette_source_spec(Some("pico8"@)) == PaletteSource::Pico8,
        palette_source_spec(Some("extract"@)) == PaletteSource::Extract,
{
    reveal_strlit("gameboy");
    reveal_strlit("pico8");
    reveal_strlit("extract");
    assert("pico8"@ != "gameboy"@) by {
        assert("pico8"@[0] != "gameboy"@[0]);
    }
    assert("extract"@ != "gameboy"@) by {
        assert("extract"@[0] != "gameboy"@[0]);
    }
    assert("extract"@ != "pico8"@) by {
        assert("extract"@[0] != "pico8"@[0]);
    }
}

impl PaletteMap {
    pub const KEY: &'static str = "color.palette_map";

    pub fn key(&self) -> (k: &'static str)
        ensures
            k@ == "color.palette_map"@,
    {
        "color.palette_map"
    }

    pub fn display_name(&self) -> (n: &'static str)
        ensures
            n@ == "Palette Map"@,
    {
        "Palette Map"
    }

    pub fn category(&self) -> (c: EffectCategory)
        ensures
            c == EffectCategory::Color,
    {
        EffectCategory::Color
    }

    /// The palette to quantize against (`palette` parameter).
    pub fn palette_source(&self, choice: Option<&str>) -> (p: PaletteSource)
        ensures
            p == palette_source_spec(
                match choice {
                    Some(s) => Some(s@),
                    None => None,
                },
            ),
            choice is None ==> p == PaletteSource::GameBoy,
            choice matches Some(s) && s@ == "gameboy"@ ==> p == PaletteSource::GameBoy,
            choice matches Some(s) && s@ == "pico8"@ ==> p == PaletteSource::Pico8,
            choice matches Some(s) && s@ == "extract"@ ==> p == PaletteSource::Extract,
    {
        proof {
            lemma_palette_options_select_their_palettes();
        }
        match choice {
            None => PaletteSource::GameBoy,
            Some(s) => {
                if str_eq(s, "gameboy") {
                    PaletteSource::GameBoy
                } else if str_eq(s, "pico8") {
                    PaletteSource::Pico8
                } else {
                    PaletteSource::Extract
                }
            },
        }
    }

    /// How many colors to extract (`colors` parameter: default 8, limited
    /// to `2..=64`).
    pub fn colors(&self, raw: Option<i64>) -> (n: usize)
        ensures
            n == clamp(
                match raw {
                    Some(r) => r as int,
                    None => 8,
                },
                2,
                64,
            ),
    {
        resolve_int_param(raw, 8, 2, 64) as usize
    }

    /// Whether to diffuse the quantization error (`dither` parameter,
    /// default on).
    pub fn dither(&self, raw: Option<bool>) -> (d: bool)
        ensures
            d == match raw {
                Some(b) => b,
                None => true,
            },
    {
        resolve_bool_param(raw, true)
    }
}

} // verus!
