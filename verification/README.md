# Ditherwave

Image-dithering toolkit: a stack of effects (error diffusion, ordered and
pattern dithers, palette mapping, glitch effects), recipes that save a stack
as TOML, a batch command-line tool, and a WASM plugin contract.

## Layout

- `src/` — the verified library (Verus). Effect metadata, parameter
  resolution, pixel-layout arithmetic, the Bayer and clustered-dot matrices,
  error-diffusion kernels and traversal, the effect registry and stack
  scheduling, recipes, the plugin wire contract (base64 pixels through the
  `base64` crate, manifest checks), RAW/raster input recognition, the pixel
  font and its text drawing on a canvas, and the dot-export grouping and SVG text.
- `tests/` — tests of the library on concrete values.
- `app/` — the command-line tool and everything that does I/O or works on
  floating-point pixels: the effects' colour arithmetic, k-means palette
  extraction, image/RAW/SVG decoding, TOML and JSON (de)serialisation, the
  plugin runtime adapter, the desktop commands and the brand-image
  generators.

Run `verus` on `src/lib.rs` to check the library; the laws it proves are the
public `lemma_*` proof functions and the `ensures` clauses of the public
functions.
