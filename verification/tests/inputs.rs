use ditherwave::branding::{glyph, hash_bucket, logo_bar_spans, text_width, Canvas};
use ditherwave::palette::{kmeans_cluster_count, kmeans_sample_pixels, PaletteRgb8, Xorshift64};
use ditherwave::raw::{is_raw_extension, is_supported_input, rgb8_to_rgba8, RawError};
use std::path::PathBuf;

#[test]
fn recognizes_common_raw_extensions_case_insensitively() {
    for ext in ["cr2", "CR2", "Nef", "dng"] {
        assert!(is_raw_extension(PathBuf::from(format!("photo.{ext}")).to_str().unwrap()));
    }
    assert!(!is_raw_extension(PathBuf::from("photo.png").to_str().unwrap()));
    assert!(!is_raw_extension(PathBuf::from("photo").to_str().unwrap()));
}

#[test]
fn batch_inputs_are_raster_or_raw_files() {
    assert!(is_supported_input("a/b/photo.JPEG"));
    assert!(is_supported_input("photo.png"));
    assert!(is_supported_input("x.arw"));
    assert!(!is_supported_input("notes.txt"));
    assert!(!is_supported_input(".png"));
}

#[test]
fn converts_srgb_image_pixels_correctly() {
    // 2x1 image: pure red, then pure blue.
    let rgba = rgb8_to_rgba8(&vec![255, 0, 0, 0, 0, 255]);
    let working: Vec<f32> = rgba.iter().map(|b| *b as f32 / 255.0).collect();
    assert_eq!(working, vec![1.0, 0.0, 0.0, 1.0, 0.0, 0.0, 1.0, 1.0]);
    assert_eq!(rgb8_to_rgba8(&vec![1, 2, 3, 4]), vec![1, 2, 3, 255]);
}

#[test]
fn built_in_palettes_are_non_empty_and_in_range() {
    for palette in [PaletteRgb8::game_boy(), PaletteRgb8::pico8()] {
        assert!(!palette.colors.is_empty());
        for (r, g, b) in palette.colors {
            for c in [r, g, b] {
                assert!((0.0..=1.0).contains(&(c as f32 / 255.0)));
            }
        }
    }
    assert_eq!(PaletteRgb8::game_boy().colors.len(), 4);
    assert_eq!(PaletteRgb8::pico8().colors.len(), 16);
    assert_eq!(PaletteRgb8::game_boy().colors[3], (0x9b, 0xbc, 0x0f));
}

#[test]
fn xorshift_is_deterministic_for_a_fixed_seed() {
    let mut a = Xorshift64::new(7);
    let mut b = Xorshift64::new(7);
    for _ in 0..5 {
        assert_eq!(a.next_u64(), b.next_u64());
    }
    let mut c = Xorshift64::new(1);
    // 1 ^ 1<<13 = 8193; ^ >>7 = 8193 ^ 64 = 8257; ^ <<17
    assert_eq!(c.next_u64(), 8257 ^ (8257u64 << 17));
    let mut zero = Xorshift64::new(0);
    assert_ne!(zero.next_u64(), 0);
    assert!(Xorshift64::new(3).next_index(10) < 10);
}

#[test]
fn kmeans_samples_every_stride_th_pixel() {
    assert_eq!(kmeans_sample_pixels(5), vec![0, 1, 2, 3, 4]);
    let big = kmeans_sample_pixels(8192 * 3 + 1);
    assert_eq!(big.len(), 8193);
    assert_eq!(big[1], 3);
    assert!(kmeans_sample_pixels(0).is_empty());
    assert_eq!(kmeans_cluster_count(0, 10), 1);
    assert_eq!(kmeans_cluster_count(8, 3), 3);
    assert_eq!(kmeans_cluster_count(3, 0), 1);
}

#[test]
fn pixel_font_and_layout() {
    assert_eq!(glyph('I'), [0b11111, 0b00100, 0b00100, 0b00100, 0b00100, 0b00100, 0b11111]);
    assert_eq!(glyph('z'), [0; 7]);
    assert_eq!(text_width("DITHERWAVE", 11), 10 * 6 * 11 - 11);
    assert!(hash_bucket(12345) < 10000);
    let mut x = 12345u32.wrapping_mul(2654435761);
    x ^= x >> 15;
    x = x.wrapping_mul(2246822519);
    x ^= x >> 13;
    assert_eq!(hash_bucket(12345), x % 10000);
}

#[test]
fn raw_decode_error_names_the_cause() {
    let e = RawError::Decode("unsupported camera".to_string());
    assert_eq!(e.message(), "failed to decode RAW file: unsupported camera");
}

#[test]
fn draw_text_advances_the_pen_by_text_width() {
    let mut canvas: Canvas<u8> = Canvas::new(700, 100);
    let end = canvas.draw_text("DITHERWAVE", 20, 10, 11, 1);
    assert_eq!(end - 20, text_width("DITHERWAVE", 11));
    assert_eq!(text_width("DITHERWAVE", 11), 649);
}

#[test]
fn draw_text_paints_exactly_the_lit_font_cells() {
    // "I" at scale 2 from (1, 1): the top row is five lit cells wide.
    let mut canvas: Canvas<char> = Canvas::new(14, 17);
    let end = canvas.draw_text("I", 1, 1, 2, '#');
    assert_eq!(end, 1 + 5 * 2);
    let at = |x: usize, y: usize| canvas.pixels[y * 14 + x];
    // top bar: rows 1..3, columns 1..11
    for y in 1..3 {
        for x in 1..11 {
            assert_eq!(at(x, y), Some('#'));
        }
    }
    // the stem: only the middle cell (columns 5..7) on the second glyph row
    assert_eq!(at(5, 3), Some('#'));
    assert_eq!(at(6, 4), Some('#'));
    assert_eq!(at(4, 3), None);
    assert_eq!(at(7, 3), None);
    // outside the glyph
    assert_eq!(at(0, 0), None);
    assert_eq!(at(11, 1), None);
    let painted = canvas.pixels.iter().filter(|p| p.is_some()).count();
    // 5 + 1*5 + 5 lit cells, each 2x2 pixels
    assert_eq!(painted, 15 * 4);
}

#[test]
fn canvas_ignores_pixels_off_the_edge() {
    let mut canvas: Canvas<u8> = Canvas::new(3, 2);
    canvas.set(-1, 0, 9);
    canvas.set(3, 1, 9);
    canvas.set(2, 1, 7);
    assert_eq!(canvas.pixels, vec![None, None, None, None, None, Some(7)]);
}

#[test]
fn logo_bars_are_centred_on_the_grid() {
    let heights = vec![4, 8, 13, 19, 24, 19, 13, 8, 4];
    let spans = logo_bar_spans(32, &heights, 2, 1);
    // 9 bars of 2 with 8 gaps of 1 take 26 columns: 3 free on each side.
    assert_eq!(spans[0], (3, 14, 18));
    assert_eq!(spans[2], (9, 10, 23));
    assert_eq!(spans[4], (15, 4, 28));
    assert_eq!(spans[8].0, 27);
}
