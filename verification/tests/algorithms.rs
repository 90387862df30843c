use ditherwave::algorithms::error_diffusion::{
    Atkinson, Burkes, DiffusionKernel, FloydSteinberg, JarvisJudiceNinke, Sierra, SierraLite,
    Stucki,
};
use ditherwave::algorithms::glitch::{ChromaticAberration, Scanlines};
use ditherwave::algorithms::ordered::{matrix_rank, threshold_bias, Bayer4x4};
use ditherwave::algorithms::pattern::{clustered_dot_matrix, ClusteredDot4x4, Threshold};
use ditherwave::algorithms::special::{clamped_index, EpsilonGlow};
use ditherwave::algorithms::{builtins, resolve_int_param, resolve_levels};
use ditherwave::image::{ColorSpace, WorkingImage};

/// A `w`x`h` image with every RGBA pixel set to `gray` (alpha opaque).
fn solid_image(w: u32, h: u32, gray: f32) -> WorkingImage<f32> {
    let mut pixels = vec![gray; (w * h * 4) as usize];
    for a in pixels.iter_mut().skip(3).step_by(4) {
        *a = 1.0;
    }
    WorkingImage { width: w, height: h, color_space: ColorSpace::Srgb, pixels }
}

fn weights(kernel: &DiffusionKernel) -> Vec<f32> {
    kernel
        .taps
        .iter()
        .map(|&(_, _, w)| w as f32 / kernel.denominator as f32)
        .collect()
}

#[test]
fn kernel_weights_sum_to_expected_totals() {
    let full_diffusion = [
        FloydSteinberg.kernel(),
        JarvisJudiceNinke.kernel(),
        Stucki.kernel(),
        Sierra.kernel(),
        SierraLite.kernel(),
        Burkes.kernel(),
    ];
    for kernel in &full_diffusion {
        let total: f32 = weights(kernel).iter().sum();
        assert!((total - 1.0).abs() < 1e-5, "kernel sums to {total}, expected 1.0");
    }

    let atkinson_total: f32 = weights(&Atkinson.kernel()).iter().sum();
    assert!((atkinson_total - 0.75).abs() < 1e-6);
}

#[test]
fn every_effect_has_a_unique_key() {
    let all = [
        FloydSteinberg.key(),
        Atkinson.key(),
        JarvisJudiceNinke.key(),
        Stucki.key(),
        Sierra.key(),
        SierraLite.key(),
        Burkes.key(),
    ];
    let mut keys: Vec<&str> = all.to_vec();
    let unique_count = {
        keys.sort_unstable();
        keys.dedup();
        keys.len()
    };
    assert_eq!(unique_count, all.len());
}

#[test]
fn builtin_keys_are_unique_and_match_the_effects() {
    let list = builtins();
    assert_eq!(list.len(), 15);
    let mut keys: Vec<&str> = list.iter().map(|b| b.key()).collect();
    keys.sort_unstable();
    keys.dedup();
    assert_eq!(keys.len(), 15);
    assert!(list.iter().any(|b| b.key() == "color.palette_map"));
    assert!(list.iter().any(|b| b.key() == "pattern.threshold"));
}

#[test]
fn floyd_steinberg_kernel_is_the_classic_one() {
    let k = FloydSteinberg.kernel();
    assert_eq!(k.denominator, 16);
    assert_eq!(k.taps, vec![(1, 0, 7), (-1, 1, 3), (0, 1, 5), (1, 1, 1)]);
}

#[test]
fn clustered_dot_matrix_covers_each_value_exactly_once() {
    for size in [4, 8] {
        let matrix = clustered_dot_matrix(size);
        let mut values: Vec<u32> = matrix.into_iter().flatten().collect();
        values.sort_unstable();
        assert_eq!(values, (0..(size * size) as u32).collect::<Vec<_>>());
    }
}

#[test]
fn clustered_dot_grows_from_the_center() {
    let matrix = clustered_dot_matrix(4);
    let center_rank = matrix[1][1].min(matrix[1][2]).min(matrix[2][1]).min(matrix[2][2]);
    let corner_rank = matrix[0][0].max(matrix[0][3]).max(matrix[3][0]).max(matrix[3][3]);
    assert!(center_rank < corner_rank);
}

#[test]
fn clustered_dot_4x4_has_the_expected_ranks() {
    assert_eq!(
        ClusteredDot4x4.matrix(),
        vec![
            vec![12, 4, 5, 13],
            vec![6, 0, 1, 7],
            vec![8, 2, 3, 9],
            vec![14, 10, 11, 15],
        ]
    );
}

#[test]
fn bayer_matrix_and_bias() {
    let m = Bayer4x4.matrix();
    assert_eq!(m[0], vec![0, 8, 2, 10]);
    assert_eq!(m[3], vec![15, 7, 13, 5]);
    assert_eq!(matrix_rank(&m, 5, 6), m[2][1]);
    // (0 + 1/2) / 16 - 1/2 = -15/32
    assert_eq!(threshold_bias(0, 4), (-15, 32));
    assert_eq!(threshold_bias(15, 4), (15, 32));
}

#[test]
fn levels_parameter_defaults_and_clamps() {
    assert_eq!(resolve_levels(None), 2);
    assert_eq!(resolve_levels(Some(1)), 2);
    assert_eq!(resolve_levels(Some(7)), 7);
    assert_eq!(resolve_levels(Some(1000)), 256);
    assert_eq!(resolve_int_param(Some(-3), 4, 0, 256), 0);
    assert_eq!(FloydSteinberg.serpentine(None), true);
    assert_eq!(FloydSteinberg.serpentine(Some(false)), false);
}

#[test]
fn binarizes_around_default_threshold() {
    let dark = solid_image(2, 2, 0.2);
    let bright = solid_image(2, 2, 0.8);
    let threshold = 0.5f32;
    let binarize = |c: f32| if c >= threshold { 1.0 } else { 0.0 };

    let dark_out = Threshold.apply(&dark, binarize);
    let bright_out = Threshold.apply(&bright, binarize);

    assert!(dark_out.pixels[0..3].iter().all(|&c| c == 0.0));
    assert!(bright_out.pixels[0..3].iter().all(|&c| c == 1.0));
    // alpha is left untouched
    assert_eq!(dark_out.pixels[3], 1.0);
}

#[test]
fn chromatic_aberration_leaves_a_solid_image_unchanged() {
    let input = solid_image(10, 4, 0.5);
    let out = ChromaticAberration.apply(&input, None);
    assert_eq!((out.width, out.height), (10, 4));
    assert!(out.pixels.iter().all(|c| (0.0..=1.0).contains(c)));
}

#[test]
fn chromatic_aberration_shifts_red_and_blue_oppositely() {
    let (w, h) = (11, 1);
    let mut pixels = vec![0.0f32; w * h * 4];
    let mark_x = 5;
    pixels[mark_x * 4] = 1.0;
    pixels[mark_x * 4 + 2] = 1.0;
    pixels[mark_x * 4 + 3] = 1.0;
    let input = WorkingImage {
        width: w as u32,
        height: h as u32,
        color_space: ColorSpace::Srgb,
        pixels,
    };

    let out = ChromaticAberration.apply(&input, Some(2));

    let red_at = |x: usize| out.pixels[x * 4];
    let blue_at = |x: usize| out.pixels[x * 4 + 2];
    assert_eq!(red_at(mark_x + 2), 1.0, "red should have shifted right by `amount`");
    assert_eq!(blue_at(mark_x - 2), 1.0, "blue should have shifted left by `amount`");
}

#[test]
fn chromatic_aberration_clamps_at_the_row_edges() {
    let input = WorkingImage {
        width: 3,
        height: 1,
        color_space: ColorSpace::Srgb,
        pixels: vec![1u8, 2, 3, 4, 5, 6, 7, 8, 9, 10, 11, 12],
    };
    let out = ChromaticAberration.apply(&input, Some(300));
    // amount clamps to 256: red always reads column 0, blue always column 2.
    assert_eq!(out.pixels, vec![1, 2, 11, 4, 1, 6, 11, 8, 1, 10, 11, 12]);
}

#[test]
fn scanlines_darkens_only_the_selected_rows() {
    let input = solid_image(4, 4, 1.0);
    let strength = 1.0f32;
    let out = Scanlines.apply(&input, Some(2), |c: f32| c * (1.0 - strength));
    assert_eq!(out.pixels[0], 0.0);
    assert_eq!(out.pixels[input.width as usize * 4], 1.0);
    // alpha of a darkened row is kept
    assert_eq!(out.pixels[3], 1.0);
}

#[test]
fn epsilon_glow_reads_past_the_border_from_the_edge() {
    assert_eq!(EpsilonGlow.radius(None), 6);
    assert_eq!(EpsilonGlow.radius(Some(0)), 1);
    assert_eq!(clamped_index(3, 2, -5, 0, 1), 1);
    assert_eq!(clamped_index(3, 2, 7, 9, 2), (1 * 3 + 2) * 4 + 2);
    let input = solid_image(2, 1, 0.25);
    let blurred = vec![0.75f32; 8];
    let out = EpsilonGlow.combine(&input, &blurred, |c: f32, b: f32| {
        (c + (b - c).max(0.0) * 2.0).clamp(0.0, 1.0)
    });
    assert_eq!(out.pixels, vec![1.0, 1.0, 1.0, 1.0, 1.0, 1.0, 1.0, 1.0]);
}

#[test]
fn working_image_new_fills_every_channel() {
    let img = WorkingImage::new(3, 2, ColorSpace::Linear, 0.0f32);
    assert_eq!(img.pixels.len(), 24);
    assert!(img.pixels.iter().all(|&c| c == 0.0));
}
