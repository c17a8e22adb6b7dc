use image::GenericImageView;
use regen_oracle::config::OracleConfig;
use regen_oracle::ndvi::{derive_index, render_grid_raster};

// The derivation is a pure function of the configuration: two calls with
// different, non-empty band buffers of the same lengths produce
// byte-identical output.
#[test]
fn derive_index_ignores_buffer_contents() {
    let cfg = OracleConfig::standard();
    let red_a = vec![10u8; 4096];
    let nir_a = vec![200u8; 4096];
    let red_b = vec![77u8; 4096];
    let nir_b = vec![3u8; 4096];
    let a = derive_index(&red_a, &nir_a, &cfg).unwrap();
    let b = derive_index(&red_b, &nir_b, &cfg).unwrap();
    assert_eq!(a.image, b.image);
    assert_eq!(a.stats, b.stats);
}

#[test]
fn stats_are_fixed_placeholders() {
    let cfg = OracleConfig::standard();
    let r = derive_index(&vec![1u8; 10], &vec![2u8; 10], &cfg).unwrap();
    assert_eq!(r.stats.min_micro, 0);
    assert_eq!(r.stats.max_micro, 1_000_000);
    assert_eq!(r.stats.mean_micro, 500_000);
}

#[test]
fn image_is_a_jpeg_of_the_configured_size() {
    let cfg = OracleConfig::standard();
    let r = derive_index(&Vec::new(), &Vec::new(), &cfg).unwrap();
    let decoded = image::load_from_memory(&r.image).unwrap();
    assert_eq!(decoded.dimensions(), (200, 200));
}

#[test]
fn raster_gradient_runs_red_to_green() {
    let cfg = OracleConfig::standard();
    let raster = render_grid_raster(&cfg);
    assert_eq!(raster.len(), 3 * 200 * 200);
    // Top-left cell (0, 0): value 0 of one, pure red.
    assert_eq!(raster[0], 255);
    assert_eq!(raster[1], 0);
    assert_eq!(raster[2], 0);
    // Bottom-right pixel (199, 199) sits in cell (19, 19):
    // red = 255 * (40 - 38) / 40, green = 255 * 38 / 40.
    let idx = 3 * (199 * 200 + 199);
    assert_eq!(raster[idx], 12);
    assert_eq!(raster[idx + 1], 242);
    assert_eq!(raster[idx + 2], 0);
    // A cell midway: pixel (100, 0) is cell (10, 0):
    // red = 255 * 30 / 40, green = 255 * 10 / 40.
    let idx = 3 * 100;
    assert_eq!(raster[idx], 191);
    assert_eq!(raster[idx + 1], 63);
}

#[test]
fn raster_determinism_across_calls() {
    let cfg = OracleConfig::standard();
    assert_eq!(render_grid_raster(&cfg), render_grid_raster(&cfg));
}
