use regen_oracle::errors::OracleError;
use regen_oracle::window::{
    ceil_div, clamp_to_shape, floor_div, resolve_window, AffineTransform, GeoBbox, PixelShape,
};

fn sentinel_transform() -> AffineTransform {
    AffineTransform {
        pixel_width: 10_000_000,
        row_rotation: 0,
        x_origin: 499_980_000_000,
        col_rotation: 0,
        pixel_height: -10_000_000,
        y_origin: 4_200_000_000_000,
    }
}

#[test]
fn floor_div_rounds_toward_negative_infinity() {
    assert_eq!(floor_div(7, 2), 3);
    assert_eq!(floor_div(-7, 2), -4);
    assert_eq!(floor_div(7, -2), -4);
    assert_eq!(floor_div(-7, -2), 3);
    assert_eq!(floor_div(6, 2), 3);
    assert_eq!(floor_div(-6, 2), -3);
    assert_eq!(floor_div(0, 5), 0);
}

#[test]
fn ceil_div_rounds_toward_positive_infinity() {
    assert_eq!(ceil_div(7, 2), 4);
    assert_eq!(ceil_div(-7, 2), -3);
    assert_eq!(ceil_div(7, -2), -3);
    assert_eq!(ceil_div(-7, -2), 4);
    assert_eq!(ceil_div(6, 2), 3);
    assert_eq!(ceil_div(0, 5), 0);
}

#[test]
fn clamp_respects_bounds() {
    assert_eq!(clamp_to_shape(-5, 10), 0);
    assert_eq!(clamp_to_shape(5, 10), 5);
    assert_eq!(clamp_to_shape(15, 10), 10);
}

// The canonical worked example: bbox [499980, 4190000, 500080, 4190100],
// transform [10, 0, 499980, 0, -10, 4200000], shape 10980 x 10980.
#[test]
fn canonical_window_example() {
    let bbox = GeoBbox {
        min_x: 499_980_000_000,
        min_y: 4_190_000_000_000,
        max_x: 500_080_000_000,
        max_y: 4_190_100_000_000,
    };
    let shape = PixelShape { height: 10980, width: 10980 };
    let w = resolve_window(&bbox, &sentinel_transform(), &shape, 500).unwrap();
    assert_eq!(w.min_x, 0);
    assert_eq!(w.max_x, 10);
    assert_eq!(w.window_width, 10);
    assert_eq!(w.window_height, 10);
    assert_eq!(w.min_y, 990);
    assert_eq!(w.max_y, 1000);
    // Smaller than the window limit: kept as it is.
    assert_eq!(w.effective_width, 10);
    assert_eq!(w.effective_height, 10);
}

#[test]
fn window_stays_within_shape() {
    // A bounding box reaching far outside the raster is clamped.
    let bbox = GeoBbox {
        min_x: 0,
        min_y: 0,
        max_x: 900_000_000_000_000,
        max_y: 4_200_000_000_000,
    };
    let shape = PixelShape { height: 10980, width: 10980 };
    let w = resolve_window(&bbox, &sentinel_transform(), &shape, 500).unwrap();
    assert!(w.min_x <= w.max_x);
    assert!(w.max_x <= 10980);
    assert!(w.min_y <= w.max_y);
    assert!(w.max_y <= 10980);
}

#[test]
fn oversized_window_is_downsampled_uniformly() {
    // Window 10000 x 10980 against a limit of 500.
    let bbox = GeoBbox {
        min_x: 499_980_000_000,
        min_y: 4_090_200_000_000,
        max_x: 599_980_000_000,
        max_y: 4_200_000_000_000,
    };
    let shape = PixelShape { height: 10980, width: 10980 };
    let w = resolve_window(&bbox, &sentinel_transform(), &shape, 500).unwrap();
    assert_eq!(w.window_width, 10000);
    assert_eq!(w.window_height, 10980);
    // scale factor is 10980 / 500; dimensions shrink by it, truncated.
    assert_eq!(w.effective_width, 10000u64 * 500 / 10980);
    assert_eq!(w.effective_height, 500);
    assert!(w.effective_width <= 500);
    assert!(w.effective_height <= 500);
}

#[test]
fn degenerate_transform_is_config_error() {
    let bbox = GeoBbox { min_x: 0, min_y: 0, max_x: 1_000_000, max_y: 1_000_000 };
    let shape = PixelShape { height: 100, width: 100 };
    let mut t = sentinel_transform();
    t.pixel_width = 0;
    assert_eq!(resolve_window(&bbox, &t, &shape, 500), Err(OracleError::ConfigError));
    let mut t2 = sentinel_transform();
    t2.pixel_height = 0;
    assert_eq!(resolve_window(&bbox, &t2, &shape, 500), Err(OracleError::ConfigError));
}

#[test]
fn sub_pixel_box_collapses_to_empty_window() {
    // A bounding box inside one pixel row: the inverted raw bound
    // collapses to an empty window instead of a negative one.
    let bbox = GeoBbox {
        min_x: 499_981_000_000,
        min_y: 4_190_000_100_000,
        max_x: 499_982_000_000,
        max_y: 4_190_000_900_000,
    };
    let shape = PixelShape { height: 10980, width: 10980 };
    let w = resolve_window(&bbox, &sentinel_transform(), &shape, 500).unwrap();
    assert!(w.min_x <= w.max_x);
    assert!(w.min_y <= w.max_y);
    assert_eq!(w.window_height, 0);
}
