//! Geo-window resolver: converts a geographic bounding box plus an asset's
//! affine transform and pixel shape into a clamped pixel-space rectangle,
//! and derives an effective (possibly downsampled) window size under a
//! maximum-dimension constraint.
//!
//! Coordinates are fixed-point integers: one unit is a millionth of a map
//! unit, so that the floor/ceil divisions of the resolver are exact.

use vstd::prelude::*;
use vstd::arithmetic::div_mod::{
    lemma_fundamental_div_mod, lemma_fundamental_div_mod_converse, lemma_div_is_ordered,
    lemma_div_is_ordered_by_denominator, lemma_div_multiples_vanish, lemma_div_nonincreasing,
    lemma_div_pos_is_pos,
};
use vstd::arithmetic::mul::{
    lemma_mul_inequality, lemma_mul_is_commutative, lemma_mul_is_distributive_sub_other_way,
    lemma_mul_unary_negation, lemma_mul_upper_bound,
};
use crate::errors::OracleError;

verus! {

/// One fixed-point unit is a millionth of a map unit.
pub const COORD_SCALE: i64 = 1_000_000;

/// Largest admitted magnitude of a fixed-point coordinate or transform
/// coefficient, so that coordinate differences stay within `i64`.
pub const COORD_LIMIT: i64 = 1_000_000_000_000_000;

/// Largest admitted pixel dimension of a raster.
pub const SHAPE_LIMIT: i64 = 1_000_000_000;

/// A geographic bounding box in fixed-point map units:
/// west, south, east, north.
#[derive(Debug, Clone, Copy, PartialEq, Eq, Structural)]
pub struct GeoBbox {
    pub min_x: i64,
    pub min_y: i64,
    pub max_x: i64,
    pub max_y: i64,
}

impl GeoBbox {
    /// All coordinates are within the admitted magnitude.
    pub open spec fn wf(&self) -> bool {
        &&& -COORD_LIMIT <= self.min_x <= COORD_LIMIT
        &&& -COORD_LIMIT <= self.min_y <= COORD_LIMIT
        &&& -COORD_LIMIT <= self.max_x <= COORD_LIMIT
        &&& -COORD_LIMIT <= self.max_y <= COORD_LIMIT
    }
}

/// Six affine coefficients mapping pixel coordinates to map coordinates,
/// in fixed-point map units. `pixel_height` is negative for north-up
/// rasters.
#[derive(Debug, Clone, Copy, PartialEq, Eq, Structural)]
pub struct AffineTransform {
    pub pixel_width: i64,
    pub row_rotation: i64,
    pub x_origin: i64,
    pub col_rotation: i64,
    pub pixel_height: i64,
    pub y_origin: i64,
}

impl AffineTransform {
    /// All coefficients are within the admitted magnitude.
    pub open spec fn wf(&self) -> bool {
        &&& -COORD_LIMIT <= self.pixel_width <= COORD_LIMIT
        &&& -COORD_LIMIT <= self.row_rotation <= COORD_LIMIT
        &&& -COORD_LIMIT <= self.x_origin <= COORD_LIMIT
        &&& -COORD_LIMIT <= self.col_rotation <= COORD_LIMIT
        &&& -COORD_LIMIT <= self.pixel_height <= COORD_LIMIT
        &&& -COORD_LIMIT <= self.y_origin <= COORD_LIMIT
    }

    /// The transform admits no pixel window: a zero pixel width or height
    /// would divide by zero.
    pub open spec fn is_degenerate(&self) -> bool {
        self.pixel_width == 0 || self.pixel_height == 0
    }
}

/// The pixel dimensions of a raster: height then width, as the asset
/// metadata orders them.
#[derive(Debug, Clone, Copy, PartialEq, Eq, Structural)]
pub struct PixelShape {
    pub height: i64,
    pub width: i64,
}

impl PixelShape {
    /// Dimensions are non-negative and within the admitted magnitude.
    pub open spec fn wf(&self) -> bool {
        &&& 0 <= self.height <= SHAPE_LIMIT
        &&& 0 <= self.width <= SHAPE_LIMIT
    }
}

/// A clamped rectangle in pixel space, together with the window dimensions
/// and the effective dimensions after uniform downsampling.
#[derive(Debug, Clone, Copy, PartialEq, Eq, Structural)]
pub struct PixelWindow {
    pub min_x: u64,
    pub min_y: u64,
    pub max_x: u64,
    pub max_y: u64,
    pub window_width: u64,
    pub window_height: u64,
    pub effective_width: u64,
    pub effective_height: u64,
}

/// Mathematical floor of `a / b`.
pub open spec fn floor_div_spec(a: int, b: int) -> int
    recommends
        b != 0,
{
    if b > 0 {
        a / b
    } else {
        (-a) / (-b)
    }
}

/// Mathematical ceiling of `a / b`.
pub open spec fn ceil_div_spec(a: int, b: int) -> int
    recommends
        b != 0,
{
    -floor_div_spec(-a, b)
}

/// `v` clamped to `[0, hi]`.
pub open spec fn clamp_spec(v: int, hi: int) -> int
    recommends
        hi >= 0,
{
    if v < 0 {
        0
    } else if v > hi {
        hi
    } else {
        v
    }
}

/// The effective size of a window dimension `dim` when the larger of the
/// two window dimensions (`dim`, `other`) is scaled down to `max_dim`:
/// `dim` divided by the uniform scale factor, truncated. A scale factor
/// below one is clamped to one, so a small window is never upscaled.
pub open spec fn scaled_dim_spec(dim: int, other: int, max_dim: int) -> int
    recommends
        0 <= dim,
        0 <= other,
        0 <= max_dim,
{
    let largest = if dim > other { dim } else { other };
    if largest > max_dim {
        (dim * max_dim) / largest
    } else {
        dim
    }
}

/// Dividing a negated non-negative numerator by a positive divisor floors
/// away from zero exactly when the division does not come out even.
proof fn lemma_neg_div(ma: int, mb: int)
    requires
        0 <= ma,
        0 < mb,
    ensures
        (-ma) / mb == if ma % mb == 0 { -(ma / mb) } else { -(ma / mb) - 1 },
{
    let q = ma / mb;
    let r = ma % mb;
    lemma_fundamental_div_mod(ma, mb);
    if r == 0 {
        lemma_mul_unary_negation(q, mb);
        lemma_mul_is_commutative(q, mb);
        lemma_mul_is_commutative(-q, mb);
        assert(-ma == (-q) * mb + 0) by {
            assert(ma == q * mb) by {
                lemma_mul_is_commutative(mb, q);
            }
        }
        lemma_fundamental_div_mod_converse(-ma, mb, -q, 0);
    } else {
        lemma_mul_is_commutative(mb, q);
        assert(ma == q * mb + r);
        assert((-q - 1) * mb == (-q) * mb - mb) by {
            lemma_mul_is_distributive_sub_other_way(mb, -q, 1);
            lemma_mul_is_commutative(mb, -q - 1);
            lemma_mul_is_commutative(mb, -q);
        }
        lemma_mul_unary_negation(q, mb);
        assert(-ma == (-q - 1) * mb + (mb - r));
        lemma_fundamental_div_mod_converse(-ma, mb, -q - 1, mb - r);
    }
}

/// Floor of the quotient of two machine integers.
pub fn floor_div(a: i64, b: i64) -> (q: i64)
    requires
        b != 0,
        i64::MIN < a,
        i64::MIN < b,
    ensures
        q == floor_div_spec(a as int, b as int),
{
    let ma: u64 = if a < 0 { (-a) as u64 } else { a as u64 };
    let mb: u64 = if b < 0 { (-b) as u64 } else { b as u64 };
    let qm: u64 = ma / mb;
    let rm: u64 = ma % mb;
    proof {
        lemma_div_nonincreasing(ma as int, mb as int);
        lemma_div_pos_is_pos(ma as int, mb as int);
    }
    if (a < 0) == (b < 0) {
        qm as i64
    } else {
        proof {
            lemma_neg_div(ma as int, mb as int);
        }
        if rm != 0 {
            -(qm as i64) - 1
        } else {
            -(qm as i64)
        }
    }
}

/// Ceiling of the quotient of two machine integers.
pub fn ceil_div(a: i64, b: i64) -> (q: i64)
    requires
        b != 0,
        i64::MIN < a,
        i64::MIN < b,
    ensures
        q == ceil_div_spec(a as int, b as int),
{
    let ma: u64 = if a < 0 { (-a) as u64 } else { a as u64 };
    let mb: u64 = if b < 0 { (-b) as u64 } else { b as u64 };
    let qm: u64 = ma / mb;
    let rm: u64 = ma % mb;
    proof {
        lemma_div_nonincreasing(ma as int, mb as int);
        lemma_div_pos_is_pos(ma as int, mb as int);
        lemma_neg_div(ma as int, mb as int);
    }
    if (a < 0) == (b < 0) {
        if rm != 0 {
            proof {
                lemma_div_is_ordered_by_denominator(ma as int, 2, mb as int);
            }
            qm as i64 + 1
        } else {
            qm as i64
        }
    } else {
        -(qm as i64)
    }
}

/// `v` clamped to `[0, hi]`.
pub fn clamp_to_shape(v: i64, hi: i64) -> (r: u64)
    requires
        0 <= hi <= SHAPE_LIMIT,
    ensures
        r == clamp_spec(v as int, hi as int),
        r <= hi,
{
    if v < 0 {
        0
    } else if v > hi {
        hi as u64
    } else {
        v as u64
    }
}

/// The effective size of the window dimension `dim`, downsampled uniformly
/// with the other dimension so that the larger of the two fits `max_dim`.
fn scaled_dim(dim: u64, other: u64, max_dim: u32) -> (r: u64)
    requires
        dim <= SHAPE_LIMIT,
        other <= SHAPE_LIMIT,
    ensures
        r == scaled_dim_spec(dim as int, other as int, max_dim as int),
        r <= dim,
        (dim > max_dim || other > max_dim) ==> r <= max_dim,
{
    let largest: u64 = if dim > other { dim } else { other };
    if largest > max_dim as u64 {
        proof {
            lemma_mul_upper_bound(dim as int, SHAPE_LIMIT as int, max_dim as int, u32::MAX as int);
            vstd::arithmetic::mul::lemma_mul_nonnegative(dim as int, max_dim as int);
            lemma_div_pos_is_pos(dim as int * max_dim as int, largest as int);
            lemma_scaled_dim_bounds(dim as int, other as int, max_dim as int);
        }
        (dim * (max_dim as u64)) / largest
    } else {
        dim
    }
}

/// The window that `resolve_window` yields on a non-degenerate transform:
/// floor/ceil of the affine formula, clamped to the raster, an inverted
/// bound collapsed to an empty window, and the effective dimensions
/// downsampled uniformly under `max_dim`.
pub open spec fn resolve_window_spec(
    bbox: GeoBbox,
    transform: AffineTransform,
    shape: PixelShape,
    max_dim: u32,
) -> PixelWindow
    recommends
        !transform.is_degenerate(),
        shape.wf(),
{
    let raw_min_x = floor_div_spec(bbox.min_x - transform.x_origin, transform.pixel_width as int);
    let raw_max_x = ceil_div_spec(bbox.max_x - transform.x_origin, transform.pixel_width as int);
    let raw_max_y = floor_div_spec(bbox.min_y - transform.y_origin, transform.pixel_height as int);
    let raw_min_y = ceil_div_spec(bbox.max_y - transform.y_origin, transform.pixel_height as int);
    let min_x = clamp_spec(raw_min_x, shape.width as int);
    let max_x = vstd::math::max(min_x, clamp_spec(raw_max_x, shape.width as int));
    let min_y = clamp_spec(raw_min_y, shape.height as int);
    let max_y = vstd::math::max(min_y, clamp_spec(raw_max_y, shape.height as int));
    let window_width = max_x - min_x;
    let window_height = max_y - min_y;
    PixelWindow {
        min_x: min_x as u64,
        min_y: min_y as u64,
        max_x: max_x as u64,
        max_y: max_y as u64,
        window_width: window_width as u64,
        window_height: window_height as u64,
        effective_width: scaled_dim_spec(window_width, window_height, max_dim as int) as u64,
        effective_height: scaled_dim_spec(window_height, window_width, max_dim as int) as u64,
    }
}

/// Resolves the pixel window of `bbox` on a raster described by
/// `transform` and `shape`.
///
/// The raw pixel rectangle follows the affine formula: floor on the west
/// and on the south edge, ceiling on the east and on the north edge, with
/// the south/north roles swapped by the negative pixel height. Each bound
/// is clamped to `[0, shape]`; an inverted bound collapses to an empty
/// window rather than a negative one. A window larger than `max_dim` in
/// either dimension is downsampled uniformly; a smaller one is kept as it
/// is.
///
/// A transform with a zero pixel width or height admits no window: the
/// result is then `ConfigError`, and only then.
pub fn resolve_window(
    bbox: &GeoBbox,
    transform: &AffineTransform,
    shape: &PixelShape,
    max_dim: u32,
) -> (r: Result<PixelWindow, OracleError>)
    requires
        bbox.wf(),
        transform.wf(),
        shape.wf(),
    ensures
        r is Err <==> transform.is_degenerate(),
        r is Err ==> r == Err::<PixelWindow, OracleError>(OracleError::ConfigError),
        r matches Ok(w) ==> w == resolve_window_spec(*bbox, *transform, *shape, max_dim),
        r matches Ok(w) ==> {
            let raw_min_x = floor_div_spec(
                bbox.min_x - transform.x_origin,
                transform.pixel_width as int,
            );
            let raw_max_x = ceil_div_spec(
                bbox.max_x - transform.x_origin,
                transform.pixel_width as int,
            );
            let raw_max_y = floor_div_spec(
                bbox.min_y - transform.y_origin,
                transform.pixel_height as int,
            );
            let raw_min_y = ceil_div_spec(
                bbox.max_y - transform.y_origin,
                transform.pixel_height as int,
            );
            &&& w.min_x == clamp_spec(raw_min_x, shape.width as int)
            &&& w.max_x == vstd::math::max(
                w.min_x as int,
                clamp_spec(raw_max_x, shape.width as int),
            )
            &&& w.min_y == clamp_spec(raw_min_y, shape.height as int)
            &&& w.max_y == vstd::math::max(
                w.min_y as int,
                clamp_spec(raw_max_y, shape.height as int),
            )
            &&& w.window_width == w.max_x - w.min_x
            &&& w.window_height == w.max_y - w.min_y
            &&& w.effective_width == scaled_dim_spec(
                w.window_width as int,
                w.window_height as int,
                max_dim as int,
            )
            &&& w.effective_height == scaled_dim_spec(
                w.window_height as int,
                w.window_width as int,
                max_dim as int,
            )
            &&& 0 <= w.min_x <= w.max_x <= shape.width
            &&& 0 <= w.min_y <= w.max_y <= shape.height
            &&& w.effective_width <= w.window_width
            &&& w.effective_height <= w.window_height
            &&& (w.window_width > max_dim || w.window_height > max_dim) ==> (
                w.effective_width <= max_dim && w.effective_height <= max_dim
            )
        },
{
    if transform.pixel_width == 0 || transform.pixel_height == 0 {
        return Err(OracleError::ConfigError);
    }
    let raw_min_x = floor_div(bbox.min_x - transform.x_origin, transform.pixel_width);
    let raw_max_x = ceil_div(bbox.max_x - transform.x_origin, transform.pixel_width);
    let raw_max_y = floor_div(bbox.min_y - transform.y_origin, transform.pixel_height);
    let raw_min_y = ceil_div(bbox.max_y - transform.y_origin, transform.pixel_height);

    let min_x = clamp_to_shape(raw_min_x, shape.width);
    let max_x_clamped = clamp_to_shape(raw_max_x, shape.width);
    let max_x = if max_x_clamped < min_x { min_x } else { max_x_clamped };
    let min_y = clamp_to_shape(raw_min_y, shape.height);
    let max_y_clamped = clamp_to_shape(raw_max_y, shape.height);
    let max_y = if max_y_clamped < min_y { min_y } else { max_y_clamped };

    let window_width = max_x - min_x;
    let window_height = max_y - min_y;
    let effective_width = scaled_dim(window_width, window_height, max_dim);
    let effective_height = scaled_dim(window_height, window_width, max_dim);

    Ok(PixelWindow {
        min_x,
        min_y,
        max_x,
        max_y,
        window_width,
        window_height,
        effective_width,
        effective_height,
    })
}

/// A downsampled dimension never exceeds the limit nor the dimension.
proof fn lemma_scaled_dim_bounds(dim: int, other: int, max_dim: int)
    requires
        0 <= dim,
        0 <= other,
        0 <= max_dim,
    ensures
        scaled_dim_spec(dim, other, max_dim) <= dim,
        (dim > max_dim || other > max_dim) ==> scaled_dim_spec(dim, other, max_dim) <= max_dim,
{
    let largest = if dim > other { dim } else { other };
    if largest > max_dim {
        lemma_mul_inequality(dim, largest, max_dim);
        lemma_div_is_ordered(dim * max_dim, largest * max_dim, largest);
        lemma_div_multiples_vanish(max_dim, largest);
        lemma_mul_is_commutative(largest, max_dim);
        lemma_mul_inequality(max_dim, largest, dim);
        lemma_mul_is_commutative(max_dim, dim);
        lemma_mul_is_commutative(largest, dim);
        lemma_div_is_ordered(dim * max_dim, dim * largest, largest);
        lemma_div_multiples_vanish(dim, largest);
    }
}

/// For every bounding box, transform and well-formed shape, the resolved
/// window is an ordered rectangle within the raster, and a window larger
/// than `max_dim` in either dimension is downsampled to fit it in both.
pub proof fn lemma_resolved_window_within_shape(
    bbox: GeoBbox,
    transform: AffineTransform,
    shape: PixelShape,
    max_dim: u32,
)
    requires
        shape.wf(),
    ensures
        ({
            let w = resolve_window_spec(bbox, transform, shape, max_dim);
            &&& 0 <= w.min_x <= w.max_x <= shape.width
            &&& 0 <= w.min_y <= w.max_y <= shape.height
            &&& w.window_width == w.max_x - w.min_x
            &&& w.window_height == w.max_y - w.min_y
            &&& w.effective_width <= w.window_width
            &&& w.effective_height <= w.window_height
            &&& (w.window_width > max_dim || w.window_height > max_dim) ==> (
                w.effective_width <= max_dim && w.effective_height <= max_dim
            )
        }),
{
    let raw_min_x = floor_div_spec(bbox.min_x - transform.x_origin, transform.pixel_width as int);
    let raw_max_x = ceil_div_spec(bbox.max_x - transform.x_origin, transform.pixel_width as int);
    let raw_max_y = floor_div_spec(bbox.min_y - transform.y_origin, transform.pixel_height as int);
    let raw_min_y = ceil_div_spec(bbox.max_y - transform.y_origin, transform.pixel_height as int);
    let min_x = clamp_spec(raw_min_x, shape.width as int);
    let max_x = vstd::math::max(min_x, clamp_spec(raw_max_x, shape.width as int));
    let min_y = clamp_spec(raw_min_y, shape.height as int);
    let max_y = vstd::math::max(min_y, clamp_spec(raw_max_y, shape.height as int));
    lemma_scaled_dim_bounds(max_x - min_x, max_y - min_y, max_dim as int);
    lemma_scaled_dim_bounds(max_y - min_y, max_x - min_x, max_dim as int);
}

} // verus!

