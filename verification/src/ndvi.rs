//! Index derivation engine: builds the fixed-size vegetation-index raster
//! and its summary statistics from the two band buffers.
//!
//! The derivation is a documented simplification: the raster is a coarse
//! grid whose cell colors come from the grid coordinates alone, on a
//! red-to-green gradient, and the statistics are fixed placeholders. The
//! output is therefore a pure function of the configuration, deliberately
//! independent of the band buffers' contents, and reproducible bit for
//! bit.

use vstd::prelude::*;
use vstd::arithmetic::div_mod::{
    lemma_fundamental_div_mod_converse, lemma_div_is_ordered, lemma_div_multiples_vanish,
    lemma_multiply_divide_lt, lemma_div_pos_is_pos,
};
use vstd::arithmetic::mul::{
    lemma_mul_inequality, lemma_mul_is_commutative, lemma_mul_is_distributive_add_other_way,
    lemma_mul_upper_bound, lemma_mul_nonnegative,
};
use crate::config::OracleConfig;
use crate::errors::OracleError;

verus! {

/// Summary statistics of the derived index. They are fixed placeholder
/// values, not computed from pixel data; callers must not read them as a
/// property of the input buffers.
#[derive(Debug, Clone, Copy, PartialEq, Eq, Structural)]
pub struct NdviStats {
    /// Smallest index value, in millionths.
    pub min_micro: i64,
    /// Largest index value, in millionths.
    pub max_micro: i64,
    /// Mean index value, in millionths.
    pub mean_micro: i64,
}

/// The fixed placeholder statistics: min 0, max 1, mean one half.
pub open spec fn placeholder_stats() -> NdviStats {
    NdviStats { min_micro: 0, max_micro: 1_000_000, mean_micro: 500_000 }
}

/// The derived visualization: a compressed raster image plus the summary
/// statistics.
#[derive(Debug, Clone, PartialEq, Eq)]
pub struct NdviResult {
    /// The JPEG-encoded raster.
    pub image: Vec<u8>,
    /// The fixed placeholder statistics.
    pub stats: NdviStats,
}

/// The red channel of a grid cell: the cell's index value is
/// `(gx + gy) / (2 * grid)` of one, and red fades out linearly with it,
/// truncated to a byte.
pub open spec fn cell_red_spec(grid: int, gx: int, gy: int) -> u8
    recommends
        1 <= grid,
        0 <= gx < grid,
        0 <= gy < grid,
{
    ((255 * (2 * grid - gx - gy)) / (2 * grid)) as u8
}

/// The green channel of a grid cell: green grows linearly with the cell's
/// index value, truncated to a byte.
pub open spec fn cell_green_spec(grid: int, gx: int, gy: int) -> u8
    recommends
        1 <= grid,
        0 <= gx < grid,
        0 <= gy < grid,
{
    ((255 * (gx + gy)) / (2 * grid)) as u8
}

/// The color of the raster pixel at `(x, y)`: the color of its grid cell
/// on the red-to-green gradient, with a blue channel of zero. Pixels past
/// the last full cell, and every pixel when a cell would be smaller than
/// one pixel, stay black.
pub open spec fn pixel_color_spec(cfg: OracleConfig, x: int, y: int) -> (u8, u8, u8)
    recommends
        cfg.wf(),
        0 <= x < cfg.image_width,
        0 <= y < cfg.image_height,
{
    let grid = cfg.grid_size as int;
    let cell_w = cfg.image_width as int / grid;
    let cell_h = cfg.image_height as int / grid;
    if cell_w > 0 && cell_h > 0 && x < grid * cell_w && y < grid * cell_h {
        (
            cell_red_spec(grid, x / cell_w, y / cell_h),
            cell_green_spec(grid, x / cell_w, y / cell_h),
            0u8,
        )
    } else {
        (0u8, 0u8, 0u8)
    }
}

/// Byte `i` of the flattened raster: three bytes per pixel, rows first.
pub open spec fn raster_byte_spec(cfg: OracleConfig, i: int) -> u8
    recommends
        cfg.wf(),
        0 <= i < 3 * cfg.image_width * cfg.image_height,
{
    let w = cfg.image_width as int;
    let pixel = i / 3;
    let channel = i % 3;
    let color = pixel_color_spec(cfg, pixel % w, pixel / w);
    if channel == 0 {
        color.0
    } else if channel == 1 {
        color.1
    } else {
        color.2
    }
}

/// The whole flattened RGB raster of a configuration.
pub open spec fn raster_of(cfg: OracleConfig) -> Seq<u8>
    recommends
        cfg.wf(),
{
    Seq::new((3 * cfg.image_width * cfg.image_height) as nat, |i: int| raster_byte_spec(cfg, i))
}

/// How a flat raster index decomposes into pixel coordinates and channel.
proof fn lemma_flat_index(w: int, x: int, y: int, c: int)
    requires
        0 < w,
        0 <= x < w,
        0 <= y,
        0 <= c < 3,
    ensures
        (3 * (y * w + x) + c) / 3 == y * w + x,
        (3 * (y * w + x) + c) % 3 == c,
        (y * w + x) / w == y,
        (y * w + x) % w == x,
{
    lemma_mul_nonnegative(y, w);
    lemma_fundamental_div_mod_converse(3 * (y * w + x) + c, 3, y * w + x, c);
    lemma_mul_is_commutative(y, w);
    lemma_fundamental_div_mod_converse(y * w + x, w, y, x);
}

/// The red channel of the cell at `(gx, gy)`.
fn cell_red(grid: u64, gx: u64, gy: u64) -> (r: u8)
    requires
        1 <= grid <= 4096,
        gx < grid,
        gy < grid,
    ensures
        r == cell_red_spec(grid as int, gx as int, gy as int),
{
    let numer: u64 = 255 * (2 * grid - gx - gy);
    let q: u64 = numer / (2 * grid);
    proof {
        lemma_mul_inequality((2 * grid - gx - gy) as int, 2 * grid as int, 255);
        lemma_mul_is_commutative((2 * grid - gx - gy) as int, 255);
        lemma_mul_is_commutative(2 * grid as int, 255);
        lemma_div_is_ordered(numer as int, 255 * (2 * grid as int), 2 * grid as int);
        lemma_div_multiples_vanish(255, 2 * grid as int);
    }
    q as u8
}

/// The green channel of the cell at `(gx, gy)`.
fn cell_green(grid: u64, gx: u64, gy: u64) -> (r: u8)
    requires
        1 <= grid <= 4096,
        gx < grid,
        gy < grid,
    ensures
        r == cell_green_spec(grid as int, gx as int, gy as int),
{
    let numer: u64 = 255 * (gx + gy);
    let q: u64 = numer / (2 * grid);
    proof {
        lemma_mul_inequality((gx + gy) as int, 2 * grid as int, 255);
        lemma_mul_is_commutative((gx + gy) as int, 255);
        lemma_mul_is_commutative(2 * grid as int, 255);
        lemma_div_is_ordered(numer as int, 255 * (2 * grid as int), 2 * grid as int);
        lemma_div_multiples_vanish(255, 2 * grid as int);
    }
    q as u8
}

/// Renders the flattened RGB raster of the configuration's grid gradient.
pub fn render_grid_raster(cfg: &OracleConfig) -> (r: Vec<u8>)
    requires
        cfg.wf(),
    ensures
        r@ == raster_of(*cfg),
{
    let w = cfg.image_width as usize;
    let h = cfg.image_height as usize;
    let grid = cfg.grid_size as usize;
    let cell_w = w / grid;
    let cell_h = h / grid;
    proof {
        lemma_mul_upper_bound(grid as int, 4096, cell_w as int, 4096);
        lemma_mul_upper_bound(grid as int, 4096, cell_h as int, 4096);
        lemma_mul_upper_bound(w as int, 4096, h as int, 4096);
    }
    let full_w = grid * cell_w;
    let full_h = grid * cell_h;
    let mut data: Vec<u8> = Vec::new();
    let mut y: usize = 0;
    while y < h
        invariant
            cfg.wf(),
            w == cfg.image_width,
            h == cfg.image_height,
            grid == cfg.grid_size,
            cell_w == w as int / grid as int,
            cell_h == h as int / grid as int,
            full_w == grid * cell_w,
            full_h == grid * cell_h,
            w <= 4096,
            h <= 4096,
            0 <= y <= h,
            data@.len() == 3 * (y * w),
            forall|j: int| 0 <= j < data@.len() ==> data@[j] == raster_byte_spec(*cfg, j),
        decreases h - y,
    {
        let mut x: usize = 0;
        while x < w
            invariant
                cfg.wf(),
                w == cfg.image_width,
                h == cfg.image_height,
                grid == cfg.grid_size,
                cell_w == w as int / grid as int,
                cell_h == h as int / grid as int,
                full_w == grid * cell_w,
                full_h == grid * cell_h,
                w <= 4096,
                h <= 4096,
                0 <= y < h,
                0 <= x <= w,
                data@.len() == 3 * (y * w + x),
                forall|j: int| 0 <= j < data@.len() ==> data@[j] == raster_byte_spec(*cfg, j),
            decreases w - x,
        {
            let color: (u8, u8, u8) = if cell_w > 0 && cell_h > 0 && x < full_w && y < full_h {
                let gx = x / cell_w;
                let gy = y / cell_h;
                proof {
                    lemma_mul_is_commutative(grid as int, cell_w as int);
                    lemma_mul_is_commutative(grid as int, cell_h as int);
                    lemma_multiply_divide_lt(x as int, cell_w as int, grid as int);
                    lemma_multiply_divide_lt(y as int, cell_h as int, grid as int);
                    lemma_div_pos_is_pos(x as int, cell_w as int);
                    lemma_div_pos_is_pos(y as int, cell_h as int);
                }
                (
                    cell_red(grid as u64, gx as u64, gy as u64),
                    cell_green(grid as u64, gx as u64, gy as u64),
                    0u8,
                )
            } else {
                (0u8, 0u8, 0u8)
            };
            proof {
                assert(color == pixel_color_spec(*cfg, x as int, y as int));
                lemma_flat_index(w as int, x as int, y as int, 0);
                lemma_flat_index(w as int, x as int, y as int, 1);
                lemma_flat_index(w as int, x as int, y as int, 2);
                lemma_mul_upper_bound(y as int, 4096, w as int, 4096);
            }
            data.push(color.0);
            data.push(color.1);
            data.push(color.2);
            x = x + 1;
        }
        proof {
            lemma_mul_is_distributive_add_other_way(w as int, y as int, 1);
        }
        y = y + 1;
    }
    proof {
        lemma_mul_is_commutative(w as int, h as int);
        vstd::arithmetic::mul::lemma_mul_is_associative(3, w as int, h as int);
        assert(data@.len() == raster_of(*cfg).len());
        assert(data@ =~= raster_of(*cfg));
    }
    data
}

/// Declares the error type of the image codec so that the encoder wrapper
/// can return it; verified code maps it to the library's `EncodingError`.
#[verifier::external_type_specification]
#[verifier::external_body]
pub struct ExImageError(image::ImageError);

/// The JPEG encoding of a flattened RGB raster of the given dimensions at
/// the given quality. It is a function of these arguments alone.
pub uninterp spec fn jpeg_of(rgb: Seq<u8>, width: u32, height: u32, quality: u8) -> Seq<u8>;

/// Relies on `image::RgbImage::from_raw` (which accepts a buffer of
/// exactly three bytes per pixel) and `image::DynamicImage::write_to`
/// with `image::ImageOutputFormat::Jpeg`: compresses the raster as a
/// JPEG whose bytes depend on the arguments alone. The call succeeds:
/// the JPEG encoder refuses only dimensions over 65535, which the
/// `requires` excludes, and writing to the in-memory buffer cannot
/// fail.
#[verifier::external_body]
fn encode_jpeg_rgb(rgb: &Vec<u8>, width: u32, height: u32, quality: u8) -> (r: Result<
    Vec<u8>,
    image::ImageError,
>)
    requires
        1 <= width <= 4096,
        1 <= height <= 4096,
        rgb@.len() == 3 * width * height,
        1 <= quality <= 100,
    ensures
        r is Ok,
        r matches Ok(v) ==> v@ == jpeg_of(rgb@, width, height, quality),
{
    let img = image::RgbImage::from_raw(width, height, rgb.clone()).unwrap();
    let dynimg = image::DynamicImage::ImageRgb8(img);
    let mut out: Vec<u8> = Vec::new();
    let mut cursor = std::io::Cursor::new(&mut out);
    match dynimg.write_to(&mut cursor, image::ImageOutputFormat::Jpeg(quality)) {
        Ok(()) => Ok(out),
        Err(e) => Err(e),
    }
}

/// Derives the vegetation-index visualization from the two band buffers.
///
/// In its current, deliberately simplified form the output is a pure
/// function of the configuration's grid size, target dimensions and
/// quality alone: the derivation always succeeds, two calls with
/// different band buffers produce byte-identical images, and the
/// statistics are the fixed placeholders. The buffers are still taken,
/// as the interface of a genuine pixel-based derivation.
#[allow(unused_variables)]
pub fn derive_index(red: &Vec<u8>, nir: &Vec<u8>, cfg: &OracleConfig) -> (r: Result<
    NdviResult,
    OracleError,
>)
    requires
        cfg.wf(),
    ensures
        r is Ok,
        r matches Ok(res) ==> {
            &&& res.image@ == jpeg_of(
                raster_of(*cfg),
                cfg.image_width,
                cfg.image_height,
                cfg.jpeg_quality,
            )
            &&& res.stats == placeholder_stats()
        },
{
    let raster = render_grid_raster(cfg);
    match encode_jpeg_rgb(&raster, cfg.image_width, cfg.image_height, cfg.jpeg_quality) {
        Ok(image) => Ok(
            NdviResult {
                image,
                stats: NdviStats { min_micro: 0, max_micro: 1_000_000, mean_micro: 500_000 },
            },
        ),
        Err(_) => Err(OracleError::EncodingError),
    }
}

} // verus!
