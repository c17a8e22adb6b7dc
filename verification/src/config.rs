//! Pipeline configuration: byte caps, grid resolution, compression quality
//! and the fallback policy, with the standard values of the oracle.

use vstd::prelude::*;

verus! {

/// The knobs of one pipeline run. The two download variants of the oracle
/// (windowed and sample) differ only in these values, so they are one
/// pipeline parameterized here.
#[derive(Debug, Clone, Copy, PartialEq, Eq, Structural)]
pub struct OracleConfig {
    /// Width in pixels of the derived raster.
    pub image_width: u32,
    /// Height in pixels of the derived raster.
    pub image_height: u32,
    /// The raster is subdivided into this many grid cells per axis.
    pub grid_size: u32,
    /// Quality handed to the JPEG encoder.
    pub jpeg_quality: u8,
    /// Hard cap on the bytes accumulated by a windowed band download.
    pub byte_cap: usize,
    /// Size of the deterministic fallback buffer.
    pub fallback_cap: usize,
    /// Size of one read chunk during a band download.
    pub chunk_size: usize,
    /// Largest window dimension before uniform downsampling.
    pub max_window_dim: u32,
    /// Whether a failed band download is substituted with the fallback
    /// buffer instead of aborting the run.
    pub fallback_on_failure: bool,
}

impl OracleConfig {
    /// The configuration is small enough for the raster arithmetic of the
    /// derivation engine.
    pub open spec fn wf(&self) -> bool {
        &&& 1 <= self.image_width <= 4096
        &&& 1 <= self.image_height <= 4096
        &&& 1 <= self.grid_size <= 4096
        &&& 1 <= self.jpeg_quality <= 100
        &&& 1 <= self.chunk_size
    }

    /// The standard configuration of the oracle: a 200 by 200 raster on a
    /// 20 by 20 grid, JPEG quality 60, a 100 kB windowed download cap with
    /// 4 kB chunks, a 50 kB fallback buffer, and a 500 pixel window limit.
    pub fn standard() -> (r: OracleConfig)
        ensures
            r.image_width == 200,
            r.image_height == 200,
            r.grid_size == 20,
            r.jpeg_quality == 60,
            r.byte_cap == 100_000,
            r.fallback_cap == 50_000,
            r.chunk_size == 4096,
            r.max_window_dim == 500,
            r.fallback_on_failure,
            r.wf(),
    {
        OracleConfig {
            image_width: 200,
            image_height: 200,
            grid_size: 20,
            jpeg_quality: 60,
            byte_cap: 100_000,
            fallback_cap: 50_000,
            chunk_size: 4096,
            max_window_dim: 500,
            fallback_on_failure: true,
        }
    }
}

} // verus!
