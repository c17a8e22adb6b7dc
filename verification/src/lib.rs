//! A verified geospatial oracle pipeline: resolves pixel windows from
//! geographic bounding boxes, fetches byte-capped band data, derives a
//! deterministic vegetation-index raster, and assembles the final result
//! record together with its provenance metadata.

pub mod codec;
pub mod config;
pub mod errors;
pub mod fetch;
pub mod metadata;
pub mod ndvi;
pub mod pipeline;
pub mod stac;
pub mod text;
pub mod window;
