//! Error kinds of the oracle pipeline.
//!
//! Every failure of a pipeline stage is one of these kinds. All of them
//! abort the run, except a band-fetch failure, which the caller may
//! substitute with the deterministic fallback buffer.

use vstd::prelude::*;
use crate::text::{dec_str, u64_to_string};

verus! {

/// The two raster bands the pipeline reads.
#[derive(Debug, Clone, Copy, PartialEq, Eq, Structural)]
pub enum Band {
    Red,
    Nir,
}

impl Band {
    /// The band's name as it appears in asset maps and error reports.
    pub fn name(&self) -> (r: String)
        ensures
            self is Red ==> r@ == "red"@,
            self is Nir ==> r@ == "nir"@,
    {
        match self {
            Band::Red => String::from_str("red"),
            Band::Nir => String::from_str("nir"),
        }
    }
}

/// Failure kinds of one pipeline invocation.
#[derive(Debug, Clone, PartialEq, Eq, Structural)]
pub enum OracleError {
    /// The inbound trigger payload could not be decoded.
    DecodeError,
    /// The caller-supplied search query is not a valid JSON document.
    InvalidQuery,
    /// The search endpoint failed or answered with the given status.
    SearchApiError(u16),
    /// The search answered with an empty feature list.
    NoFeaturesFound,
    /// The named band asset, or its URL, is absent from the feature.
    MissingAsset(Band),
    /// A degenerate affine transform (zero pixel width or height).
    ConfigError,
    /// A band download answered with the given non-success status.
    FetchError(u16),
    /// The raster could not be compressed.
    EncodingError,
    /// A storage upload failed.
    UploadError,
    /// The final result record could not be encoded.
    SerializationError,
}

impl OracleError {
    /// A human-readable reason, used as the invocation's failure value.
    pub fn message(&self) -> (r: String)
        ensures
            self is DecodeError ==> r@ == "Failed to decode trigger payload"@,
            self is InvalidQuery ==> r@ == "Invalid STAC query JSON"@,
            self matches OracleError::SearchApiError(status) ==> r@
                == "Search API request failed. Status: "@ + dec_str(status as int),
            self is NoFeaturesFound ==> r@ == "No features found for the given query"@,
            self matches OracleError::MissingAsset(b) && b is Red ==> r@
                == "Red band not found in feature assets"@,
            self matches OracleError::MissingAsset(b) && b is Nir ==> r@
                == "NIR band not found in feature assets"@,
            self is ConfigError ==> r@ == "Degenerate affine transform"@,
            self matches OracleError::FetchError(status) ==> r@
                == "Failed to download band. Status: "@ + dec_str(status as int),
            self is EncodingError ==> r@ == "Failed to encode JPEG"@,
            self is UploadError ==> r@ == "Storage upload failed"@,
            self is SerializationError ==> r@ == "Failed to serialize result"@,
    {
        match self {
            OracleError::DecodeError => String::from_str("Failed to decode trigger payload"),
            OracleError::InvalidQuery => String::from_str("Invalid STAC query JSON"),
            OracleError::SearchApiError(status) => {
                let mut m = String::from_str("Search API request failed. Status: ");
                m.append(u64_to_string(*status as u64).as_str());
                m
            },
            OracleError::NoFeaturesFound => String::from_str("No features found for the given query"),
            OracleError::MissingAsset(b) => {
                match b {
                    Band::Red => String::from_str("Red band not found in feature assets"),
                    Band::Nir => String::from_str("NIR band not found in feature assets"),
                }
            },
            OracleError::ConfigError => String::from_str("Degenerate affine transform"),
            OracleError::FetchError(status) => {
                let mut m = String::from_str("Failed to download band. Status: ");
                m.append(u64_to_string(*status as u64).as_str());
                m
            },
            OracleError::EncodingError => String::from_str("Failed to encode JPEG"),
            OracleError::UploadError => String::from_str("Storage upload failed"),
            OracleError::SerializationError => String::from_str("Failed to serialize result"),
        }
    }
}

} // verus!
