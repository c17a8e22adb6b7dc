//! The typed model of a STAC search response, with plain-valued fields:
//! coordinates and percentages are fixed-point micro-units, asset lookups
//! are resolved per band, and absent metadata defaults silently while an
//! absent band URL is a hard error.

use vstd::prelude::*;
use crate::errors::{Band, OracleError};
use crate::window::{AffineTransform, GeoBbox, PixelShape};

verus! {

/// A hypermedia link of a response or feature.
#[derive(Debug, Clone)]
pub struct Link {
    pub rel: String,
    pub link_type: Option<String>,
    pub href: String,
    pub title: Option<String>,
    pub method: Option<String>,
    pub merge: Option<bool>,
    /// An opaque request body, kept as raw JSON text.
    pub body: Option<String>,
}

/// Pagination context of a search response.
#[derive(Debug, Clone, Copy, PartialEq, Eq, Structural)]
pub struct Context {
    pub limit: Option<i64>,
    pub matched: Option<i64>,
    pub returned: Option<i64>,
}

/// One band asset of a feature: its URL and, when given, its affine
/// transform and pixel shape.
#[derive(Debug, Clone)]
pub struct AssetDescriptor {
    pub href: Option<String>,
    pub transform: Option<AffineTransform>,
    pub shape: Option<PixelShape>,
}

impl AssetDescriptor {
    /// Whatever geometry the asset carries is within the admitted
    /// magnitudes.
    pub open spec fn wf(&self) -> bool {
        &&& (self.transform matches Some(t) ==> t.wf())
        &&& (self.shape matches Some(s) ==> s.wf())
    }
}

/// The properties the pipeline reads from a feature, each optional.
#[derive(Debug, Clone)]
pub struct FeatureProperties {
    pub datetime: Option<String>,
    pub cloud_cover_micro: Option<i64>,
    pub vegetation_percentage_micro: Option<i64>,
}

impl FeatureProperties {
    /// The percentages, where present, can be rendered.
    pub open spec fn wf(&self) -> bool {
        &&& (self.cloud_cover_micro matches Some(v) ==> v > i64::MIN)
        &&& (self.vegetation_percentage_micro matches Some(v) ==> v > i64::MIN)
    }
}

/// The two band assets the pipeline reads, resolved by their fixed keys.
#[derive(Debug, Clone)]
pub struct FeatureAssets {
    pub red: Option<AssetDescriptor>,
    pub nir: Option<AssetDescriptor>,
}

impl FeatureAssets {
    pub open spec fn wf(&self) -> bool {
        &&& (self.red matches Some(a) ==> a.wf())
        &&& (self.nir matches Some(a) ==> a.wf())
    }
}

/// One feature of a search response.
#[derive(Debug, Clone)]
pub struct Feature {
    pub feature_type: String,
    pub stac_version: String,
    pub id: String,
    pub properties: FeatureProperties,
    /// The feature's geometry, opaque to the pipeline, kept as raw JSON
    /// text.
    pub geometry: String,
    pub links: Vec<Link>,
    pub assets: FeatureAssets,
    pub bbox: GeoBbox,
    pub stac_extensions: Vec<String>,
    pub collection: String,
}

impl Feature {
    pub open spec fn wf(&self) -> bool {
        &&& self.bbox.wf()
        &&& self.properties.wf()
        &&& self.assets.wf()
    }
}

/// A typed STAC search response: an ordered feature collection plus
/// pagination context.
#[derive(Debug, Clone)]
pub struct StacResponse {
    pub response_type: String,
    pub stac_version: String,
    pub stac_extensions: Vec<String>,
    pub context: Option<Context>,
    pub number_matched: Option<i64>,
    pub number_returned: Option<i64>,
    pub features: Vec<Feature>,
    pub links: Vec<Link>,
}

impl StacResponse {
    pub open spec fn wf(&self) -> bool {
        forall|i: int| 0 <= i < self.features@.len() ==> (#[trigger] self.features@[i]).wf()
    }
}

/// The transform assumed when an asset names none: a Sentinel-2-like
/// north-up grid of ten-unit pixels, in micro-units.
pub open spec fn default_transform_spec() -> AffineTransform {
    AffineTransform {
        pixel_width: 10_000_000i64,
        row_rotation: 0i64,
        x_origin: 499_980_000_000i64,
        col_rotation: 0i64,
        pixel_height: -10_000_000i64,
        y_origin: 4_200_000_000_000i64,
    }
}

/// The pixel shape assumed when an asset names none.
pub open spec fn default_shape_spec() -> PixelShape {
    PixelShape { height: 10980, width: 10980 }
}

/// The transform the resolver uses for an asset: its own, or the default.
pub open spec fn asset_transform(a: AssetDescriptor) -> AffineTransform {
    match a.transform {
        Some(t) => t,
        None => default_transform_spec(),
    }
}

/// The shape the resolver uses for an asset: its own, or the default.
pub open spec fn asset_shape(a: AssetDescriptor) -> PixelShape {
    match a.shape {
        Some(s) => s,
        None => default_shape_spec(),
    }
}

/// The first band that makes the feature unusable, in the order the
/// assembler checks: the red asset, the NIR asset, then the red URL, then
/// the NIR URL. `None` when both bands resolve.
pub open spec fn first_missing_band(assets: FeatureAssets) -> Option<Band> {
    if assets.red is None {
        Some(Band::Red)
    } else if assets.nir is None {
        Some(Band::Nir)
    } else if assets.red->Some_0.href is None {
        Some(Band::Red)
    } else if assets.nir->Some_0.href is None {
        Some(Band::Nir)
    } else {
        None
    }
}

/// The default transform, as a value.
pub fn default_transform() -> (r: AffineTransform)
    ensures
        r == default_transform_spec(),
        r.wf(),
{
    AffineTransform {
        pixel_width: 10_000_000,
        row_rotation: 0,
        x_origin: 499_980_000_000,
        col_rotation: 0,
        pixel_height: -10_000_000,
        y_origin: 4_200_000_000_000,
    }
}

/// The default shape, as a value.
pub fn default_shape() -> (r: PixelShape)
    ensures
        r == default_shape_spec(),
        r.wf(),
{
    PixelShape { height: 10980, width: 10980 }
}

impl AssetDescriptor {
    /// The asset's transform, defaulting silently when absent.
    pub fn transform_or_default(&self) -> (r: AffineTransform)
        ensures
            r == asset_transform(*self),
    {
        match &self.transform {
            Some(t) => *t,
            None => default_transform(),
        }
    }

    /// The asset's shape, defaulting silently when absent.
    pub fn shape_or_default(&self) -> (r: PixelShape)
        ensures
            r == asset_shape(*self),
    {
        match &self.shape {
            Some(s) => *s,
            None => default_shape(),
        }
    }
}

/// Selects the feature the pipeline works on: always the first of the
/// response, and `NoFeaturesFound` exactly when there is none.
pub fn select_first_feature(response: &StacResponse) -> (r: Result<&Feature, OracleError>)
    ensures
        r is Err <==> response.features@.len() == 0,
        r is Err ==> r == Err::<&Feature, OracleError>(OracleError::NoFeaturesFound),
        r matches Ok(f) ==> *f == response.features@[0],
{
    if response.features.len() == 0 {
        Err(OracleError::NoFeaturesFound)
    } else {
        Ok(&response.features[0])
    }
}

} // verus!
