//! Query/result assembler: the sequential state machine of one oracle
//! invocation. Each step is a pure decision from the data handed in; the
//! driver around the library performs the network actions the steps ask
//! for and hands their outcomes back. Every failure aborts the run with
//! its error; only a band download may be substituted with the fallback
//! buffer.

use vstd::prelude::*;
use crate::codec::{oracle_result_json, serialize_oracle_result, OracleResult};
use crate::config::OracleConfig;
use crate::errors::{Band, OracleError};
use crate::metadata::{build_metadata_json, ndvi_result_metadata_json, NdviMetadata,
    NdviResultMetadata};
use crate::ndvi::{derive_index, jpeg_of, raster_of, placeholder_stats};
use crate::stac::{asset_shape, asset_transform, first_missing_band, select_first_feature,
    FeatureProperties, StacResponse};
use crate::text::{dec_str, u64_to_string};
use crate::window::{resolve_window, resolve_window_spec, GeoBbox, PixelWindow};

verus! {

/// Whether a character sequence is a well-formed JSON document, as the
/// JSON parser judges it.
pub uninterp spec fn is_json_document(s: Seq<char>) -> bool;

/// Relies on `serde_json::from_str::<serde_json::Value>`: accepts exactly
/// the well-formed JSON documents, a judgement of the text alone.
#[verifier::external_body]
fn json_parses(s: &str) -> (r: bool)
    ensures
        r == is_json_document(s@),
{
    match serde_json::from_str::<serde_json::Value>(s) {
        Ok(_) => true,
        Err(_) => false,
    }
}

/// The sequential phases of one invocation, in order.
#[derive(Debug, Clone, Copy, PartialEq, Eq, Structural)]
pub enum PipelinePhase {
    Created,
    QueryValidated,
    FeatureChosen,
    BandsLoaded,
    ImageStored,
    Finished,
}

/// What the driver must download: the two band URLs, the headers to
/// send, the caps to respect, and the resolved pixel windows.
#[derive(Debug)]
pub struct FetchPlan {
    pub red_url: String,
    pub nir_url: String,
    pub range_header: String,
    pub accept_header: String,
    pub user_agent: String,
    pub byte_cap: usize,
    pub chunk_size: usize,
    pub red_window: PixelWindow,
    pub nir_window: PixelWindow,
}

/// An endpoint override, or its hardcoded fallback when none is set.
pub fn endpoint_or_default(configured: Option<String>, fallback: &str) -> (r: String)
    ensures
        configured matches Some(e) ==> r@ == e@,
        configured is None ==> r@ == fallback@,
{
    match configured {
        Some(e) => e,
        None => String::from_str(fallback),
    }
}

/// A storage upload of raw bytes.
#[derive(Debug)]
pub struct UploadRequest {
    pub content_type: String,
    pub body: Vec<u8>,
}

/// A storage upload of a JSON document.
#[derive(Debug)]
pub struct MetadataUpload {
    pub content_type: String,
    pub json: String,
}

/// The client identifier string the band downloads send.
pub open spec fn client_identifier() -> Seq<char> {
    "Mozilla/5.0 (X11; Linux x86_64) AppleWebKit/537.36 (KHTML, like Gecko) Chrome/132.0.0.0 Safari/537.36"@
}

/// The datetime the metadata records: the feature's, or `unknown`.
pub open spec fn datetime_or_unknown(p: FeatureProperties) -> Seq<char> {
    match p.datetime {
        Some(d) => d@,
        None => "unknown"@,
    }
}

/// A defaulted micro-unit property: the feature's value, or zero.
pub open spec fn micro_or_zero(v: Option<i64>) -> i64 {
    match v {
        Some(x) => x,
        None => 0i64,
    }
}

/// One oracle invocation in flight: its configuration, its phase, and
/// what the finished record will say.
#[derive(Debug)]
pub struct Pipeline {
    pub config: OracleConfig,
    pub phase: PipelinePhase,
    pub query: String,
    pub feature_id: String,
    pub datetime: String,
    pub bbox: GeoBbox,
    pub cloud_cover_micro: i64,
    pub vegetation_percentage_micro: i64,
    pub red_url: String,
    pub nir_url: String,
}

impl Pipeline {
    /// The stored values stay renderable throughout.
    pub open spec fn wf(&self) -> bool {
        &&& self.config.wf()
        &&& self.bbox.wf()
        &&& self.cloud_cover_micro > i64::MIN
        &&& self.vegetation_percentage_micro > i64::MIN
    }

    /// The metadata record the run will upload, from the stored fields.
    pub open spec fn metadata_record(&self) -> NdviMetadata {
        NdviMetadata {
            id: self.feature_id,
            datetime: self.datetime,
            bbox: self.bbox,
            cloud_cover_micro: self.cloud_cover_micro,
            vegetation_percentage_micro: self.vegetation_percentage_micro,
            ndvi_stats: placeholder_stats(),
            source_red_band: self.red_url,
            source_nir_band: self.nir_url,
        }
    }

    /// A fresh invocation for one query.
    pub fn new(query: String, config: OracleConfig) -> (r: Pipeline)
        requires
            config.wf(),
        ensures
            r.wf(),
            r.phase == PipelinePhase::Created,
            r.config == config,
            r.query@ == query@,
    {
        Pipeline {
            config,
            phase: PipelinePhase::Created,
            query,
            feature_id: String::new(),
            datetime: String::new(),
            bbox: GeoBbox { min_x: 0, min_y: 0, max_x: 0, max_y: 0 },
            cloud_cover_micro: 0,
            vegetation_percentage_micro: 0,
            red_url: String::new(),
            nir_url: String::new(),
        }
    }

    /// Validates that the query is a well-formed JSON document before it
    /// is submitted; `InvalidQuery` exactly when it is not.
    pub fn validate_query(&mut self) -> (r: Result<(), OracleError>)
        requires
            old(self).phase == PipelinePhase::Created,
            old(self).wf(),
        ensures
            final(self).wf(),
            r is Ok <==> is_json_document(old(self).query@),
            r is Err ==> r == Err::<(), OracleError>(OracleError::InvalidQuery) && *final(self)
                == *old(self),
            r is Ok ==> final(self).phase == PipelinePhase::QueryValidated && *final(self) == (Pipeline { phase: PipelinePhase::QueryValidated, ..*old(self) }),
    {
        if json_parses(self.query.as_str()) {
            self.phase = PipelinePhase::QueryValidated;
            Ok(())
        } else {
            Err(OracleError::InvalidQuery)
        }
    }

    /// Chooses the feature the run works on and plans the band downloads.
    ///
    /// The first feature is always taken; `NoFeaturesFound` exactly on an
    /// empty response. A missing band asset or URL is `MissingAsset` for
    /// the first missing band, before any download; a degenerate
    /// transform of either band is `ConfigError`. Transform and shape
    /// default silently where absent; the datetime and the percentage
    /// properties default when the run's metadata is recorded.
    pub fn choose_feature(&mut self, response: &StacResponse) -> (r: Result<
        FetchPlan,
        OracleError,
    >)
        requires
            old(self).phase == PipelinePhase::QueryValidated,
            old(self).wf(),
            response.wf(),
        ensures
            final(self).wf(),
            r is Err ==> *final(self) == *old(self),
            response.features@.len() == 0 ==> r == Err::<FetchPlan, OracleError>(
                OracleError::NoFeaturesFound,
            ),
            response.features@.len() > 0 ==> ({
                let f = response.features@[0];
                let max_dim = old(self).config.max_window_dim;
                match first_missing_band(f.assets) {
                    Some(b) => r == Err::<FetchPlan, OracleError>(OracleError::MissingAsset(b)),
                    None => {
                        let red = f.assets.red->Some_0;
                        let nir = f.assets.nir->Some_0;
                        let rt = asset_transform(red);
                        let nt = asset_transform(nir);
                        if rt.is_degenerate() || nt.is_degenerate() {
                            r == Err::<FetchPlan, OracleError>(OracleError::ConfigError)
                        } else {
                            &&& r matches Ok(plan)
                            &&& (r matches Ok(plan) ==> {
                                &&& plan.red_url@ == red.href->Some_0@
                                &&& plan.nir_url@ == nir.href->Some_0@
                                &&& plan.byte_cap == old(self).config.byte_cap
                                &&& plan.chunk_size == old(self).config.chunk_size
                                &&& plan.range_header@ == "bytes=0-"@ + dec_str(
                                    old(self).config.byte_cap as int,
                                )
                                &&& plan.accept_header@ == "*/*"@
                                &&& plan.user_agent@ == client_identifier()
                                &&& plan.red_window == resolve_window_spec(
                                    f.bbox,
                                    rt,
                                    asset_shape(red),
                                    max_dim,
                                )
                                &&& plan.nir_window == resolve_window_spec(
                                    f.bbox,
                                    nt,
                                    asset_shape(nir),
                                    max_dim,
                                )
                                &&& final(self).phase == PipelinePhase::FeatureChosen
                                &&& final(self).config == old(self).config
                                &&& final(self).query@ == old(self).query@
                                &&& final(self).feature_id@ == f.id@
                                &&& final(self).datetime@ == datetime_or_unknown(f.properties)
                                &&& final(self).bbox == f.bbox
                                &&& final(self).cloud_cover_micro == micro_or_zero(
                                    f.properties.cloud_cover_micro,
                                )
                                &&& final(self).vegetation_percentage_micro == micro_or_zero(
                                    f.properties.vegetation_percentage_micro,
                                )
                                &&& final(self).red_url@ == red.href->Some_0@
                                &&& final(self).nir_url@ == nir.href->Some_0@
                            })
                        }
                    },
                }
            }),
    {
        let f = match select_first_feature(response) {
            Ok(f) => f,
            Err(e) => {
                return Err(e);
            },
        };
        proof {
            assert(response.features@[0].wf());
        }
        let red_asset = match &f.assets.red {
            Some(a) => a,
            None => {
                return Err(OracleError::MissingAsset(Band::Red));
            },
        };
        let nir_asset = match &f.assets.nir {
            Some(a) => a,
            None => {
                return Err(OracleError::MissingAsset(Band::Nir));
            },
        };
        let red_href = match &red_asset.href {
            Some(h) => h,
            None => {
                return Err(OracleError::MissingAsset(Band::Red));
            },
        };
        let nir_href = match &nir_asset.href {
            Some(h) => h,
            None => {
                return Err(OracleError::MissingAsset(Band::Nir));
            },
        };
        let rt = red_asset.transform_or_default();
        let rs = red_asset.shape_or_default();
        let nt = nir_asset.transform_or_default();
        let ns = nir_asset.shape_or_default();
        let red_window = match resolve_window(&f.bbox, &rt, &rs, self.config.max_window_dim) {
            Ok(w) => w,
            Err(e) => {
                return Err(e);
            },
        };
        let nir_window = match resolve_window(&f.bbox, &nt, &ns, self.config.max_window_dim) {
            Ok(w) => w,
            Err(e) => {
                return Err(e);
            },
        };
        self.feature_id = f.id.clone();
        self.datetime = match &f.properties.datetime {
            Some(d) => d.clone(),
            None => String::from_str("unknown"),
        };
        self.bbox = f.bbox;
        self.cloud_cover_micro = match f.properties.cloud_cover_micro {
            Some(v) => v,
            None => 0,
        };
        self.vegetation_percentage_micro = match f.properties.vegetation_percentage_micro {
            Some(v) => v,
            None => 0,
        };
        self.red_url = red_href.clone();
        self.nir_url = nir_href.clone();
        self.phase = PipelinePhase::FeatureChosen;
        let mut range_header = String::from_str("bytes=0-");
        range_header.append(u64_to_string(self.config.byte_cap as u64).as_str());
        Ok(
            FetchPlan {
                red_url: red_href.clone(),
                nir_url: nir_href.clone(),
                range_header,
                accept_header: String::from_str("*/*"),
                user_agent: String::from_str(
                    "Mozilla/5.0 (X11; Linux x86_64) AppleWebKit/537.36 (KHTML, like Gecko) Chrome/132.0.0.0 Safari/537.36",
                ),
                byte_cap: self.config.byte_cap,
                chunk_size: self.config.chunk_size,
                red_window,
                nir_window,
            },
        )
    }

    /// Derives the index visualization from the two downloaded band
    /// buffers and asks for its upload, as JPEG bytes under the image
    /// content type. The derivation always succeeds.
    pub fn load_bands(&mut self, red_data: &Vec<u8>, nir_data: &Vec<u8>) -> (r: Result<
        UploadRequest,
        OracleError,
    >)
        requires
            old(self).phase == PipelinePhase::FeatureChosen,
            old(self).wf(),
        ensures
            final(self).wf(),
            r is Ok,
            r matches Ok(u) ==> {
                &&& u.content_type@ == "image/png"@
                &&& u.body@ == jpeg_of(
                    raster_of(old(self).config),
                    old(self).config.image_width,
                    old(self).config.image_height,
                    old(self).config.jpeg_quality,
                )
                &&& *final(self) == (Pipeline { phase: PipelinePhase::BandsLoaded, ..*old(self) })
            },
    {
        match derive_index(red_data, nir_data, &self.config) {
            Ok(res) => {
                self.phase = PipelinePhase::BandsLoaded;
                Ok(UploadRequest { content_type: String::from_str("image/png"), body: res.image })
            },
            Err(e) => Err(e),
        }
    }

    /// Records the URI of the uploaded image and asks for the metadata
    /// upload: the metadata document, with the image URI embedded, as a
    /// JSON document. It cannot fail.
    pub fn store_image(&mut self, image_uri: &str) -> (r: MetadataUpload)
        requires
            old(self).phase == PipelinePhase::BandsLoaded,
            old(self).wf(),
        ensures
            final(self).wf(),
            r.content_type@ == "application/json"@,
            r.json@ == ndvi_result_metadata_json(old(self).metadata_record(), image_uri@),
            *final(self) == (Pipeline { phase: PipelinePhase::ImageStored, ..*old(self) }),
    {
        let record = NdviResultMetadata {
            metadata: NdviMetadata {
                id: self.feature_id.clone(),
                datetime: self.datetime.clone(),
                bbox: self.bbox,
                cloud_cover_micro: self.cloud_cover_micro,
                vegetation_percentage_micro: self.vegetation_percentage_micro,
                ndvi_stats: crate::ndvi::NdviStats {
                    min_micro: 0,
                    max_micro: 1_000_000,
                    mean_micro: 500_000,
                },
                source_red_band: self.red_url.clone(),
                source_nir_band: self.nir_url.clone(),
            },
            ndvi_image_uri: String::from_str(image_uri),
        };
        let json = build_metadata_json(&record);
        proof {
            assert(ndvi_result_metadata_json(record.metadata, record.ndvi_image_uri@)
                == ndvi_result_metadata_json(old(self).metadata_record(), image_uri@));
        }
        self.phase = PipelinePhase::ImageStored;
        MetadataUpload { content_type: String::from_str("application/json"), json }
    }

    /// Records the URI of the uploaded metadata and finishes: the result
    /// record and its serialized payload, ready for the trigger codec.
    /// It cannot fail.
    pub fn finish(&mut self, metadata_uri: String) -> (r: (OracleResult, String))
        requires
            old(self).phase == PipelinePhase::ImageStored,
            old(self).wf(),
        ensures
            final(self).wf(),
            r.0.metadata_uri@ == metadata_uri@,
            r.0.feature_id@ == old(self).feature_id@,
            r.1@ == oracle_result_json(metadata_uri@, old(self).feature_id@),
            *final(self) == (Pipeline { phase: PipelinePhase::Finished, ..*old(self) }),
    {
        let result = OracleResult { metadata_uri, feature_id: self.feature_id.clone() };
        let payload = serialize_oracle_result(&result);
        self.phase = PipelinePhase::Finished;
        (result, payload)
    }
}

} // verus!
