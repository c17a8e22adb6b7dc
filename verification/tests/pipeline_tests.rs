use regen_oracle::codec::parse_oracle_result;
use regen_oracle::config::OracleConfig;
use regen_oracle::errors::{Band, OracleError};
use regen_oracle::pipeline::{endpoint_or_default, Pipeline, PipelinePhase};
use regen_oracle::stac::{AssetDescriptor, Feature, FeatureAssets, FeatureProperties, StacResponse};
use regen_oracle::text::{micro_to_string, u64_to_string};
use regen_oracle::window::GeoBbox;

fn empty_response() -> StacResponse {
    StacResponse {
        response_type: String::from("FeatureCollection"),
        stac_version: String::from("1.0.0"),
        stac_extensions: Vec::new(),
        context: None,
        number_matched: Some(0),
        number_returned: Some(0),
        features: Vec::new(),
        links: Vec::new(),
    }
}

fn asset(href: &str) -> AssetDescriptor {
    AssetDescriptor { href: Some(String::from(href)), transform: None, shape: None }
}

fn one_feature(assets: FeatureAssets) -> StacResponse {
    let feature = Feature {
        feature_type: String::from("Feature"),
        stac_version: String::from("1.0.0"),
        id: String::from("S2A_MSIL2A_TEST"),
        properties: FeatureProperties {
            datetime: Some(String::from("2024-05-01T10:00:00Z")),
            cloud_cover_micro: Some(12_500_000),
            vegetation_percentage_micro: None,
        },
        geometry: String::from("{\"type\":\"Polygon\",\"coordinates\":[]}"),
        links: Vec::new(),
        assets,
        bbox: GeoBbox {
            min_x: 499_980_000_000,
            min_y: 4_190_000_000_000,
            max_x: 500_080_000_000,
            max_y: 4_190_100_000_000,
        },
        stac_extensions: Vec::new(),
        collection: String::from("sentinel-2-l2a"),
    };
    let mut r = empty_response();
    r.features.push(feature);
    r
}

fn validated_pipeline() -> Pipeline {
    let mut p = Pipeline::new(String::from("{\"collections\":[\"sentinel-2-l2a\"]}"),
        OracleConfig::standard());
    p.validate_query().unwrap();
    p
}

#[test]
fn invalid_query_is_rejected() {
    let mut p = Pipeline::new(String::from("not json at all {"), OracleConfig::standard());
    assert_eq!(p.validate_query(), Err(OracleError::InvalidQuery));
    assert_eq!(p.phase, PipelinePhase::Created);
}

#[test]
fn valid_query_advances_the_phase() {
    let mut p = validated_pipeline();
    assert_eq!(p.phase, PipelinePhase::QueryValidated);
}

// A query returning zero features fails with NoFeaturesFound, and the
// run never reaches a storage upload: the phase stays before any upload
// step.
#[test]
fn zero_features_yield_no_features_found() {
    let mut p = validated_pipeline();
    let r = p.choose_feature(&empty_response());
    assert_eq!(r.unwrap_err(), OracleError::NoFeaturesFound);
    assert_eq!(p.phase, PipelinePhase::QueryValidated);
}

// A feature without the "nir" asset fails with MissingAsset before any
// band fetch: no fetch plan is produced.
#[test]
fn missing_nir_asset_is_fatal() {
    let mut p = validated_pipeline();
    let response = one_feature(FeatureAssets { red: Some(asset("https://bands/red.tif")), nir: None });
    let r = p.choose_feature(&response);
    assert_eq!(r.unwrap_err(), OracleError::MissingAsset(Band::Nir));
    assert_eq!(p.phase, PipelinePhase::QueryValidated);
}

#[test]
fn missing_red_asset_is_fatal() {
    let mut p = validated_pipeline();
    let response = one_feature(FeatureAssets { red: None, nir: Some(asset("https://bands/nir.tif")) });
    let r = p.choose_feature(&response);
    assert_eq!(r.unwrap_err(), OracleError::MissingAsset(Band::Red));
}

#[test]
fn missing_nir_href_is_fatal() {
    let mut p = validated_pipeline();
    let nir = AssetDescriptor { href: None, transform: None, shape: None };
    let response = one_feature(FeatureAssets { red: Some(asset("https://bands/red.tif")), nir: Some(nir) });
    let r = p.choose_feature(&response);
    assert_eq!(r.unwrap_err(), OracleError::MissingAsset(Band::Nir));
}

#[test]
fn fetch_plan_uses_defaults_and_caps() {
    let mut p = validated_pipeline();
    let response = one_feature(FeatureAssets {
        red: Some(asset("https://bands/red.tif")),
        nir: Some(asset("https://bands/nir.tif")),
    });
    let plan = p.choose_feature(&response).unwrap();
    assert_eq!(p.phase, PipelinePhase::FeatureChosen);
    assert_eq!(plan.red_url, "https://bands/red.tif");
    assert_eq!(plan.nir_url, "https://bands/nir.tif");
    assert_eq!(plan.byte_cap, 100_000);
    assert_eq!(plan.chunk_size, 4096);
    assert_eq!(plan.range_header, "bytes=0-100000");
    assert_eq!(plan.accept_header, "*/*");
    assert!(plan.user_agent.starts_with("Mozilla/5.0"));
    // The canonical window under the default Sentinel-2-like transform.
    assert_eq!(plan.red_window.min_x, 0);
    assert_eq!(plan.red_window.max_x, 10);
    assert_eq!(plan.red_window.window_width, 10);
    assert_eq!(plan.red_window.window_height, 10);
    assert_eq!(plan.nir_window, plan.red_window);
}

#[test]
fn full_run_produces_the_result_record() {
    let mut p = validated_pipeline();
    let response = one_feature(FeatureAssets {
        red: Some(asset("https://bands/red.tif")),
        nir: Some(asset("https://bands/nir.tif")),
    });
    p.choose_feature(&response).unwrap();
    let upload = p.load_bands(&vec![1u8; 64], &vec![2u8; 64]).unwrap();
    assert_eq!(upload.content_type, "image/png");
    assert!(!upload.body.is_empty());
    assert_eq!(p.phase, PipelinePhase::BandsLoaded);

    let meta = p.store_image("ipfs://QmImage");
    assert_eq!(meta.content_type, "application/json");
    assert_eq!(p.phase, PipelinePhase::ImageStored);
    let doc: serde_json::Value = serde_json::from_str(meta.json.as_str()).unwrap();
    assert_eq!(doc["metadata"]["id"], "S2A_MSIL2A_TEST");
    assert_eq!(doc["metadata"]["datetime"], "2024-05-01T10:00:00Z");
    assert_eq!(doc["metadata"]["cloud_cover"], 12.5);
    assert_eq!(doc["metadata"]["vegetation_percentage"], 0.0);
    assert_eq!(doc["metadata"]["ndvi_stats"]["min"], 0.0);
    assert_eq!(doc["metadata"]["ndvi_stats"]["max"], 1.0);
    assert_eq!(doc["metadata"]["ndvi_stats"]["mean"], 0.5);
    assert_eq!(doc["metadata"]["source_red_band"], "https://bands/red.tif");
    assert_eq!(doc["metadata"]["source_nir_band"], "https://bands/nir.tif");
    assert_eq!(doc["metadata"]["bbox"][0], 499980.0);
    assert_eq!(doc["metadata"]["bbox"][3], 4190100.0);
    assert_eq!(doc["ndvi_image_uri"], "ipfs://QmImage");

    let (result, payload) = p.finish(String::from("ipfs://QmMeta"));
    assert_eq!(p.phase, PipelinePhase::Finished);
    assert_eq!(result.metadata_uri, "ipfs://QmMeta");
    assert_eq!(result.feature_id, "S2A_MSIL2A_TEST");
    let back = parse_oracle_result(payload.as_str()).unwrap();
    assert_eq!(back.metadata_uri, "ipfs://QmMeta");
    assert_eq!(back.feature_id, "S2A_MSIL2A_TEST");
}

#[test]
fn absent_datetime_defaults_to_unknown() {
    let mut p = validated_pipeline();
    let mut response = one_feature(FeatureAssets {
        red: Some(asset("https://bands/red.tif")),
        nir: Some(asset("https://bands/nir.tif")),
    });
    response.features[0].properties.datetime = None;
    p.choose_feature(&response).unwrap();
    p.load_bands(&Vec::new(), &Vec::new()).unwrap();
    let meta = p.store_image("ipfs://QmImage");
    let doc: serde_json::Value = serde_json::from_str(meta.json.as_str()).unwrap();
    assert_eq!(doc["metadata"]["datetime"], "unknown");
}

#[test]
fn decimal_renderings_are_exact() {
    assert_eq!(u64_to_string(0), "0");
    assert_eq!(u64_to_string(100000), "100000");
    assert_eq!(u64_to_string(18_446_744_073_709_551_615), "18446744073709551615");
    assert_eq!(micro_to_string(0), "0.000000");
    assert_eq!(micro_to_string(500_000), "0.500000");
    assert_eq!(micro_to_string(-10_000_000), "-10.000000");
    assert_eq!(micro_to_string(1_234_567), "1.234567");
    assert_eq!(micro_to_string(4_200_000_000_000), "4200000.000000");
}

#[test]
fn endpoint_overrides_take_precedence() {
    assert_eq!(
        endpoint_or_default(Some(String::from("https://example/search")), "https://fallback"),
        "https://example/search"
    );
    assert_eq!(endpoint_or_default(None, "https://fallback"), "https://fallback");
}

#[test]
fn error_reports_name_the_reason() {
    assert_eq!(
        OracleError::NoFeaturesFound.message(),
        "No features found for the given query"
    );
    assert_eq!(
        OracleError::FetchError(404).message(),
        "Failed to download band. Status: 404"
    );
    assert_eq!(
        OracleError::SearchApiError(503).message(),
        "Search API request failed. Status: 503"
    );
    assert_eq!(Band::Red.name(), "red");
    assert_eq!(Band::Nir.name(), "nir");
}
