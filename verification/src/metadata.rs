//! Provenance metadata of a derived index, and its JSON rendering.
//!
//! The metadata document embeds the already-obtained image URI; numbers
//! are rendered as fixed-point decimals with six fraction digits.

use vstd::prelude::*;
use crate::codec::quote;
use crate::ndvi::NdviStats;
use crate::text::{append_escaped, escape_str, micro_str, micro_to_string};
use crate::window::GeoBbox;

verus! {

/// Metadata of one index derivation: the feature's identity and geometry,
/// the defaulted properties, the placeholder statistics, and the two
/// source band URLs.
#[derive(Debug, Clone)]
pub struct NdviMetadata {
    pub id: String,
    pub datetime: String,
    pub bbox: GeoBbox,
    pub cloud_cover_micro: i64,
    pub vegetation_percentage_micro: i64,
    pub ndvi_stats: NdviStats,
    pub source_red_band: String,
    pub source_nir_band: String,
}

impl NdviMetadata {
    /// Every number of the document can be rendered.
    pub open spec fn wf(&self) -> bool {
        &&& self.bbox.wf()
        &&& self.cloud_cover_micro > i64::MIN
        &&& self.vegetation_percentage_micro > i64::MIN
        &&& self.ndvi_stats.min_micro > i64::MIN
        &&& self.ndvi_stats.max_micro > i64::MIN
        &&& self.ndvi_stats.mean_micro > i64::MIN
    }
}

/// The final metadata document: the derivation metadata plus the URI of
/// the uploaded index image.
#[derive(Debug, Clone)]
pub struct NdviResultMetadata {
    pub metadata: NdviMetadata,
    pub ndvi_image_uri: String,
}

/// A string as it stands in a JSON document: quoted and escaped.
pub open spec fn json_quoted(s: Seq<char>) -> Seq<char> {
    quote() + escape_str(s) + quote()
}

/// The JSON rendering of the metadata document.
pub open spec fn ndvi_result_metadata_json(m: NdviMetadata, image_uri: Seq<char>) -> Seq<char> {
    "{\"metadata\":{\"id\":"@ + json_quoted(m.id@) + ",\"datetime\":"@ + json_quoted(m.datetime@)
        + ",\"bbox\":["@ + micro_str(m.bbox.min_x as int) + ","@ + micro_str(m.bbox.min_y as int)
        + ","@ + micro_str(m.bbox.max_x as int) + ","@ + micro_str(m.bbox.max_y as int)
        + "],\"cloud_cover\":"@ + micro_str(m.cloud_cover_micro as int)
        + ",\"vegetation_percentage\":"@ + micro_str(m.vegetation_percentage_micro as int)
        + ",\"ndvi_stats\":{\"min\":"@ + micro_str(m.ndvi_stats.min_micro as int) + ",\"max\":"@
        + micro_str(m.ndvi_stats.max_micro as int) + ",\"mean\":"@ + micro_str(
        m.ndvi_stats.mean_micro as int,
    ) + "},\"source_red_band\":"@ + json_quoted(m.source_red_band@) + ",\"source_nir_band\":"@
        + json_quoted(m.source_nir_band@) + "},\"ndvi_image_uri\":"@ + json_quoted(image_uri)
        + "}"@
}

/// Appends a quoted, escaped JSON string.
fn append_quoted(out: &mut String, s: &str)
    ensures
        final(out)@ == old(out)@ + json_quoted(s@),
{
    let q = "\"";
    proof {
        reveal_strlit("\"");
        assert(q@ =~= quote());
    }
    out.append(q);
    append_escaped(out, s);
    out.append(q);
    proof {
        assert(out@ =~= old(out)@ + json_quoted(s@));
    }
}

/// Appends a fixed-point decimal.
fn append_micro(out: &mut String, v: i64)
    requires
        v > i64::MIN,
    ensures
        final(out)@ == old(out)@ + micro_str(v as int),
{
    let s = micro_to_string(v);
    out.append(s.as_str());
}

/// Renders the metadata document, with the image URI it embeds, as JSON.
pub fn build_metadata_json(m: &NdviResultMetadata) -> (r: String)
    requires
        m.metadata.wf(),
    ensures
        r@ == ndvi_result_metadata_json(m.metadata, m.ndvi_image_uri@),
{
    let mut out = String::from_str("{\"metadata\":{\"id\":");
    append_quoted(&mut out, m.metadata.id.as_str());
    out.append(",\"datetime\":");
    append_quoted(&mut out, m.metadata.datetime.as_str());
    out.append(",\"bbox\":[");
    append_micro(&mut out, m.metadata.bbox.min_x);
    out.append(",");
    append_micro(&mut out, m.metadata.bbox.min_y);
    out.append(",");
    append_micro(&mut out, m.metadata.bbox.max_x);
    out.append(",");
    append_micro(&mut out, m.metadata.bbox.max_y);
    out.append("],\"cloud_cover\":");
    append_micro(&mut out, m.metadata.cloud_cover_micro);
    out.append(",\"vegetation_percentage\":");
    append_micro(&mut out, m.metadata.vegetation_percentage_micro);
    out.append(",\"ndvi_stats\":{\"min\":");
    append_micro(&mut out, m.metadata.ndvi_stats.min_micro);
    out.append(",\"max\":");
    append_micro(&mut out, m.metadata.ndvi_stats.max_micro);
    out.append(",\"mean\":");
    append_micro(&mut out, m.metadata.ndvi_stats.mean_micro);
    out.append("},\"source_red_band\":");
    append_quoted(&mut out, m.metadata.source_red_band.as_str());
    out.append(",\"source_nir_band\":");
    append_quoted(&mut out, m.metadata.source_nir_band.as_str());
    out.append("},\"ndvi_image_uri\":");
    append_quoted(&mut out, m.ndvi_image_uri.as_str());
    out.append("}");
    out
}

} // verus!
