//! Configuration and payload framing for the search-index sink backend.
//!
//! The backend itself (transport construction, index management and the bulk
//! write of each batch) performs network I/O and lives outside the library;
//! it consumes this configuration and the index mapping framed here.

use vstd::prelude::*;
use crate::digits::{spec_decimal, u64_to_string};

verus! {

/// Connection settings for the search-index backend.
#[derive(Clone, Debug)]
pub struct ElasticSearchConfig {
    pub url: String,
    pub user: String,
    pub password: String,
    pub index_name: String,
}

/// Index name used when the configuration does not give one.
pub fn default_index_name() -> (r: String)
    ensures
        r@ == "logs"@,
{
    String::from_str("logs")
}

/// The JSON body that creates the index: keyword fields for service and
/// level, a text field for the message, and a dense vector of `dim`
/// coordinates under an HNSW index.
pub open spec fn spec_index_mapping_json(dim: int) -> Seq<char> {
    "{\"mappings\":{\"properties\":{\"timestamp\":{\"type\":\"date\"},\"service\":{\"type\":\"keyword\"},\"level\":{\"type\":\"keyword\"},\"message\":{\"type\":\"text\"},\"dense\":{\"type\":\"dense_vector\",\"dims\":"@
        + spec_decimal(dim) + ",\"index\":true,\"index_options\":{\"type\":\"hnsw\"}}}}}"@
}

/// Frames the index-creation mapping for an embedding dimension of `dim`.
pub fn index_mapping_json(dim: u64) -> (r: String)
    ensures
        r@ == spec_index_mapping_json(dim as int),
{
    let mut out = String::from_str(
        "{\"mappings\":{\"properties\":{\"timestamp\":{\"type\":\"date\"},\"service\":{\"type\":\"keyword\"},\"level\":{\"type\":\"keyword\"},\"message\":{\"type\":\"text\"},\"dense\":{\"type\":\"dense_vector\",\"dims\":",
    );
    let digits = u64_to_string(dim);
    out.append(digits.as_str());
    out.append(",\"index\":true,\"index_options\":{\"type\":\"hnsw\"}}}}}");
    assert(out@ =~= spec_index_mapping_json(dim as int));
    out
}

} // verus!
