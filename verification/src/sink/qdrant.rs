//! Configuration for the vector-store sink backend.
//!
//! The backend itself (client construction, collection management and the
//! upsert of each batch) performs network I/O and lives outside the library;
//! it consumes this configuration and the batch extractors of the parent
//! module.

use vstd::prelude::*;

verus! {

/// Connection settings for the vector-store backend.
#[derive(Clone, Debug)]
pub struct QdrantConfig {
    pub url: String,
    pub api_key: Option<String>,
    pub collection_name: String,
}

/// Collection name used when the configuration does not give one.
pub fn default_collection_name() -> (r: String)
    ensures
        r@ == "logs"@,
{
    String::from_str("logs")
}

} // verus!
