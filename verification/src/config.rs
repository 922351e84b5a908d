//! The configuration surface the pipeline consumes: per-service emission
//! settings, buffer sizing, and the set of sinks to construct.

use vstd::prelude::*;
use crate::sink::dashboard::DashboardConfig;
use crate::sink::elasticsearch::ElasticSearchConfig;
use crate::sink::pgvector::PgvectorConfig;
use crate::sink::qdrant::QdrantConfig;

verus! {

/// Pool size used when the configuration does not give one.
pub fn default_message_pool_size() -> (r: usize)
    ensures
        r == 10000,
{
    10000
}

/// Embedding model used when the configuration does not give one.
pub fn default_embedding_model() -> (r: String)
    ensures
        r@ == "text-embedding-3-small"@,
{
    String::from_str("text-embedding-3-small")
}

/// Embedding dimension count used when the configuration does not give one.
pub fn default_embedding_dimensions() -> (r: u32)
    ensures
        r == 1536,
{
    1536
}

/// Relative likelihood of each severity for one service. The weights are
/// plain relative weights: they need not sum to any particular total, only
/// their ratios matter, and at least one must be positive for sampling.
#[derive(Clone, Copy, Debug, PartialEq, Eq, Structural)]
pub struct LogLevelWeights {
    pub debug: u32,
    pub info: u32,
    pub warn: u32,
    pub error: u32,
}

impl LogLevelWeights {
    /// The sum of the four weights.
    pub open spec fn spec_total(&self) -> int {
        self.debug + self.info + self.warn + self.error
    }

    /// The weight assigned to `level`.
    pub open spec fn spec_weight_of(&self, level: crate::log_entry::LogLevel) -> int {
        match level {
            crate::log_entry::LogLevel::Debug => self.debug as int,
            crate::log_entry::LogLevel::Info => self.info as int,
            crate::log_entry::LogLevel::Warn => self.warn as int,
            crate::log_entry::LogLevel::Error => self.error as int,
        }
    }

    /// The sum of the four weights.
    pub fn total(&self) -> (r: u64)
        ensures
            r == self.spec_total(),
    {
        self.debug as u64 + self.info as u64 + self.warn as u64 + self.error as u64
    }
}

/// One simulated service: its name, its target emission rate, and its
/// severity weights. Immutable once built and shared by every producer.
#[derive(Clone, Debug)]
pub struct ServiceConfig {
    pub name: String,
    /// Target emission rate, in thousandths of an event per second
    /// (100_000 means one hundred events per second).
    pub rate_milli_per_sec: u64,
    pub level_weights: LogLevelWeights,
}

/// Settings of the embedding provider consulted before the pipeline starts.
#[derive(Clone, Debug)]
pub struct EmbeddingConfig {
    pub api_key: String,
    pub model: String,
    pub dimensions: u32,
}

/// Which sink backend to construct, with its settings.
#[derive(Clone, Debug)]
pub enum SinkConfig {
    Stdout,
    Qdrant(QdrantConfig),
    ElasticSearch(ElasticSearchConfig),
    Pgvector(PgvectorConfig),
    Dashboard(DashboardConfig),
}

/// The whole configuration surface the pipeline consumes.
#[derive(Clone, Debug)]
pub struct EmitterConfig {
    pub buffer_size: usize,
    pub flush_interval_ms: u64,
    pub run_duration_secs: u64,
    pub message_pool_size: usize,
    pub services: Vec<ServiceConfig>,
    pub sinks: Vec<SinkConfig>,
    pub embedding: EmbeddingConfig,
}

impl Default for EmitterConfig {
    /// The demo configuration used when no configuration file is found: four
    /// services at staggered rates writing to the console sink. The api key
    /// is left empty here; the program fills it from its environment.
    fn default() -> (r: Self)
        ensures
            r.buffer_size == 1000,
            r.flush_interval_ms == 5000,
            r.run_duration_secs == 30,
            r.message_pool_size == 10000,
            r.sinks@.len() == 1 && r.sinks@[0] is Stdout,
            r.embedding.api_key@ == Seq::<char>::empty(),
            r.embedding.model@ == "text-embedding-3-small"@,
            r.embedding.dimensions == 1536,
            r.services@.len() == 4,
            r.services@[0].name@ == "api-gateway"@,
            r.services@[0].rate_milli_per_sec == 100000,
            r.services@[0].level_weights == (LogLevelWeights {
                debug: 10,
                info: 70,
                warn: 15,
                error: 5,
            }),
            r.services@[1].name@ == "auth-service"@,
            r.services@[1].rate_milli_per_sec == 50000,
            r.services@[1].level_weights == (LogLevelWeights {
                debug: 5,
                info: 60,
                warn: 20,
                error: 15,
            }),
            r.services@[2].name@ == "payment-service"@,
            r.services@[2].rate_milli_per_sec == 30000,
            r.services@[2].level_weights == (LogLevelWeights {
                debug: 5,
                info: 50,
                warn: 25,
                error: 20,
            }),
            r.services@[3].name@ == "user-service"@,
            r.services@[3].rate_milli_per_sec == 40000,
            r.services@[3].level_weights == (LogLevelWeights {
                debug: 10,
                info: 65,
                warn: 15,
                error: 10,
            }),
    {
        let mut services: Vec<ServiceConfig> = Vec::new();
        services.push(ServiceConfig {
            name: String::from_str("api-gateway"),
            rate_milli_per_sec: 100000,
            level_weights: LogLevelWeights { debug: 10, info: 70, warn: 15, error: 5 },
        });
        services.push(ServiceConfig {
            name: String::from_str("auth-service"),
            rate_milli_per_sec: 50000,
            level_weights: LogLevelWeights { debug: 5, info: 60, warn: 20, error: 15 },
        });
        services.push(ServiceConfig {
            name: String::from_str("payment-service"),
            rate_milli_per_sec: 30000,
            level_weights: LogLevelWeights { debug: 5, info: 50, warn: 25, error: 20 },
        });
        services.push(ServiceConfig {
            name: String::from_str("user-service"),
            rate_milli_per_sec: 40000,
            level_weights: LogLevelWeights { debug: 10, info: 65, warn: 15, error: 10 },
        });
        let mut sinks: Vec<SinkConfig> = Vec::new();
        sinks.push(SinkConfig::Stdout);
        EmitterConfig {
            buffer_size: 1000,
            flush_interval_ms: 5000,
            run_duration_secs: 30,
            message_pool_size: default_message_pool_size(),
            services,
            sinks,
            embedding: EmbeddingConfig {
                api_key: String::new(),
                model: default_embedding_model(),
                dimensions: default_embedding_dimensions(),
            },
        }
    }
}

} // verus!
