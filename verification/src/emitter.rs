//! Event generation: severity sampling, slot-based combinatorial message
//! generation, and the construction of each log event.
//!
//! Randomness comes from the generator the caller owns; every draw goes
//! through one trusted wrapper whose only promise is the range of the draw,
//! and everything built from the draws is verified for every value they can
//! take.

use vstd::prelude::*;
use crate::config::{LogLevelWeights, ServiceConfig};
use crate::embedding::EmbeddingTable;
use crate::log_entry::{LogEntry, LogLevel};

verus! {

/// Declares rand's standard generator so that a caller-owned generator can
/// cross the library's signatures; nothing is assumed about its state.
#[verifier::external_type_specification]
#[verifier::external_body]
pub struct ExStdRng(rand::rngs::StdRng);

/// Relies on rand::Rng::gen_range over the range `0..bound`: the sampled
/// value lies in the half-open range, so it is strictly below `bound`. The
/// call panics only on an empty range, which the precondition rules out.
#[verifier::external_body]
fn rand_below(rng: &mut rand::rngs::StdRng, bound: u64) -> (r: u64)
    requires
        bound >= 1,
    ensures
        r < bound,
{
    rand::Rng::gen_range(rng, 0..bound)
}

/// Relies on uuid::Uuid::new_v4 and its display form: a fresh random UUID,
/// rendered in the 36-character hyphenated form.
#[verifier::external_body]
fn fresh_id() -> (r: String)
    ensures
        r@.len() == 36,
{
    uuid::Uuid::new_v4().to_string()
}

/// Relies on chrono::Utc::now: the current wall-clock time, as milliseconds
/// since the Unix epoch. Nothing is promised of the value: it depends on the
/// clock.
#[verifier::external_body]
fn now_millis() -> i64 {
    chrono::Utc::now().timestamp_millis()
}

/// The first of the cumulative buckets Debug, Info, Warn, Error that `roll`
/// falls under: the bucket bounds are half-open, so a roll exactly at a
/// cumulative boundary belongs to the next bucket, and a weight of zero spans
/// no rolls at all.
pub open spec fn spec_pick_level(w: LogLevelWeights, roll: int) -> LogLevel {
    if roll < w.debug {
        LogLevel::Debug
    } else if roll < w.debug + w.info {
        LogLevel::Info
    } else if roll < w.debug + w.info + w.warn {
        LogLevel::Warn
    } else {
        LogLevel::Error
    }
}

/// Maps one uniform roll below the weight total to a severity, exactly as
/// [`spec_pick_level`] says.
pub fn pick_level(weights: &LogLevelWeights, roll: u64) -> (r: LogLevel)
    requires
        roll < weights.spec_total(),
    ensures
        r == spec_pick_level(*weights, roll as int),
{
    if roll < weights.debug as u64 {
        LogLevel::Debug
    } else if roll < weights.debug as u64 + weights.info as u64 {
        LogLevel::Info
    } else if roll < weights.debug as u64 + weights.info as u64 + weights.warn as u64 {
        LogLevel::Warn
    } else {
        LogLevel::Error
    }
}

/// A level of weight zero is never selected: every roll lands in a bucket
/// whose weight is positive.
pub proof fn lemma_zero_weight_never_selected(w: LogLevelWeights, roll: int)
    requires
        0 <= roll < w.spec_total(),
    ensures
        w.spec_weight_of(spec_pick_level(w, roll)) > 0,
{
}

/// Deterministic severity: when the debug weight carries all the mass, every
/// roll selects Debug.
pub proof fn lemma_deterministic_severity(w: LogLevelWeights, roll: int)
    requires
        0 <= roll < w.spec_total(),
        w.info == 0,
        w.warn == 0,
        w.error == 0,
    ensures
        spec_pick_level(w, roll) is Debug,
{
}

/// Draws a severity from the service's weights. Whatever the generator
/// returns, the selected level is one whose weight is positive.
pub fn draw_level(weights: &LogLevelWeights, rng: &mut rand::rngs::StdRng) -> (r: LogLevel)
    requires
        weights.spec_total() > 0,
    ensures
        weights.spec_weight_of(r) > 0,
{
    let total = weights.total();
    let roll = rand_below(rng, total);
    let level = pick_level(weights, roll);
    proof {
        lemma_zero_weight_never_selected(*weights, roll as int);
    }
    level
}

/// The component slot of the message catalog.
pub open spec fn spec_component_at(i: int) -> Seq<char> {
    if i == 0 {
        "ConnectionPool"@
    } else if i == 1 {
        "QueryExecutor"@
    } else if i == 2 {
        "AuthManager"@
    } else if i == 3 {
        "CacheLayer"@
    } else if i == 4 {
        "LoadBalancer"@
    } else if i == 5 {
        "RateLimiter"@
    } else if i == 6 {
        "SchemaValidator"@
    } else if i == 7 {
        "EventBus"@
    } else if i == 8 {
        "HealthMonitor"@
    } else if i == 9 {
        "SessionStore"@
    } else if i == 10 {
        "CircuitBreaker"@
    } else if i == 11 {
        "JobScheduler"@
    } else if i == 12 {
        "ReplicaManager"@
    } else if i == 13 {
        "PartitionConsumer"@
    } else if i == 14 {
        "TLSHandler"@
    } else if i == 15 {
        "GarbageCollector"@
    } else if i == 16 {
        "DiskMonitor"@
    } else if i == 17 {
        "DeadLetterQueue"@
    } else if i == 18 {
        "IdempotencyFilter"@
    } else {
        "TraceContext"@
    }
}

/// The action slot of the message catalog.
pub open spec fn spec_action_at(i: int) -> Seq<char> {
    if i == 0 {
        "detected threshold breach"@
    } else if i == 1 {
        "completed successfully"@
    } else if i == 2 {
        "failed after retries"@
    } else if i == 3 {
        "initiated graceful recovery"@
    } else if i == 4 {
        "rejected invalid request"@
    } else if i == 5 {
        "triggered rebalance"@
    } else if i == 6 {
        "exceeded soft limit"@
    } else if i == 7 {
        "evicted stale entry"@
    } else if i == 8 {
        "propagated context"@
    } else if i == 9 {
        "acquired resource handle"@
    } else if i == 10 {
        "flushed pending writes"@
    } else if i == 11 {
        "rotated credentials"@
    } else if i == 12 {
        "promoted fallback path"@
    } else if i == 13 {
        "checkpointed at offset"@
    } else if i == 14 {
        "enqueued background task"@
    } else if i == 15 {
        "resolved after backoff"@
    } else if i == 16 {
        "timed out waiting"@
    } else if i == 17 {
        "received reset signal"@
    } else if i == 18 {
        "applied migration"@
    } else {
        "scheduled maintenance"@
    }
}

/// The metric slot of the message catalog.
pub open spec fn spec_metric_at(i: int) -> Seq<char> {
    if i == 0 {
        "latency=2340ms"@
    } else if i == 1 {
        "count=184302"@
    } else if i == 2 {
        "ratio=0.94"@
    } else if i == 3 {
        "depth=500"@
    } else if i == 4 {
        "attempt=3/5"@
    } else if i == 5 {
        "usage=85%"@
    } else if i == 6 {
        "lag=500ms"@
    } else if i == 7 {
        "size=1.2MB"@
    } else if i == 8 {
        "rate=120/s"@
    } else if i == 9 {
        "ttl=3600s"@
    } else if i == 10 {
        "connections=980/1024"@
    } else if i == 11 {
        "duration=30s"@
    } else if i == 12 {
        "retries=3"@
    } else if i == 13 {
        "offset=48291"@
    } else if i == 14 {
        "queue_depth=1247"@
    } else if i == 15 {
        "p99=450ms"@
    } else if i == 16 {
        "batch_size=500"@
    } else if i == 17 {
        "memory=2.4GB"@
    } else if i == 18 {
        "iops=12000"@
    } else {
        "threads=48"@
    }
}

/// The target slot of the message catalog.
pub open spec fn spec_target_at(i: int) -> Seq<char> {
    if i == 0 {
        "on orders table"@
    } else if i == 1 {
        "for payments-api"@
    } else if i == 2 {
        "from upstream host"@
    } else if i == 3 {
        "in consumer group"@
    } else if i == 4 {
        "on /data volume"@
    } else if i == 5 {
        "for tenant af923c"@
    } else if i == 6 {
        "to downstream service"@
    } else if i == 7 {
        "across service boundary"@
    } else if i == 8 {
        "in container cgroup"@
    } else if i == 9 {
        "from replica node-3"@
    } else if i == 10 {
        "on topic order.completed"@
    } else if i == 11 {
        "for client session"@
    } else if i == 12 {
        "in write-ahead log"@
    } else if i == 13 {
        "on port 8443"@
    } else if i == 14 {
        "from discovery endpoint"@
    } else if i == 15 {
        "in ring buffer"@
    } else if i == 16 {
        "for user session"@
    } else if i == 17 {
        "on primary shard"@
    } else if i == 18 {
        "to dead letter queue"@
    } else {
        "from environment config"@
    }
}

/// The context slot of the message catalog.
pub open spec fn spec_context_at(i: int) -> Seq<char> {
    if i == 0 {
        "(retrying)"@
    } else if i == 1 {
        "(non-blocking)"@
    } else if i == 2 {
        "(scheduled)"@
    } else if i == 3 {
        "(cached response)"@
    } else if i == 4 {
        "(dark_launch=true)"@
    } else if i == 5 {
        "(read-only)"@
    } else if i == 6 {
        "(best-effort)"@
    } else if i == 7 {
        "(idempotent)"@
    } else if i == 8 {
        "(correlation_id=missing)"@
    } else if i == 9 {
        "(circuit=open)"@
    } else if i == 10 {
        "(degraded mode)"@
    } else if i == 11 {
        "(cold start)"@
    } else if i == 12 {
        "(warm path)"@
    } else if i == 13 {
        "(fallback)"@
    } else if i == 14 {
        "(async)"@
    } else if i == 15 {
        "(batched)"@
    } else if i == 16 {
        "(compressed)"@
    } else if i == 17 {
        "(encrypted)"@
    } else {
        "(throttled)"@
    }
}

fn component_at(i: usize) -> (r: &'static str)
    requires
        i < 20,
    ensures
        r@ == spec_component_at(i as int),
{
    match i {
        0 => "ConnectionPool",
        1 => "QueryExecutor",
        2 => "AuthManager",
        3 => "CacheLayer",
        4 => "LoadBalancer",
        5 => "RateLimiter",
        6 => "SchemaValidator",
        7 => "EventBus",
        8 => "HealthMonitor",
        9 => "SessionStore",
        10 => "CircuitBreaker",
        11 => "JobScheduler",
        12 => "ReplicaManager",
        13 => "PartitionConsumer",
        14 => "TLSHandler",
        15 => "GarbageCollector",
        16 => "DiskMonitor",
        17 => "DeadLetterQueue",
        18 => "IdempotencyFilter",
        _ => "TraceContext",
    }
}

fn action_at(i: usize) -> (r: &'static str)
    requires
        i < 20,
    ensures
        r@ == spec_action_at(i as int),
{
    match i {
        0 => "detected threshold breach",
        1 => "completed successfully",
        2 => "failed after retries",
        3 => "initiated graceful recovery",
        4 => "rejected invalid request",
        5 => "triggered rebalance",
        6 => "exceeded soft limit",
        7 => "evicted stale entry",
        8 => "propagated context",
        9 => "acquired resource handle",
        10 => "flushed pending writes",
        11 => "rotated credentials",
        12 => "promoted fallback path",
        13 => "checkpointed at offset",
        14 => "enqueued background task",
        15 => "resolved after backoff",
        16 => "timed out waiting",
        17 => "received reset signal",
        18 => "applied migration",
        _ => "scheduled maintenance",
    }
}

fn metric_at(i: usize) -> (r: &'static str)
    requires
        i < 20,
    ensures
        r@ == spec_metric_at(i as int),
{
    match i {
        0 => "latency=2340ms",
        1 => "count=184302",
        2 => "ratio=0.94",
        3 => "depth=500",
        4 => "attempt=3/5",
        5 => "usage=85%",
        6 => "lag=500ms",
        7 => "size=1.2MB",
        8 => "rate=120/s",
        9 => "ttl=3600s",
        10 => "connections=980/1024",
        11 => "duration=30s",
        12 => "retries=3",
        13 => "offset=48291",
        14 => "queue_depth=1247",
        15 => "p99=450ms",
        16 => "batch_size=500",
        17 => "memory=2.4GB",
        18 => "iops=12000",
        _ => "threads=48",
    }
}

fn target_at(i: usize) -> (r: &'static str)
    requires
        i < 20,
    ensures
        r@ == spec_target_at(i as int),
{
    match i {
        0 => "on orders table",
        1 => "for payments-api",
        2 => "from upstream host",
        3 => "in consumer group",
        4 => "on /data volume",
        5 => "for tenant af923c",
        6 => "to downstream service",
        7 => "across service boundary",
        8 => "in container cgroup",
        9 => "from replica node-3",
        10 => "on topic order.completed",
        11 => "for client session",
        12 => "in write-ahead log",
        13 => "on port 8443",
        14 => "from discovery endpoint",
        15 => "in ring buffer",
        16 => "for user session",
        17 => "on primary shard",
        18 => "to dead letter queue",
        _ => "from environment config",
    }
}

fn context_at(i: usize) -> (r: &'static str)
    requires
        i < 20,
    ensures
        r@ == spec_context_at(i as int),
{
    match i {
        0 => "(retrying)",
        1 => "(non-blocking)",
        2 => "(scheduled)",
        3 => "(cached response)",
        4 => "(dark_launch=true)",
        5 => "(read-only)",
        6 => "(best-effort)",
        7 => "(idempotent)",
        8 => "(correlation_id=missing)",
        9 => "(circuit=open)",
        10 => "(degraded mode)",
        11 => "(cold start)",
        12 => "(warm path)",
        13 => "(fallback)",
        14 => "(async)",
        15 => "(batched)",
        16 => "(compressed)",
        17 => "(encrypted)",
        _ => "(throttled)",
    }
}

/// The message text that pattern `pattern` builds from one pick per slot:
/// component and action always lead, and the pattern decides which of the
/// metric, target and context slots follow, and in which framing.
pub open spec fn spec_message(
    pattern: int,
    c: int,
    a: int,
    m: int,
    t: int,
    x: int,
) -> Seq<char> {
    if pattern == 0 {
        spec_component_at(c) + ": "@ + spec_action_at(a) + " "@ + spec_target_at(t) + " "@
            + spec_context_at(x)
    } else if pattern == 1 {
        spec_component_at(c) + ": "@ + spec_action_at(a) + " ["@ + spec_metric_at(m) + "] "@
            + spec_target_at(t)
    } else if pattern == 2 {
        spec_component_at(c) + ": "@ + spec_action_at(a) + " ["@ + spec_metric_at(m) + "]"@
    } else {
        spec_component_at(c) + ": "@ + spec_action_at(a) + " "@ + spec_target_at(t) + " ["@
            + spec_metric_at(m) + "] "@ + spec_context_at(x)
    }
}

/// `msg` is one of the texts the catalog can produce.
pub open spec fn is_catalog_message(msg: Seq<char>) -> bool {
    exists|pattern: int, c: int, a: int, m: int, t: int, x: int|
        0 <= pattern < 4 && 0 <= c < 20 && 0 <= a < 20 && 0 <= m < 20 && 0 <= t < 20 && 0 <= x
            < 20 && msg == #[trigger] spec_message(pattern, c, a, m, t, x)
}

/// Builds the message for one pick per slot, exactly as [`spec_message`]
/// says.
pub fn compose_message(pattern: u64, c: usize, a: usize, m: usize, t: usize, x: usize) -> (r:
    String)
    requires
        pattern < 4,
        c < 20,
        a < 20,
        m < 20,
        t < 20,
        x < 20,
    ensures
        r@ == spec_message(pattern as int, c as int, a as int, m as int, t as int, x as int),
{
    let mut out = String::from_str(component_at(c));
    out.append(": ");
    out.append(action_at(a));
    if pattern == 0 {
        out.append(" ");
        out.append(target_at(t));
        out.append(" ");
        out.append(context_at(x));
    } else if pattern == 1 {
        out.append(" [");
        out.append(metric_at(m));
        out.append("] ");
        out.append(target_at(t));
    } else if pattern == 2 {
        out.append(" [");
        out.append(metric_at(m));
        out.append("]");
    } else {
        out.append(" ");
        out.append(target_at(t));
        out.append(" [");
        out.append(metric_at(m));
        out.append("] ");
        out.append(context_at(x));
    }
    assert(out@ =~= spec_message(
        pattern as int,
        c as int,
        a as int,
        m as int,
        t as int,
        x as int,
    ));
    out
}

/// Draws one message from the combinatorial message space: a pattern and one
/// pick per slot.
pub fn generate_message(rng: &mut rand::rngs::StdRng) -> (r: String)
    ensures
        is_catalog_message(r@),
{
    let pattern = rand_below(rng, 4);
    let c = rand_below(rng, 20) as usize;
    let a = rand_below(rng, 20) as usize;
    let m = rand_below(rng, 20) as usize;
    let t = rand_below(rng, 20) as usize;
    let x = rand_below(rng, 20) as usize;
    let msg = compose_message(pattern, c, a, m, t, x);
    proof {
        assert(msg@ == spec_message(
            pattern as int,
            c as int,
            a as int,
            m as int,
            t as int,
            x as int,
        ));
    }
    msg
}

fn pool_contains(pool: &Vec<String>, m: &String) -> (r: bool)
    ensures
        r == exists|i: int| 0 <= i < pool@.len() && pool@[i]@ == m@,
{
    let mut j: usize = 0;
    while j < pool.len()
        invariant
            j <= pool@.len(),
            forall|t: int| 0 <= t < j ==> pool@[t]@ != m@,
        decreases pool@.len() - j,
    {
        if pool[j].eq(m) {
            return true;
        }
        j += 1;
    }
    false
}

/// Pre-generates a pool of distinct messages for embedding at startup.
///
/// Draws are retried until `size` distinct messages are found or a generous
/// retry budget runs out, so the pool can fall short of `size` only if the
/// draws keep repeating; the message space is far larger than any practical
/// pool.
pub fn build_message_pool(rng: &mut rand::rngs::StdRng, size: usize) -> (r: Vec<String>)
    ensures
        r@.len() <= size,
        size > 0 ==> r@.len() >= 1,
        forall|i: int, j: int| 0 <= i < j < r@.len() ==> r@[i]@ != r@[j]@,
        forall|i: int| 0 <= i < r@.len() ==> is_catalog_message(#[trigger] r@[i]@),
{
    let mut pool: Vec<String> = Vec::new();
    if size == 0 {
        return pool;
    }
    let max_attempts: u64 = if size as u64 > 0xFFFF_FFFF {
        u64::MAX
    } else {
        size as u64 * 20 + 16
    };
    let mut attempts: u64 = 0;
    while pool.len() < size && attempts < max_attempts
        invariant
            pool@.len() <= size,
            attempts >= 1 ==> pool@.len() >= 1,
            forall|i: int, j: int| 0 <= i < j < pool@.len() ==> pool@[i]@ != pool@[j]@,
            forall|i: int| 0 <= i < pool@.len() ==> is_catalog_message(#[trigger] pool@[i]@),
        decreases max_attempts - attempts,
    {
        let m = generate_message(rng);
        if !pool_contains(&pool, &m) {
            let ghost pool0 = pool@;
            pool.push(m);
            proof {
                assert(forall|i: int| 0 <= i < pool0.len() ==> pool@[i] == pool0[i]);
                assert forall|i: int, j: int| 0 <= i < j < pool@.len() implies pool@[i]@
                    != pool@[j]@ by {
                    if j == pool0.len() {
                        assert(pool0[i]@ != pool@[j]@);
                    }
                }
            }
        }
        attempts += 1;
    }
    pool
}

/// Builds one log event for `service`: a severity drawn from the service's
/// weights (never one of weight zero), a message drawn from the pool, the
/// message's embedding from the table (empty when the text is unknown), a
/// fresh id, and the current time.
pub fn generate_log(
    service: &ServiceConfig,
    rng: &mut rand::rngs::StdRng,
    pool: &Vec<String>,
    embeddings: &EmbeddingTable,
) -> (e: LogEntry)
    requires
        pool@.len() > 0,
        service.level_weights.spec_total() > 0,
        embeddings.wf(),
    ensures
        e.service@ == service.name@,
        service.level_weights.spec_weight_of(e.level) > 0,
        exists|i: int| 0 <= i < pool@.len() && e.message@ == #[trigger] pool@[i]@,
        e.embedding@ == embeddings.spec_lookup(e.message@),
        e.id@.len() == 36,
{
    let level = draw_level(&service.level_weights, rng);
    let idx = rand_below(rng, pool.len() as u64) as usize;
    let message = pool[idx].clone();
    let embedding = embeddings.lookup(&message);
    LogEntry {
        id: fresh_id(),
        timestamp_ms: now_millis(),
        service: service.name.clone(),
        level,
        message,
        embedding,
    }
}

/// Whether an event source keeps emitting: it stops once the elapsed wall
/// clock exceeds the configured run duration, and a duration of zero means
/// an unbounded run.
pub fn should_continue(elapsed_ms: u64, run_duration_ms: u64) -> (r: bool)
    ensures
        r == (run_duration_ms == 0 || elapsed_ms < run_duration_ms),
{
    run_duration_ms == 0 || elapsed_ms < run_duration_ms
}

} // verus!
