use rand::rngs::StdRng;
use rand::SeedableRng;

use emitter::config::{LogLevelWeights, ServiceConfig};
use emitter::embedding::EmbeddingTable;
use emitter::emitter::{
    build_message_pool, compose_message, draw_level, generate_log, generate_message, pick_level,
    should_continue,
};
use emitter::log_entry::LogLevel;

fn weights(debug: u32, info: u32, warn: u32, error: u32) -> LogLevelWeights {
    LogLevelWeights { debug, info, warn, error }
}

#[test]
fn pick_level_walks_cumulative_buckets() {
    let w = weights(2, 3, 1, 4);
    assert_eq!(pick_level(&w, 0), LogLevel::Debug);
    assert_eq!(pick_level(&w, 1), LogLevel::Debug);
    assert_eq!(pick_level(&w, 2), LogLevel::Info);
    assert_eq!(pick_level(&w, 4), LogLevel::Info);
    assert_eq!(pick_level(&w, 5), LogLevel::Warn);
    assert_eq!(pick_level(&w, 6), LogLevel::Error);
    assert_eq!(pick_level(&w, 9), LogLevel::Error);
}

#[test]
fn pick_level_boundary_roll_belongs_to_the_next_bucket() {
    // half-open buckets: a roll exactly at a cumulative boundary selects the
    // next level, and a weight of zero spans no rolls at all.
    let w = weights(1, 0, 1, 1);
    assert_eq!(pick_level(&w, 0), LogLevel::Debug);
    assert_eq!(pick_level(&w, 1), LogLevel::Warn);
    assert_eq!(pick_level(&w, 2), LogLevel::Error);
}

#[test]
fn all_weight_on_debug_always_selects_debug() {
    let w = weights(1, 0, 0, 0);
    assert_eq!(pick_level(&w, 0), LogLevel::Debug);
    let mut rng = StdRng::seed_from_u64(11);
    for _ in 0..200 {
        assert_eq!(draw_level(&w, &mut rng), LogLevel::Debug);
    }
}

#[test]
fn zero_weights_are_never_drawn() {
    let mut rng = StdRng::seed_from_u64(12);
    let w = weights(0, 7, 0, 0);
    for _ in 0..200 {
        assert_eq!(draw_level(&w, &mut rng), LogLevel::Info);
    }
    let w2 = weights(0, 3, 0, 5);
    for _ in 0..200 {
        let level = draw_level(&w2, &mut rng);
        assert!(level == LogLevel::Info || level == LogLevel::Error);
    }
}

#[test]
fn compose_message_builds_each_pattern_exactly() {
    assert_eq!(
        compose_message(0, 0, 0, 0, 0, 0),
        "ConnectionPool: detected threshold breach on orders table (retrying)"
    );
    assert_eq!(
        compose_message(1, 1, 2, 3, 4, 5),
        "QueryExecutor: failed after retries [depth=500] on /data volume"
    );
    assert_eq!(
        compose_message(2, 19, 19, 19, 19, 19),
        "TraceContext: scheduled maintenance [threads=48]"
    );
    assert_eq!(
        compose_message(3, 10, 16, 15, 13, 9),
        "CircuitBreaker: timed out waiting on port 8443 [p99=450ms] (circuit=open)"
    );
}

#[test]
fn generated_messages_come_from_the_catalog() {
    let mut rng = StdRng::seed_from_u64(3);
    for _ in 0..50 {
        let m = generate_message(&mut rng);
        let component = m.split(':').next().unwrap();
        assert!(!component.is_empty());
        assert!(m.contains(": "));
    }
}

#[test]
fn message_pool_is_distinct_and_fills_to_size() {
    let mut rng = StdRng::seed_from_u64(4);
    let pool = build_message_pool(&mut rng, 50);
    assert_eq!(pool.len(), 50);
    for i in 0..pool.len() {
        for j in 0..i {
            assert_ne!(pool[i], pool[j]);
        }
    }
}

#[test]
fn message_pool_of_size_zero_is_empty() {
    let mut rng = StdRng::seed_from_u64(5);
    let pool = build_message_pool(&mut rng, 0);
    assert!(pool.is_empty());
}

#[test]
fn generated_log_carries_service_pool_message_and_embedding() {
    let mut rng = StdRng::seed_from_u64(6);
    let pool = build_message_pool(&mut rng, 8);
    let mut table = EmbeddingTable::new();
    for (i, message) in pool.iter().enumerate() {
        table.insert(message.clone(), vec![i as u32, 100 + i as u32]);
    }
    let service = ServiceConfig {
        name: "api-gateway".to_string(),
        rate_milli_per_sec: 100_000,
        level_weights: weights(1, 0, 0, 0),
    };
    for _ in 0..20 {
        let log = generate_log(&service, &mut rng, &pool, &table);
        assert_eq!(log.service, "api-gateway");
        assert_eq!(log.level, LogLevel::Debug);
        assert_eq!(log.id.len(), 36);
        let at = pool.iter().position(|m| *m == log.message).expect("message comes from the pool");
        assert_eq!(log.embedding, vec![at as u32, 100 + at as u32]);
    }
}

#[test]
fn generated_log_without_table_entry_gets_the_empty_embedding() {
    let mut rng = StdRng::seed_from_u64(7);
    let pool = build_message_pool(&mut rng, 3);
    let table = EmbeddingTable::new();
    let service = ServiceConfig {
        name: "auth-service".to_string(),
        rate_milli_per_sec: 50_000,
        level_weights: weights(0, 1, 0, 0),
    };
    let log = generate_log(&service, &mut rng, &pool, &table);
    assert!(log.embedding.is_empty());
    assert_eq!(log.level, LogLevel::Info);
}

#[test]
fn fresh_ids_are_well_formed_and_distinct() {
    let mut rng = StdRng::seed_from_u64(8);
    let pool = build_message_pool(&mut rng, 2);
    let table = EmbeddingTable::new();
    let service = ServiceConfig {
        name: "svc".to_string(),
        rate_milli_per_sec: 1_000,
        level_weights: weights(1, 1, 1, 1),
    };
    let a = generate_log(&service, &mut rng, &pool, &table);
    let b = generate_log(&service, &mut rng, &pool, &table);
    assert_eq!(a.id.len(), 36);
    assert_eq!(b.id.len(), 36);
    assert_ne!(a.id, b.id);
    assert_eq!(a.id.chars().filter(|c| *c == '-').count(), 4);
}

#[test]
fn should_continue_honors_zero_as_unbounded() {
    assert!(should_continue(0, 10));
    assert!(should_continue(9, 10));
    assert!(!should_continue(10, 10));
    assert!(!should_continue(11, 10));
    assert!(should_continue(u64::MAX, 0));
}

#[test]
fn embedding_table_lookup_insert_and_replace() {
    let mut table = EmbeddingTable::new();
    assert_eq!(table.len(), 0);
    table.insert("alpha".to_string(), vec![1, 2, 3]);
    table.insert("beta".to_string(), vec![4]);
    assert_eq!(table.len(), 2);
    assert_eq!(table.lookup(&"alpha".to_string()), vec![1, 2, 3]);
    assert_eq!(table.lookup(&"beta".to_string()), vec![4]);
    assert_eq!(table.lookup(&"gamma".to_string()), Vec::<u32>::new());
    table.insert("alpha".to_string(), vec![9, 9]);
    assert_eq!(table.len(), 2);
    assert_eq!(table.lookup(&"alpha".to_string()), vec![9, 9]);
    assert_eq!(table.lookup(&"beta".to_string()), vec![4]);
}
