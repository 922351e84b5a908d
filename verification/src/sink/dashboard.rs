//! Configuration and flush summaries for the live-dashboard sink backend.
//!
//! The backend itself (the web server and its socket broadcasts) lives
//! outside the library; it consumes the per-flush summary computed here.

use vstd::prelude::*;
use crate::log_entry::LogEntry;

verus! {

/// Settings for the live-dashboard backend.
#[derive(Clone, Debug)]
pub struct DashboardConfig {
    pub port: u16,
}

/// Per-flush summary pushed to dashboard clients: when the flush happened,
/// how many events the batch held, the breakdown by service and by level
/// label, and how long the flush took.
#[derive(Debug)]
pub struct FlushEvent {
    pub timestamp_ms: i64,
    pub total_count: usize,
    pub by_service: Vec<(String, usize)>,
    pub by_level: Vec<(String, usize)>,
    pub flush_duration_ms: u64,
}

/// How many of `keys` equal `key`.
pub open spec fn spec_count(keys: Seq<Seq<char>>, key: Seq<char>) -> nat
    decreases keys.len(),
{
    if keys.len() == 0 {
        0
    } else {
        spec_count(keys.drop_last(), key) + if keys.last() == key {
            1nat
        } else {
            0nat
        }
    }
}

/// The views of a list of strings.
pub open spec fn key_views(items: Seq<String>) -> Seq<Seq<char>> {
    items.map_values(|s: String| s@)
}

/// The service name of every event of a batch, in batch order.
pub open spec fn service_views(batch: Seq<LogEntry>) -> Seq<Seq<char>> {
    batch.map_values(|e: LogEntry| e.service@)
}

/// The level label of every event of a batch, in batch order.
pub open spec fn level_label_views(batch: Seq<LogEntry>) -> Seq<Seq<char>> {
    batch.map_values(|e: LogEntry| e.level.spec_label())
}

/// Some string of `list` reads `key`.
pub open spec fn list_has_key(list: Seq<String>, key: Seq<char>) -> bool {
    exists|i: int| 0 <= i < list.len() && list[i]@ == key
}

/// Some row of `table` is keyed by `key`.
pub open spec fn table_has_key(table: Seq<(String, usize)>, key: Seq<char>) -> bool {
    exists|i: int| 0 <= i < table.len() && table[i].0@ == key
}

/// `table` is a correct occurrence count of `keys`: its keys are distinct,
/// every key of the table occurs in `keys` exactly as often as recorded (and
/// at least once), and every element of `keys` has a row in the table.
pub open spec fn is_count_table(table: Seq<(String, usize)>, keys: Seq<Seq<char>>) -> bool {
    &&& forall|i: int, j: int| 0 <= i < j < table.len() ==> table[i].0@ != table[j].0@
    &&& forall|i: int|
        0 <= i < table.len() ==> (#[trigger] table[i]).1 == spec_count(keys, table[i].0@)
            && table[i].1 >= 1
    &&& forall|k: int| 0 <= k < keys.len() ==> table_has_key(table, #[trigger] keys[k])
}

proof fn lemma_count_push(keys: Seq<Seq<char>>, x: Seq<char>, key: Seq<char>)
    ensures
        spec_count(keys.push(x), key) == spec_count(keys, key) + if x == key {
            1nat
        } else {
            0nat
        },
{
    assert(keys.push(x).drop_last() =~= keys);
    assert(keys.push(x).last() == x);
}

proof fn lemma_count_present(keys: Seq<Seq<char>>, key: Seq<char>, t: int)
    requires
        0 <= t < keys.len(),
        keys[t] == key,
    ensures
        spec_count(keys, key) >= 1,
    decreases keys.len(),
{
    if t == keys.len() - 1 {
    } else {
        lemma_count_present(keys.drop_last(), key, t);
    }
}

/// The index of the first element of `list` that reads `key`, if any.
fn find_key(list: &Vec<String>, key: &String) -> (o: Option<usize>)
    ensures
        match o {
            Some(i) => i < list@.len() && list@[i as int]@ == key@,
            None => !list_has_key(list@, key@),
        },
{
    let mut j: usize = 0;
    while j < list.len()
        invariant
            j <= list@.len(),
            forall|t: int| 0 <= t < j ==> list@[t]@ != key@,
        decreases list@.len() - j,
    {
        if list[j].eq(key) {
            return Some(j);
        }
        j += 1;
    }
    None
}

/// The distinct strings of `items`, in order of first occurrence.
fn distinct_keys(items: &Vec<String>) -> (r: Vec<String>)
    ensures
        forall|i: int, j: int| 0 <= i < j < r@.len() ==> r@[i]@ != r@[j]@,
        forall|k: int| 0 <= k < items@.len() ==> list_has_key(r@, #[trigger] items@[k]@),
        forall|i: int| 0 <= i < r@.len() ==> list_has_key(items@, #[trigger] r@[i]@),
{
    let mut r: Vec<String> = Vec::new();
    let mut k: usize = 0;
    while k < items.len()
        invariant
            k <= items@.len(),
            forall|i: int, j: int| 0 <= i < j < r@.len() ==> r@[i]@ != r@[j]@,
            forall|kk: int| 0 <= kk < k ==> list_has_key(r@, #[trigger] items@[kk]@),
            forall|i: int| 0 <= i < r@.len() ==> list_has_key(items@, #[trigger] r@[i]@),
        decreases items@.len() - k,
    {
        match find_key(&r, &items[k]) {
            Some(i) => {
                proof {
                    assert(0 <= i < r@.len() && r@[i as int]@ == items@[k as int]@);
                    assert(list_has_key(r@, items@[k as int]@));
                }
            },
            None => {
                let ghost r0 = r@;
                r.push(items[k].clone());
                proof {
                    assert(r@.len() == r0.len() + 1);
                    assert(forall|i: int| 0 <= i < r0.len() ==> r@[i] == r0[i]);
                    assert(r@[r0.len() as int]@ == items@[k as int]@);
                    assert forall|i: int, j: int| 0 <= i < j < r@.len() implies r@[i]@
                        != r@[j]@ by {
                        if j < r0.len() {
                            assert(r0[i]@ != r0[j]@);
                        } else {
                            assert(r@[i] == r0[i]);
                            assert(!list_has_key(r0, items@[k as int]@));
                            assert(r0[i]@ != items@[k as int]@);
                        }
                    }
                    assert forall|kk: int| 0 <= kk < k + 1 implies list_has_key(
                        r@,
                        #[trigger] items@[kk]@,
                    ) by {
                        if kk < k {
                            let i = choose|i: int|
                                0 <= i < r0.len() && r0[i]@ == items@[kk]@;
                            assert(0 <= i < r@.len() && r@[i]@ == items@[kk]@);
                        } else {
                            assert(r@[r0.len() as int]@ == items@[kk]@);
                        }
                    }
                    assert forall|i: int| 0 <= i < r@.len() implies list_has_key(
                        items@,
                        #[trigger] r@[i]@,
                    ) by {
                        if i < r0.len() {
                            assert(r0[i]@ == r@[i]@);
                            assert(list_has_key(items@, r0[i]@));
                        } else {
                            assert(0 <= k < items@.len() && items@[k as int]@ == r@[i]@);
                        }
                    }
                }
            },
        }
        k += 1;
    }
    r
}

/// How often `key` occurs in `items`.
fn count_matching(items: &Vec<String>, key: &String) -> (c: usize)
    ensures
        c == spec_count(key_views(items@), key@),
{
    let mut c: usize = 0;
    let mut k: usize = 0;
    while k < items.len()
        invariant
            k <= items@.len(),
            c == spec_count(key_views(items@.take(k as int)), key@),
            c <= k,
        decreases items@.len() - k,
    {
        proof {
            assert(key_views(items@.take(k as int + 1)) =~= key_views(
                items@.take(k as int),
            ).push(items@[k as int]@));
            lemma_count_push(key_views(items@.take(k as int)), items@[k as int]@, key@);
        }
        if items[k].eq(key) {
            c += 1;
        }
        k += 1;
    }
    proof {
        assert(items@.take(items@.len() as int) =~= items@);
    }
    c
}

/// Counts how often each distinct string occurs in `items`.
#[verifier::rlimit(50)]
pub fn count_occurrences(items: &Vec<String>) -> (r: Vec<(String, usize)>)
    ensures
        is_count_table(r@, key_views(items@)),
{
    let keys = distinct_keys(items);
    let mut r: Vec<(String, usize)> = Vec::new();
    let mut i: usize = 0;
    while i < keys.len()
        invariant
            i <= keys@.len(),
            r@.len() == i,
            forall|t: int| 0 <= t < i ==> (#[trigger] r@[t]).0@ == keys@[t]@,
            forall|t: int|
                0 <= t < i ==> (#[trigger] r@[t]).1 == spec_count(key_views(items@), r@[t].0@)
                    && r@[t].1 >= 1,
            forall|ii: int, jj: int| 0 <= ii < jj < keys@.len() ==> keys@[ii]@ != keys@[jj]@,
            forall|t: int| 0 <= t < keys@.len() ==> list_has_key(items@, #[trigger] keys@[t]@),
        decreases keys@.len() - i,
    {
        let c = count_matching(items, &keys[i]);
        proof {
            assert(list_has_key(items@, keys@[i as int]@));
            let kk = choose|kk: int| 0 <= kk < items@.len() && items@[kk]@ == keys@[i as int]@;
            assert(key_views(items@)[kk] == items@[kk]@);
            lemma_count_present(key_views(items@), keys@[i as int]@, kk);
        }
        r.push((keys[i].clone(), c));
        i += 1;
    }
    proof {
        assert forall|k: int| 0 <= k < key_views(items@).len() implies table_has_key(
            r@,
            #[trigger] key_views(items@)[k],
        ) by {
            assert(key_views(items@)[k] == items@[k]@);
            assert(list_has_key(keys@, items@[k]@));
            let t = choose|t: int| 0 <= t < keys@.len() && keys@[t]@ == items@[k]@;
            assert(0 <= t < r@.len() && r@[t].0@ == key_views(items@)[k]);
        }
    }
    r
}

impl FlushEvent {
    /// Summarizes one flushed batch.
    pub fn from_batch(batch: &Vec<LogEntry>, timestamp_ms: i64, flush_duration_ms: u64) -> (r:
        FlushEvent)
        ensures
            r.timestamp_ms == timestamp_ms,
            r.flush_duration_ms == flush_duration_ms,
            r.total_count == batch@.len(),
            is_count_table(r.by_service@, service_views(batch@)),
            is_count_table(r.by_level@, level_label_views(batch@)),
    {
        let services = crate::sink::batch_services(batch);
        let levels = crate::sink::batch_level_labels(batch);
        proof {
            assert(key_views(services@) =~= service_views(batch@));
            assert(key_views(levels@) =~= level_label_views(batch@));
        }
        let by_service = count_occurrences(&services);
        let by_level = count_occurrences(&levels);
        FlushEvent {
            timestamp_ms,
            total_count: batch.len(),
            by_service,
            by_level,
            flush_duration_ms,
        }
    }
}

} // verus!
