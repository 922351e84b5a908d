//! The sink contract: every flushed batch is fanned out to each registered
//! backend in order, and a failure of one backend never keeps the batch from
//! the others.

pub mod dashboard;
pub mod elasticsearch;
pub mod pgvector;
pub mod qdrant;

use std::io::Write;
use vstd::prelude::*;
use crate::log_entry::{batch_view, LogEntry, LogEntryV};

verus! {

/// A batch-accepting backend.
///
/// A sink is modelled by the sequence of batches it has accepted. A write
/// either appends the offered batch to that record (success) or leaves the
/// record unchanged (failure); there is no retry, so a failed write loses
/// exactly that batch for exactly that sink.
pub trait Sink: Sized {
    /// The batches this sink has accepted so far, oldest first, each event by
    /// its view.
    spec fn accepted(&self) -> Seq<Seq<LogEntryV>>;

    /// Offers one batch to the sink. The sink reads the batch and its own
    /// state only; it never mutates the batch.
    fn write(&mut self, batch: &Vec<LogEntry>) -> (r: Result<(), String>)
        ensures
            r is Ok ==> final(self).accepted() == old(self).accepted().push(
                batch_view(batch@),
            ),
            r is Err ==> final(self).accepted() == old(self).accepted(),
    ;
}

/// Fans one flushed batch out to every sink, in registration order.
///
/// Failure isolation: each sink receives exactly one write of this batch and
/// its outcome is recorded independently, so a failure of one sink never
/// prevents the remaining sinks from receiving the same batch, and never
/// stops the pipeline.
pub fn dispatch_batch<S: Sink>(sinks: &mut Vec<S>, batch: &Vec<LogEntry>) -> (results: Vec<
    bool,
>)
    ensures
        final(sinks)@.len() == old(sinks)@.len(),
        results@.len() == old(sinks)@.len(),
        forall|i: int|
            0 <= i < old(sinks)@.len() ==> if results@[i] {
                final(sinks)@[i].accepted() == old(sinks)@[i].accepted().push(
                    batch_view(batch@),
                )
            } else {
                final(sinks)@[i].accepted() == old(sinks)@[i].accepted()
            },
{
    let mut results: Vec<bool> = Vec::new();
    let mut i: usize = 0;
    while i < sinks.len()
        invariant
            i <= sinks@.len(),
            sinks@.len() == old(sinks)@.len(),
            results@.len() == i,
            forall|j: int|
                0 <= j < i ==> if results@[j] {
                    sinks@[j].accepted() == old(sinks)@[j].accepted().push(
                        batch_view(batch@),
                    )
                } else {
                    sinks@[j].accepted() == old(sinks)@[j].accepted()
                },
            forall|j: int| i <= j < sinks@.len() ==> sinks@[j] == old(sinks)@[j],
        decreases sinks@.len() - i,
    {
        let r = sinks[i].write(batch);
        results.push(r.is_ok());
        i += 1;
    }
    results
}

/// The console line for one event: `LEVEL service: message`.
pub open spec fn spec_console_line(e: LogEntryV) -> Seq<char> {
    e.level.spec_label() + " "@ + e.service + ": "@ + e.message
}

/// Formats one event for console output.
pub fn console_line(e: &LogEntry) -> (r: String)
    ensures
        r@ == spec_console_line(e@),
{
    let mut out = String::from_str(e.level.label());
    out.append(" ");
    out.append(e.service.as_str());
    out.append(": ");
    out.append(e.message.as_str());
    assert(out@ =~= spec_console_line(e@));
    out
}

/// Relies on std::io::stdout through the writeln macro: prints one line to
/// standard output. Console logging is best-effort, so a write error is
/// dropped.
#[verifier::external_body]
fn emit_line(line: &String) {
    let mut out = std::io::stdout();
    let _ = writeln!(out, "{}", line);
}

/// A sink that prints each event of the batch to standard output and always
/// reports success.
pub struct StdoutSink {
    history: Ghost<Seq<Seq<LogEntryV>>>,
}

impl StdoutSink {
    /// A console sink with an empty record.
    pub fn new() -> (r: StdoutSink)
        ensures
            r.accepted() == Seq::<Seq<LogEntryV>>::empty(),
    {
        StdoutSink { history: Ghost(Seq::empty()) }
    }
}

impl Sink for StdoutSink {
    closed spec fn accepted(&self) -> Seq<Seq<LogEntryV>> {
        self.history@
    }

    fn write(&mut self, batch: &Vec<LogEntry>) -> (r: Result<(), String>) {
        let mut i: usize = 0;
        while i < batch.len()
            decreases batch@.len() - i,
        {
            let line = console_line(&batch[i]);
            emit_line(&line);
            i += 1;
        }
        self.history = Ghost(self.history@.push(batch_view(batch@)));
        Ok(())
    }
}

fn clone_batch(batch: &Vec<LogEntry>) -> (r: Vec<LogEntry>)
    ensures
        batch_view(r@) == batch_view(batch@),
{
    let mut r: Vec<LogEntry> = Vec::new();
    let mut i: usize = 0;
    while i < batch.len()
        invariant
            i <= batch@.len(),
            r@.len() == i,
            forall|j: int| 0 <= j < i ==> r@[j]@ == batch@[j]@,
        decreases batch@.len() - i,
    {
        r.push(batch[i].clone());
        i += 1;
    }
    assert(batch_view(r@) =~= batch_view(batch@));
    r
}

/// An in-memory sink: it records each accepted batch, and can be told to
/// refuse every write, which exercises failure isolation in demonstrations
/// and tests.
pub struct MemorySink {
    accept_writes: bool,
    batches: Vec<Vec<LogEntry>>,
}

impl MemorySink {
    /// Whether this sink accepts writes.
    pub closed spec fn accepts(&self) -> bool {
        self.accept_writes
    }

    /// A sink with an empty record that accepts or refuses every write as
    /// `accept_writes` says.
    pub fn new(accept_writes: bool) -> (r: MemorySink)
        ensures
            r.accepted() == Seq::<Seq<LogEntryV>>::empty(),
            r.accepts() == accept_writes,
    {
        MemorySink { accept_writes, batches: Vec::new() }
    }

    /// The accepted batches, oldest first.
    pub fn batches(&self) -> (r: &Vec<Vec<LogEntry>>)
        ensures
            r@.len() == self.accepted().len(),
            forall|i: int|
                0 <= i < r@.len() ==> batch_view(#[trigger] r@[i]@) == self.accepted()[i],
    {
        &self.batches
    }
}

impl Sink for MemorySink {
    closed spec fn accepted(&self) -> Seq<Seq<LogEntryV>> {
        self.batches@.map_values(|b: Vec<LogEntry>| batch_view(b@))
    }

    fn write(&mut self, batch: &Vec<LogEntry>) -> (r: Result<(), String>) {
        if self.accept_writes {
            let copy = clone_batch(batch);
            self.batches.push(copy);
            assert(self.accepted() =~= old(self).accepted().push(batch_view(batch@)));
            Ok(())
        } else {
            Err(String::from_str("sink refused the batch"))
        }
    }
}

/// The ids of the events of a batch, in batch order, for column-wise writes.
pub fn batch_ids(batch: &Vec<LogEntry>) -> (r: Vec<String>)
    ensures
        r@.len() == batch@.len(),
        forall|i: int| 0 <= i < batch@.len() ==> r@[i]@ == batch@[i].id@,
{
    let mut r: Vec<String> = Vec::new();
    let mut i: usize = 0;
    while i < batch.len()
        invariant
            i <= batch@.len(),
            r@.len() == i,
            forall|j: int| 0 <= j < i ==> r@[j]@ == batch@[j].id@,
        decreases batch@.len() - i,
    {
        r.push(batch[i].id.clone());
        i += 1;
    }
    r
}

/// The creation times of the events of a batch, in batch order.
pub fn batch_timestamps(batch: &Vec<LogEntry>) -> (r: Vec<i64>)
    ensures
        r@.len() == batch@.len(),
        forall|i: int| 0 <= i < batch@.len() ==> r@[i] == batch@[i].timestamp_ms,
{
    let mut r: Vec<i64> = Vec::new();
    let mut i: usize = 0;
    while i < batch.len()
        invariant
            i <= batch@.len(),
            r@.len() == i,
            forall|j: int| 0 <= j < i ==> r@[j] == batch@[j].timestamp_ms,
        decreases batch@.len() - i,
    {
        r.push(batch[i].timestamp_ms);
        i += 1;
    }
    r
}

/// The service names of the events of a batch, in batch order.
pub fn batch_services(batch: &Vec<LogEntry>) -> (r: Vec<String>)
    ensures
        r@.len() == batch@.len(),
        forall|i: int| 0 <= i < batch@.len() ==> r@[i]@ == batch@[i].service@,
{
    let mut r: Vec<String> = Vec::new();
    let mut i: usize = 0;
    while i < batch.len()
        invariant
            i <= batch@.len(),
            r@.len() == i,
            forall|j: int| 0 <= j < i ==> r@[j]@ == batch@[j].service@,
        decreases batch@.len() - i,
    {
        r.push(batch[i].service.clone());
        i += 1;
    }
    r
}

/// The level labels of the events of a batch, in batch order.
pub fn batch_level_labels(batch: &Vec<LogEntry>) -> (r: Vec<String>)
    ensures
        r@.len() == batch@.len(),
        forall|i: int| 0 <= i < batch@.len() ==> r@[i]@ == batch@[i].level.spec_label(),
{
    let mut r: Vec<String> = Vec::new();
    let mut i: usize = 0;
    while i < batch.len()
        invariant
            i <= batch@.len(),
            r@.len() == i,
            forall|j: int| 0 <= j < i ==> r@[j]@ == batch@[j].level.spec_label(),
        decreases batch@.len() - i,
    {
        r.push(String::from_str(batch[i].level.label()));
        i += 1;
    }
    r
}

/// The message texts of the events of a batch, in batch order.
pub fn batch_messages(batch: &Vec<LogEntry>) -> (r: Vec<String>)
    ensures
        r@.len() == batch@.len(),
        forall|i: int| 0 <= i < batch@.len() ==> r@[i]@ == batch@[i].message@,
{
    let mut r: Vec<String> = Vec::new();
    let mut i: usize = 0;
    while i < batch.len()
        invariant
            i <= batch@.len(),
            r@.len() == i,
            forall|j: int| 0 <= j < i ==> r@[j]@ == batch@[j].message@,
        decreases batch@.len() - i,
    {
        r.push(batch[i].message.clone());
        i += 1;
    }
    r
}

/// The embedding bit patterns of the events of a batch, in batch order.
pub fn batch_embeddings(batch: &Vec<LogEntry>) -> (r: Vec<Vec<u32>>)
    ensures
        r@.len() == batch@.len(),
        forall|i: int| 0 <= i < batch@.len() ==> r@[i]@ == batch@[i].embedding@,
{
    let mut r: Vec<Vec<u32>> = Vec::new();
    let mut i: usize = 0;
    while i < batch.len()
        invariant
            i <= batch@.len(),
            r@.len() == i,
            forall|j: int| 0 <= j < i ==> r@[j]@ == batch@[j].embedding@,
        decreases batch@.len() - i,
    {
        let e = batch[i].embedding.clone();
        assert(e@ =~= batch@[i as int].embedding@);
        r.push(e);
        i += 1;
    }
    r
}

} // verus!
