//! The aggregation buffer: the single consumer that merges all event streams,
//! accumulates events into bounded batches, and decides when to flush.
//!
//! The surrounding program waits on the channel and the flush timer; each
//! outcome of a wait is fed to [`Buffer::step`], whose contract fixes the
//! decision exactly: an event is appended and a full batch is flushed at
//! once; an expired timer flushes a non-empty batch and never an empty one; a
//! closed channel drains what is pending and ends the run.

use vstd::prelude::*;
use crate::log_entry::{batch_view, LogEntry, LogEntryV};
use crate::sink::{dispatch_batch, Sink};

verus! {

/// The views of a run's flushed batches, in flush order.
pub open spec fn flush_views(flushes: Seq<Seq<LogEntry>>) -> Seq<Seq<LogEntryV>> {
    flushes.map_values(|b: Seq<LogEntry>| batch_view(b))
}

/// One outcome of the consumer's wait: an event arrived, the flush timer
/// expired, or the channel closed because every producer is done.
pub enum BufferEvent {
    Received(LogEntry),
    TimerExpired,
    Closed,
}

/// What one step decided: the batch to flush now, if any, and whether the
/// run is over.
pub struct StepOutcome {
    pub flushed: Option<Vec<LogEntry>>,
    pub done: bool,
}

/// The mathematical outcome of one step.
pub ghost struct SpecStep {
    pub pending: Seq<LogEntry>,
    pub flushed: Option<Seq<LogEntry>>,
    pub done: bool,
}

/// The mathematical outcome of a run: the pending events left, every flushed
/// batch in flush order, and whether the channel closed.
pub ghost struct SpecRun {
    pub pending: Seq<LogEntry>,
    pub flushes: Seq<Seq<LogEntry>>,
    pub done: bool,
}

/// What one wait outcome does to a buffer holding `pending` events with
/// capacity `capacity`.
pub open spec fn spec_step(pending: Seq<LogEntry>, capacity: int, ev: BufferEvent) -> SpecStep {
    match ev {
        BufferEvent::Received(e) => {
            let grown = pending.push(e);
            if grown.len() >= capacity {
                SpecStep { pending: Seq::empty(), flushed: Some(grown), done: false }
            } else {
                SpecStep { pending: grown, flushed: None, done: false }
            }
        },
        BufferEvent::TimerExpired => {
            if pending.len() == 0 {
                SpecStep { pending, flushed: None, done: false }
            } else {
                SpecStep { pending: Seq::empty(), flushed: Some(pending), done: false }
            }
        },
        BufferEvent::Closed => {
            if pending.len() == 0 {
                SpecStep { pending, flushed: None, done: true }
            } else {
                SpecStep { pending: Seq::empty(), flushed: Some(pending), done: true }
            }
        },
    }
}

/// What a sequence of wait outcomes does to the buffer: steps are taken in
/// order, and the run stops at the first closed-channel outcome.
pub open spec fn spec_run(
    pending: Seq<LogEntry>,
    capacity: int,
    events: Seq<BufferEvent>,
) -> SpecRun
    decreases events.len(),
{
    if events.len() == 0 {
        SpecRun { pending, flushes: Seq::empty(), done: false }
    } else {
        let s = spec_step(pending, capacity, events.first());
        let first = match s.flushed {
            Some(b) => seq![b],
            None => Seq::<Seq<LogEntry>>::empty(),
        };
        if s.done {
            SpecRun { pending: s.pending, flushes: first, done: true }
        } else {
            let rest = spec_run(s.pending, capacity, events.drop_first());
            SpecRun { pending: rest.pending, flushes: first + rest.flushes, done: rest.done }
        }
    }
}

/// The exec outcome `outcome`, with the buffer's batch now `pending1`,
/// matches the mathematical step.
pub open spec fn step_matches(
    pending0: Seq<LogEntry>,
    capacity: int,
    ev: BufferEvent,
    pending1: Seq<LogEntry>,
    outcome: StepOutcome,
) -> bool {
    let s = spec_step(pending0, capacity, ev);
    &&& pending1 == s.pending
    &&& outcome.done == s.done
    &&& match (outcome.flushed, s.flushed) {
        (Option::Some(b), Option::Some(sb)) => b@ == sb,
        (Option::None, Option::None) => true,
        _ => false,
    }
}

/// Every event of `events` is a received entry, except the last, which is the
/// closed-channel signal.
pub open spec fn all_received_then_closed(events: Seq<BufferEvent>) -> bool {
    &&& events.len() >= 1
    &&& events.last() is Closed
    &&& forall|i: int| 0 <= i < events.len() - 1 ==> events[i] is Received
}

/// The channel closes exactly once, at the end of `events`.
pub open spec fn closed_exactly_at_end(events: Seq<BufferEvent>) -> bool {
    &&& events.len() >= 1
    &&& events.last() is Closed
    &&& forall|i: int| 0 <= i < events.len() - 1 ==> !(events[i] is Closed)
}

/// The entries received over `events`, in arrival order.
pub open spec fn received_entries(events: Seq<BufferEvent>) -> Seq<LogEntry>
    decreases events.len(),
{
    if events.len() == 0 {
        Seq::empty()
    } else {
        match events.first() {
            BufferEvent::Received(e) => seq![e] + received_entries(events.drop_first()),
            _ => received_entries(events.drop_first()),
        }
    }
}

/// No empty batch is ever flushed: every flush of any run has at least one
/// event, whatever mix of arrivals, timer expiries and the close the run saw.
pub proof fn lemma_no_empty_flush(
    pending: Seq<LogEntry>,
    capacity: int,
    events: Seq<BufferEvent>,
)
    requires
        capacity >= 1,
    ensures
        forall|f: int|
            0 <= f < spec_run(pending, capacity, events).flushes.len()
                ==> #[trigger] spec_run(pending, capacity, events).flushes[f].len() >= 1,
    decreases events.len(),
{
    if events.len() > 0 {
        let sr = spec_run(pending, capacity, events);
        let s = spec_step(pending, capacity, events.first());
        let first: Seq<Seq<LogEntry>> = match s.flushed {
            Some(b) => seq![b],
            None => Seq::empty(),
        };
        assert(match s.flushed {
            Some(b) => b.len() >= 1,
            None => true,
        });
        if s.done {
            assert(sr.flushes == first);
        } else {
            lemma_no_empty_flush(s.pending, capacity, events.drop_first());
            let rest = spec_run(s.pending, capacity, events.drop_first());
            assert(sr.flushes == first + rest.flushes);
            assert forall|f: int| 0 <= f < sr.flushes.len() implies #[trigger] sr.flushes[f].len()
                >= 1 by {
                if f >= first.len() {
                    assert(sr.flushes[f] == rest.flushes[f - first.len()]);
                }
            }
        }
    }
}

/// Batch sizing: when events only arrive and then the channel closes (the
/// timer never fires), every flushed batch except possibly the last has size
/// exactly `capacity`; a final smaller batch drains what was pending at the
/// close, and no final flush happens if nothing was pending.
pub proof fn lemma_batch_sizing(
    pending: Seq<LogEntry>,
    capacity: int,
    events: Seq<BufferEvent>,
)
    requires
        capacity >= 1,
        pending.len() < capacity,
        all_received_then_closed(events),
    ensures
        ({
            let sr = spec_run(pending, capacity, events);
            &&& forall|f: int|
                0 <= f < sr.flushes.len() - 1 ==> #[trigger] sr.flushes[f].len() == capacity
            &&& sr.flushes.len() > 0 ==> 1 <= sr.flushes.last().len() <= capacity
            &&& (sr.flushes.len() == 0 <==> pending.len() == 0 && events.len() == 1)
        }),
    decreases events.len(),
{
    let sr = spec_run(pending, capacity, events);
    let s = spec_step(pending, capacity, events.first());
    if events.len() == 1 {
        assert(events.first() is Closed);
    } else {
        assert(events[0] is Received);
        assert(all_received_then_closed(events.drop_first())) by {
            assert(events.drop_first().last() == events.last());
            assert(forall|i: int|
                0 <= i < events.drop_first().len() - 1 ==> events.drop_first()[i]
                    == events[i + 1]);
        }
        lemma_batch_sizing(s.pending, capacity, events.drop_first());
        let rest = spec_run(s.pending, capacity, events.drop_first());
        match s.flushed {
            Some(b) => {
                assert(sr.flushes =~= seq![b] + rest.flushes);
                assert(b.len() == capacity);
                assert(rest.flushes.len() > 0 ==> sr.flushes.last() == rest.flushes.last());
            },
            None => {
                assert(sr.flushes =~= rest.flushes);
            },
        }
    }
}

/// No loss and no duplication: over a finite run that ends when the channel
/// closes, the flushed batches laid end to end are exactly the pending events
/// followed by every received entry, in arrival order; nothing stays behind.
/// In particular the flush sizes sum to the number of events sent.
pub proof fn lemma_conservation(
    pending: Seq<LogEntry>,
    capacity: int,
    events: Seq<BufferEvent>,
)
    requires
        capacity >= 1,
        closed_exactly_at_end(events),
    ensures
        spec_run(pending, capacity, events).flushes.flatten() == pending + received_entries(
            events,
        ),
        spec_run(pending, capacity, events).pending.len() == 0,
        spec_run(pending, capacity, events).done,
    decreases events.len(),
{
    let sr = spec_run(pending, capacity, events);
    let s = spec_step(pending, capacity, events.first());
    if events.len() == 1 {
        assert(events.first() is Closed);
        assert(received_entries(events.drop_first()) =~= Seq::<LogEntry>::empty());
        assert(received_entries(events) =~= Seq::<LogEntry>::empty());
        match s.flushed {
            Some(b) => {
                assert(sr.flushes =~= seq![b]);
                sr.flushes.lemma_flatten_one_element();
                assert(sr.flushes.flatten() =~= pending + received_entries(events));
            },
            None => {
                assert(pending.len() == 0);
                assert(sr.flushes =~= Seq::<Seq<LogEntry>>::empty());
                assert(sr.flushes.flatten() =~= pending + received_entries(events));
            },
        }
    } else {
        assert(!(events.first() is Closed));
        assert(!s.done);
        assert(closed_exactly_at_end(events.drop_first())) by {
            assert(events.drop_first().last() == events.last());
            assert(forall|i: int|
                0 <= i < events.drop_first().len() - 1 ==> events.drop_first()[i]
                    == events[i + 1]);
        }
        lemma_conservation(s.pending, capacity, events.drop_first());
        let rest = spec_run(s.pending, capacity, events.drop_first());
        match events.first() {
            BufferEvent::Received(e) => {
                assert(received_entries(events) =~= seq![e] + received_entries(
                    events.drop_first(),
                ));
                match s.flushed {
                    Some(b) => {
                        assert(b == pending.push(e));
                        assert(s.pending =~= Seq::<LogEntry>::empty());
                        assert(sr.flushes =~= seq![b] + rest.flushes);
                        assert(sr.flushes.flatten() =~= b + rest.flushes.flatten()) by {
                            lemma_flatten_cons(b, rest.flushes);
                        }
                        assert(sr.flushes.flatten() =~= pending + received_entries(events));
                    },
                    None => {
                        assert(s.pending == pending.push(e));
                        assert(sr.flushes =~= rest.flushes);
                        assert(sr.flushes.flatten() =~= pending + received_entries(events));
                    },
                }
            },
            BufferEvent::TimerExpired => {
                assert(received_entries(events) =~= received_entries(events.drop_first()));
                match s.flushed {
                    Some(b) => {
                        assert(b == pending);
                        assert(sr.flushes =~= seq![b] + rest.flushes);
                        assert(sr.flushes.flatten() =~= b + rest.flushes.flatten()) by {
                            lemma_flatten_cons(b, rest.flushes);
                        }
                        assert(sr.flushes.flatten() =~= pending + received_entries(events));
                    },
                    None => {
                        assert(pending.len() == 0);
                        assert(sr.flushes =~= rest.flushes);
                        assert(sr.flushes.flatten() =~= pending + received_entries(events));
                    },
                }
            },
            BufferEvent::Closed => {
                assert(false);
            },
        }
    }
}

/// The sizes of the batches of `flushes`, summed.
pub open spec fn total_flushed(flushes: Seq<Seq<LogEntry>>) -> nat
    decreases flushes.len(),
{
    if flushes.len() == 0 {
        0
    } else {
        flushes.first().len() + total_flushed(flushes.drop_first())
    }
}

proof fn lemma_flatten_len(flushes: Seq<Seq<LogEntry>>)
    ensures
        flushes.flatten().len() == total_flushed(flushes),
    decreases flushes.len(),
{
    if flushes.len() > 0 {
        lemma_flatten_len(flushes.drop_first());
    }
}

/// The flush sizes of a finite run sum to the number of events that entered
/// the buffer: what was pending at the start plus every received entry.
pub proof fn lemma_flush_sizes_sum(
    pending: Seq<LogEntry>,
    capacity: int,
    events: Seq<BufferEvent>,
)
    requires
        capacity >= 1,
        closed_exactly_at_end(events),
    ensures
        total_flushed(spec_run(pending, capacity, events).flushes) == pending.len()
            + received_entries(events).len(),
{
    lemma_conservation(pending, capacity, events);
    lemma_flatten_len(spec_run(pending, capacity, events).flushes);
}

/// Flattening puts the first batch before the rest.
proof fn lemma_flatten_cons(b: Seq<LogEntry>, rest: Seq<Seq<LogEntry>>)
    ensures
        (seq![b] + rest).flatten() == b + rest.flatten(),
{
    let whole = seq![b] + rest;
    assert(whole.len() == rest.len() + 1);
    assert(whole.first() == b);
    assert(whole.drop_first() =~= rest);
    assert(whole.flatten() == whole.first() + whole.drop_first().flatten());
}

/// The aggregation buffer. It owns the current batch exclusively: producers
/// only ever reach it through the channel, so no locking is needed.
pub struct Buffer {
    entries: Vec<LogEntry>,
    capacity: usize,
    flush_interval_ms: u64,
}

impl Buffer {
    /// The events accepted and not yet flushed, in arrival order.
    pub closed spec fn pending(&self) -> Seq<LogEntry> {
        self.entries@
    }

    /// The configured batch capacity.
    pub closed spec fn cap(&self) -> int {
        self.capacity as int
    }

    /// The configured flush interval.
    pub closed spec fn interval_ms(&self) -> u64 {
        self.flush_interval_ms
    }

    /// A full batch is flushed the moment it fills, so between steps the
    /// batch is always strictly under capacity.
    pub open spec fn wf(&self) -> bool {
        &&& self.cap() >= 1
        &&& self.pending().len() < self.cap()
    }

    /// An empty buffer for a positive batch capacity and flush interval.
    pub fn new(capacity: usize, flush_interval_ms: u64) -> (r: Buffer)
        requires
            capacity >= 1,
        ensures
            r.wf(),
            r.pending() == Seq::<LogEntry>::empty(),
            r.cap() == capacity,
            r.interval_ms() == flush_interval_ms,
    {
        Buffer { entries: Vec::new(), capacity, flush_interval_ms }
    }

    /// The configured batch capacity.
    pub fn capacity(&self) -> (r: usize)
        ensures
            r == self.cap(),
    {
        self.capacity
    }

    /// The configured flush interval, in milliseconds.
    pub fn flush_interval_ms(&self) -> (r: u64)
        ensures
            r == self.interval_ms(),
    {
        self.flush_interval_ms
    }

    /// How many events are pending.
    pub fn len(&self) -> (r: usize)
        ensures
            r == self.pending().len(),
    {
        self.entries.len()
    }

    /// Detaches the current batch, leaving a fresh empty one, so that
    /// accepting new events is decoupled from writing the batch out.
    fn take_batch(&mut self) -> (batch: Vec<LogEntry>)
        ensures
            batch@ == old(self).pending(),
            final(self).pending() == Seq::<LogEntry>::empty(),
            final(self).cap() == old(self).cap(),
            final(self).interval_ms() == old(self).interval_ms(),
    {
        let mut batch: Vec<LogEntry> = Vec::new();
        core::mem::swap(&mut self.entries, &mut batch);
        batch
    }

    /// Feeds one wait outcome to the buffer.
    ///
    /// The contract is exact: a received event is appended, and the grown
    /// batch is flushed if and only if it reached capacity; an expired timer
    /// flushes the batch if and only if it is non-empty, so no empty flush
    /// ever happens; a closed channel flushes any pending events once and
    /// ends the run unconditionally.
    pub fn step(&mut self, event: BufferEvent) -> (outcome: StepOutcome)
        requires
            old(self).wf(),
        ensures
            final(self).wf(),
            final(self).cap() == old(self).cap(),
            final(self).interval_ms() == old(self).interval_ms(),
            step_matches(old(self).pending(), old(self).cap(), event, final(self).pending(), outcome),
    {
        match event {
            BufferEvent::Received(e) => {
                self.entries.push(e);
                if self.entries.len() >= self.capacity {
                    let batch = self.take_batch();
                    StepOutcome { flushed: Some(batch), done: false }
                } else {
                    StepOutcome { flushed: None, done: false }
                }
            },
            BufferEvent::TimerExpired => {
                if self.entries.len() > 0 {
                    let batch = self.take_batch();
                    StepOutcome { flushed: Some(batch), done: false }
                } else {
                    StepOutcome { flushed: None, done: false }
                }
            },
            BufferEvent::Closed => {
                if self.entries.len() > 0 {
                    let batch = self.take_batch();
                    StepOutcome { flushed: Some(batch), done: true }
                } else {
                    StepOutcome { flushed: None, done: true }
                }
            },
        }
    }

    /// Replays a sequence of wait outcomes, collecting every flushed batch in
    /// flush order; the run stops at the first closed-channel outcome and
    /// later events are not consumed.
    pub fn run(&mut self, events: Vec<BufferEvent>) -> (flushes: Vec<Vec<LogEntry>>)
        requires
            old(self).wf(),
        ensures
            final(self).wf(),
            final(self).cap() == old(self).cap(),
            final(self).interval_ms() == old(self).interval_ms(),
            ({
                let sr = spec_run(old(self).pending(), old(self).cap(), events@);
                &&& final(self).pending() == sr.pending
                &&& flushes@.map_values(|b: Vec<LogEntry>| b@) == sr.flushes
            }),
    {
        let mut events = events;
        let mut flushes: Vec<Vec<LogEntry>> = Vec::new();
        let mut done = false;
        let ghost pending0 = self.pending();
        let ghost cap0 = self.cap();
        let ghost all_events = events@;
        while !done && events.len() > 0
            invariant
                self.wf(),
                self.cap() == cap0,
                cap0 == old(self).cap(),
                self.interval_ms() == old(self).interval_ms(),
                ({
                    let sr = spec_run(pending0, cap0, all_events);
                    if done {
                        &&& sr.pending == self.pending()
                        &&& sr.flushes == flushes@.map_values(|b: Vec<LogEntry>| b@)
                        &&& sr.done
                    } else {
                        let here = spec_run(self.pending(), cap0, events@);
                        &&& sr.pending == here.pending
                        &&& sr.flushes == flushes@.map_values(|b: Vec<LogEntry>| b@)
                            + here.flushes
                        &&& sr.done == here.done
                    }
                }),
            decreases events@.len(),
        {
            let ghost events_before = events@;
            let ghost pending_before = self.pending();
            let ghost flushes_before = flushes@;
            let ev = events.remove(0);
            proof {
                assert(events_before[0] == ev);
                assert(events_before.remove(0) =~= events_before.drop_first());
            }
            let outcome = self.step(ev);
            done = outcome.done;
            match outcome.flushed {
                Some(batch) => {
                    flushes.push(batch);
                },
                None => {},
            }
            proof {
                let s = spec_step(pending_before, cap0, events_before.first());
                let first: Seq<Seq<LogEntry>> = match s.flushed {
                    Some(b) => seq![b],
                    None => Seq::empty(),
                };
                assert(flushes@.map_values(|b: Vec<LogEntry>| b@) =~= flushes_before.map_values(
                    |b: Vec<LogEntry>| b@,
                ) + first);
                let sr = spec_run(pending0, cap0, all_events);
                let before = spec_run(pending_before, cap0, events_before);
                if s.done {
                    assert(before.flushes == first);
                    assert(sr.flushes =~= flushes@.map_values(|b: Vec<LogEntry>| b@));
                } else {
                    let here = spec_run(s.pending, cap0, events@);
                    assert(before.flushes == first + here.flushes);
                    assert(sr.flushes =~= flushes@.map_values(|b: Vec<LogEntry>| b@)
                        + here.flushes);
                }
            }
        }
        proof {
            let sr = spec_run(pending0, cap0, all_events);
            if !done {
                assert(spec_run(self.pending(), cap0, events@).flushes
                    =~= Seq::<Seq<LogEntry>>::empty());
                assert(sr.flushes =~= flushes@.map_values(|b: Vec<LogEntry>| b@));
            }
        }
        flushes
    }

    /// Replays a sequence of wait outcomes and fans every flushed batch out
    /// to the sinks, in flush order, as the consumer loop does.
    ///
    /// The flushed batches are exactly those of the mathematical run, and the
    /// per-sink outcome of every fan-out is returned beside them. Failure
    /// isolation carries through the whole run: a sink whose writes all
    /// succeeded has accepted exactly the flushed batches in flush order,
    /// whatever every other sink did, and a sink whose writes all failed is
    /// untouched.
    pub fn run_with_sinks<S: Sink>(
        &mut self,
        events: Vec<BufferEvent>,
        sinks: &mut Vec<S>,
    ) -> (out: (Vec<Vec<LogEntry>>, Vec<Vec<bool>>))
        requires
            old(self).wf(),
        ensures
            final(self).wf(),
            final(self).cap() == old(self).cap(),
            final(self).interval_ms() == old(self).interval_ms(),
            final(sinks)@.len() == old(sinks)@.len(),
            ({
                let sr = spec_run(old(self).pending(), old(self).cap(), events@);
                &&& final(self).pending() == sr.pending
                &&& out.0@.map_values(|b: Vec<LogEntry>| b@) == sr.flushes
                &&& out.1@.len() == sr.flushes.len()
                &&& forall|f: int|
                    0 <= f < out.1@.len()
                        ==> (#[trigger] out.1@[f])@.len() == old(sinks)@.len()
                &&& forall|i: int|
                    #![auto]
                    0 <= i < old(sinks)@.len() && (forall|f: int|
                        0 <= f < out.1@.len() ==> (out.1@[f])@[i])
                        ==> final(sinks)@[i].accepted() == old(sinks)@[i].accepted()
                        + flush_views(sr.flushes)
                &&& forall|i: int|
                    #![auto]
                    0 <= i < old(sinks)@.len() && (forall|f: int|
                        0 <= f < out.1@.len() ==> !(out.1@[f])@[i])
                        ==> final(sinks)@[i].accepted() == old(sinks)@[i].accepted()
            }),
    {
        let flushes = self.run(events);
        let ghost sr = spec_run(old(self).pending(), old(self).cap(), events@);
        let mut oks: Vec<Vec<bool>> = Vec::new();
        let mut f: usize = 0;
        while f < flushes.len()
            invariant
                f <= flushes@.len(),
                oks@.len() == f,
                sinks@.len() == old(sinks)@.len(),
                forall|g: int| 0 <= g < f ==> (#[trigger] oks@[g])@.len() == sinks@.len(),
                forall|i: int|
                    #![auto]
                    0 <= i < sinks@.len() && (forall|g: int| 0 <= g < f ==> (oks@[g])@[i])
                        ==> sinks@[i].accepted() == old(sinks)@[i].accepted() + flush_views(
                        flushes@.map_values(|b: Vec<LogEntry>| b@).take(f as int),
                    ),
                forall|i: int|
                    #![auto]
                    0 <= i < sinks@.len() && (forall|g: int| 0 <= g < f ==> !(oks@[g])@[i])
                        ==> sinks@[i].accepted() == old(sinks)@[i].accepted(),
            decreases flushes@.len() - f,
        {
            let ghost sinks_before = sinks@;
            let ghost oks_before = oks@;
            let results = dispatch_batch(sinks, &flushes[f]);
            oks.push(results);
            f += 1;
            proof {
                let views = flushes@.map_values(|b: Vec<LogEntry>| b@);
                assert(flush_views(views.take(f as int)) =~= flush_views(
                    views.take(f as int - 1),
                ).push(batch_view(flushes@[f - 1]@)));
                assert forall|i: int|
                    #![auto]
                    0 <= i < sinks@.len() && (forall|g: int| 0 <= g < f ==> (oks@[g])@[i])
                        implies sinks@[i].accepted() == old(sinks)@[i].accepted()
                    + flush_views(views.take(f as int)) by {
                    assert(forall|g: int| 0 <= g < f - 1 ==> oks@[g] == oks_before[g]);
                    assert(sinks_before[i].accepted() == old(sinks)@[i].accepted()
                        + flush_views(views.take(f as int - 1)));
                    assert((oks@[f - 1])@[i]);
                    assert(sinks@[i].accepted() == sinks_before[i].accepted().push(
                        batch_view(flushes@[f - 1]@),
                    ));
                    assert(sinks@[i].accepted() =~= old(sinks)@[i].accepted() + flush_views(
                        views.take(f as int),
                    ));
                }
                assert forall|i: int|
                    #![auto]
                    0 <= i < sinks@.len() && (forall|g: int| 0 <= g < f ==> !(oks@[g])@[i])
                        implies sinks@[i].accepted() == old(sinks)@[i].accepted() by {
                    assert(forall|g: int| 0 <= g < f - 1 ==> oks@[g] == oks_before[g]);
                    assert(sinks_before[i].accepted() == old(sinks)@[i].accepted());
                    assert(!(oks@[f - 1])@[i]);
                }
            }
        }
        proof {
            let views = flushes@.map_values(|b: Vec<LogEntry>| b@);
            assert(views.take(views.len() as int) =~= views);
        }
        (flushes, oks)
    }
}

} // verus!
