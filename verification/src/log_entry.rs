//! The log event record and its severity levels.

use vstd::prelude::*;

verus! {

/// Severity of a log event, in ascending cumulative order for sampling.
#[derive(Clone, Copy, Debug, PartialEq, Eq, Structural)]
pub enum LogLevel {
    Debug,
    Info,
    Warn,
    Error,
}

impl LogLevel {
    /// The canonical upper-case name of this level.
    pub open spec fn spec_label(self) -> Seq<char> {
        match self {
            LogLevel::Debug => "DEBUG"@,
            LogLevel::Info => "INFO"@,
            LogLevel::Warn => "WARN"@,
            LogLevel::Error => "ERROR"@,
        }
    }

    /// Upper-case name of the level, as printed on the console.
    pub fn label(&self) -> (r: &'static str)
        ensures
            r@ == self.spec_label(),
    {
        match self {
            LogLevel::Debug => "DEBUG",
            LogLevel::Info => "INFO",
            LogLevel::Warn => "WARN",
            LogLevel::Error => "ERROR",
        }
    }
}

/// The mathematical value of a log event: every field as its abstract view.
pub ghost struct LogEntryV {
    pub id: Seq<char>,
    pub timestamp_ms: int,
    pub service: Seq<char>,
    pub level: LogLevel,
    pub message: Seq<char>,
    pub embedding: Seq<u32>,
}

/// One generated log event. Created once per emission and never mutated:
/// ownership moves from its producer through the channel to the buffer, and
/// sinks only read it.
#[derive(Debug)]
pub struct LogEntry {
    /// Unique id, fresh per emission.
    pub id: String,
    /// Creation time, in milliseconds since the Unix epoch.
    pub timestamp_ms: i64,
    /// Name of the service that emitted the event.
    pub service: String,
    /// Sampled severity.
    pub level: LogLevel,
    /// Message text, drawn from the message pool.
    pub message: String,
    /// Embedding coordinates, each held as the raw bit pattern of an IEEE 754
    /// single-precision value; the pipeline moves them without arithmetic.
    pub embedding: Vec<u32>,
}

impl View for LogEntry {
    type V = LogEntryV;

    open spec fn view(&self) -> LogEntryV {
        LogEntryV {
            id: self.id@,
            timestamp_ms: self.timestamp_ms as int,
            service: self.service@,
            level: self.level,
            message: self.message@,
            embedding: self.embedding@,
        }
    }
}

impl Clone for LogEntry {
    fn clone(&self) -> (r: Self)
        ensures
            r@ == self@,
    {
        let r = LogEntry {
            id: self.id.clone(),
            timestamp_ms: self.timestamp_ms,
            service: self.service.clone(),
            level: self.level,
            message: self.message.clone(),
            embedding: self.embedding.clone(),
        };
        proof {
            assert(r.embedding@ =~= self.embedding@);
            assert(r@ == self@);
        }
        r
    }
}

/// The views of the events of a batch, in batch order.
pub open spec fn batch_view(batch: Seq<LogEntry>) -> Seq<LogEntryV> {
    batch.map_values(|e: LogEntry| e@)
}

} // verus!
