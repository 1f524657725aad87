use vstd::prelude::*;

verus! {

/// Severity of a diagnostic record emitted by this crate.
#[derive(Clone, Copy, Debug, PartialEq, Eq, Structural)]
pub enum LogLevel {
    /// A notification could not be displayed.
    Error,
    /// A benign misuse, such as registering a second activation handler.
    Warn,
}

/// One diagnostic record. Notification delivery is best-effort: a backend
/// failure never reaches the caller of `show`, it only leaves a record here.
#[derive(Debug, Clone)]
pub struct LogRecord {
    pub level: LogLevel,
    pub text: String,
}

/// The mathematical value of a [`LogRecord`].
#[verifier::ext_equal]
pub ghost struct LogRecordView {
    pub level: LogLevel,
    pub text: Seq<char>,
}

impl View for LogRecord {
    type V = LogRecordView;

    open spec fn view(&self) -> LogRecordView {
        LogRecordView { level: self.level, text: self.text@ }
    }
}

/// An in-process sink for diagnostics. The facade funnels every recovered
/// failure through this single point; the embedding application drains it
/// into whatever logging framework it uses.
#[derive(Debug)]
pub struct LogBuffer {
    records: Vec<LogRecord>,
}

impl View for LogBuffer {
    type V = Seq<LogRecordView>;

    closed spec fn view(&self) -> Seq<LogRecordView> {
        self.records@.map_values(|r: LogRecord| r@)
    }
}

impl LogBuffer {
    /// An empty buffer.
    pub fn new() -> (buffer: LogBuffer)
        ensures
            buffer@ == Seq::<LogRecordView>::empty(),
    {
        let buffer = LogBuffer { records: Vec::new() };
        proof {
            assert(buffer@ =~= Seq::<LogRecordView>::empty());
        }
        buffer
    }

    /// Appends one record at the end of the buffer.
    pub(crate) fn push(&mut self, record: LogRecord)
        ensures
            final(self)@ == old(self)@.push(record@),
    {
        let ghost prev = self@;
        let ghost record_view = record@;
        self.records.push(record);
        proof {
            assert(self@ =~= prev.push(record_view));
        }
    }

    /// How many records the buffer holds.
    pub fn len(&self) -> (n: usize)
        ensures
            n == self@.len(),
    {
        self.records.len()
    }

    /// The record at position `i`, oldest first.
    pub fn record(&self, i: usize) -> (record: &LogRecord)
        requires
            i < self@.len(),
        ensures
            record@ == self@[i as int],
    {
        &self.records[i]
    }
}

} // verus!
