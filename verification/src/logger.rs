use std::collections::VecDeque;

use vstd::prelude::*;

verus! {

/// Most records the on-screen log keeps; older ones are dropped first.
pub const LOG_BUFFER_CAPACITY: usize = 1000;

/// Severity of a log record.
#[derive(Debug, Clone, Copy, PartialEq, Eq, Structural)]
pub enum LogLevel {
    Error,
    Warn,
    Info,
    Debug,
    Trace,
}

/// One line of the on-screen log.
#[derive(Debug, Clone)]
pub struct LogRecord {
    pub level: LogLevel,
    pub message: String,
    pub timestamp: String,
}

/// The log after recording `record`: appended at the end, with the oldest
/// record dropped first when the log is full.
pub open spec fn spec_logged<T>(records: Seq<T>, record: T) -> Seq<T> {
    if records.len() >= LOG_BUFFER_CAPACITY {
        records.drop_first().push(record)
    } else {
        records.push(record)
    }
}

/// Record a line in the on-screen log, keeping at most `LOG_BUFFER_CAPACITY`
/// records.
pub fn push_log_record(buffer: &mut VecDeque<LogRecord>, record: LogRecord)
    ensures
        final(buffer)@ == spec_logged(old(buffer)@, record),
        old(buffer)@.len() <= LOG_BUFFER_CAPACITY ==> final(buffer)@.len() <= LOG_BUFFER_CAPACITY,
        final(buffer)@.last() == record,
{
    if buffer.len() >= LOG_BUFFER_CAPACITY {
        let _ = buffer.pop_front();
    }
    buffer.push_back(record);
}

/// A full log stays full: recording a line into a log at capacity drops
/// exactly one old line, and the newest lines are kept in order.
pub proof fn lemma_full_log_keeps_newest<T>(records: Seq<T>, record: T)
    requires
        records.len() == LOG_BUFFER_CAPACITY,
    ensures
        spec_logged(records, record).len() == LOG_BUFFER_CAPACITY,
        spec_logged(records, record) == records.subrange(1, records.len() as int).push(record),
{
    assert(records.drop_first() =~= records.subrange(1, records.len() as int));
}

} // verus!
