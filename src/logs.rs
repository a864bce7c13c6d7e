//! The application log: a bounded store where the oldest entries make room for
//! new ones.
use crate::async_state::Trace;
use std::collections::VecDeque;
use vstd::prelude::*;

verus! {

/// Level of a log entry.
#[derive(Debug, Clone, Copy, PartialEq, Eq, Structural)]
pub enum LogLevel {
    Info,
    Error,
    Success,
}

/// A single record of the log.
#[derive(Debug, Clone)]
pub struct LogEntry {
    /// Wall-clock time of the record, in milliseconds since the Unix epoch (UTC).
    pub timestamp: i64,
    pub message: String,
    pub level: LogLevel,
}

/// Relies on `chrono::Utc::now`: reads the wall clock, converted to milliseconds
/// since the Unix epoch with `timestamp_millis`. Nothing is known of the value.
#[verifier::external_body]
fn utc_now_millis() -> i64 {
    chrono::Utc::now().timestamp_millis()
}

/// The entries after one with `message` and `level` was added to `before` in a
/// store of the given capacity: when full, the oldest entry is dropped first.
pub open spec fn pushed(
    before: Seq<(Seq<char>, LogLevel)>,
    capacity: usize,
    message: Seq<char>,
    level: LogLevel,
) -> Seq<(Seq<char>, LogLevel)> {
    let kept = if before.len() >= capacity && before.len() > 0 {
        before.drop_first()
    } else {
        before
    };
    kept.push((message, level))
}

/// Adding an entry to a log within its capacity keeps it within its capacity,
/// and the new entry is the last one.
pub proof fn lemma_push_bounded(
    before: Seq<(Seq<char>, LogLevel)>,
    capacity: usize,
    message: Seq<char>,
    level: LogLevel,
)
    requires
        capacity > 0,
        before.len() <= capacity,
    ensures
        pushed(before, capacity, message, level).len() <= capacity,
        pushed(before, capacity, message, level).last() == (message, level),
{
}

/// A bounded log: the newest entries, oldest first, at most `capacity` of them.
pub struct LogStore {
    entries: VecDeque<LogEntry>,
    capacity: usize,
}

impl LogStore {
    #[verifier::type_invariant]
    spec fn inv(&self) -> bool {
        self.entries@.len() <= if self.capacity == 0 { 1 } else { self.capacity as int }
    }

    /// Message and level of each entry, oldest first.
    pub closed spec fn view(&self) -> Seq<(Seq<char>, LogLevel)> {
        self.entries@.map_values(|e: LogEntry| (e.message@, e.level))
    }

    /// Most entries kept.
    pub closed spec fn capacity_spec(&self) -> usize {
        self.capacity
    }

    /// An empty log that keeps at most `capacity` entries.
    pub fn new(capacity: usize) -> (s: Self)
        ensures
            s.view().len() == 0,
            s.capacity_spec() == capacity,
    {
        let s = LogStore { entries: VecDeque::with_capacity(capacity), capacity };
        assert(s.view() =~= Seq::<(Seq<char>, LogLevel)>::empty());
        s
    }

    /// Logs an informational message.
    pub fn info(&mut self, message: String)
        ensures
            final(self).view() == pushed(old(self).view(), old(self).capacity_spec(), message@, LogLevel::Info),
            final(self).capacity_spec() == old(self).capacity_spec(),
    {
        self.push(message, LogLevel::Info);
    }

    /// Logs an error message.
    pub fn error(&mut self, message: String)
        ensures
            final(self).view() == pushed(old(self).view(), old(self).capacity_spec(), message@, LogLevel::Error),
            final(self).capacity_spec() == old(self).capacity_spec(),
    {
        self.push(message, LogLevel::Error);
    }

    /// Logs a success message.
    pub fn success(&mut self, message: String)
        ensures
            final(self).view() == pushed(old(self).view(), old(self).capacity_spec(), message@, LogLevel::Success),
            final(self).capacity_spec() == old(self).capacity_spec(),
    {
        self.push(message, LogLevel::Success);
    }

    /// Logs a load report: a success or an error line; nothing for `None`.
    pub fn trace(&mut self, trace: Option<Trace>)
        ensures
            final(self).capacity_spec() == old(self).capacity_spec(),
            trace is None ==> final(self).view() == old(self).view(),
            trace matches Some(Trace::Success(m)) ==> final(self).view() == pushed(
                old(self).view(),
                old(self).capacity_spec(),
                m@,
                LogLevel::Success,
            ),
            trace matches Some(Trace::Error(m)) ==> final(self).view() == pushed(
                old(self).view(),
                old(self).capacity_spec(),
                m@,
                LogLevel::Error,
            ),
    {
        match trace {
            Some(Trace::Success(msg)) => self.success(msg),
            Some(Trace::Error(msg)) => self.error(msg),
            None => {},
        }
    }

    /// Adds an entry stamped with the current time, dropping the oldest when full.
    fn push(&mut self, message: String, level: LogLevel)
        ensures
            final(self).view() == pushed(old(self).view(), old(self).capacity_spec(), message@, level),
            final(self).capacity_spec() == old(self).capacity_spec(),
    {
        proof {
            use_type_invariant(&*self);
        }
        let ghost before = self.entries@;
        let timestamp = utc_now_millis();
        let mut entries = VecDeque::new();
        std::mem::swap(&mut entries, &mut self.entries);
        if entries.len() >= self.capacity && entries.len() > 0 {
            entries.pop_front();
        }
        let ghost kept = entries@;
        entries.push_back(LogEntry { timestamp, message, level });
        proof {
            let f = |e: LogEntry| (e.message@, e.level);
            if before.len() >= self.capacity && before.len() > 0 {
                assert(kept.map_values(f) =~= before.map_values(f).drop_first());
            } else {
                assert(kept.map_values(f) =~= before.map_values(f));
            }
            assert(entries@.map_values(f) =~= kept.map_values(f).push((message@, level)));
        }
        *self = LogStore { entries, capacity: self.capacity };
    }

    /// The entries, oldest first.
    pub fn entries(&self) -> (r: &VecDeque<LogEntry>)
        ensures
            r@.map_values(|e: LogEntry| (e.message@, e.level)) == self.view(),
    {
        &self.entries
    }

    /// Number of entries.
    pub fn len(&self) -> (r: usize)
        ensures
            r == self.view().len(),
    {
        self.entries.len()
    }

    /// Removes all entries.
    pub fn clear(&mut self)
        ensures
            final(self).view().len() == 0,
            final(self).capacity_spec() == old(self).capacity_spec(),
    {
        let capacity = self.capacity;
        *self = LogStore { entries: VecDeque::new(), capacity };
        assert(self.view() =~= Seq::<(Seq<char>, LogLevel)>::empty());
    }
}

} // verus!
