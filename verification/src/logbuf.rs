//! The log capture model: one append-only feed of leveled, targeted
//! records, observed by the console and queried by the level-filter
//! selector.

use vstd::prelude::*;
use vstd::string::StringExecFns;

verus! {

#[derive(Clone, Copy, Debug, PartialEq, Eq, Structural)]
pub enum LogLevel {
    Error,
    Warn,
    Info,
    Debug,
    Trace,
}

/// Severity as a number, most severe first.
pub open spec fn level_rank(l: LogLevel) -> nat {
    match l {
        LogLevel::Error => 0,
        LogLevel::Warn => 1,
        LogLevel::Info => 2,
        LogLevel::Debug => 3,
        LogLevel::Trace => 4,
    }
}

fn level_rank_exec(l: LogLevel) -> (r: u8)
    ensures
        r == level_rank(l),
{
    match l {
        LogLevel::Error => 0,
        LogLevel::Warn => 1,
        LogLevel::Info => 2,
        LogLevel::Debug => 3,
        LogLevel::Trace => 4,
    }
}

/// Whether a record of level `l` passes a filter set at `max`.
pub open spec fn level_enabled(l: LogLevel, max: LogLevel) -> bool {
    level_rank(l) <= level_rank(max)
}

/// One leveled, targeted log record.
pub struct LogRecord {
    pub level: LogLevel,
    pub target: String,
    pub message: String,
}

/// The positions of the records that pass a filter, in order.
pub open spec fn spec_visible(s: Seq<LogRecord>, max: LogLevel) -> Seq<int>
    decreases s.len(),
{
    if s.len() == 0 {
        Seq::empty()
    } else {
        let pre = spec_visible(s.drop_last(), max);
        if level_enabled(s.last().level, max) {
            pre.push(s.len() - 1)
        } else {
            pre
        }
    }
}

/// An append-only broadcast feed of log records. Both the console's
/// panels and the selector widget observe this one feed; neither keeps
/// a buffer of its own.
pub struct LogBuffer {
    pub records: Vec<LogRecord>,
}

impl LogBuffer {
    pub open spec fn log(&self) -> Seq<LogRecord> {
        self.records@
    }

    pub fn new() -> (b: Self)
        ensures
            b.log() == Seq::<LogRecord>::empty(),
    {
        LogBuffer { records: Vec::new() }
    }

    /// Append one record; nothing already in the feed moves or changes.
    pub fn append(&mut self, level: LogLevel, target: &str, message: String)
        ensures
            final(self).log().len() == old(self).log().len() + 1,
            final(self).log() == old(self).log().push(final(self).log().last()),
            final(self).log().last().level == level,
            final(self).log().last().target@ == target@,
            final(self).log().last().message@ == message@,
    {
        self.records.push(LogRecord { level, target: String::from_str(target), message });
    }

    /// Look one record up.
    pub fn record(&self, i: usize) -> (r: &LogRecord)
        requires
            i < self.log().len(),
        ensures
            *r == self.log()[i as int],
    {
        &self.records[i]
    }

    /// The positions of the records the selector shows under a filter.
    pub fn visible_indices(&self, max: LogLevel) -> (r: Vec<usize>)
        ensures
            r@.map_values(|x: usize| x as int) == spec_visible(self.log(), max),
    {
        let mut r: Vec<usize> = Vec::new();
        let max_rank = level_rank_exec(max);
        proof {
            assert(self.log().take(0) =~= Seq::<LogRecord>::empty());
            assert(r@.map_values(|x: usize| x as int)
                =~= spec_visible(self.log().take(0), max));
        }
        let mut i: usize = 0;
        while i < self.records.len()
            invariant
                i <= self.records.len(),
                r@.map_values(|x: usize| x as int) == spec_visible(
                    self.log().take(i as int),
                    max,
                ),
            decreases self.records.len() - i,
        {
            let ghost before = r@;
            if level_rank_exec(self.records[i].level) <= level_rank_exec(max) {
                r.push(i);
            }
            proof {
                let t = self.log().take(i + 1);
                assert(t.drop_last() =~= self.log().take(i as int));
                assert(t.last() == self.log()[i as int]);
                if level_enabled(self.log()[i as int].level, max) {
                    assert(r@.map_values(|x: usize| x as int)
                        =~= before.map_values(|x: usize| x as int).push(i as int));
                } else {
                    assert(r@ == before);
                }
            }
            i = i + 1;
        }
        proof {
            assert(self.log().take(self.records.len() as int) =~= self.log());
        }
        r
    }
}

} // verus!
