//! Structured log records and the bounded in-memory log buffer.
//!
//! Writing entries to disk, rotating files and timestamping are host-side
//! work; what is kept here — severity filtering and the bounded buffer of
//! recent entries — is the part with invariants worth stating.

use vstd::prelude::*;

use crate::textutil::str_to_string;

verus! {

/// Severity of a log entry, from most to least severe.
#[derive(Debug, Clone, Copy, PartialEq, Eq, Structural)]
pub enum LogLevel {
    Error,
    Warn,
    Info,
    Debug,
    Trace,
}

impl LogLevel {
    /// The level's rank: lower is more severe.
    pub open spec fn severity(self) -> int {
        match self {
            LogLevel::Error => 0,
            LogLevel::Warn => 1,
            LogLevel::Info => 2,
            LogLevel::Debug => 3,
            LogLevel::Trace => 4,
        }
    }

    /// The level's fixed display name.
    pub open spec fn spec_name(self) -> Seq<char> {
        match self {
            LogLevel::Error => "ERROR"@,
            LogLevel::Warn => "WARN"@,
            LogLevel::Info => "INFO"@,
            LogLevel::Debug => "DEBUG"@,
            LogLevel::Trace => "TRACE"@,
        }
    }

    /// The level's fixed terminal color code.
    pub open spec fn spec_color(self) -> Seq<char> {
        match self {
            LogLevel::Error => "\u{1b}[31m"@,
            LogLevel::Warn => "\u{1b}[33m"@,
            LogLevel::Info => "\u{1b}[32m"@,
            LogLevel::Debug => "\u{1b}[36m"@,
            LogLevel::Trace => "\u{1b}[37m"@,
        }
    }

    /// The display name of the level.
    pub fn to_str(&self) -> (r: &'static str)
        ensures
            r@ == self.spec_name(),
    {
        match self {
            LogLevel::Error => "ERROR",
            LogLevel::Warn => "WARN",
            LogLevel::Info => "INFO",
            LogLevel::Debug => "DEBUG",
            LogLevel::Trace => "TRACE",
        }
    }

    /// The terminal color code of the level.
    pub fn color(&self) -> (r: &'static str)
        ensures
            r@ == self.spec_color(),
    {
        match self {
            LogLevel::Error => "\u{1b}[31m",
            LogLevel::Warn => "\u{1b}[33m",
            LogLevel::Info => "\u{1b}[32m",
            LogLevel::Debug => "\u{1b}[36m",
            LogLevel::Trace => "\u{1b}[37m",
        }
    }
}

/// One structured log record.
pub struct LogEntry {
    pub timestamp_ms: u64,
    pub level: LogLevel,
    pub target: String,
    pub message: String,
}

/// Mathematical image of a [`LogEntry`].
pub struct LogEntryView {
    pub timestamp_ms: u64,
    pub level: LogLevel,
    pub target: Seq<char>,
    pub message: Seq<char>,
}

impl View for LogEntry {
    type V = LogEntryView;

    open spec fn view(&self) -> LogEntryView {
        LogEntryView {
            timestamp_ms: self.timestamp_ms,
            level: self.level,
            target: self.target@,
            message: self.message@,
        }
    }
}

impl LogEntry {
    /// A copy of the entry with the same image.
    pub fn duplicate(&self) -> (r: LogEntry)
        ensures
            r@ == self@,
    {
        LogEntry {
            timestamp_ms: self.timestamp_ms,
            level: self.level,
            target: self.target.clone(),
            message: self.message.clone(),
        }
    }
}

/// How the logger behaves: the threshold level, where entries go, and how
/// many recent entries the in-memory buffer keeps.
pub struct LoggerConfig {
    pub level: LogLevel,
    pub log_to_file: bool,
    pub log_to_console: bool,
    pub file_path: String,
    pub max_file_size: u64,
    pub max_files: usize,
    pub buffer_size: usize,
    pub flush_interval_ms: u64,
    pub enable_colors: bool,
}

/// The bounded in-memory buffer of recent log entries: entries below the
/// configured severity threshold are dropped, and once the buffer is full
/// the oldest entry makes room for the newest.
pub struct LogBuffer {
    level: LogLevel,
    buffer_size: usize,
    entries: Vec<LogEntry>,
}

impl LogBuffer {
    /// The threshold level.
    pub closed spec fn spec_level(self) -> LogLevel {
        self.level
    }

    /// How many entries the buffer holds at most.
    pub closed spec fn capacity(self) -> usize {
        self.buffer_size
    }

    /// The buffered entries, oldest first.
    pub closed spec fn entry_views(self) -> Seq<LogEntryView> {
        self.entries@.map(|i: int, e: LogEntry| e@)
    }

    /// Whether an entry of severity `level` passes the threshold.
    pub open spec fn passes(self, level: LogLevel) -> bool {
        level.severity() <= self.spec_level().severity()
    }

    /// An empty buffer for the given threshold and capacity.
    pub fn new(config: &LoggerConfig) -> (r: Self)
        ensures
            r.spec_level() == config.level,
            r.capacity() == config.buffer_size,
            r.entry_views() == Seq::<LogEntryView>::empty(),
    {
        let r = LogBuffer { level: config.level, buffer_size: config.buffer_size, entries: Vec::new() };
        proof {
            assert(r.entry_views() =~= Seq::<LogEntryView>::empty());
        }
        r
    }

    /// Whether an entry of severity `level` would be recorded.
    pub fn should_log(&self, level: &LogLevel) -> (r: bool)
        ensures
            r == self.passes(*level),
    {
        let current_level: u8 = match self.level {
            LogLevel::Error => 0,
            LogLevel::Warn => 1,
            LogLevel::Info => 2,
            LogLevel::Debug => 3,
            LogLevel::Trace => 4,
        };
        let message_level: u8 = match level {
            LogLevel::Error => 0,
            LogLevel::Warn => 1,
            LogLevel::Info => 2,
            LogLevel::Debug => 3,
            LogLevel::Trace => 4,
        };
        message_level <= current_level
    }

    /// Records one entry, timestamped by the caller.  An entry below the
    /// threshold is dropped; otherwise it is appended, and when the buffer
    /// already holds `capacity` entries the oldest one is evicted first.
    pub fn log(&mut self, level: LogLevel, target: &str, message: &str, timestamp_ms: u64)
        ensures
            final(self).spec_level() == old(self).spec_level(),
            final(self).capacity() == old(self).capacity(),
            !old(self).passes(level) ==> final(self).entry_views() == old(self).entry_views(),
            old(self).passes(level) ==> final(self).entry_views() == (if old(
                self,
            ).entry_views().len() >= old(self).capacity() && old(self).entry_views().len() > 0 {
                old(self).entry_views().drop_first()
            } else {
                old(self).entry_views()
            }).push(
                LogEntryView { timestamp_ms, level, target: target@, message: message@ },
            ),
    {
        if !self.should_log(&level) {
            return ;
        }
        let entry = LogEntry {
            timestamp_ms,
            level,
            target: str_to_string(target),
            message: str_to_string(message),
        };
        if self.entries.len() >= self.buffer_size && self.entries.len() > 0 {
            let ghost before = self.entries@;
            self.entries.remove(0);
            proof {
                assert(self.entries@.map(|i: int, e: LogEntry| e@) =~= before.map(
                    |i: int, e: LogEntry| e@,
                ).drop_first());
            }
        }
        let ghost kept = self.entries@;
        self.entries.push(entry);
        proof {
            assert(self.entries@.map(|i: int, e: LogEntry| e@) =~= kept.map(
                |i: int, e: LogEntry| e@,
            ).push(entry@));
        }
    }

    /// The most recent `limit` entries, oldest first; all of them when
    /// fewer are held.
    pub fn get_recent_logs(&self, limit: usize) -> (r: Vec<LogEntry>)
        ensures
            r@.map(|i: int, e: LogEntry| e@) == (if limit >= self.entry_views().len() {
                self.entry_views()
            } else {
                self.entry_views().skip(self.entry_views().len() - limit)
            }),
    {
        let len = self.entries.len();
        let start: usize = if limit >= len {
            0
        } else {
            len - limit
        };
        let mut r: Vec<LogEntry> = Vec::new();
        let mut i: usize = start;
        while i < len
            invariant
                start <= i <= len,
                len == self.entries@.len(),
                r@.len() == i - start,
                forall|j: int| 0 <= j < r@.len() ==> r@[j]@ == self.entries@[start + j]@,
            decreases len - i,
        {
            r.push(self.entries[i].duplicate());
            i += 1;
        }
        proof {
            if limit >= len {
                assert(r@.map(|i: int, e: LogEntry| e@) =~= self.entry_views());
            } else {
                assert(r@.map(|i: int, e: LogEntry| e@) =~= self.entry_views().skip(
                    len - limit,
                ));
            }
        }
        r
    }

    /// Forgets every buffered entry.
    pub fn clear_buffer(&mut self)
        ensures
            final(self).spec_level() == old(self).spec_level(),
            final(self).capacity() == old(self).capacity(),
            final(self).entry_views() == Seq::<LogEntryView>::empty(),
    {
        self.entries.clear();
        proof {
            assert(self.entry_views() =~= Seq::<LogEntryView>::empty());
        }
    }
}

} // verus!
