use vstd::prelude::*;
use crate::command::{digit_value, is_digit};

verus! {

/// Soft cap of the log store: once it holds more entries, a batch is evicted.
pub const LOG_SOFT_CAP: usize = 1000;

/// Number of oldest entries evicted in one batch when the soft cap is passed.
pub const LOG_EVICT_BATCH: usize = 500;

#[derive(Clone, Copy, Debug, PartialEq, Eq, Structural)]
pub enum LogLevel {
    Info,
    Error,
    Debug,
    Command,
}

#[derive(Clone, Debug)]
pub struct LogEntry {
    pub time: String,
    pub message: String,
    pub level: LogLevel,
}

/// What a log store holds after `e` is appended to `s`: the entry goes at the
/// end, and when that makes the store exceed the soft cap the oldest batch is
/// dropped at once.
pub open spec fn bounded_append(s: Seq<LogEntry>, e: LogEntry) -> Seq<LogEntry> {
    let t = s.push(e);
    if t.len() > LOG_SOFT_CAP {
        t.skip(LOG_EVICT_BATCH as int)
    } else {
        t
    }
}

/// Bounded, append-only store of log entries.
pub struct Logger {
    entries: Vec<LogEntry>,
}

impl View for Logger {
    type V = Seq<LogEntry>;

    closed spec fn view(&self) -> Seq<LogEntry> {
        self.entries@
    }
}

/// Two decimal digits at `i` and `i + 1` whose value is at most `max`.
pub open spec fn two_digits(t: Seq<char>, i: int, max: int) -> bool {
    &&& is_digit(t[i])
    &&& is_digit(t[i + 1])
    &&& digit_value(t[i]) * 10 + digit_value(t[i + 1]) <= max
}

/// A wall-clock time written `HH:MM:SS`: hours 00 to 23, minutes 00 to 59,
/// seconds 00 to 60 (a leap second).
pub open spec fn is_clock_text(t: Seq<char>) -> bool {
    &&& t.len() == 8
    &&& t[2] == ':'
    &&& t[5] == ':'
    &&& two_digits(t, 0, 23)
    &&& two_digits(t, 3, 59)
    &&& two_digits(t, 6, 60)
}

/// Relies on chrono's `Local::now` and its `%H:%M:%S` formatting: the local
/// wall-clock time as hours, minutes and seconds, each zero-padded to two
/// digits, separated by colons.
#[verifier::external_body]
fn clock_hms() -> (r: String)
    ensures
        is_clock_text(r@),
{
    chrono::Local::now().format("%H:%M:%S").to_string()
}

/// A store that starts within the soft cap stays within it after an append.
pub proof fn lemma_append_within_cap(s: Seq<LogEntry>, e: LogEntry)
    requires
        s.len() <= LOG_SOFT_CAP,
    ensures
        bounded_append(s, e).len() <= LOG_SOFT_CAP,
        bounded_append(s, e).last() == e,
{
}

impl Logger {
    pub fn len(&self) -> (r: usize)
        ensures
            r == self@.len(),
    {
        self.entries.len()
    }

    pub fn new() -> (r: Logger)
        ensures
            r@ == Seq::<LogEntry>::empty(),
    {
        Logger { entries: Vec::new() }
    }

    /// Appends an entry whose time stamp is supplied by the caller.
    pub fn push_entry(&mut self, entry: LogEntry)
        ensures
            final(self)@ == bounded_append(old(self)@, entry),
    {
        self.entries.push(entry);
        if self.entries.len() > LOG_SOFT_CAP {
            let kept = self.entries.split_off(LOG_EVICT_BATCH);
            self.entries = kept;
            assert(self.entries@ =~= bounded_append(old(self)@, entry));
        }
    }

    /// Appends a message at the given level, stamped with the local time.
    pub fn log(&mut self, level: LogLevel, message: String)
        ensures
            final(self)@ == bounded_append(
                old(self)@,
                LogEntry { time: final(self)@.last().time, message, level },
            ),
            is_clock_text(final(self)@.last().time@),
    {
        let time = clock_hms();
        let entry = LogEntry { time, message, level };
        self.push_entry(entry);
    }

    /// Empties the store.
    pub fn clear(&mut self)
        ensures
            final(self)@ == Seq::<LogEntry>::empty(),
    {
        self.entries.clear();
    }

    /// The entries held, oldest first.
    pub fn entries(&self) -> (r: &Vec<LogEntry>)
        ensures
            r@ == self@,
    {
        &self.entries
    }
}

/// What `log_*` leaves in a store that held `s`: `msg` appended at `level`,
/// stamped with the local time as `HH:MM:SS`.
pub open spec fn logged(s: Seq<LogEntry>, t: Seq<LogEntry>, level: LogLevel, msg: Seq<char>) -> bool {
    &&& t == bounded_append(s, LogEntry { time: t.last().time, message: t.last().message, level })
    &&& t.last().message@ == msg
    &&& is_clock_text(t.last().time@)
}

fn log_at(logger: &mut Logger, level: LogLevel, msg: &str)
    ensures
        logged(old(logger)@, final(logger)@, level, msg@),
{
    let m = msg.to_owned();
    logger.log(level, m);
}

pub fn log_info(logger: &mut Logger, msg: &str)
    ensures
        logged(old(logger)@, final(logger)@, LogLevel::Info, msg@),
{
    log_at(logger, LogLevel::Info, msg)
}

pub fn log_error(logger: &mut Logger, msg: &str)
    ensures
        logged(old(logger)@, final(logger)@, LogLevel::Error, msg@),
{
    log_at(logger, LogLevel::Error, msg)
}

pub fn log_debug(logger: &mut Logger, msg: &str)
    ensures
        logged(old(logger)@, final(logger)@, LogLevel::Debug, msg@),
{
    log_at(logger, LogLevel::Debug, msg)
}

pub fn log_command(logger: &mut Logger, msg: &str)
    ensures
        logged(old(logger)@, final(logger)@, LogLevel::Command, msg@),
{
    log_at(logger, LogLevel::Command, msg)
}

} // verus!
