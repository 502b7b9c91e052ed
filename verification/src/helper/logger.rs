//! An in-memory log store whose entries carry the second at which they were
//! recorded.
use vstd::prelude::*;
use std::time::{Duration, UNIX_EPOCH};
use crate::logger::{LogLevel, StoreCall, store_after};

verus! {

/// What `Duration::as_secs` returns: the whole seconds of a duration.
pub uninterp spec fn duration_secs(d: Duration) -> u64;

/// The time elapsed since the Unix epoch, by `SystemTime::elapsed` on
/// `UNIX_EPOCH`; `None` when the system clock is set before the epoch.
/// Trusted, and nothing is stated of the value: it depends on the clock.
#[verifier::external_body]
fn epoch_elapsed() -> (res: Option<Duration>) {
    UNIX_EPOCH.elapsed().ok()
}

/// The whole seconds of `d`, by `Duration::as_secs`.  Trusted to be the
/// named value `duration_secs(d)`.
#[verifier::external_body]
fn whole_secs(d: Duration) -> (res: u64)
    ensures
        res == duration_secs(d),
{
    d.as_secs()
}

/// The whole seconds of a clock reading taken as the time elapsed since
/// the Unix epoch: 0 when there is none (the clock is before the epoch).
pub open spec fn reading_secs(reading: Option<Duration>) -> u64 {
    match reading {
        Some(d) => duration_secs(d),
        None => 0,
    }
}

/// The whole seconds of a clock reading taken as the time elapsed since
/// the Unix epoch, or 0 when the clock is before the epoch.
pub fn seconds_since_epoch(reading: Option<Duration>) -> (res: u64)
    ensures
        res == reading_secs(reading),
{
    match reading {
        Some(d) => whole_secs(d),
        None => 0,
    }
}

/// Seconds since the Unix epoch now, or 0 when the clock is before the epoch.
fn now_secs() -> (res: u64)
    ensures
        exists|reading: Option<Duration>| res == reading_secs(reading),
{
    let reading = epoch_elapsed();
    seconds_since_epoch(reading)
}

/// One recorded entry.
pub struct Log {
    level: LogLevel,
    time: u64,
    content: String,
}

impl View for Log {
    type V = (LogLevel, u64, Seq<char>);

    closed spec fn view(&self) -> (LogLevel, u64, Seq<char>) {
        (self.level, self.time, self.content@)
    }
}

impl Log {
    /// An entry recorded at second `time`.
    pub fn at(level: LogLevel, time: u64, content: String) -> (res: Log)
        ensures
            res@ == (level, time, content@),
    {
        Log { level, time, content }
    }

    /// An entry recorded at the second of the clock reading `reading`.
    pub fn from_reading(level: LogLevel, reading: Option<Duration>, content: String) -> (res: Log)
        ensures
            res@ == (level, reading_secs(reading), content@),
    {
        Self::at(level, seconds_since_epoch(reading), content)
    }

    fn new(level: LogLevel, content: String) -> (res: Log)
        ensures
            exists|reading: Option<Duration>| res@ == (level, reading_secs(reading), content@),
    {
        let time = now_secs();
        Self::at(level, time, content)
    }

    fn info(content: String) -> (res: Log)
        ensures
            exists|reading: Option<Duration>|
                res@ == (LogLevel::Info, reading_secs(reading), content@),
    {
        Self::new(LogLevel::Info, content)
    }

    fn error(content: String) -> (res: Log)
        ensures
            exists|reading: Option<Duration>|
                res@ == (LogLevel::Error, reading_secs(reading), content@),
    {
        Self::new(LogLevel::Error, content)
    }

    fn warn(content: String) -> (res: Log)
        ensures
            exists|reading: Option<Duration>|
                res@ == (LogLevel::Warn, reading_secs(reading), content@),
    {
        Self::new(LogLevel::Warn, content)
    }

    /// The entry's level.
    pub fn level(&self) -> (res: LogLevel)
        ensures
            res == self@.0,
    {
        self.level
    }

    /// The second at which the entry was recorded.
    pub fn time(&self) -> (res: u64)
        ensures
            res == self@.1,
    {
        self.time
    }

    /// The entry's text.
    pub fn content(&self) -> (res: &str)
        ensures
            res@ == self@.2,
    {
        self.content.as_str()
    }
}

/// An append-only store of timed entries that can be emptied in one go.
pub struct Logger {
    store: Vec<Log>,
}

impl View for Logger {
    type V = Seq<(LogLevel, u64, Seq<char>)>;

    closed spec fn view(&self) -> Seq<(LogLevel, u64, Seq<char>)> {
        self.store@.map_values(|l: Log| l@)
    }
}

impl Logger {
    /// An empty store.
    pub fn new() -> (res: Logger)
        ensures
            res@ == Seq::<(LogLevel, u64, Seq<char>)>::empty(),
    {
        let res = Logger { store: Vec::new() };
        assert(res@ =~= Seq::<(LogLevel, u64, Seq<char>)>::empty());
        res
    }

    /// Appends an entry that was made beforehand, after every entry stored.
    pub fn push(&mut self, log: Log)
        ensures
            final(self)@ == store_after(old(self)@, StoreCall::Record(log@)),
    {
        self.store.push(log);
        assert(self@ =~= old(self)@.push(log@));
    }

    /// Records `log` at level info and the current second, after every entry
    /// already stored.
    pub fn info(&mut self, log: String)
        ensures
            exists|reading: Option<Duration>|
                final(self)@ == store_after(
                    old(self)@,
                    StoreCall::Record((LogLevel::Info, reading_secs(reading), log@)),
                ),
    {
        let entry = Log::info(log);
        let ghost reading = choose|reading: Option<Duration>|
            entry@ == (LogLevel::Info, reading_secs(reading), log@);
        self.push(entry);
        assert(self@ == store_after(
            old(self)@,
            StoreCall::Record((LogLevel::Info, reading_secs(reading), log@)),
        ));
    }

    /// Records `log` at level error and the current second, after every entry
    /// already stored.
    pub fn error(&mut self, log: String)
        ensures
            exists|reading: Option<Duration>|
                final(self)@ == store_after(
                    old(self)@,
                    StoreCall::Record((LogLevel::Error, reading_secs(reading), log@)),
                ),
    {
        let entry = Log::error(log);
        let ghost reading = choose|reading: Option<Duration>|
            entry@ == (LogLevel::Error, reading_secs(reading), log@);
        self.push(entry);
        assert(self@ == store_after(
            old(self)@,
            StoreCall::Record((LogLevel::Error, reading_secs(reading), log@)),
        ));
    }

    /// Records `log` at level warn and the current second, after every entry
    /// already stored.
    pub fn warn(&mut self, log: String)
        ensures
            exists|reading: Option<Duration>|
                final(self)@ == store_after(
                    old(self)@,
                    StoreCall::Record((LogLevel::Warn, reading_secs(reading), log@)),
                ),
    {
        let entry = Log::warn(log);
        let ghost reading = choose|reading: Option<Duration>|
            entry@ == (LogLevel::Warn, reading_secs(reading), log@);
        self.push(entry);
        assert(self@ == store_after(
            old(self)@,
            StoreCall::Record((LogLevel::Warn, reading_secs(reading), log@)),
        ));
    }

    /// Hands out every stored entry, oldest first, and leaves the store empty.
    pub fn take_all(&mut self) -> (logs: Vec<Log>)
        ensures
            logs@.map_values(|l: Log| l@) == old(self)@,
            final(self)@ == store_after(old(self)@, StoreCall::TakeAll),
    {
        let mut logs: Vec<Log> = Vec::new();
        std::mem::swap(&mut logs, &mut self.store);
        assert(self@ =~= Seq::<(LogLevel, u64, Seq<char>)>::empty());
        logs
    }
}

} // verus!
