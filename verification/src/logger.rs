//! A plain in-memory log store: entries keep their level and text, in the
//! order in which they were recorded, until they are taken out.
use vstd::prelude::*;

verus! {

/// One use of a log store: record an entry, or take every entry out.
pub ghost enum StoreCall<E> {
    Record(E),
    TakeAll,
}

/// The store's entries after `call`, from `store`.
pub open spec fn store_after<E>(store: Seq<E>, call: StoreCall<E>) -> Seq<E> {
    match call {
        StoreCall::Record(e) => store.push(e),
        StoreCall::TakeAll => Seq::empty(),
    }
}

/// The entries of a store that started empty, after `calls` in turn.
pub open spec fn replay<E>(calls: Seq<StoreCall<E>>) -> Seq<E>
    decreases calls.len(),
{
    if calls.len() == 0 {
        Seq::empty()
    } else {
        store_after(replay(calls.drop_last()), calls.last())
    }
}

/// Everything the `TakeAll` calls among `calls` handed out, one after the
/// other.
pub open spec fn taken<E>(calls: Seq<StoreCall<E>>) -> Seq<E>
    decreases calls.len(),
{
    if calls.len() == 0 {
        Seq::empty()
    } else {
        match calls.last() {
            StoreCall::TakeAll => taken(calls.drop_last()) + replay(calls.drop_last()),
            StoreCall::Record(_) => taken(calls.drop_last()),
        }
    }
}

/// Every entry recorded by `calls`, in order.
pub open spec fn recorded<E>(calls: Seq<StoreCall<E>>) -> Seq<E>
    decreases calls.len(),
{
    if calls.len() == 0 {
        Seq::empty()
    } else {
        match calls.last() {
            StoreCall::Record(e) => recorded(calls.drop_last()).push(e),
            StoreCall::TakeAll => recorded(calls.drop_last()),
        }
    }
}

/// Over any sequence of records and take-alls on a store that starts
/// empty, no entry is lost, doubled or reordered: what the take-alls handed
/// out, followed by what is still stored, is every recorded entry in the
/// order it was recorded.  (`Logger::info`, `error`, `warn` and `take_all`,
/// here and in the timed store, each change the store as `store_after`
/// says.)
pub proof fn law_store_keeps_every_entry<E>(calls: Seq<StoreCall<E>>)
    ensures
        taken(calls) + replay(calls) == recorded(calls),
    decreases calls.len(),
{
    if calls.len() == 0 {
        assert(taken(calls) + replay(calls) =~= recorded(calls));
    } else {
        let rest = calls.drop_last();
        law_store_keeps_every_entry(rest);
        match calls.last() {
            StoreCall::Record(e) => {
                assert(taken(calls) + replay(calls) =~= (taken(rest) + replay(rest)).push(e));
            },
            StoreCall::TakeAll => {
                assert(taken(calls) + replay(calls) =~= taken(rest) + replay(rest));
            },
        }
    }
}

/// Severity of a log entry.
#[derive(Clone, Copy, Debug, PartialEq, Eq, Structural)]
pub enum LogLevel {
    Error,
    Warn,
    Info,
}

impl LogLevel {
    /// The name under which a level is shown in rendered logs.
    pub open spec fn spec_name(self) -> Seq<char> {
        match self {
            LogLevel::Error => seq!['e', 'r', 'r', 'o', 'r'],
            LogLevel::Warn => seq!['w', 'a', 'r', 'n'],
            LogLevel::Info => seq!['i', 'n', 'f', 'o'],
        }
    }

    /// The name under which a level is shown in rendered logs:
    /// `"error"`, `"warn"` or `"info"`.
    pub fn name(&self) -> (res: &'static str)
        ensures
            res@ == self.spec_name(),
    {
        match self {
            LogLevel::Error => {
                proof {
                    reveal_strlit("error");
                }
                "error"
            },
            LogLevel::Warn => {
                proof {
                    reveal_strlit("warn");
                }
                "warn"
            },
            LogLevel::Info => {
                proof {
                    reveal_strlit("info");
                }
                "info"
            },
        }
    }
}

/// One recorded entry.
pub struct Log {
    level: LogLevel,
    content: String,
}

impl View for Log {
    type V = (LogLevel, Seq<char>);

    closed spec fn view(&self) -> (LogLevel, Seq<char>) {
        (self.level, self.content@)
    }
}

impl Log {
    fn new(level: LogLevel, content: String) -> (res: Log)
        ensures
            res@ == (level, content@),
    {
        Log { level, content }
    }

    fn info(content: String) -> (res: Log)
        ensures
            res@ == (LogLevel::Info, content@),
    {
        Self::new(LogLevel::Info, content)
    }

    fn error(content: String) -> (res: Log)
        ensures
            res@ == (LogLevel::Error, content@),
    {
        Self::new(LogLevel::Error, content)
    }

    fn warn(content: String) -> (res: Log)
        ensures
            res@ == (LogLevel::Warn, content@),
    {
        Self::new(LogLevel::Warn, content)
    }

    /// The entry's level.
    pub fn level(&self) -> (res: LogLevel)
        ensures
            res == self@.0,
    {
        self.level
    }

    /// The entry's text.
    pub fn content(&self) -> (res: &str)
        ensures
            res@ == self@.1,
    {
        self.content.as_str()
    }
}

/// An append-only store of entries that can be emptied in one go.
pub struct Logger {
    store: Vec<Log>,
}

impl View for Logger {
    type V = Seq<(LogLevel, Seq<char>)>;

    closed spec fn view(&self) -> Seq<(LogLevel, Seq<char>)> {
        self.store@.map_values(|l: Log| l@)
    }
}

impl Logger {
    /// An empty store.
    pub fn new() -> (res: Logger)
        ensures
            res@ == Seq::<(LogLevel, Seq<char>)>::empty(),
    {
        let res = Logger { store: Vec::new() };
        assert(res@ =~= Seq::<(LogLevel, Seq<char>)>::empty());
        res
    }

    fn push(&mut self, log: Log)
        ensures
            final(self)@ == old(self)@.push(log@),
    {
        self.store.push(log);
        assert(self@ =~= old(self)@.push(log@));
    }

    /// Records `log` at level info, after every entry already stored.
    pub fn info(&mut self, log: String)
        ensures
            final(self)@ == store_after(old(self)@, StoreCall::Record((LogLevel::Info, log@))),
    {
        self.push(Log::info(log));
    }

    /// Records `log` at level error, after every entry already stored.
    pub fn error(&mut self, log: String)
        ensures
            final(self)@ == store_after(old(self)@, StoreCall::Record((LogLevel::Error, log@))),
    {
        self.push(Log::error(log));
    }

    /// Records `log` at level warn, after every entry already stored.
    pub fn warn(&mut self, log: String)
        ensures
            final(self)@ == store_after(old(self)@, StoreCall::Record((LogLevel::Warn, log@))),
    {
        self.push(Log::warn(log));
    }

    /// Hands out every stored entry, oldest first, and leaves the store empty.
    pub fn take_all(&mut self) -> (logs: Vec<Log>)
        ensures
            logs@.map_values(|l: Log| l@) == old(self)@,
            final(self)@ == store_after(old(self)@, StoreCall::TakeAll),
    {
        let mut logs: Vec<Log> = Vec::new();
        std::mem::swap(&mut logs, &mut self.store);
        assert(self@ =~= Seq::<(LogLevel, Seq<char>)>::empty());
        logs
    }
}

} // verus!
