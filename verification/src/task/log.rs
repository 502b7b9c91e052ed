//! The weekly mail of everything the bot logged.
use vstd::prelude::*;
use vstd::string::*;
use crate::helper::logger::{Log as Entry, Logger};
use crate::logger::LogLevel;
use super::{Task, TaskError, TaskErrorView, copy_result, result_view};

verus! {

pub open spec fn log_subject() -> Seq<char> {
    "Log summary for last 7 days"@
}

/// The weekly log digest.
pub struct Log;

impl Task for Log {
    fn job(&self) -> (res: &'static str)
        ensures
            res@ == "0 0 0 */7 * *"@,
    {
        "0 0 0 */7 * *"
    }

    fn description(&self) -> (res: &'static str)
        ensures
            res@ == "send logs to email"@,
    {
        "send logs to email"
    }
}

pub open spec fn entry_views(logs: Seq<Entry>) -> Seq<(LogLevel, u64, Seq<char>)> {
    logs.map_values(|l: Entry| l@)
}

/// What a run of `Log` asks the program to do next.
pub enum LogStep {
    /// Take every entry out of the shared logger; report them.
    TakeLogs,
    /// Render the `log.html` template with these entries; report the page.
    Render { logs: Vec<Entry> },
    /// Send this mail; report success.
    Mail { subject: String, body: String },
    /// Nothing more to do; this is how the run ended.
    Finish(Result<(), TaskError>),
}

pub ghost enum LogStepView {
    TakeLogs,
    Render(Seq<(LogLevel, u64, Seq<char>)>),
    Mail(Seq<char>, Seq<char>),
    Finish(Result<(), TaskErrorView>),
}

impl View for LogStep {
    type V = LogStepView;

    open spec fn view(&self) -> LogStepView {
        match self {
            LogStep::TakeLogs => LogStepView::TakeLogs,
            LogStep::Render { logs } => LogStepView::Render(entry_views(logs@)),
            LogStep::Mail { subject, body } => LogStepView::Mail(subject@, body@),
            LogStep::Finish(r) => LogStepView::Finish(result_view(*r)),
        }
    }
}

/// What the program reports back to a run of `Log`.
pub enum LogEvent {
    /// The entries taken out of the logger.
    Logs(Vec<Entry>),
    /// The rendered page, or the mail's acknowledgement.
    Text(String),
    /// The last step failed, with this text.
    Failed(String),
}

pub ghost enum LogEventView {
    Logs(Seq<(LogLevel, u64, Seq<char>)>),
    Text(Seq<char>),
    Failed(Seq<char>),
}

impl View for LogEvent {
    type V = LogEventView;

    open spec fn view(&self) -> LogEventView {
        match self {
            LogEvent::Logs(l) => LogEventView::Logs(entry_views(l@)),
            LogEvent::Text(t) => LogEventView::Text(t@),
            LogEvent::Failed(m) => LogEventView::Failed(m@),
        }
    }
}

pub ghost enum LogPhase {
    Taking,
    Rendering,
    Sending,
    Finished(Result<(), TaskErrorView>),
}

/// The next phase and step of a run in phase `phase` told `event`.  A
/// failure ends the run; so does a report of another kind than the step
/// asked for.
pub open spec fn log_next(phase: LogPhase, event: LogEventView) -> (LogPhase, LogStepView) {
    match phase {
        LogPhase::Finished(r) => (LogPhase::Finished(r), LogStepView::Finish(r)),
        _ => match event {
            LogEventView::Failed(m) => {
                let r = Err(TaskErrorView::Failed(m));
                (LogPhase::Finished(r), LogStepView::Finish(r))
            },
            LogEventView::Logs(l) => match phase {
                LogPhase::Taking => (LogPhase::Rendering, LogStepView::Render(l)),
                _ => {
                    let r = Err(TaskErrorView::Unexpected);
                    (LogPhase::Finished(r), LogStepView::Finish(r))
                },
            },
            LogEventView::Text(t) => match phase {
                LogPhase::Rendering => (LogPhase::Sending, LogStepView::Mail(log_subject(), t)),
                LogPhase::Sending => (LogPhase::Finished(Ok(())), LogStepView::Finish(Ok(()))),
                _ => {
                    let r = Err(TaskErrorView::Unexpected);
                    (LogPhase::Finished(r), LogStepView::Finish(r))
                },
            },
        },
    }
}

enum Phase {
    Taking,
    Rendering,
    Sending,
    Finished(Result<(), TaskError>),
}

impl View for Phase {
    type V = LogPhase;

    closed spec fn view(&self) -> LogPhase {
        match self {
            Phase::Taking => LogPhase::Taking,
            Phase::Rendering => LogPhase::Rendering,
            Phase::Sending => LogPhase::Sending,
            Phase::Finished(r) => LogPhase::Finished(result_view(*r)),
        }
    }
}

/// One run of `Log`.
pub struct LogRun {
    phase: Phase,
}

impl LogRun {
    pub closed spec fn spec_phase(&self) -> LogPhase {
        self.phase@
    }

    fn finish(&mut self, r: TaskError) -> (res: LogStep)
        ensures
            final(self).spec_phase() == LogPhase::Finished(Err(r@)),
            res@ == LogStepView::Finish(Err(r@)),
    {
        let kept = r.copy();
        self.phase = Phase::Finished(Err(kept));
        LogStep::Finish(Err(r))
    }

    /// Takes the result of the last step and gives the next one.
    pub fn step(&mut self, event: LogEvent) -> (res: LogStep)
        ensures
            (final(self).spec_phase(), res@) == log_next(old(self).spec_phase(), event@),
    {
        if let Phase::Finished(r) = &self.phase {
            return LogStep::Finish(copy_result(r));
        }
        match event {
            LogEvent::Failed(m) => self.finish(TaskError::Failed(m)),
            LogEvent::Logs(logs) => match self.phase {
                Phase::Taking => {
                    self.phase = Phase::Rendering;
                    LogStep::Render { logs }
                },
                _ => self.finish(TaskError::Unexpected),
            },
            LogEvent::Text(t) => match self.phase {
                Phase::Rendering => {
                    self.phase = Phase::Sending;
                    LogStep::Mail { subject: String::from_str("Log summary for last 7 days"), body: t }
                },
                Phase::Sending => {
                    self.phase = Phase::Finished(Ok(()));
                    LogStep::Finish(Ok(()))
                },
                _ => self.finish(TaskError::Unexpected),
            },
        }
    }
}

impl Log {
    /// Starts a run: its first step takes the logged entries.
    pub fn run(&self) -> (res: (LogRun, LogStep))
        ensures
            res.0.spec_phase() == LogPhase::Taking,
            res.1@ == LogStepView::TakeLogs,
    {
        (LogRun { phase: Phase::Taking }, LogStep::TakeLogs)
    }
}

/// Takes every entry out of `logger` for a run: the event that answers the
/// run's first step.  The logger is left empty.
pub fn take_logs(logger: &mut Logger) -> (res: LogEvent)
    ensures
        res@ == LogEventView::Logs(old(logger)@),
        final(logger)@ == Seq::<(LogLevel, u64, Seq<char>)>::empty(),
{
    LogEvent::Logs(logger.take_all())
}

/// A run that takes the logged entries, gets their rendered page and the
/// mail's acknowledgement renders exactly those entries, mails exactly that
/// page under the weekly subject, and ends well; after it the logger is
/// empty.
pub proof fn law_log_mails_every_entry(
    entries: Seq<(LogLevel, u64, Seq<char>)>,
    html: Seq<char>,
    ack: Seq<char>,
)
    ensures
        ({
            let (p1, s1) = log_next(LogPhase::Taking, LogEventView::Logs(entries));
            let (p2, s2) = log_next(p1, LogEventView::Text(html));
            let (p3, s3) = log_next(p2, LogEventView::Text(ack));
            &&& s1 == LogStepView::Render(entries)
            &&& s2 == LogStepView::Mail(log_subject(), html)
            &&& s3 == LogStepView::Finish(Ok(()))
            &&& p3 == LogPhase::Finished(Ok(()))
        }),
{
}

/// A failure at any point ends the run with that failure and no mail, and
/// an ended run stays ended with the same result.
pub proof fn law_log_failure_is_final(phase: LogPhase, text: Seq<char>, event: LogEventView)
    ensures
        !(phase is Finished) ==> log_next(phase, LogEventView::Failed(text)) == (
            LogPhase::Finished(Err(TaskErrorView::Failed(text))),
            LogStepView::Finish(Err(TaskErrorView::Failed(text))),
        ),
        phase matches LogPhase::Finished(r) ==> log_next(phase, event) == (
            phase,
            LogStepView::Finish(r),
        ),
{
}

} // verus!
