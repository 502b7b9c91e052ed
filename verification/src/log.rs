//! A log digest over the untimed log store: every entry logged, mailed
//! with the number of days covered.
use vstd::prelude::*;
use vstd::string::*;
use crate::logger::{Log as Entry, LogLevel, Logger};
use crate::task::{TaskError, TaskErrorView, copy_result, result_view};

verus! {

pub open spec fn digest_subject() -> Seq<char> {
    "Log summary"@
}

/// The number of days a digest covers, shown on its page.
pub open spec fn digest_days() -> u32 {
    7
}

/// The log digest.
pub struct Log;

impl crate::task::Task for Log {
    fn job(&self) -> (res: &'static str)
        ensures
            res@ == "0 0 0 */7 * *"@,
    {
        "0 0 0 */7 * *"
    }

    fn description(&self) -> (res: &'static str)
        ensures
            res@ == "send logs to email"@,
    {
        "send logs to email"
    }
}

pub open spec fn entry_views(logs: Seq<Entry>) -> Seq<(LogLevel, Seq<char>)> {
    logs.map_values(|l: Entry| l@)
}

/// What a run of `Log` asks the program to do next.
pub enum DigestStep {
    /// Take every entry out of the shared logger; report them.
    TakeLogs,
    /// Render the `log.html` template with these entries and `count` days;
    /// report the page.
    Render { logs: Vec<Entry>, count: u32 },
    /// Send this mail; report success.
    Mail { subject: String, body: String },
    /// Nothing more to do; this is how the run ended.
    Finish(Result<(), TaskError>),
}

pub ghost enum DigestStepView {
    TakeLogs,
    Render(Seq<(LogLevel, Seq<char>)>, u32),
    Mail(Seq<char>, Seq<char>),
    Finish(Result<(), TaskErrorView>),
}

impl View for DigestStep {
    type V = DigestStepView;

    open spec fn view(&self) -> DigestStepView {
        match self {
            DigestStep::TakeLogs => DigestStepView::TakeLogs,
            DigestStep::Render { logs, count } => DigestStepView::Render(entry_views(logs@), *count),
            DigestStep::Mail { subject, body } => DigestStepView::Mail(subject@, body@),
            DigestStep::Finish(r) => DigestStepView::Finish(result_view(*r)),
        }
    }
}

/// What the program reports back to a run of `Log`.
pub enum DigestEvent {
    /// The entries taken out of the logger.
    Logs(Vec<Entry>),
    /// The rendered page, or the mail's acknowledgement.
    Text(String),
    /// The last step failed, with this text.
    Failed(String),
}

pub ghost enum DigestEventView {
    Logs(Seq<(LogLevel, Seq<char>)>),
    Text(Seq<char>),
    Failed(Seq<char>),
}

impl View for DigestEvent {
    type V = DigestEventView;

    open spec fn view(&self) -> DigestEventView {
        match self {
            DigestEvent::Logs(l) => DigestEventView::Logs(entry_views(l@)),
            DigestEvent::Text(t) => DigestEventView::Text(t@),
            DigestEvent::Failed(m) => DigestEventView::Failed(m@),
        }
    }
}

pub ghost enum DigestPhase {
    Taking,
    Rendering,
    Sending,
    Finished(Result<(), TaskErrorView>),
}

/// The next phase and step of a run in phase `phase` told `event`.  A
/// failure ends the run; so does a report of another kind than the step
/// asked for.
pub open spec fn digest_next(phase: DigestPhase, event: DigestEventView) -> (
    DigestPhase,
    DigestStepView,
) {
    let unexpected = Err(TaskErrorView::Unexpected);
    match phase {
        DigestPhase::Finished(r) => (DigestPhase::Finished(r), DigestStepView::Finish(r)),
        _ => match event {
            DigestEventView::Failed(m) => {
                let r = Err(TaskErrorView::Failed(m));
                (DigestPhase::Finished(r), DigestStepView::Finish(r))
            },
            DigestEventView::Logs(l) => match phase {
                DigestPhase::Taking => (
                    DigestPhase::Rendering,
                    DigestStepView::Render(l, digest_days()),
                ),
                _ => (DigestPhase::Finished(unexpected), DigestStepView::Finish(unexpected)),
            },
            DigestEventView::Text(t) => match phase {
                DigestPhase::Rendering => (
                    DigestPhase::Sending,
                    DigestStepView::Mail(digest_subject(), t),
                ),
                DigestPhase::Sending => (
                    DigestPhase::Finished(Ok(())),
                    DigestStepView::Finish(Ok(())),
                ),
                _ => (DigestPhase::Finished(unexpected), DigestStepView::Finish(unexpected)),
            },
        },
    }
}

enum Phase {
    Taking,
    Rendering,
    Sending,
    Finished(Result<(), TaskError>),
}

impl View for Phase {
    type V = DigestPhase;

    closed spec fn view(&self) -> DigestPhase {
        match self {
            Phase::Taking => DigestPhase::Taking,
            Phase::Rendering => DigestPhase::Rendering,
            Phase::Sending => DigestPhase::Sending,
            Phase::Finished(r) => DigestPhase::Finished(result_view(*r)),
        }
    }
}

/// One run of `Log`.
pub struct DigestRun {
    phase: Phase,
}

impl DigestRun {
    pub closed spec fn spec_phase(&self) -> DigestPhase {
        self.phase@
    }

    fn finish(&mut self, r: TaskError) -> (res: DigestStep)
        ensures
            final(self).spec_phase() == DigestPhase::Finished(Err(r@)),
            res@ == DigestStepView::Finish(Err(r@)),
    {
        let kept = r.copy();
        self.phase = Phase::Finished(Err(kept));
        DigestStep::Finish(Err(r))
    }

    /// Takes the result of the last step and gives the next one.
    pub fn step(&mut self, event: DigestEvent) -> (res: DigestStep)
        ensures
            (final(self).spec_phase(), res@) == digest_next(old(self).spec_phase(), event@),
    {
        if let Phase::Finished(r) = &self.phase {
            return DigestStep::Finish(copy_result(r));
        }
        match event {
            DigestEvent::Failed(m) => self.finish(TaskError::Failed(m)),
            DigestEvent::Logs(logs) => match self.phase {
                Phase::Taking => {
                    self.phase = Phase::Rendering;
                    DigestStep::Render { logs, count: 7 }
                },
                _ => self.finish(TaskError::Unexpected),
            },
            DigestEvent::Text(t) => match self.phase {
                Phase::Rendering => {
                    self.phase = Phase::Sending;
                    DigestStep::Mail { subject: String::from_str("Log summary"), body: t }
                },
                Phase::Sending => {
                    self.phase = Phase::Finished(Ok(()));
                    DigestStep::Finish(Ok(()))
                },
                _ => self.finish(TaskError::Unexpected),
            },
        }
    }
}

impl Log {
    /// Starts a run: its first step takes the logged entries.
    pub fn run(&self) -> (res: (DigestRun, DigestStep))
        ensures
            res.0.spec_phase() == DigestPhase::Taking,
            res.1@ == DigestStepView::TakeLogs,
    {
        (DigestRun { phase: Phase::Taking }, DigestStep::TakeLogs)
    }
}

/// Takes every entry out of `logger` for a run: the event that answers the
/// run's first step.  The logger is left empty.
pub fn take_logs(logger: &mut Logger) -> (res: DigestEvent)
    ensures
        res@ == DigestEventView::Logs(old(logger)@),
        final(logger)@ == Seq::<(LogLevel, Seq<char>)>::empty(),
{
    DigestEvent::Logs(logger.take_all())
}

/// A run that takes the logged entries, gets their rendered page and the
/// mail's acknowledgement renders exactly those entries over seven days,
/// mails exactly that page, and ends well.
pub proof fn law_digest_mails_every_entry(
    entries: Seq<(LogLevel, Seq<char>)>,
    html: Seq<char>,
    ack: Seq<char>,
)
    ensures
        ({
            let (p1, s1) = digest_next(DigestPhase::Taking, DigestEventView::Logs(entries));
            let (p2, s2) = digest_next(p1, DigestEventView::Text(html));
            let (p3, s3) = digest_next(p2, DigestEventView::Text(ack));
            &&& s1 == DigestStepView::Render(entries, 7)
            &&& s2 == DigestStepView::Mail(digest_subject(), html)
            &&& s3 == DigestStepView::Finish(Ok(()))
            &&& p3 == DigestPhase::Finished(Ok(()))
        }),
{
}

} // verus!
