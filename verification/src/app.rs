//! The bot itself: its services, its tasks, how the scheduler is brought up
//! and down, and what happens when a scheduled task fails.
use vstd::prelude::*;
use vstd::string::*;
use std::sync::Arc;
use tokio_cron_scheduler::JobBuilder;
use crate::helper::{Env, Helper, HelperError, configured};
use crate::templates;

verus! {

/// The first index at or after `i` where `s` holds a line feed, or the
/// length of `s` when there is none.
pub open spec fn line_end(s: Seq<char>, i: int) -> int
    decreases s.len() - i,
{
    if i >= s.len() {
        s.len() as int
    } else if s[i] == '\n' {
        i
    } else {
        line_end(s, i + 1)
    }
}

/// `t` without one trailing carriage return.
pub open spec fn strip_cr(t: Seq<char>) -> Seq<char> {
    if t.len() > 0 && t.last() == '\r' {
        t.drop_last()
    } else {
        t
    }
}

/// `line_end` stays between `i` and the end of `s`, stops at a line feed,
/// and passes none.
pub proof fn lemma_line_end_bounds(s: Seq<char>, i: int)
    requires
        0 <= i,
    ensures
        i <= s.len() ==> i <= line_end(s, i) <= s.len(),
        i < s.len() ==> line_end(s, i) < s.len() ==> s[line_end(s, i)] == '\n',
        forall|k: int| i <= k < line_end(s, i) ==> s[k] != '\n',
    decreases s.len() - i,
{
    if i < s.len() && s[i] != '\n' {
        lemma_line_end_bounds(s, i + 1);
    }
}

/// The lines of `s` from index `i` on, as `str::lines` cuts them: at each
/// line feed, dropping a carriage return right before it; a last line
/// feed ends the last line and starts none; a last line without a line
/// feed keeps a trailing carriage return.
pub open spec fn lines_from(s: Seq<char>, i: int) -> Seq<Seq<char>>
    decreases s.len() + 1 - i,
{
    if i < 0 || i >= s.len() {
        Seq::empty()
    } else {
        let j = line_end(s, i);
        proof {
            lemma_line_end_bounds(s, i);
        }
        let line = if j < s.len() {
            strip_cr(s.subrange(i, j))
        } else {
            s.subrange(i, j)
        };
        seq![line] + lines_from(s, j + 1)
    }
}

/// The lines of `s`, as `str::lines` gives them.
pub open spec fn lines(s: Seq<char>) -> Seq<Seq<char>> {
    lines_from(s, 0)
}

pub open spec fn str_views(v: Seq<&str>) -> Seq<Seq<char>> {
    v.map_values(|l: &str| l@)
}

/// The lines of `text`, as `str::lines` gives them.
pub fn error_lines<'a>(text: &'a str) -> (res: Vec<&'a str>)
    ensures
        str_views(res@) == lines(text@),
{
    let n = text.unicode_len();
    let mut res: Vec<&'a str> = Vec::new();
    let mut i: usize = 0;
    while i < n
        invariant
            n == text@.len(),
            i <= n,
            str_views(res@) + lines_from(text@, i as int) == lines(text@),
        decreases n - i,
    {
        let mut j: usize = i;
        while j < n && text.get_char(j) != '\n'
            invariant
                n == text@.len(),
                i <= j <= n,
                line_end(text@, i as int) == line_end(text@, j as int),
            decreases n - j,
        {
            j = j + 1;
        }
        proof {
            lemma_line_end_bounds(text@, i as int);
        }
        assert(line_end(text@, i as int) == j);
        let mut end: usize = j;
        if j < n && end > i && text.get_char(end - 1) == '\r' {
            end = end - 1;
        }
        let line = text.substring_char(i, end);
        let ghost old_res = res@;
        res.push(line);
        proof {
            let s = text@;
            let whole = s.subrange(i as int, j as int);
            let cut = if j < n { strip_cr(whole) } else { whole };
            assert(line@ == cut) by {
                if j < n && j > i && s[j - 1] == '\r' {
                    assert(whole.drop_last() =~= s.subrange(i as int, end as int));
                } else {
                    assert(whole =~= s.subrange(i as int, end as int));
                }
            }
            assert(lines_from(s, i as int) == seq![cut] + lines_from(s, j + 1));
            assert(str_views(res@) =~= str_views(old_res).push(line@));
            if j == n {
                assert(lines_from(s, j + 1) =~= lines_from(s, n as int));
            }
            assert(str_views(res@) + lines_from(s, j + 1) =~= str_views(old_res) + lines_from(
                s,
                i as int,
            ));
        }
        if j < n {
            i = j + 1;
        } else {
            i = n;
        }
    }
    assert(lines_from(text@, n as int) =~= Seq::<Seq<char>>::empty());
    assert(str_views(res@) =~= str_views(res@) + lines_from(text@, n as int));
    res
}

/// Looking for a line feed from `k` in `t` is the same as from `k` past a
/// prefix `p` in `p + t`.
proof fn lemma_line_end_shift(p: Seq<char>, t: Seq<char>, k: int)
    requires
        0 <= k,
    ensures
        line_end(p + t, p.len() + k) == p.len() + line_end(t, k),
    decreases t.len() - k,
{
    let u = p + t;
    if k < t.len() {
        assert(u[p.len() + k] == t[k]);
        if t[k] != '\n' {
            lemma_line_end_shift(p, t, k + 1);
        }
    }
}

/// The lines of `t` from `k` are those of `p + t` from `k` past `p`.
proof fn lemma_lines_from_shift(p: Seq<char>, t: Seq<char>, k: int)
    requires
        0 <= k,
    ensures
        lines_from(p + t, p.len() + k) == lines_from(t, k),
    decreases t.len() + 1 - k,
{
    let u = p + t;
    if k < t.len() {
        lemma_line_end_shift(p, t, k);
        lemma_line_end_bounds(t, k);
        lemma_line_end_bounds(u, p.len() + k);
        let j = line_end(t, k);
        assert(u.subrange(p.len() + k, p.len() + j) =~= t.subrange(k, j));
        lemma_lines_from_shift(p, t, j + 1);
        assert(p.len() + j + 1 == p.len() + (j + 1));
    }
}

/// Cutting into lines goes line by line and keeps every line: an empty
/// text has no lines; a text without a line feed is one line, itself; and
/// a line `s` (no line feed in it) followed by a line feed and any rest
/// `t` gives `s`, less a carriage return right before the line feed, then
/// the lines of `t`.
pub proof fn law_lines_keep_every_line(s: Seq<char>, t: Seq<char>)
    requires
        forall|k: int| 0 <= k < s.len() ==> s[k] != '\n',
    ensures
        lines(Seq::empty()) == Seq::<Seq<char>>::empty(),
        s.len() > 0 ==> lines(s) == seq![s],
        lines(s + seq!['\n'] + t) == seq![strip_cr(s)] + lines(t),
{
    lemma_line_end_bounds(s, 0);
    if s.len() > 0 {
        assert(s.subrange(0, s.len() as int) =~= s);
        assert(lines_from(s, s.len() as int + 1) =~= Seq::<Seq<char>>::empty());
        assert(lines(s) =~= seq![s]);
    }
    let p = s + seq!['\n'];
    let u = p + t;
    assert(s + seq!['\n'] + t =~= u);
    lemma_line_end_bounds(u, 0);
    let j = line_end(u, 0);
    assert(u[s.len() as int] == '\n');
    if j > s.len() {
        assert(u[s.len() as int] != '\n');
    }
    if j < s.len() {
        assert(u[j] == s[j]);
    }
    assert(j == s.len());
    assert(u.subrange(0, j) =~= s);
    lemma_lines_from_shift(p, t, 0);
    assert(lines_from(u, 0) == seq![strip_cr(s)] + lines_from(u, j + 1));
}

/// The subject of an error mail.
pub open spec fn error_subject() -> Seq<char> {
    "检测到错误"@
}

/// An error mail about a failed task: a fixed subject and the failure's
/// text.
pub struct ErrorMail {
    pub subject: String,
    pub text: String,
}

impl ErrorMail {
    /// The mail reporting the failure described by `text`.
    pub fn new(text: String) -> (res: ErrorMail)
        ensures
            res.subject@ == error_subject(),
            res.text@ == text@,
    {
        ErrorMail { subject: String::from_str("检测到错误"), text }
    }

    /// The page of the mail: the failure's text cut into lines.
    pub fn page(&self) -> (res: templates::error::Error<'_>)
        ensures
            res@ == lines(self.text@),
    {
        templates::error::Error::new(error_lines(self.text.as_str()))
    }
}

/// Shares what `shared` points to, by `Arc::clone`.  Trusted: the copy
/// points to the same value.
#[verifier::external_body]
fn share<U: ?Sized>(shared: &Arc<U>) -> (res: Arc<U>)
    ensures
        res == *shared,
{
    shared.clone()
}

/// The bot: shared services and the tasks to schedule, in the order they
/// were added.
pub struct App<T> {
    helper: Arc<Helper>,
    tasks: Vec<T>,
}

impl<T> App<T> {
    pub closed spec fn spec_helper(&self) -> Arc<Helper> {
        self.helper
    }

    pub closed spec fn spec_tasks(&self) -> Seq<T> {
        self.tasks@
    }

    /// A bot with services configured from `env` and no task yet; or the
    /// first configuration problem, as `Helper::new` reports it.
    pub fn new(env: Env) -> (res: Result<App<T>, HelperError>)
        ensures
            match res {
                Ok(app) => {
                    &&& configured(&env, &Ok::<Helper, HelperError>(*app.spec_helper()))
                    &&& app.spec_tasks() == Seq::<T>::empty()
                },
                Err(e) => configured(&env, &Err::<Helper, HelperError>(e)),
            },
    {
        let helper = Helper::new(env)?;
        let app = App { helper: Arc::new(helper), tasks: Vec::new() };
        assert(app.tasks@ =~= Seq::<T>::empty());
        Ok(app)
    }

    /// Makes a task with `handler`, which is given the shared services, and
    /// appends it after the tasks already added.  When `handler` fails the
    /// tasks are left as they were and its error is returned.
    pub fn add_task<E, F: FnOnce(Arc<Helper>) -> Result<T, E>>(&mut self, handler: F) -> (res:
        Result<(), E>)
        requires
            call_requires(handler, (old(self).spec_helper(),)),
        ensures
            final(self).spec_helper() == old(self).spec_helper(),
            match res {
                Ok(_) => exists|t: T|
                    call_ensures(handler, (old(self).spec_helper(),), Ok::<T, E>(t))
                        && final(self).spec_tasks() == old(self).spec_tasks().push(t),
                Err(e) => {
                    &&& call_ensures(handler, (old(self).spec_helper(),), Err::<T, E>(e))
                    &&& final(self).spec_tasks() == old(self).spec_tasks()
                },
            },
    {
        let helper = share(&self.helper);
        let task = handler(helper);
        match task {
            Ok(t) => {
                let ghost made = t;
                self.tasks.push(t);
                assert(call_ensures(handler, (old(self).spec_helper(),), Ok::<T, E>(made)));
                assert(self.spec_tasks() == old(self).spec_tasks().push(made));
                Ok(())
            },
            Err(e) => Err(e),
        }
    }

    /// The shared services.
    pub fn helper(&self) -> (res: Arc<Helper>)
        ensures
            res == self.spec_helper(),
    {
        share(&self.helper)
    }
}

impl<U: ?Sized> App<Arc<U>> {
    /// The tasks, shared, in the order they were added: each copy points to
    /// the same task.
    pub fn all_tasks(&self) -> (res: Vec<Arc<U>>)
        ensures
            res@ == self.spec_tasks(),
    {
        let mut res: Vec<Arc<U>> = Vec::new();
        let mut i: usize = 0;
        while i < self.tasks.len()
            invariant
                i <= self.tasks@.len(),
                res@ == self.tasks@.take(i as int),
            decreases self.tasks@.len() - i,
        {
            res.push(share(&self.tasks[i]));
            assert(res@ =~= self.tasks@.take(i + 1));
            i = i + 1;
        }
        assert(self.tasks@.take(self.tasks@.len() as int) =~= self.tasks@);
        res
    }
}

/// The context given to a failed task's error: `任务失败: ` and the task.
pub open spec fn failure_context(task: Seq<char>) -> Seq<char> {
    "任务失败: "@ + task
}

/// The context given to a failed task's error: `任务失败: ` and the task.
pub fn task_failure_context(task: &str) -> (res: String)
    ensures
        res@ == failure_context(task@),
{
    let mut res = String::from_str("任务失败: ");
    res.append(task);
    res
}

/// How one scheduled run of a task ended.
#[derive(Debug)]
pub enum JobOutcome {
    /// The task succeeded.
    Completed,
    /// The task failed and the failure was mailed.
    Reported,
    /// The task failed and its report could not be written or rendered,
    /// for this reason; no mail was sent.
    ReportNotRendered(String),
    /// The task failed and mailing the report failed, for this reason.
    ReportNotSent(String),
}

pub ghost enum JobOutcomeView {
    Completed,
    Reported,
    ReportNotRendered(Seq<char>),
    ReportNotSent(Seq<char>),
}

impl View for JobOutcome {
    type V = JobOutcomeView;

    open spec fn view(&self) -> JobOutcomeView {
        match self {
            JobOutcome::Completed => JobOutcomeView::Completed,
            JobOutcome::Reported => JobOutcomeView::Reported,
            JobOutcome::ReportNotRendered(m) => JobOutcomeView::ReportNotRendered(m@),
            JobOutcome::ReportNotSent(m) => JobOutcomeView::ReportNotSent(m@),
        }
    }
}

impl JobOutcome {
    fn copy(&self) -> (res: JobOutcome)
        ensures
            res@ == self@,
    {
        match self {
            JobOutcome::Completed => JobOutcome::Completed,
            JobOutcome::Reported => JobOutcome::Reported,
            JobOutcome::ReportNotRendered(m) => JobOutcome::ReportNotRendered(m.clone()),
            JobOutcome::ReportNotSent(m) => JobOutcome::ReportNotSent(m.clone()),
        }
    }
}

/// What the program must do next for one scheduled run of a task.
pub enum JobStep {
    /// Run the task; report `Ok`, or `Err` with its error's text.
    RunTask,
    /// Wrap the task's error in this context and write it out in full
    /// (the error's own chain of causes under it); report the text.
    DescribeFailure { context: String },
    /// Render this failure report's page; report the page.
    RenderReport(ErrorMail),
    /// Send this mail; report success.
    SendReport { subject: String, body: String },
    /// Nothing more to do.
    Finish(JobOutcome),
}

/// The abstract form of a `JobStep`.
pub ghost enum JobStepView {
    RunTask,
    DescribeFailure(Seq<char>),
    RenderReport(Seq<char>, Seq<char>),
    SendReport(Seq<char>, Seq<char>),
    Finish(JobOutcomeView),
}

impl View for JobStep {
    type V = JobStepView;

    open spec fn view(&self) -> JobStepView {
        match self {
            JobStep::RunTask => JobStepView::RunTask,
            JobStep::DescribeFailure { context } => JobStepView::DescribeFailure(context@),
            JobStep::RenderReport(m) => JobStepView::RenderReport(m.subject@, m.text@),
            JobStep::SendReport { subject, body } => JobStepView::SendReport(subject@, body@),
            JobStep::Finish(o) => JobStepView::Finish(o@),
        }
    }
}

/// Where one scheduled run of a task stands, without its outcome.
#[derive(Clone, Copy, Debug, PartialEq, Eq, Structural)]
pub enum JobPhase {
    Running,
    Describing,
    Rendering,
    Sending,
    Finished,
}

/// Where one scheduled run of a task stands.
pub ghost enum JobState {
    Running,
    Describing,
    Rendering,
    Sending,
    Finished(JobOutcomeView),
}

pub open spec fn state_phase(state: JobState) -> JobPhase {
    match state {
        JobState::Running => JobPhase::Running,
        JobState::Describing => JobPhase::Describing,
        JobState::Rendering => JobPhase::Rendering,
        JobState::Sending => JobPhase::Sending,
        JobState::Finished(_) => JobPhase::Finished,
    }
}

/// The abstract form of a result reported back: the text produced (the
/// report's text or page; empty for other steps), or a failure's text.
pub open spec fn text_result(event: Result<String, String>) -> Result<Seq<char>, Seq<char>> {
    match event {
        Ok(t) => Ok(t@),
        Err(m) => Err(m@),
    }
}

/// The abstract form of a result reported back: success, or a failure's text.
pub open spec fn event_view(event: Result<(), String>) -> Result<(), Seq<char>> {
    match event {
        Ok(_) => Ok(()),
        Err(m) => Err(m@),
    }
}

/// The next state and step of a run of task `task` in state `state` that is
/// told `event`.  A failed task's error is written out under the failure
/// context of `task`; the text is rendered, only a rendered report is
/// mailed, and a failure of the report ends the run with its reason.
pub open spec fn job_next(task: Seq<char>, state: JobState, event: Result<Seq<char>, Seq<char>>) -> (
    JobState,
    JobStepView,
) {
    match state {
        JobState::Running => match event {
            Ok(_) => (
                JobState::Finished(JobOutcomeView::Completed),
                JobStepView::Finish(JobOutcomeView::Completed),
            ),
            Err(_) => (JobState::Describing, JobStepView::DescribeFailure(failure_context(task))),
        },
        JobState::Describing => match event {
            Ok(text) => (JobState::Rendering, JobStepView::RenderReport(error_subject(), text)),
            Err(m) => (
                JobState::Finished(JobOutcomeView::ReportNotRendered(m)),
                JobStepView::Finish(JobOutcomeView::ReportNotRendered(m)),
            ),
        },
        JobState::Rendering => match event {
            Ok(page) => (JobState::Sending, JobStepView::SendReport(error_subject(), page)),
            Err(m) => (
                JobState::Finished(JobOutcomeView::ReportNotRendered(m)),
                JobStepView::Finish(JobOutcomeView::ReportNotRendered(m)),
            ),
        },
        JobState::Sending => match event {
            Ok(_) => (
                JobState::Finished(JobOutcomeView::Reported),
                JobStepView::Finish(JobOutcomeView::Reported),
            ),
            Err(m) => (
                JobState::Finished(JobOutcomeView::ReportNotSent(m)),
                JobStepView::Finish(JobOutcomeView::ReportNotSent(m)),
            ),
        },
        JobState::Finished(o) => (JobState::Finished(o), JobStepView::Finish(o)),
    }
}

enum Stage {
    Running,
    Describing,
    Rendering,
    Sending,
    Finished(JobOutcome),
}

impl View for Stage {
    type V = JobState;

    closed spec fn view(&self) -> JobState {
        match self {
            Stage::Running => JobState::Running,
            Stage::Describing => JobState::Describing,
            Stage::Rendering => JobState::Rendering,
            Stage::Sending => JobState::Sending,
            Stage::Finished(o) => JobState::Finished(o@),
        }
    }
}

/// One scheduled run of a task: run it, and mail a report if it fails.
pub struct JobRun {
    task: String,
    stage: Stage,
}

impl JobRun {
    pub closed spec fn spec_task(&self) -> Seq<char> {
        self.task@
    }

    pub closed spec fn spec_state(&self) -> JobState {
        self.stage@
    }

    /// A run of the task named `task` that starts by running it.
    pub fn new(task: &str) -> (res: (JobRun, JobStep))
        ensures
            res.0.spec_task() == task@,
            res.0.spec_state() == JobState::Running,
            res.1@ == JobStepView::RunTask,
    {
        let name = task.to_string();
        proof {
            vstd::string::to_string_from_display_ensures_for_str(task, name);
        }
        (JobRun { task: name, stage: Stage::Running }, JobStep::RunTask)
    }

    /// Where the run stands.
    pub fn phase(&self) -> (res: JobPhase)
        ensures
            res == state_phase(self.spec_state()),
    {
        match self.stage {
            Stage::Running => JobPhase::Running,
            Stage::Describing => JobPhase::Describing,
            Stage::Rendering => JobPhase::Rendering,
            Stage::Sending => JobPhase::Sending,
            Stage::Finished(_) => JobPhase::Finished,
        }
    }

    fn finish(&mut self, outcome: JobOutcome) -> (res: JobStep)
        ensures
            final(self).spec_task() == old(self).spec_task(),
            final(self).spec_state() == JobState::Finished(outcome@),
            res@ == JobStepView::Finish(outcome@),
    {
        let kept = outcome.copy();
        self.stage = Stage::Finished(kept);
        JobStep::Finish(outcome)
    }

    /// Takes the result of the last step and gives the next step.
    pub fn step(&mut self, event: Result<String, String>) -> (res: JobStep)
        ensures
            final(self).spec_task() == old(self).spec_task(),
            (final(self).spec_state(), res@) == job_next(
                old(self).spec_task(),
                old(self).spec_state(),
                text_result(event),
            ),
    {
        if let Stage::Finished(o) = &self.stage {
            return JobStep::Finish(o.copy());
        }
        match self.stage {
            Stage::Running => match event {
                Ok(_) => self.finish(JobOutcome::Completed),
                Err(_) => {
                    let context = task_failure_context(self.task.as_str());
                    self.stage = Stage::Describing;
                    JobStep::DescribeFailure { context }
                },
            },
            Stage::Describing => match event {
                Ok(text) => {
                    self.stage = Stage::Rendering;
                    JobStep::RenderReport(ErrorMail::new(text))
                },
                Err(m) => self.finish(JobOutcome::ReportNotRendered(m)),
            },
            Stage::Rendering => match event {
                Ok(page) => {
                    self.stage = Stage::Sending;
                    JobStep::SendReport { subject: String::from_str("检测到错误"), body: page }
                },
                Err(m) => self.finish(JobOutcome::ReportNotRendered(m)),
            },
            _ => match event {
                Ok(_) => self.finish(JobOutcome::Reported),
                Err(m) => self.finish(JobOutcome::ReportNotSent(m)),
            },
        }
    }
}

/// What the parser of tokio-cron-scheduler says of a cron expression (six
/// fields, seconds first): whether `JobBuilder::with_schedule` takes it.
/// Parsing depends on the text alone.
pub uninterp spec fn schedule_accepted(cron: Seq<char>) -> bool;

/// Whether the cron expression `cron` is taken by
/// `JobBuilder::with_schedule` of tokio-cron-scheduler.  Trusted to be the
/// named predicate `schedule_accepted`; which expressions the parser takes
/// is left to it.
#[verifier::external_body]
fn schedule_parses(cron: &str) -> (res: bool)
    ensures
        res == schedule_accepted(cron@),
{
    match JobBuilder::new().with_cron_job_type().with_schedule(cron) {
        Ok(_) => true,
        Err(_) => false,
    }
}

/// Why bringing the scheduler up or down failed.
#[derive(Debug)]
pub enum StartError {
    /// The scheduler itself failed, with this text.
    Scheduler(String),
    /// The task at `index` has a schedule the scheduler does not take.
    InvalidSchedule { index: usize, cron: String },
}

pub ghost enum StartErrorView {
    Scheduler(Seq<char>),
    InvalidSchedule(nat, Seq<char>),
}

impl View for StartError {
    type V = StartErrorView;

    open spec fn view(&self) -> StartErrorView {
        match self {
            StartError::Scheduler(m) => StartErrorView::Scheduler(m@),
            StartError::InvalidSchedule { index, cron } => StartErrorView::InvalidSchedule(
                *index as nat,
                cron@,
            ),
        }
    }
}

impl StartError {
    fn copy(&self) -> (res: StartError)
        ensures
            res@ == self@,
    {
        match self {
            StartError::Scheduler(m) => StartError::Scheduler(m.clone()),
            StartError::InvalidSchedule { index, cron } => StartError::InvalidSchedule {
                index: *index,
                cron: cron.clone(),
            },
        }
    }
}

/// What the program must do next to bring the scheduler up and, at the stop
/// signal, down.
pub enum StartStep {
    /// Make the scheduler.
    CreateScheduler,
    /// Add the job of task `index`, on schedule `cron`, read in the time
    /// zone named `timezone`.
    AddJob { index: usize, cron: String, timezone: String },
    /// Start the scheduler.
    StartScheduler,
    /// Wait for the termination signal.
    AwaitStop,
    /// Shut the scheduler down.
    Shutdown,
    /// Nothing more to do; this is how it ended.
    Finish(Result<(), StartError>),
}

pub ghost enum StartStepView {
    CreateScheduler,
    AddJob(nat, Seq<char>, Seq<char>),
    StartScheduler,
    AwaitStop,
    Shutdown,
    Finish(Result<(), StartErrorView>),
}

pub open spec fn start_result_view(r: Result<(), StartError>) -> Result<(), StartErrorView> {
    match r {
        Ok(_) => Ok(()),
        Err(e) => Err(e@),
    }
}

impl View for StartStep {
    type V = StartStepView;

    open spec fn view(&self) -> StartStepView {
        match self {
            StartStep::CreateScheduler => StartStepView::CreateScheduler,
            StartStep::AddJob { index, cron, timezone } => StartStepView::AddJob(
                *index as nat,
                cron@,
                timezone@,
            ),
            StartStep::StartScheduler => StartStepView::StartScheduler,
            StartStep::AwaitStop => StartStepView::AwaitStop,
            StartStep::Shutdown => StartStepView::Shutdown,
            StartStep::Finish(r) => StartStepView::Finish(start_result_view(*r)),
        }
    }
}

/// Where bringing the scheduler up and down stands.
pub ghost enum StartPhase {
    Creating,
    Adding(nat),
    Starting,
    Waiting,
    ShuttingDown,
    Finished(Result<(), StartErrorView>),
}

/// The time zone every job's schedule is read in (IANA name).
pub open spec fn job_timezone() -> Seq<char> {
    "Asia/Shanghai"@
}

/// After the jobs before `i` were added: add job `i` if its schedule is
/// taken, stop if it is not, or start the scheduler when no job is left.
pub open spec fn job_or_start(crons: Seq<Seq<char>>, i: nat) -> (StartPhase, StartStepView) {
    if i >= crons.len() {
        (StartPhase::Starting, StartStepView::StartScheduler)
    } else if schedule_accepted(crons[i as int]) {
        (StartPhase::Adding(i), StartStepView::AddJob(i, crons[i as int], job_timezone()))
    } else {
        let r = Err(StartErrorView::InvalidSchedule(i, crons[i as int]));
        (StartPhase::Finished(r), StartStepView::Finish(r))
    }
}

/// The next phase and step when bringing up the scheduler for jobs on
/// `crons`, in phase `phase`, is told `event`.  Every failure ends it.
pub open spec fn start_next(crons: Seq<Seq<char>>, phase: StartPhase, event: Result<(), Seq<char>>) -> (
    StartPhase,
    StartStepView,
) {
    match phase {
        StartPhase::Finished(r) => (StartPhase::Finished(r), StartStepView::Finish(r)),
        _ => match event {
            Err(m) => {
                let r = Err(StartErrorView::Scheduler(m));
                (StartPhase::Finished(r), StartStepView::Finish(r))
            },
            Ok(_) => match phase {
                StartPhase::Creating => job_or_start(crons, 0),
                StartPhase::Adding(i) => job_or_start(crons, i + 1),
                StartPhase::Starting => (StartPhase::Waiting, StartStepView::AwaitStop),
                StartPhase::Waiting => (StartPhase::ShuttingDown, StartStepView::Shutdown),
                _ => (StartPhase::Finished(Ok(())), StartStepView::Finish(Ok(()))),
            },
        },
    }
}

enum Phase {
    Creating,
    Adding(usize),
    Starting,
    Waiting,
    ShuttingDown,
    Finished(Result<(), StartError>),
}

impl View for Phase {
    type V = StartPhase;

    closed spec fn view(&self) -> StartPhase {
        match self {
            Phase::Creating => StartPhase::Creating,
            Phase::Adding(i) => StartPhase::Adding(*i as nat),
            Phase::Starting => StartPhase::Starting,
            Phase::Waiting => StartPhase::Waiting,
            Phase::ShuttingDown => StartPhase::ShuttingDown,
            Phase::Finished(r) => StartPhase::Finished(start_result_view(*r)),
        }
    }
}

pub open spec fn string_views(v: Seq<String>) -> Seq<Seq<char>> {
    v.map_values(|s: String| s@)
}

/// Brings the scheduler up with one job per task, waits for the stop
/// signal, and brings it down.
pub struct Starter {
    crons: Vec<String>,
    phase: Phase,
}

impl Starter {
    pub closed spec fn spec_crons(&self) -> Seq<Seq<char>> {
        string_views(self.crons@)
    }

    pub closed spec fn spec_phase(&self) -> StartPhase {
        self.phase@
    }

    /// Bringing up jobs on the schedules `crons`, one per task, in order;
    /// the first step makes the scheduler.
    pub fn new(crons: Vec<String>) -> (res: (Starter, StartStep))
        ensures
            res.0.spec_crons() == string_views(crons@),
            res.0.spec_phase() == StartPhase::Creating,
            res.1@ == StartStepView::CreateScheduler,
    {
        (Starter { crons, phase: Phase::Creating }, StartStep::CreateScheduler)
    }

    fn job_or_start(&mut self, i: usize) -> (res: StartStep)
        requires
            i <= old(self).crons@.len(),
        ensures
            final(self).crons == old(self).crons,
            (final(self).phase@, res@) == job_or_start(old(self).spec_crons(), i as nat),
    {
        if i >= self.crons.len() {
            self.phase = Phase::Starting;
            return StartStep::StartScheduler;
        }
        let cron = self.crons[i].clone();
        if schedule_parses(cron.as_str()) {
            self.phase = Phase::Adding(i);
            StartStep::AddJob { index: i, cron, timezone: String::from_str("Asia/Shanghai") }
        } else {
            let kept = cron.clone();
            self.phase = Phase::Finished(Err(StartError::InvalidSchedule { index: i, cron: kept }));
            StartStep::Finish(Err(StartError::InvalidSchedule { index: i, cron }))
        }
    }

    /// Takes the result of the last step (`Err` with the failure's text) and
    /// gives the next step.
    pub fn step(&mut self, event: Result<(), String>) -> (res: StartStep)
        ensures
            final(self).spec_crons() == old(self).spec_crons(),
            (final(self).spec_phase(), res@) == start_next(
                old(self).spec_crons(),
                old(self).spec_phase(),
                event_view(event),
            ),
    {
        proof {
            assert(self.crons@.len() == self.spec_crons().len());
        }
        if let Phase::Finished(r) = &self.phase {
            let out = match r {
                Ok(_) => Ok(()),
                Err(e) => Err(e.copy()),
            };
            return StartStep::Finish(out);
        }
        match event {
            Err(m) => {
                let kept = m.clone();
                self.phase = Phase::Finished(Err(StartError::Scheduler(kept)));
                StartStep::Finish(Err(StartError::Scheduler(m)))
            },
            Ok(_) => match self.phase {
                Phase::Creating => self.job_or_start(0),
                Phase::Adding(i) => {
                    if i < self.crons.len() {
                        self.job_or_start(i + 1)
                    } else {
                        self.job_or_start(self.crons.len())
                    }
                },
                Phase::Starting => {
                    self.phase = Phase::Waiting;
                    StartStep::AwaitStop
                },
                Phase::Waiting => {
                    self.phase = Phase::ShuttingDown;
                    StartStep::Shutdown
                },
                _ => {
                    self.phase = Phase::Finished(Ok(()));
                    StartStep::Finish(Ok(()))
                },
            },
        }
    }
}

/// The steps given when the start, from `phase`, is told `events` in turn.
pub open spec fn start_run(
    crons: Seq<Seq<char>>,
    phase: StartPhase,
    events: Seq<Result<(), Seq<char>>>,
) -> Seq<StartStepView>
    decreases events.len(),
{
    if events.len() == 0 {
        Seq::empty()
    } else {
        let (p, s) = start_next(crons, phase, events[0]);
        seq![s] + start_run(crons, p, events.drop_first())
    }
}

/// `n` successes in a row.
pub open spec fn successes(n: nat) -> Seq<Result<(), Seq<char>>> {
    Seq::new(n, |i: int| Ok(()))
}

/// The steps that add the jobs `from` up to, not including, `to`, each in
/// the jobs' time zone.
pub open spec fn adds(crons: Seq<Seq<char>>, from: nat, to: nat) -> Seq<StartStepView> {
    Seq::new(
        (to - from) as nat,
        |k: int| StartStepView::AddJob((from + k) as nat, crons[from + k], job_timezone()),
    )
}

/// The phase right before job `i` is added.
pub open spec fn before_job(i: nat) -> StartPhase {
    if i == 0 {
        StartPhase::Creating
    } else {
        StartPhase::Adding((i - 1) as nat)
    }
}

proof fn lemma_add_jobs(
    crons: Seq<Seq<char>>,
    i: nat,
    k: nat,
    rest: Seq<Result<(), Seq<char>>>,
)
    requires
        i <= k <= crons.len(),
        forall|j: int| i <= j < k ==> schedule_accepted(#[trigger] crons[j]),
    ensures
        start_run(crons, before_job(i), successes((k - i) as nat) + rest) == adds(crons, i, k)
            + start_run(crons, before_job(k), rest),
    decreases k - i,
{
    if i == k {
        assert(successes(0) + rest =~= rest);
        assert(adds(crons, i, k) =~= Seq::<StartStepView>::empty());
        assert(adds(crons, i, k) + start_run(crons, before_job(k), rest) =~= start_run(
            crons,
            before_job(k),
            rest,
        ));
    } else {
        let events = successes((k - i) as nat) + rest;
        lemma_add_jobs(crons, i + 1, k, rest);
        assert(events[0] == Ok::<(), Seq<char>>(()));
        assert(events.drop_first() =~= successes((k - (i + 1)) as nat) + rest);
        assert(start_next(crons, before_job(i), Ok(())) == (
            before_job(i + 1),
            StartStepView::AddJob(i, crons[i as int], job_timezone()),
        ));
        assert(adds(crons, i, k) =~= seq![StartStepView::AddJob(i, crons[i as int], job_timezone())] + adds(
            crons,
            i + 1,
            k,
        ));
        assert(start_run(crons, before_job(i), events) =~= seq![
            StartStepView::AddJob(i, crons[i as int], job_timezone()),
        ] + start_run(crons, before_job(i + 1), events.drop_first()));
    }
}

/// When every task's schedule is taken and nothing fails, the scheduler
/// gets one job per task, in the order of the tasks, each on its task's
/// schedule read in Asia/Shanghai time, is started only after
/// the last one, waits for the stop signal, is shut down, and the start
/// ends well.
pub proof fn law_start_adds_every_job(crons: Seq<Seq<char>>)
    requires
        forall|j: int| 0 <= j < crons.len() ==> schedule_accepted(#[trigger] crons[j]),
    ensures
        start_run(crons, StartPhase::Creating, successes(crons.len() + 4)) == adds(
            crons,
            0,
            crons.len(),
        ) + seq![
            StartStepView::StartScheduler,
            StartStepView::AwaitStop,
            StartStepView::Shutdown,
            StartStepView::Finish(Ok(())),
        ],
{
    let n = crons.len();
    let tail = successes(4);
    assert(successes(n + 4) =~= successes(n) + tail);
    lemma_add_jobs(crons, 0, n, tail);
    assert(successes((n - 0) as nat) =~= successes(n));
    let p0 = before_job(n);
    assert(start_next(crons, p0, Ok(())) == (StartPhase::Starting, StartStepView::StartScheduler));
    let t1 = tail.drop_first();
    let t2 = t1.drop_first();
    let t3 = t2.drop_first();
    assert(t3.len() == 1 && t3[0] == Ok::<(), Seq<char>>(()));
    assert(t2.len() == 2 && t2[0] == Ok::<(), Seq<char>>(()));
    assert(t1.len() == 3 && t1[0] == Ok::<(), Seq<char>>(()));
    assert(tail[0] == Ok::<(), Seq<char>>(()));
    assert(start_run(crons, StartPhase::Finished(Ok(())), t3.drop_first()) =~= Seq::<
        StartStepView,
    >::empty());
    assert(start_run(crons, StartPhase::ShuttingDown, t3) =~= seq![StartStepView::Finish(Ok(()))]);
    assert(start_run(crons, StartPhase::Waiting, t2) =~= seq![
        StartStepView::Shutdown,
        StartStepView::Finish(Ok(())),
    ]);
    assert(start_run(crons, StartPhase::Starting, t1) =~= seq![
        StartStepView::AwaitStop,
        StartStepView::Shutdown,
        StartStepView::Finish(Ok(())),
    ]);
    assert(start_run(crons, p0, tail) =~= seq![
        StartStepView::StartScheduler,
        StartStepView::AwaitStop,
        StartStepView::Shutdown,
        StartStepView::Finish(Ok(())),
    ]);
}

/// When the schedule of task `k` is the first one not taken, and nothing
/// else fails, the jobs before it are added and the start then ends with
/// that schedule's error; the scheduler is never started.
pub proof fn law_start_stops_at_bad_schedule(crons: Seq<Seq<char>>, k: nat)
    requires
        k < crons.len(),
        forall|j: int| 0 <= j < k ==> schedule_accepted(#[trigger] crons[j]),
        !schedule_accepted(crons[k as int]),
    ensures
        start_run(crons, StartPhase::Creating, successes(k + 1)) == adds(crons, 0, k) + seq![
            StartStepView::Finish(Err(StartErrorView::InvalidSchedule(k, crons[k as int]))),
        ],
{
    let tail = successes(1);
    assert(successes(k + 1) =~= successes(k) + tail);
    lemma_add_jobs(crons, 0, k, tail);
    assert(successes((k - 0) as nat) =~= successes(k));
    assert(tail.len() == 1 && tail[0] == Ok::<(), Seq<char>>(()));
    let r = Err(StartErrorView::InvalidSchedule(k, crons[k as int]));
    assert(start_next(crons, before_job(k), Ok(())) == (
        StartPhase::Finished(r),
        StartStepView::Finish(r),
    ));
    assert(start_run(crons, StartPhase::Finished(r), tail.drop_first()) =~= Seq::<
        StartStepView,
    >::empty());
    assert(start_run(crons, before_job(k), tail) =~= seq![
        StartStepView::Finish(Err(StartErrorView::InvalidSchedule(k, crons[k as int]))),
    ]);
}

/// A failure at any point of the start ends it with that failure, and an
/// ended start stays ended with the same result whatever it is told.
pub proof fn law_start_failure_is_final(
    crons: Seq<Seq<char>>,
    phase: StartPhase,
    event: Result<(), Seq<char>>,
    text: Seq<char>,
)
    ensures
        !(phase is Finished) ==> start_next(crons, phase, Err(text)) == (
            StartPhase::Finished(Err(StartErrorView::Scheduler(text))),
            StartStepView::Finish(Err(StartErrorView::Scheduler(text))),
        ),
        phase matches StartPhase::Finished(r) ==> start_next(crons, phase, event) == (
            StartPhase::Finished(r),
            StartStepView::Finish(r),
        ),
{
}

/// A scheduled run of task `task` writes out a failure report exactly when
/// the task fails, under the task's failure context; it mails the rendered
/// page, and nothing when writing or rendering failed; and it ends as
/// `Completed`, `Reported`, `ReportNotRendered` or `ReportNotSent`, the last
/// two with the reason.
pub proof fn law_job_reports_failures(
    task: Seq<char>,
    result: Result<Seq<char>, Seq<char>>,
    text: Result<Seq<char>, Seq<char>>,
    render: Result<Seq<char>, Seq<char>>,
    mail: Result<Seq<char>, Seq<char>>,
)
    ensures
        ({
            let (q1, s1) = job_next(task, JobState::Running, result);
            let (q2, s2) = job_next(task, q1, text);
            let (q3, s3) = job_next(task, q2, render);
            let (q4, s4) = job_next(task, q3, mail);
            &&& (s1 is DescribeFailure <==> result is Err)
            &&& result is Err ==> s1 == JobStepView::DescribeFailure(failure_context(task))
            &&& text matches Ok(t) ==> (result is Err ==> s2 == JobStepView::RenderReport(
                error_subject(),
                t,
            ))
            &&& render matches Ok(page) ==> (result is Err && text is Ok ==> s3
                == JobStepView::SendReport(error_subject(), page))
            &&& result is Ok ==> q1 == JobState::Finished(JobOutcomeView::Completed)
            &&& text matches Err(m) ==> (result is Err ==> q2 == JobState::Finished(
                JobOutcomeView::ReportNotRendered(m),
            ))
            &&& render matches Err(m) ==> (result is Err && text is Ok ==> q3 == JobState::Finished(
                JobOutcomeView::ReportNotRendered(m),
            ))
            &&& (result is Err && text is Ok && render is Ok) ==> q4 == JobState::Finished(
                match mail {
                    Ok(_) => JobOutcomeView::Reported,
                    Err(m) => JobOutcomeView::ReportNotSent(m),
                },
            )
        }),
{
}

} // verus!
