//! The scheduled tasks.  Each task's run is a state machine: it names the
//! next piece of outside work (a fetch, a chat, a page to render, a mail to
//! send), is told how that went, and decides what comes next.
pub mod github;
pub mod log;
pub mod normal;

use vstd::prelude::*;

verus! {

/// A task the scheduler runs on a cron schedule.
pub trait Task {
    /// The task's schedule: a six-field cron expression, seconds first.
    fn job(&self) -> &'static str;

    /// What the task does, in a few words.
    fn description(&self) -> &'static str;
}

/// Why a task's run failed.
#[derive(Debug)]
pub enum TaskError {
    /// A piece of outside work failed, with this text.
    Failed(String),
    /// The program reported a result of another kind than the step asked
    /// for.
    Unexpected,
}

pub ghost enum TaskErrorView {
    Failed(Seq<char>),
    Unexpected,
}

impl View for TaskError {
    type V = TaskErrorView;

    open spec fn view(&self) -> TaskErrorView {
        match self {
            TaskError::Failed(m) => TaskErrorView::Failed(m@),
            TaskError::Unexpected => TaskErrorView::Unexpected,
        }
    }
}

impl TaskError {
    pub fn copy(&self) -> (res: TaskError)
        ensures
            res@ == self@,
    {
        match self {
            TaskError::Failed(m) => TaskError::Failed(m.clone()),
            TaskError::Unexpected => TaskError::Unexpected,
        }
    }
}

pub open spec fn result_view(r: Result<(), TaskError>) -> Result<(), TaskErrorView> {
    match r {
        Ok(_) => Ok(()),
        Err(e) => Err(e@),
    }
}

pub fn copy_result(r: &Result<(), TaskError>) -> (res: Result<(), TaskError>)
    ensures
        result_view(res) == result_view(*r),
{
    match r {
        Ok(_) => Ok(()),
        Err(e) => Err(e.copy()),
    }
}

/// What markdown's `to_html` gives for a text (CommonMark, default options).
pub uninterp spec fn markdown_html(text: Seq<char>) -> Seq<char>;

/// Renders markdown to HTML with `markdown::to_html`.  Trusted to be the
/// named value `markdown_html(text)`; `to_html` does not fail or panic on
/// plain markdown with its default options, which is what it is called with.
#[verifier::external_body]
pub(crate) fn markdown_to_html(text: &str) -> (res: String)
    ensures
        res@ == markdown_html(text@),
{
    markdown::to_html(text)
}

} // verus!
