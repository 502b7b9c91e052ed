//! The daily mail of Rust repositories trending on GitHub, summarised by a
//! chat model.
use vstd::prelude::*;
use vstd::string::*;
use crate::helper::Helper;
use crate::helper::jina::{SummaryRequest, join, reader_prefix, views};
use crate::helper::openai::{ChatRequest, system_prompt};
use super::{
    Task,
    TaskError,
    TaskErrorView,
    copy_result,
    markdown_html,
    markdown_to_html,
    result_view,
};

verus! {

/// The trending page that is summarised.
pub open spec fn trending_url() -> Seq<char> {
    "https://github.com/trending/rust?since=daily"@
}

/// The question put to the chat model about the trending page's text.
pub open spec fn trending_prompt(trending: Seq<char>) -> Seq<char> {
    "请帮我总结一下所有的项目并按照顺序star的多少排列, "@ + trending
}

/// The question holds the whole trending page after a fixed request: its
/// length is the request's plus the page's, the page follows the request
/// unchanged, and more page text gives the same question with that text
/// added at the end.
pub proof fn law_prompt_keeps_whole_page(trending: Seq<char>, more: Seq<char>)
    ensures
        ({
            let request = "请帮我总结一下所有的项目并按照顺序star的多少排列, "@;
            let prompt = trending_prompt(trending);
            &&& prompt.len() == request.len() + trending.len()
            &&& prompt.subrange(0, request.len() as int) == request
            &&& prompt.subrange(request.len() as int, prompt.len() as int) == trending
            &&& trending_prompt(trending + more) == trending_prompt(trending) + more
        }),
{
    let request = "请帮我总结一下所有的项目并按照顺序star的多少排列, "@;
    let prompt = trending_prompt(trending);
    assert(prompt.subrange(0, request.len() as int) =~= request);
    assert(prompt.subrange(request.len() as int, prompt.len() as int) =~= trending);
    assert(trending_prompt(trending + more) =~= trending_prompt(trending) + more);
}

pub open spec fn trending_subject() -> Seq<char> {
    "Github rust trending"@
}

/// Rust repositories trending on GitHub today.
pub struct Github;

impl Task for Github {
    fn job(&self) -> (res: &'static str)
        ensures
            res@ == "0 0 6 * * *"@,
    {
        "0 0 6 * * *"
    }

    fn description(&self) -> (res: &'static str)
        ensures
            res@ == "get github daily trending"@,
    {
        "get github daily trending"
    }
}

/// What a run of `Github` asks the program to do next.
pub enum GithubStep {
    /// Fetch this summary from the reader; report its text.
    Summarize(SummaryRequest),
    /// Ask this of the chat model; report the answer.
    Chat(ChatRequest),
    /// Render the `github.html` template with `trending`; report the page.
    Render { trending: String },
    /// Send this mail; report success.
    Mail { subject: String, body: String },
    /// Nothing more to do; this is how the run ended.
    Finish(Result<(), TaskError>),
}

pub ghost enum GithubStepView {
    Summarize(Seq<char>, Seq<char>, Seq<char>),
    Chat(Seq<char>, Seq<char>, Seq<char>, Seq<char>),
    Render(Seq<char>),
    Mail(Seq<char>, Seq<char>),
    Finish(Result<(), TaskErrorView>),
}

impl View for GithubStep {
    type V = GithubStepView;

    open spec fn view(&self) -> GithubStepView {
        match self {
            GithubStep::Summarize(r) => GithubStepView::Summarize(
                r.url@,
                r.target_selector@,
                r.remove_selector@,
            ),
            GithubStep::Chat(c) => GithubStepView::Chat(c.base@, c.model@, c.system@, c.user@),
            GithubStep::Render { trending } => GithubStepView::Render(trending@),
            GithubStep::Mail { subject, body } => GithubStepView::Mail(subject@, body@),
            GithubStep::Finish(r) => GithubStepView::Finish(result_view(*r)),
        }
    }
}

pub ghost enum GithubPhase {
    Fetching,
    Summarizing,
    Rendering,
    Sending,
    Finished(Result<(), TaskErrorView>),
}

/// The first step of a run: fetch the trending page through the reader,
/// keeping the repository rows and dropping their inline details.
pub open spec fn github_first() -> GithubStepView {
    GithubStepView::Summarize(
        reader_prefix() + trending_url(),
        join(seq![".Box-row"@], ", "@),
        join(seq![".d-inline-block"@], ", "@),
    )
}

/// The next phase and step of a run in phase `phase`, told `event` (the
/// text the last step produced, or its failure), when the chat model is
/// `chat` (its endpoint and model name).  A failure ends the run.
pub open spec fn github_next(
    chat: (Seq<char>, Seq<char>),
    phase: GithubPhase,
    event: Result<Seq<char>, Seq<char>>,
) -> (GithubPhase, GithubStepView) {
    match phase {
        GithubPhase::Finished(r) => (GithubPhase::Finished(r), GithubStepView::Finish(r)),
        _ => match event {
            Err(m) => {
                let r = Err(TaskErrorView::Failed(m));
                (GithubPhase::Finished(r), GithubStepView::Finish(r))
            },
            Ok(text) => match phase {
                GithubPhase::Fetching => (
                    GithubPhase::Summarizing,
                    GithubStepView::Chat(chat.0, chat.1, system_prompt(), trending_prompt(text)),
                ),
                GithubPhase::Summarizing => (
                    GithubPhase::Rendering,
                    GithubStepView::Render(markdown_html(text)),
                ),
                GithubPhase::Rendering => (
                    GithubPhase::Sending,
                    GithubStepView::Mail(trending_subject(), text),
                ),
                _ => (GithubPhase::Finished(Ok(())), GithubStepView::Finish(Ok(()))),
            },
        },
    }
}

pub open spec fn text_event(event: Result<String, String>) -> Result<Seq<char>, Seq<char>> {
    match event {
        Ok(t) => Ok(t@),
        Err(m) => Err(m@),
    }
}

enum Phase {
    Fetching,
    Summarizing,
    Rendering,
    Sending,
    Finished(Result<(), TaskError>),
}

impl View for Phase {
    type V = GithubPhase;

    closed spec fn view(&self) -> GithubPhase {
        match self {
            Phase::Fetching => GithubPhase::Fetching,
            Phase::Summarizing => GithubPhase::Summarizing,
            Phase::Rendering => GithubPhase::Rendering,
            Phase::Sending => GithubPhase::Sending,
            Phase::Finished(r) => GithubPhase::Finished(result_view(*r)),
        }
    }
}

/// One run of `Github`.
pub struct GithubRun {
    phase: Phase,
}

impl GithubRun {
    pub closed spec fn spec_phase(&self) -> GithubPhase {
        self.phase@
    }

    /// Takes the result of the last step and gives the next one; the chat
    /// goes to `helper.openai`.
    pub fn step(&mut self, helper: &Helper, event: Result<String, String>) -> (res: GithubStep)
        ensures
            (final(self).spec_phase(), res@) == github_next(
                (helper.openai.spec_base(), helper.openai.spec_model()),
                old(self).spec_phase(),
                text_event(event),
            ),
    {
        if let Phase::Finished(r) = &self.phase {
            return GithubStep::Finish(copy_result(r));
        }
        match event {
            Err(m) => {
                let kept = m.clone();
                self.phase = Phase::Finished(Err(TaskError::Failed(kept)));
                GithubStep::Finish(Err(TaskError::Failed(m)))
            },
            Ok(text) => match self.phase {
                Phase::Fetching => {
                    let mut prompt = String::from_str(
                        "请帮我总结一下所有的项目并按照顺序star的多少排列, ",
                    );
                    prompt.append(text.as_str());
                    self.phase = Phase::Summarizing;
                    GithubStep::Chat(helper.openai.chat_request(prompt))
                },
                Phase::Summarizing => {
                    let trending = markdown_to_html(text.as_str());
                    self.phase = Phase::Rendering;
                    GithubStep::Render { trending }
                },
                Phase::Rendering => {
                    self.phase = Phase::Sending;
                    GithubStep::Mail { subject: String::from_str("Github rust trending"), body: text }
                },
                _ => {
                    self.phase = Phase::Finished(Ok(()));
                    GithubStep::Finish(Ok(()))
                },
            },
        }
    }
}

impl Github {
    /// Starts a run with `helper`: its first step fetches the trending page.
    pub fn run(&self, helper: &Helper) -> (res: (GithubRun, GithubStep))
        ensures
            res.0.spec_phase() == GithubPhase::Fetching,
            res.1@ == github_first(),
    {
        let includes = vec![".Box-row"];
        let excludes = vec![".d-inline-block"];
        proof {
            assert(views(includes@) =~= seq![".Box-row"@]);
            assert(views(excludes@) =~= seq![".d-inline-block"@]);
        }
        let request = helper.jina.summary_request(
            "https://github.com/trending/rust?since=daily",
            includes,
            excludes,
        );
        (GithubRun { phase: Phase::Fetching }, GithubStep::Summarize(request))
    }
}

/// A run that gets the page, the chat answer, the rendered page and the
/// mail's acknowledgement, all without failure, asks the chat model about
/// that page, renders the answer from markdown, mails exactly the rendered
/// page under the trending subject, and ends well.
pub proof fn law_github_mails_summary(
    chat: (Seq<char>, Seq<char>),
    page: Seq<char>,
    answer: Seq<char>,
    html: Seq<char>,
    ack: Seq<char>,
)
    ensures
        ({
            let (p1, s1) = github_next(chat, GithubPhase::Fetching, Ok(page));
            let (p2, s2) = github_next(chat, p1, Ok(answer));
            let (p3, s3) = github_next(chat, p2, Ok(html));
            let (p4, s4) = github_next(chat, p3, Ok(ack));
            &&& s1 == GithubStepView::Chat(chat.0, chat.1, system_prompt(), trending_prompt(page))
            &&& s2 == GithubStepView::Render(markdown_html(answer))
            &&& s3 == GithubStepView::Mail(trending_subject(), html)
            &&& s4 == GithubStepView::Finish(Ok(()))
            &&& p4 == GithubPhase::Finished(Ok(()))
        }),
{
}

/// A failure at any point ends the run with that failure and no mail, and
/// an ended run stays ended with the same result.
pub proof fn law_github_failure_is_final(
    chat: (Seq<char>, Seq<char>),
    phase: GithubPhase,
    text: Seq<char>,
    event: Result<Seq<char>, Seq<char>>,
)
    ensures
        !(phase is Finished) ==> github_next(chat, phase, Err(text)) == (
            GithubPhase::Finished(Err(TaskErrorView::Failed(text))),
            GithubStepView::Finish(Err(TaskErrorView::Failed(text))),
        ),
        phase matches GithubPhase::Finished(r) ==> github_next(chat, phase, event) == (
            phase,
            GithubStepView::Finish(r),
        ),
{
}

} // verus!
