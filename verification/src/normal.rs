//! A greeting test mail: both chat models are greeted and their answers
//! are mailed side by side.
use vstd::prelude::*;
use vstd::string::*;
use crate::helper::Helper;
use crate::helper::openai::{ChatRequest, system_prompt};
use crate::task::{TaskError, TaskErrorView, copy_result, result_view};

verus! {

pub open spec fn greeting() -> Seq<char> {
    "hello"@
}

pub open spec fn greeting_subject() -> Seq<char> {
    "normal test"@
}

/// The mail body showing both answers.
pub open spec fn answers_body(deep_seek: Seq<char>, openai: Seq<char>) -> Seq<char> {
    "<p>deep seek: "@ + deep_seek + "</p><p>openai: "@ + openai + "</p>"@
}

/// The greeting mail's body holds both answers whole and in order: the
/// opening markup, the DeepSeek answer, the markup between, the OpenAI
/// answer and the closing markup, and nothing else.
pub proof fn law_greeting_body_keeps_answers(deep_seek: Seq<char>, openai: Seq<char>)
    ensures
        ({
            let body = answers_body(deep_seek, openai);
            let open = "<p>deep seek: "@;
            let between = "</p><p>openai: "@;
            let close = "</p>"@;
            let a = (open.len() + deep_seek.len()) as int;
            let b: int = a + between.len() + openai.len();
            &&& body.len() == open.len() + deep_seek.len() + between.len() + openai.len() + close.len()
            &&& body.subrange(0, open.len() as int) == open
            &&& body.subrange(open.len() as int, a) == deep_seek
            &&& body.subrange(a, a + between.len()) == between
            &&& body.subrange(a + between.len(), b) == openai
            &&& body.subrange(b, body.len() as int) == close
        }),
{
    let body = answers_body(deep_seek, openai);
    let open = "<p>deep seek: "@;
    let between = "</p><p>openai: "@;
    let close = "</p>"@;
    let a = (open.len() + deep_seek.len()) as int;
    let b: int = a + between.len() + openai.len();
    assert(body.subrange(0, open.len() as int) =~= open);
    assert(body.subrange(open.len() as int, a) =~= deep_seek);
    assert(body.subrange(a, a + between.len()) =~= between);
    assert(body.subrange(a + between.len(), b) =~= openai);
    assert(body.subrange(b, body.len() as int) =~= close);
}

/// The body of the greeting mail: both answers, each in its own paragraph.
pub fn greeting_body(deep_seek: &str, openai: &str) -> (res: String)
    ensures
        res@ == answers_body(deep_seek@, openai@),
{
    let mut body = String::from_str("<p>deep seek: ");
    body.append(deep_seek);
    body.append("</p><p>openai: ");
    body.append(openai);
    body.append("</p>");
    body
}

/// The greeting test.
pub struct Normal;

impl Normal {
    /// What the task does.
    pub fn description(&self) -> (res: &'static str)
        ensures
            res@ == "do some normal things"@,
    {
        "do some normal things"
    }
}

/// What a run of `Normal` asks the program to do next.
pub enum GreetStep {
    /// Ask this of a chat model; report the answer.
    Chat(ChatRequest),
    /// Send this mail; report success.
    Mail { subject: String, body: String },
    /// Nothing more to do; this is how the run ended.
    Finish(Result<(), TaskError>),
}

pub ghost enum GreetStepView {
    Chat(Seq<char>, Seq<char>, Seq<char>, Seq<char>),
    Mail(Seq<char>, Seq<char>),
    Finish(Result<(), TaskErrorView>),
}

impl View for GreetStep {
    type V = GreetStepView;

    open spec fn view(&self) -> GreetStepView {
        match self {
            GreetStep::Chat(c) => GreetStepView::Chat(c.base@, c.model@, c.system@, c.user@),
            GreetStep::Mail { subject, body } => GreetStepView::Mail(subject@, body@),
            GreetStep::Finish(r) => GreetStepView::Finish(result_view(*r)),
        }
    }
}

pub ghost enum GreetPhase {
    AskingDeepSeek,
    AskingOpenai(Seq<char>),
    Sending,
    Finished(Result<(), TaskErrorView>),
}

/// The next phase and step of a run in phase `phase` told `event`, when the
/// two chat models are `deep_seek` and `openai` (each its endpoint and
/// model name).  A failure ends the run.
pub open spec fn greet_next(
    deep_seek: (Seq<char>, Seq<char>),
    openai: (Seq<char>, Seq<char>),
    phase: GreetPhase,
    event: Result<Seq<char>, Seq<char>>,
) -> (GreetPhase, GreetStepView) {
    match phase {
        GreetPhase::Finished(r) => (GreetPhase::Finished(r), GreetStepView::Finish(r)),
        _ => match event {
            Err(m) => {
                let r = Err(TaskErrorView::Failed(m));
                (GreetPhase::Finished(r), GreetStepView::Finish(r))
            },
            Ok(text) => match phase {
                GreetPhase::AskingDeepSeek => (
                    GreetPhase::AskingOpenai(text),
                    GreetStepView::Chat(openai.0, openai.1, system_prompt(), greeting()),
                ),
                GreetPhase::AskingOpenai(first) => (
                    GreetPhase::Sending,
                    GreetStepView::Mail(greeting_subject(), answers_body(first, text)),
                ),
                _ => (GreetPhase::Finished(Ok(())), GreetStepView::Finish(Ok(()))),
            },
        },
    }
}

enum Phase {
    AskingDeepSeek,
    AskingOpenai(String),
    Sending,
    Finished(Result<(), TaskError>),
}

impl View for Phase {
    type V = GreetPhase;

    closed spec fn view(&self) -> GreetPhase {
        match self {
            Phase::AskingDeepSeek => GreetPhase::AskingDeepSeek,
            Phase::AskingOpenai(t) => GreetPhase::AskingOpenai(t@),
            Phase::Sending => GreetPhase::Sending,
            Phase::Finished(r) => GreetPhase::Finished(result_view(*r)),
        }
    }
}

/// One run of `Normal`.
pub struct GreetRun {
    phase: Phase,
}

impl GreetRun {
    pub closed spec fn spec_phase(&self) -> GreetPhase {
        self.phase@
    }

    /// Takes the result of the last step (the answer, or the failure's
    /// text) and gives the next one.
    pub fn step(&mut self, helper: &Helper, event: Result<String, String>) -> (res: GreetStep)
        ensures
            (final(self).spec_phase(), res@) == greet_next(
                (helper.deep_seek.spec_base(), helper.deep_seek.spec_model()),
                (helper.openai.spec_base(), helper.openai.spec_model()),
                old(self).spec_phase(),
                match event {
                    Ok(t) => Ok(t@),
                    Err(m) => Err(m@),
                },
            ),
    {
        if let Phase::Finished(r) = &self.phase {
            return GreetStep::Finish(copy_result(r));
        }
        match event {
            Err(m) => {
                let kept = m.clone();
                self.phase = Phase::Finished(Err(TaskError::Failed(kept)));
                GreetStep::Finish(Err(TaskError::Failed(m)))
            },
            Ok(text) => {
                if let Phase::AskingOpenai(first) = &self.phase {
                    let body = greeting_body(first.as_str(), text.as_str());
                    self.phase = Phase::Sending;
                    return GreetStep::Mail { subject: String::from_str("normal test"), body };
                }
                match self.phase {
                    Phase::AskingDeepSeek => {
                        self.phase = Phase::AskingOpenai(text);
                        GreetStep::Chat(helper.openai.chat_request(String::from_str("hello")))
                    },
                    _ => {
                        self.phase = Phase::Finished(Ok(()));
                        GreetStep::Finish(Ok(()))
                    },
                }
            },
        }
    }
}

impl Normal {
    /// Starts a run: its first step greets the DeepSeek model.
    pub fn run(&self, helper: &Helper) -> (res: (GreetRun, GreetStep))
        ensures
            res.0.spec_phase() == GreetPhase::AskingDeepSeek,
            res.1@ == GreetStepView::Chat(
                helper.deep_seek.spec_base(),
                helper.deep_seek.spec_model(),
                system_prompt(),
                greeting(),
            ),
    {
        (
            GreetRun { phase: Phase::AskingDeepSeek },
            GreetStep::Chat(helper.deep_seek.chat_request(String::from_str("hello"))),
        )
    }
}

/// A run whose two chats and mail succeed greets DeepSeek, then OpenAI, and
/// mails both answers in that order under the test subject.
pub proof fn law_greet_mails_both_answers(
    deep_seek: (Seq<char>, Seq<char>),
    openai: (Seq<char>, Seq<char>),
    first: Seq<char>,
    second: Seq<char>,
    ack: Seq<char>,
)
    ensures
        ({
            let (p1, s1) = greet_next(deep_seek, openai, GreetPhase::AskingDeepSeek, Ok(first));
            let (p2, s2) = greet_next(deep_seek, openai, p1, Ok(second));
            let (p3, s3) = greet_next(deep_seek, openai, p2, Ok(ack));
            &&& s1 == GreetStepView::Chat(openai.0, openai.1, system_prompt(), greeting())
            &&& s2 == GreetStepView::Mail(greeting_subject(), answers_body(first, second))
            &&& s3 == GreetStepView::Finish(Ok(()))
            &&& p3 == GreetPhase::Finished(Ok(()))
        }),
{
}

} // verus!
