//! The daily mail: star and download counts of the javcap repository and
//! two outdoor challenges suggested by a chat model.
use vstd::prelude::*;
use vstd::string::*;
use std::sync::Arc;
use crate::helper::Helper;
use crate::helper::openai::{ChatRequest, system_prompt};
use crate::templates;
use super::{
    Task,
    TaskError,
    TaskErrorView,
    copy_result,
    markdown_html,
    markdown_to_html,
    result_view,
};

verus! {

/// The sum of `counts`.
pub open spec fn sum(counts: Seq<i64>) -> int
    decreases counts.len(),
{
    if counts.len() == 0 {
        0
    } else {
        sum(counts.drop_last()) + counts.last()
    }
}

/// The sum of all counts of all releases.
pub open spec fn total(releases: Seq<Seq<i64>>) -> int
    decreases releases.len(),
{
    if releases.len() == 0 {
        0
    } else {
        total(releases.drop_last()) + sum(releases.last())
    }
}

/// Every count is added: nothing sums to 0, one count sums to itself, and
/// the sum of two lists joined is the sum of their sums.
pub proof fn law_sum_adds_every_count(a: Seq<i64>, b: Seq<i64>, x: i64)
    ensures
        sum(Seq::empty()) == 0,
        sum(seq![x]) == x,
        sum(a + b) == sum(a) + sum(b),
    decreases b.len(),
{
    assert(seq![x].drop_last() =~= Seq::<i64>::empty());
    if b.len() == 0 {
        assert(a + b =~= a);
    } else {
        assert((a + b).drop_last() =~= a + b.drop_last());
        law_sum_adds_every_count(a, b.drop_last(), x);
    }
}

/// Every release counts whole: no releases total 0, one release totals
/// the sum of its counts, and the total of two lists of releases joined is
/// the sum of their totals.
pub proof fn law_total_adds_every_release(a: Seq<Seq<i64>>, b: Seq<Seq<i64>>, r: Seq<i64>)
    ensures
        total(Seq::empty()) == 0,
        total(seq![r]) == sum(r),
        total(a + b) == total(a) + total(b),
    decreases b.len(),
{
    assert(seq![r].drop_last() =~= Seq::<Seq<i64>>::empty());
    if b.len() == 0 {
        assert(a + b =~= a);
    } else {
        assert((a + b).drop_last() =~= a + b.drop_last());
        law_total_adds_every_release(a, b.drop_last(), r);
    }
}

pub open spec fn in_i64(x: int) -> bool {
    i64::MIN <= x <= i64::MAX
}

/// Adding up the counts of `releases` one by one, in order, never leaves
/// the range of `i64`.
pub open spec fn running_fits(releases: Seq<Seq<i64>>) -> bool {
    forall|i: int, k: int|
        0 <= i < releases.len() && 0 <= k <= releases[i].len() ==> in_i64(
            #[trigger] total(releases.take(i)) + sum(#[trigger] releases[i].take(k)),
        )
}

pub open spec fn count_views(releases: Seq<Vec<i64>>) -> Seq<Seq<i64>> {
    releases.map_values(|r: Vec<i64>| r@)
}

/// The number of downloads of all assets of all releases, where
/// `releases[i]` holds the download counts of the assets of release `i`.
pub fn total_downloads(releases: &Vec<Vec<i64>>) -> (res: i64)
    requires
        running_fits(count_views(releases@)),
    ensures
        res == total(count_views(releases@)),
{
    let ghost all = count_views(releases@);
    let mut acc: i64 = 0;
    let mut i: usize = 0;
    assert(all.take(0) =~= Seq::<Seq<i64>>::empty());
    while i < releases.len()
        invariant
            all == count_views(releases@),
            running_fits(all),
            i <= releases@.len(),
            acc == total(all.take(i as int)),
        decreases releases@.len() - i,
    {
        let assets = &releases[i];
        assert(all[i as int] == assets@);
        let mut k: usize = 0;
        assert(assets@.take(0) =~= Seq::<i64>::empty());
        while k < assets.len()
            invariant
                all == count_views(releases@),
                running_fits(all),
                i < releases@.len(),
                all[i as int] == assets@,
                k <= assets@.len(),
                acc == total(all.take(i as int)) + sum(assets@.take(k as int)),
            decreases assets@.len() - k,
        {
            let ghost before = assets@.take(k as int);
            assert(assets@.take(k + 1).drop_last() =~= before);
            assert(in_i64(total(all.take(i as int)) + sum(all[i as int].take(k + 1))));
            acc = acc + assets[k];
            k = k + 1;
        }
        assert(assets@.take(assets@.len() as int) =~= assets@);
        assert(all.take(i + 1).drop_last() =~= all.take(i as int));
        i = i + 1;
    }
    assert(all.take(releases@.len() as int) =~= all);
    acc
}

/// The question put to the chat model.
pub open spec fn challenge_prompt() -> Seq<char> {
    "请给我随机推荐两个外出随机挑战"@
}

pub open spec fn repo_owner() -> Seq<char> {
    "jane-212"@
}

pub open spec fn repo_name() -> Seq<char> {
    "javcap"@
}

pub open spec fn normal_subject() -> Seq<char> {
    "Normal"@
}

/// The daily digest, with the services it uses.
pub struct Normal {
    helper: Arc<Helper>,
}

impl Normal {
    pub closed spec fn spec_helper(&self) -> Arc<Helper> {
        self.helper
    }

    /// The daily digest using `helper`.
    pub fn new(helper: Arc<Helper>) -> (res: Result<Normal, TaskError>)
        ensures
            res matches Ok(n) && n.spec_helper() == helper,
    {
        Ok(Normal { helper })
    }
}

impl Task for Normal {
    fn job(&self) -> (res: &'static str)
        ensures
            res@ == "0 0 6 * * *"@,
    {
        "0 0 6 * * *"
    }

    fn description(&self) -> (res: &'static str)
        ensures
            res@ == "发送日常资讯"@,
    {
        "发送日常资讯"
    }
}

/// What a run of `Normal` asks the program to do next.
pub enum NormalStep {
    /// Fetch the star count of this repository; report it (`None` when
    /// GitHub gives none).
    Stars { owner: String, repo: String },
    /// Fetch the releases of this repository; report, per release, the
    /// download counts of its assets.
    Releases { owner: String, repo: String },
    /// Ask this of the chat model; report the answer.
    Chat(ChatRequest),
    /// Render the daily page with these counts and this challenge HTML;
    /// report the page.
    Render { page: templates::normal::Normal, challenge: String },
    /// Send this mail; report success.
    Mail { subject: String, body: String },
    /// Nothing more to do; this is how the run ended.
    Finish(Result<(), TaskError>),
}

pub ghost enum NormalStepView {
    Stars(Seq<char>, Seq<char>),
    Releases(Seq<char>, Seq<char>),
    Chat(Seq<char>, Seq<char>, Seq<char>, Seq<char>),
    Render((u32, i64), Seq<char>),
    Mail(Seq<char>, Seq<char>),
    Finish(Result<(), TaskErrorView>),
}

impl View for NormalStep {
    type V = NormalStepView;

    open spec fn view(&self) -> NormalStepView {
        match self {
            NormalStep::Stars { owner, repo } => NormalStepView::Stars(owner@, repo@),
            NormalStep::Releases { owner, repo } => NormalStepView::Releases(owner@, repo@),
            NormalStep::Chat(c) => NormalStepView::Chat(c.base@, c.model@, c.system@, c.user@),
            NormalStep::Render { page, challenge } => NormalStepView::Render(page@, challenge@),
            NormalStep::Mail { subject, body } => NormalStepView::Mail(subject@, body@),
            NormalStep::Finish(r) => NormalStepView::Finish(result_view(*r)),
        }
    }
}

/// What the program reports back to a run of `Normal`.
pub enum NormalEvent {
    /// The repository's star count, if GitHub gave one.
    Stars(Option<u32>),
    /// Per release, the download counts of its assets.
    Releases(Vec<Vec<i64>>),
    /// The chat answer, the rendered page, or the mail's acknowledgement.
    Text(String),
    /// The last step failed, with this text.
    Failed(String),
}

pub ghost enum NormalEventView {
    Stars(Option<u32>),
    Releases(Seq<Seq<i64>>),
    Text(Seq<char>),
    Failed(Seq<char>),
}

impl View for NormalEvent {
    type V = NormalEventView;

    open spec fn view(&self) -> NormalEventView {
        match self {
            NormalEvent::Stars(s) => NormalEventView::Stars(*s),
            NormalEvent::Releases(r) => NormalEventView::Releases(count_views(r@)),
            NormalEvent::Text(t) => NormalEventView::Text(t@),
            NormalEvent::Failed(m) => NormalEventView::Failed(m@),
        }
    }
}

pub ghost enum NormalPhase {
    CountingStars,
    CountingDownloads(u32),
    Asking(u32, i64),
    Rendering,
    Sending,
    Finished(Result<(), TaskErrorView>),
}

pub open spec fn unexpected_end() -> (NormalPhase, NormalStepView) {
    let r = Err(TaskErrorView::Unexpected);
    (NormalPhase::Finished(r), NormalStepView::Finish(r))
}

/// The next phase and step of a run in phase `phase` told `event`, when the
/// chat model is `chat` (its endpoint and model name).  Missing stars count
/// as 0; downloads are summed over all assets of all releases.  A failure
/// ends the run; so does a report of another kind than the step asked for.
pub open spec fn normal_next(chat: (Seq<char>, Seq<char>), phase: NormalPhase, event: NormalEventView) -> (
    NormalPhase,
    NormalStepView,
) {
    match phase {
        NormalPhase::Finished(r) => (NormalPhase::Finished(r), NormalStepView::Finish(r)),
        _ => match event {
            NormalEventView::Failed(m) => {
                let r = Err(TaskErrorView::Failed(m));
                (NormalPhase::Finished(r), NormalStepView::Finish(r))
            },
            NormalEventView::Stars(s) => match phase {
                NormalPhase::CountingStars => (
                    NormalPhase::CountingDownloads(
                        match s {
                            Some(n) => n,
                            None => 0,
                        },
                    ),
                    NormalStepView::Releases(repo_owner(), repo_name()),
                ),
                _ => unexpected_end(),
            },
            NormalEventView::Releases(r) => match phase {
                NormalPhase::CountingDownloads(star) => (
                    NormalPhase::Asking(star, total(r) as i64),
                    NormalStepView::Chat(chat.0, chat.1, system_prompt(), challenge_prompt()),
                ),
                _ => unexpected_end(),
            },
            NormalEventView::Text(t) => match phase {
                NormalPhase::Asking(star, download) => (
                    NormalPhase::Rendering,
                    NormalStepView::Render((star, download), markdown_html(t)),
                ),
                NormalPhase::Rendering => (
                    NormalPhase::Sending,
                    NormalStepView::Mail(normal_subject(), t),
                ),
                NormalPhase::Sending => (
                    NormalPhase::Finished(Ok(())),
                    NormalStepView::Finish(Ok(())),
                ),
                _ => unexpected_end(),
            },
        },
    }
}

/// Reports that a run of `Normal` can take: download counts whose running
/// sum fits in `i64`.
pub open spec fn event_fits(event: NormalEventView) -> bool {
    event matches NormalEventView::Releases(r) ==> running_fits(r)
}

enum Phase {
    CountingStars,
    CountingDownloads(u32),
    Asking(u32, i64),
    Rendering,
    Sending,
    Finished(Result<(), TaskError>),
}

impl View for Phase {
    type V = NormalPhase;

    closed spec fn view(&self) -> NormalPhase {
        match self {
            Phase::CountingStars => NormalPhase::CountingStars,
            Phase::CountingDownloads(s) => NormalPhase::CountingDownloads(*s),
            Phase::Asking(s, d) => NormalPhase::Asking(*s, *d),
            Phase::Rendering => NormalPhase::Rendering,
            Phase::Sending => NormalPhase::Sending,
            Phase::Finished(r) => NormalPhase::Finished(result_view(*r)),
        }
    }
}

/// One run of `Normal`.
pub struct NormalRun {
    phase: Phase,
}

impl NormalRun {
    pub closed spec fn spec_phase(&self) -> NormalPhase {
        self.phase@
    }

    fn finish(&mut self, r: TaskError) -> (res: NormalStep)
        ensures
            final(self).spec_phase() == NormalPhase::Finished(Err(r@)),
            res@ == NormalStepView::Finish(Err(r@)),
    {
        let kept = r.copy();
        self.phase = Phase::Finished(Err(kept));
        NormalStep::Finish(Err(r))
    }

    /// Takes the result of the last step and gives the next one; the chat
    /// goes to `helper.deep_seek`.
    pub fn step(&mut self, helper: &Helper, event: NormalEvent) -> (res: NormalStep)
        requires
            event_fits(event@),
        ensures
            (final(self).spec_phase(), res@) == normal_next(
                (helper.deep_seek.spec_base(), helper.deep_seek.spec_model()),
                old(self).spec_phase(),
                event@,
            ),
    {
        if let Phase::Finished(r) = &self.phase {
            return NormalStep::Finish(copy_result(r));
        }
        match event {
            NormalEvent::Failed(m) => self.finish(TaskError::Failed(m)),
            NormalEvent::Stars(s) => match self.phase {
                Phase::CountingStars => {
                    let star = match s {
                        Some(n) => n,
                        None => 0,
                    };
                    self.phase = Phase::CountingDownloads(star);
                    NormalStep::Releases {
                        owner: String::from_str("jane-212"),
                        repo: String::from_str("javcap"),
                    }
                },
                _ => self.finish(TaskError::Unexpected),
            },
            NormalEvent::Releases(r) => match self.phase {
                Phase::CountingDownloads(star) => {
                    let download = total_downloads(&r);
                    self.phase = Phase::Asking(star, download);
                    NormalStep::Chat(
                        helper.deep_seek.chat_request(
                            String::from_str("请给我随机推荐两个外出随机挑战"),
                        ),
                    )
                },
                _ => self.finish(TaskError::Unexpected),
            },
            NormalEvent::Text(t) => match self.phase {
                Phase::Asking(star, download) => {
                    let challenge = markdown_to_html(t.as_str());
                    self.phase = Phase::Rendering;
                    NormalStep::Render { page: templates::normal::Normal::new(star, download), challenge }
                },
                Phase::Rendering => {
                    self.phase = Phase::Sending;
                    NormalStep::Mail { subject: String::from_str("Normal"), body: t }
                },
                Phase::Sending => {
                    self.phase = Phase::Finished(Ok(()));
                    NormalStep::Finish(Ok(()))
                },
                _ => self.finish(TaskError::Unexpected),
            },
        }
    }
}

impl Normal {
    /// Starts a run: its first step fetches the repository's star count.
    pub fn run(&self) -> (res: (NormalRun, NormalStep))
        ensures
            res.0.spec_phase() == NormalPhase::CountingStars,
            res.1@ == NormalStepView::Stars(repo_owner(), repo_name()),
    {
        (
            NormalRun { phase: Phase::CountingStars },
            NormalStep::Stars {
                owner: String::from_str("jane-212"),
                repo: String::from_str("javcap"),
            },
        )
    }

    /// The services this digest uses.
    pub fn helper(&self) -> (res: &Arc<Helper>)
        ensures
            *res == self.spec_helper(),
    {
        &self.helper
    }
}

/// A run that gets the star count, the releases, the chat answer, the
/// rendered page and the mail's acknowledgement, all without failure,
/// renders a page with the stars (0 when GitHub gave none) and the sum of
/// all downloads, with the answer turned from markdown into HTML, mails
/// exactly the rendered page under the daily subject, and ends well.
pub proof fn law_normal_mails_counts(
    chat: (Seq<char>, Seq<char>),
    stars: Option<u32>,
    releases: Seq<Seq<i64>>,
    answer: Seq<char>,
    html: Seq<char>,
    ack: Seq<char>,
)
    requires
        running_fits(releases),
    ensures
        ({
            let (p1, s1) = normal_next(chat, NormalPhase::CountingStars, NormalEventView::Stars(stars));
            let (p2, s2) = normal_next(chat, p1, NormalEventView::Releases(releases));
            let (p3, s3) = normal_next(chat, p2, NormalEventView::Text(answer));
            let (p4, s4) = normal_next(chat, p3, NormalEventView::Text(html));
            let (p5, s5) = normal_next(chat, p4, NormalEventView::Text(ack));
            let star = match stars {
                Some(n) => n,
                None => 0u32,
            };
            &&& s1 == NormalStepView::Releases(repo_owner(), repo_name())
            &&& s2 == NormalStepView::Chat(chat.0, chat.1, system_prompt(), challenge_prompt())
            &&& s3 matches NormalStepView::Render((st, dl), ch) && st == star && dl == total(releases)
                && ch == markdown_html(answer)
            &&& s4 == NormalStepView::Mail(normal_subject(), html)
            &&& s5 == NormalStepView::Finish(Ok(()))
            &&& p5 == NormalPhase::Finished(Ok(()))
        }),
{
    lemma_total_fits(releases);
}

/// The total of releases whose running sum fits in `i64` fits as well.
pub proof fn lemma_total_fits(releases: Seq<Seq<i64>>)
    requires
        running_fits(releases),
    ensures
        in_i64(total(releases)),
{
    let n = releases.len();
    if n > 0 {
        let last = releases[n - 1];
        assert(releases.take(n - 1) =~= releases.drop_last());
        assert(last.take(last.len() as int) =~= last);
        assert(in_i64(total(releases.take(n - 1)) + sum(releases[n - 1].take(last.len() as int))));
    }
}

/// A failure at any point ends the run with that failure and no mail, and
/// an ended run stays ended with the same result.
pub proof fn law_normal_failure_is_final(
    chat: (Seq<char>, Seq<char>),
    phase: NormalPhase,
    text: Seq<char>,
    event: NormalEventView,
)
    ensures
        !(phase is Finished) ==> normal_next(chat, phase, NormalEventView::Failed(text)) == (
            NormalPhase::Finished(Err(TaskErrorView::Failed(text))),
            NormalStepView::Finish(Err(TaskErrorView::Failed(text))),
        ),
        phase matches NormalPhase::Finished(r) ==> normal_next(chat, phase, event) == (
            phase,
            NormalStepView::Finish(r),
        ),
{
}

} // verus!
