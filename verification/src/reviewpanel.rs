//! The panel of someone else's pull request: what it is, the review of it, and
//! the drafted comments to validate.

use vstd::prelude::*;

use crate::card::opt_text;
use crate::command::{irrevocable, review_of, ExecutorCommand};
use crate::confirm::{
    confirm_approve_review, confirm_discard_review, confirm_dismiss_review,
    confirm_publish_review, publish_message, selected_count, with_dialog, ConfirmAction,
    OverlaysView, RequestView,
};
use crate::diffdialog::{open_review_diff, DiffTarget};
use crate::diffview::{publish_label, publish_words, publishing_says_how_many};
use crate::drafts::forget;
use crate::model::{CheckStatus, DraftComment, Id, ReviewStatus, ReviewTask};
use crate::reviewboard::{
    approving, dialog_leads_to, dismiss_dialog_of, only_approves, only_asks, reading,
};
use crate::reviewdraft::edits_for;
use crate::state::{AppState, StateView};
use crate::text::{
    blank, blank_is_empty_trim, cat2, cat3, decimal, is_blank, parts_are_found, starts, trimmed,
    within,
};

verus! {

// ---- The panel -----------------------------------------------------------

/// The key of the panel's body: another key rebuilds it.
pub open spec fn status_key(s: ReviewStatus) -> Seq<char> {
    match s {
        ReviewStatus::ToReview => "to-review"@,
        ReviewStatus::Reviewing => "reviewing"@,
        ReviewStatus::AwaitingValidation { .. } => "validate"@,
        ReviewStatus::Reviewed => "reviewed"@,
        ReviewStatus::Fixing => "fixing"@,
        ReviewStatus::FixReady => "fix-ready"@,
        ReviewStatus::MergedWithoutReview { merged } => if merged {
            "ext-merged"@
        } else {
            "ext-closed"@
        },
        ReviewStatus::Failed { .. } => "failed"@,
    }
}

pub fn status_discriminant(s: &ReviewStatus) -> (r: &'static str)
    ensures
        r@ == status_key(*s),
{
    match s {
        ReviewStatus::ToReview => "to-review",
        ReviewStatus::Reviewing => "reviewing",
        ReviewStatus::AwaitingValidation { .. } => "validate",
        ReviewStatus::Reviewed => "reviewed",
        ReviewStatus::Fixing => "fixing",
        ReviewStatus::FixReady => "fix-ready",
        ReviewStatus::MergedWithoutReview { merged } => if *merged {
            "ext-merged"
        } else {
            "ext-closed"
        },
        ReviewStatus::Failed { .. } => "failed",
    }
}

/// What the panel shows above the review's own section.
#[derive(Debug, Clone, PartialEq, Eq)]
pub struct ReviewPanelFace {
    /// From branch to branch.
    pub refs: String,
    pub checks_failing: bool,
    /// The branch it conflicts with.
    pub conflict: Option<String>,
    /// The author's own account of the change.
    pub description: bool,
    /// The steering the run was given, shown back once it is under way.
    pub steering: bool,
}

pub open spec fn shows_steering(task: ReviewTask) -> bool {
    !blank(task.guidance@) && (task.status is Reviewing || task.status is AwaitingValidation)
}

pub fn review_panel(task: &ReviewTask) -> (r: ReviewPanelFace)
    ensures
        r.refs@ == task.head_ref@ + " → "@ + task.base_ref@,
        r.checks_failing == (task.checks == CheckStatus::Failing),
        opt_text(r.conflict) == (if task.conflicting {
            Some("This PR conflicts with "@ + task.base_ref@ + "."@)
        } else {
            None
        }),
        r.description == !blank(task.body@),
        r.steering == shows_steering(*task),
{
    let under_way = matches!(
        task.status,
        ReviewStatus::Reviewing | ReviewStatus::AwaitingValidation { .. }
    );
    ReviewPanelFace {
        refs: cat3(task.head_ref.as_str(), " → ", task.base_ref.as_str()),
        checks_failing: matches!(task.checks, CheckStatus::Failing),
        conflict: if task.conflicting {
            Some(cat3("This PR conflicts with ", task.base_ref.as_str(), "."))
        } else {
            None
        },
        description: !is_blank(task.body.as_str()),
        steering: under_way && !is_blank(task.guidance.as_str()),
    }
}

// ---- The review's own section --------------------------------------------

/// A button of the panel.
#[derive(Debug, Clone, Copy, PartialEq, Eq, Structural)]
pub enum PanelButton {
    Review,
    Approve,
    ShowDiff,
    Retry,
    Dismiss,
    /// Check the drafted comments against the code.
    ReadDrafts,
    Publish,
    Discard,
}

/// The buttons of the panel, in order.
pub open spec fn panel_buttons_of(s: ReviewStatus) -> Seq<PanelButton> {
    match s {
        ReviewStatus::ToReview => seq![
            PanelButton::Review,
            PanelButton::Approve,
            PanelButton::ShowDiff,
            PanelButton::Dismiss,
        ],
        ReviewStatus::AwaitingValidation { .. } => seq![
            PanelButton::ReadDrafts,
            PanelButton::Publish,
            PanelButton::Discard,
        ],
        ReviewStatus::MergedWithoutReview { .. } => seq![PanelButton::Dismiss],
        ReviewStatus::Failed { .. } => seq![PanelButton::Retry, PanelButton::Dismiss],
        ReviewStatus::Reviewing | ReviewStatus::Reviewed | ReviewStatus::Fixing
        | ReviewStatus::FixReady => Seq::empty(),
    }
}

pub fn panel_buttons(status: &ReviewStatus) -> (r: Vec<PanelButton>)
    ensures
        r@ == panel_buttons_of(*status),
{
    let mut v: Vec<PanelButton> = Vec::new();
    match status {
        ReviewStatus::ToReview => {
            v.push(PanelButton::Review);
            v.push(PanelButton::Approve);
            v.push(PanelButton::ShowDiff);
            v.push(PanelButton::Dismiss);
        },
        ReviewStatus::AwaitingValidation { .. } => {
            v.push(PanelButton::ReadDrafts);
            v.push(PanelButton::Publish);
            v.push(PanelButton::Discard);
        },
        ReviewStatus::MergedWithoutReview { .. } => {
            v.push(PanelButton::Dismiss);
        },
        ReviewStatus::Failed { .. } => {
            v.push(PanelButton::Retry);
            v.push(PanelButton::Dismiss);
        },
        ReviewStatus::Reviewing | ReviewStatus::Reviewed | ReviewStatus::Fixing
        | ReviewStatus::FixReady => {},
    }
    assert(v@ =~= panel_buttons_of(*status));
    v
}

/// What a button says; publishing says how many of the comments it posts.
pub open spec fn panel_words(b: PanelButton, selected: nat) -> Seq<char> {
    match b {
        PanelButton::Review => "Review this PR"@,
        PanelButton::Approve => "Approve"@,
        PanelButton::ShowDiff => "Show diff"@,
        PanelButton::Retry => "Retry"@,
        PanelButton::Dismiss => "Dismiss"@,
        PanelButton::ReadDrafts => "Review in diff"@,
        PanelButton::Publish => publish_words(selected),
        PanelButton::Discard => "Discard"@,
    }
}

pub fn panel_label(b: PanelButton, selected: usize) -> (r: String)
    ensures
        r@ == panel_words(b, selected as nat),
{
    match b {
        PanelButton::Review => "Review this PR".to_owned(),
        PanelButton::Approve => "Approve".to_owned(),
        PanelButton::ShowDiff => "Show diff".to_owned(),
        PanelButton::Retry => "Retry".to_owned(),
        PanelButton::Dismiss => "Dismiss".to_owned(),
        PanelButton::ReadDrafts => "Review in diff".to_owned(),
        PanelButton::Publish => publish_label(selected),
        PanelButton::Discard => "Discard".to_owned(),
    }
}

pub fn panel_class(b: PanelButton) -> (r: &'static str)
    ensures
        r@ == (match b {
            PanelButton::Review | PanelButton::ReadDrafts | PanelButton::Publish => "btn primary"@,
            PanelButton::Approve | PanelButton::ShowDiff | PanelButton::Retry => "btn"@,
            PanelButton::Dismiss | PanelButton::Discard => "btn subtle"@,
        }),
{
    match b {
        PanelButton::Review | PanelButton::ReadDrafts | PanelButton::Publish => "btn primary",
        PanelButton::Approve | PanelButton::ShowDiff | PanelButton::Retry => "btn",
        PanelButton::Dismiss | PanelButton::Discard => "btn subtle",
    }
}

/// The tooltip of a button, empty for none. After a failure dismissing needs no
/// explaining.
pub fn panel_title(b: PanelButton, failed: bool) -> (r: &'static str)
    ensures
        r@ == (match b {
            PanelButton::Approve => "Approve on GitHub without running the review agent"@,
            PanelButton::ShowDiff => "Read the diff without running an agent"@,
            PanelButton::Dismiss if !failed => "Dismiss this PR from the review board"@,
            PanelButton::Discard => "Discard this review"@,
            _ => ""@,
        }),
{
    match b {
        PanelButton::Approve => "Approve on GitHub without running the review agent",
        PanelButton::ShowDiff => "Read the diff without running an agent",
        PanelButton::Dismiss => if failed {
            ""
        } else {
            "Dismiss this PR from the review board"
        },
        PanelButton::Discard => "Discard this review",
        _ => "",
    }
}

/// The section of the review itself, but for its buttons.
#[derive(Debug, Clone, PartialEq, Eq)]
pub struct PanelSection {
    pub heading: Option<&'static str>,
    pub hint: Option<String>,
    /// What went wrong.
    pub fault: Option<String>,
    /// The box to steer the next run in.
    pub steer: bool,
    /// The "published" tag.
    pub published: bool,
    /// The drafted comments, their summary and the verdict.
    pub drafts: bool,
}

pub open spec fn section_heading(s: ReviewStatus) -> Option<Seq<char>> {
    match s {
        ReviewStatus::Reviewing | ReviewStatus::Failed { .. } => None,
        ReviewStatus::AwaitingValidation { .. } => Some("Drafted comments"@),
        _ => Some("Review"@),
    }
}

/// What is said of the review. One whose fix is under way says how far that is.
pub open spec fn section_hint(s: ReviewStatus, status_label: Seq<char>) -> Option<Seq<char>> {
    match s {
        ReviewStatus::ToReview => Some(
            "Check out the PR in a worktree and have an agent draft review comments — you approve each one before anything is posted. Already read the PR yourself? Approve it directly, no agent pass needed."@,
        ),
        ReviewStatus::Reviewing => Some("Reading the diff and drafting comments…"@),
        ReviewStatus::AwaitingValidation { .. } => Some(
            "Review these against the code — each one opens at the line it's about."@,
        ),
        ReviewStatus::Reviewed => Some("This review was submitted to GitHub."@),
        ReviewStatus::Fixing | ReviewStatus::FixReady => Some(status_label),
        ReviewStatus::MergedWithoutReview { merged } => Some(left_words(merged)),
        ReviewStatus::Failed { .. } => None,
    }
}

/// A run can be started from the panel, so it can be steered there.
pub open spec fn steerable(s: ReviewStatus) -> bool {
    s is ToReview || s is Failed
}

/// The review has been submitted.
pub open spec fn submitted(s: ReviewStatus) -> bool {
    s is Reviewed || s is Fixing || s is FixReady
}

pub fn panel_section(task: &ReviewTask) -> (r: PanelSection)
    ensures
        (match r.heading {
            Some(h) => Some(h@),
            None => None,
        }) == section_heading(task.status),
        opt_text(r.hint) == section_hint(task.status, task.facts.status_label@),
        opt_text(r.fault) == (match task.status {
            ReviewStatus::Failed { message, .. } => Some("Review failed: "@ + message@),
            _ => None,
        }),
        r.steer == steerable(task.status),
        r.published == submitted(task.status),
        r.drafts == (task.status is AwaitingValidation),
{
    let bare = PanelSection {
        heading: Some("Review"),
        hint: None,
        fault: None,
        steer: false,
        published: false,
        drafts: false,
    };
    match &task.status {
        ReviewStatus::ToReview => PanelSection {
            hint: Some(
                "Check out the PR in a worktree and have an agent draft review comments — you approve each one before anything is posted. Already read the PR yourself? Approve it directly, no agent pass needed.".to_owned(),
            ),
            steer: true,
            ..bare
        },
        ReviewStatus::Reviewing => PanelSection {
            heading: None,
            hint: Some("Reading the diff and drafting comments…".to_owned()),
            ..bare
        },
        ReviewStatus::AwaitingValidation { .. } => PanelSection {
            heading: Some("Drafted comments"),
            hint: Some(
                "Review these against the code — each one opens at the line it's about.".to_owned(),
            ),
            drafts: true,
            ..bare
        },
        ReviewStatus::Reviewed => PanelSection {
            hint: Some("This review was submitted to GitHub.".to_owned()),
            published: true,
            ..bare
        },
        ReviewStatus::Fixing | ReviewStatus::FixReady => PanelSection {
            hint: Some(task.facts.status_label.clone()),
            published: true,
            ..bare
        },
        ReviewStatus::MergedWithoutReview { merged } => PanelSection {
            hint: Some(left_hint(*merged).to_owned()),
            ..bare
        },
        ReviewStatus::Failed { message, .. } => PanelSection {
            heading: None,
            fault: Some(cat2("Review failed: ", message.as_str())),
            steer: true,
            ..bare
        },
    }
}

/// The panel has the box to steer a run exactly where it has a button that
/// starts one.
pub proof fn steering_where_a_run_starts(s: ReviewStatus)
    ensures
        steerable(s) <==> (panel_buttons_of(s).contains(PanelButton::Review)
            || panel_buttons_of(s).contains(PanelButton::Retry)),
{
    let all = panel_buttons_of(s);
    if steerable(s) {
        assert(all[0] == PanelButton::Review || all[0] == PanelButton::Retry);
    }
}

/// A review that was submitted offers nothing more to send from its panel, and
/// only a drafted one can be published there.
pub proof fn published_once(s: ReviewStatus)
    ensures
        submitted(s) ==> panel_buttons_of(s).len() == 0,
        panel_buttons_of(s).contains(PanelButton::Publish) <==> s is AwaitingValidation,
{
    if s is AwaitingValidation {
        assert(panel_buttons_of(s)[1] == PanelButton::Publish);
    }
}

/// Publishing the drafted review as edited. It asks first, but for demo mode;
/// nothing happens without edits of that review.
pub open spec fn publishing(
    before: StateView,
    after: StateView,
    sent: Option<ExecutorCommand>,
    demo: bool,
    id: Id,
    verdict_label: Seq<char>,
) -> bool {
    match before.ui.edits {
        Some(e) if e.review_id == id => {
            &&& demo ==> {
                &&& sent is Some
                &&& publishes(sent->0, id, e)
                &&& after == (StateView {
                    ui: OverlaysView { edits: None, diff: None, ..before.ui },
                    ..before
                })
            }
            &&& !demo ==> {
                &&& sent is None
                &&& after.ui.confirm is Some
                &&& after == (StateView {
                    ui: with_dialog(before.ui, after.ui.confirm->0),
                    ..before
                })
                &&& after.ui.confirm->0.title == "Publish review"@
                &&& after.ui.confirm->0.message == publish_message(
                    selected_count(e.comments@),
                    verdict_label,
                )
                &&& after.ui.confirm->0.confirm_label == "Publish"@
                &&& !after.ui.confirm->0.danger
                &&& after.ui.confirm->0.action matches ConfirmAction::PublishReview(cmd)
                &&& publishes(cmd, id, e)
            }
        },
        _ => sent is None && after == before,
    }
}

pub open spec fn discard_dialog_of(id: Id) -> RequestView {
    RequestView {
        title: "Discard review"@,
        message: "Throw away these drafted comments and drop the PR from the board? Nothing is posted to GitHub, and the PR won't reappear on a later scan."@,
        confirm_label: "Discard"@,
        danger: true,
        action: ConfirmAction::Send(ExecutorCommand::DismissReview { review_id: id }),
    }
}

/// What a button of the panel does to the state, and what it sends at once.
pub open spec fn panel_pressed(
    before: StateView,
    after: StateView,
    sent: Option<ExecutorCommand>,
    demo: bool,
    b: PanelButton,
    id: Id,
    pr_number: u64,
    guidance: String,
    verdict_label: Seq<char>,
    token: Id,
) -> bool {
    match b {
        PanelButton::Review | PanelButton::Retry => after == (StateView {
            drafts: before.drafts.remove((id, "review.guidance"@)),
            ..before
        }) && sent == Some((ExecutorCommand::StartReview { review_id: id, guidance })),
        PanelButton::Approve => approving(before, after, sent, demo, id, pr_number),
        PanelButton::ShowDiff | PanelButton::ReadDrafts => sent is None && after == (StateView {
            ui: reading(before, id, token).ui,
            ..before
        }),
        PanelButton::Dismiss => sent is None && after == (StateView {
            ui: with_dialog(before.ui, dismiss_dialog_of(id, pr_number)),
            ..before
        }),
        PanelButton::Publish => publishing(before, after, sent, demo, id, verdict_label),
        PanelButton::Discard => sent is None && after == (StateView {
            ui: with_dialog(before.ui, discard_dialog_of(id)),
            ..before
        }),
    }
}

impl AppState {
    /// Press a button of the panel: what is sent at once. `guidance` is the
    /// steering typed, and `token` is fresh.
    pub fn press_panel(
        &mut self,
        demo: bool,
        b: PanelButton,
        id: Id,
        pr_number: u64,
        guidance: String,
        verdict_label: &str,
        token: Id,
    ) -> (r: Option<ExecutorCommand>)
        ensures
            panel_pressed(
                old(self)@,
                final(self)@,
                r,
                demo,
                b,
                id,
                pr_number,
                guidance,
                verdict_label@,
                token,
            ),
    {
        match b {
            PanelButton::Review | PanelButton::Retry => Some(self.begin_review(id, guidance)),
            PanelButton::Approve => confirm_approve_review(&mut self.ui, demo, id, pr_number),
            PanelButton::ShowDiff | PanelButton::ReadDrafts => {
                open_review_diff(&mut self.ui.diff, id, token);
                None
            },
            PanelButton::Dismiss => {
                confirm_dismiss_review(&mut self.ui, id, pr_number);
                None
            },
            PanelButton::Publish => self.publish_drafts(demo, id, verdict_label),
            PanelButton::Discard => {
                confirm_discard_review(&mut self.ui, id);
                None
            },
        }
    }

    /// Start the review, or start it over, with the steering typed. The
    /// steering's draft is done with: it becomes the next one's seed.
    pub fn begin_review(&mut self, review_id: Id, guidance: String) -> (r: ExecutorCommand)
        ensures
            r == (ExecutorCommand::StartReview { review_id, guidance }),
            final(self)@ == (StateView {
                drafts: old(self)@.drafts.remove((review_id, "review.guidance"@)),
                ..old(self)@
            }),
    {
        forget(&mut self.drafts, review_id, "review.guidance");
        self.start_review(review_id, guidance)
    }

    /// Publish the drafted review as edited, from whichever place it is
    /// validated in. Nothing happens without edits of that review.
    pub fn publish_drafts(&mut self, demo: bool, review_id: Id, verdict_label: &str) -> (r: Option<
        ExecutorCommand,
    >)
        ensures
            publishing(old(self)@, final(self)@, r, demo, review_id, verdict_label@),
    {
        match edits_for(&self.ui.edits, review_id) {
            Some(e) => {
                let drafts = e.comments.clone();
                assert(drafts@ =~= e.comments@);
                let event = e.verdict;
                let body = e.summary.clone();
                confirm_publish_review(
                    &mut self.ui,
                    demo,
                    review_id,
                    drafts,
                    event,
                    verdict_label,
                    body,
                )
            },
            None => None,
        }
    }
}

/// The command that submits the review as it stands in the edit buffer.
pub open spec fn publishes(
    cmd: ExecutorCommand,
    id: Id,
    e: crate::reviewdraft::DraftEdits,
) -> bool {
    cmd matches ExecutorCommand::PublishReview { review_id, drafts, event, body } && review_id == id
        && drafts@ == e.comments@ && event == e.verdict && body@ == e.summary@
}

/// How many of the drafted comments are to be sent, as `n/m`.
pub fn selected_badge(comments: &Vec<DraftComment>) -> (r: String)
    ensures
        r@ == crate::text::decimal(selected_count(comments@)) + "/"@ + crate::text::decimal(
            comments@.len(),
        ),
{
    let n = crate::text::decimal_text(crate::confirm::count_selected(comments) as u64);
    let m = crate::text::decimal_text(comments.len() as u64);
    cat3(n.as_str(), "/", m.as_str())
}

/// What is said of a pull request that left before its review was done.
pub open spec fn left_words(merged: bool) -> Seq<char> {
    if merged {
        "This PR was merged on GitHub before the review finished — nothing left to review. Dismiss it once acknowledged; if the PR is reopened, it returns to the queue on the next refresh."@
    } else {
        "This PR was closed on GitHub without merging — nothing left to review. Dismiss it once acknowledged; if the PR is reopened, it returns to the queue on the next refresh."@
    }
}

pub fn left_hint(merged: bool) -> (r: &'static str)
    ensures
        r@ == left_words(merged),
{
    if merged {
        "This PR was merged on GitHub before the review finished — nothing left to review. Dismiss it once acknowledged; if the PR is reopened, it returns to the queue on the next refresh."
    } else {
        "This PR was closed on GitHub without merging — nothing left to review. Dismiss it once acknowledged; if the PR is reopened, it returns to the queue on the next refresh."
    }
}

// ---- Laws ----------------------------------------------------------------

/// A button stands in the panel exactly where the review is at.
pub proof fn a_panel_button_has_its_place(s: ReviewStatus, b: PanelButton)
    ensures
        panel_buttons_of(s).contains(b) <==> (match b {
            PanelButton::Review => s is ToReview,
            PanelButton::Approve => s is ToReview,
            PanelButton::ShowDiff => s is ToReview,
            PanelButton::Retry => s is Failed,
            PanelButton::Dismiss => s is ToReview || s is MergedWithoutReview || s is Failed,
            PanelButton::ReadDrafts => s is AwaitingValidation,
            PanelButton::Publish => s is AwaitingValidation,
            PanelButton::Discard => s is AwaitingValidation,
        }),
{
    let all = panel_buttons_of(s);
    match s {
        ReviewStatus::ToReview => {
            assert(all[0] is Review && all[1] is Approve && all[2] is ShowDiff && all[3] is Dismiss);
        },
        ReviewStatus::AwaitingValidation { .. } => {
            assert(all[0] is ReadDrafts && all[1] is Publish && all[2] is Discard);
        },
        ReviewStatus::MergedWithoutReview { .. } => {
            assert(all[0] is Dismiss);
        },
        ReviewStatus::Failed { .. } => {
            assert(all[0] is Retry && all[1] is Dismiss);
        },
        _ => {},
    }
}

/// What a button of the panel does is about that pull request. Nothing that cannot be
/// taken back is sent without a dialog, the demo aside. Starting a review sends the
/// steering typed and forgets it; approving comes to an approval and nothing more;
/// publishing comes to the comments, the verdict and the summary as they were drafted,
/// and to nothing where other drafts are open; dismissing and discarding ask, in red.
#[verifier::rlimit(40)]
pub proof fn panel_buttons_do_their_own(
    before: StateView,
    after: StateView,
    sent: Option<ExecutorCommand>,
    demo: bool,
    b: PanelButton,
    id: Id,
    pr_number: u64,
    guidance: String,
    verdict_label: Seq<char>,
    token: Id,
)
    requires
        panel_pressed(
            before,
            after,
            sent,
            demo,
            b,
            id,
            pr_number,
            guidance,
            verdict_label,
            token,
        ),
    ensures
        sent matches Some(cmd) ==> review_of(cmd) == Some(id),
        sent matches Some(cmd) ==> demo || !irrevocable(cmd),
        b is Review || b is Retry ==> (sent matches Some(
            ExecutorCommand::StartReview { guidance: said, .. },
        ) && said == guidance) && !after.drafts.contains_key((id, "review.guidance"@)) && after == (
        StateView { drafts: after.drafts, ..before }) && forall|k: (Id, Seq<char>)|
            k != (id, "review.guidance"@) ==> #[trigger] after.drafts.contains_key(k)
                == before.drafts.contains_key(k) && after.drafts[k] == before.drafts[k],
        b is Approve && !demo ==> sent is None && only_asks(before, after) && (dialog_leads_to(
            after,
        ) matches Some(cmd) && only_approves(cmd, id)),
        b is ShowDiff || b is ReadDrafts ==> sent is None && after == (StateView {
            ui: OverlaysView { diff: after.ui.diff, ..before.ui },
            ..before
        }) && (after.ui.diff matches Some(d) && d.target == DiffTarget::Review(id) && d.token
            == token),
        b is Dismiss || b is Discard ==> sent is None && only_asks(before, after)
            && dialog_leads_to(after) == Some(ExecutorCommand::DismissReview { review_id: id })
            && after.ui.confirm->0.danger,
        b is Publish && !(before.ui.edits matches Some(e) && e.review_id == id) ==> sent is None
            && after == before,
        b is Publish && (before.ui.edits matches Some(e) && e.review_id == id) ==> {
            let e = before.ui.edits->0;
            let cmd = if demo {
                sent
            } else {
                dialog_leads_to(after)
            };
            &&& cmd matches Some(ExecutorCommand::PublishReview { drafts, event, body, .. })
                && drafts@ == e.comments@ && event == e.verdict && body@ == e.summary@
            &&& !demo ==> sent is None && only_asks(before, after)
            &&& demo ==> after.ui.edits is None && after.ui.diff is None
        },
{
}

/// The steering given is shown while there is a review that it steers.
pub proof fn steering_is_shown_while_it_matters(task: ReviewTask)
    ensures
        shows_steering(task) <==> trimmed(task.guidance@).len() > 0 && (task.status is Reviewing
            || task.status is AwaitingValidation),
{
    blank_is_empty_trim(task.guidance@);
}

/// Every status has a word for it or a fault of its own.
pub proof fn every_status_is_told(s: ReviewStatus, label: Seq<char>)
    ensures
        section_hint(s, label) is None <==> s is Failed,
        section_heading(s) is None <==> s is Failed || s is Reviewing,
        s is Fixing || s is FixReady ==> section_hint(s, label) == Some(label),
        submitted(s) <==> s is Reviewed || s is Fixing || s is FixReady,
{
}

/// The panel is rebuilt for every other status: two statuses share a key only where they
/// are of one kind.
pub proof fn every_status_has_its_key(s: ReviewStatus, t: ReviewStatus)
    requires
        status_key(s) == status_key(t),
    ensures
        s is ToReview <==> t is ToReview,
        s is Reviewing <==> t is Reviewing,
        s is AwaitingValidation <==> t is AwaitingValidation,
        s is Reviewed <==> t is Reviewed,
        s is Fixing <==> t is Fixing,
        s is FixReady <==> t is FixReady,
        s is Failed <==> t is Failed,
        s is MergedWithoutReview ==> s->merged == t->merged,
{
    reveal_strlit("to-review");
    reveal_strlit("reviewing");
    reveal_strlit("validate");
    reveal_strlit("reviewed");
    reveal_strlit("fixing");
    reveal_strlit("fix-ready");
    reveal_strlit("ext-merged");
    reveal_strlit("ext-closed");
    reveal_strlit("failed");
    assert("to-review"@.len() == 9 && "reviewing"@.len() == 9 && "validate"@.len() == 8
        && "reviewed"@.len() == 8 && "fixing"@.len() == 6 && "fix-ready"@.len() == 9
        && "ext-merged"@.len() == 10 && "ext-closed"@.len() == 10 && "failed"@.len() == 6);
    assert("to-review"@[0] == 't' && "reviewing"@[0] == 'r' && "validate"@[0] == 'v'
        && "reviewed"@[0] == 'r' && "fixing"@[1] == 'i' && "fix-ready"@[0] == 'f'
        && "ext-merged"@[4] == 'm' && "ext-closed"@[4] == 'c' && "failed"@[1] == 'a');
}

/// A button says what it does: dismissing and discarding are confirmed by the word on
/// the button, and publishing by its number of comments.
pub proof fn panel_buttons_say_what_they_do(id: Id, pr_number: u64, n: nat)
    ensures
        dismiss_dialog_of(id, pr_number).confirm_label == panel_words(PanelButton::Dismiss, n),
        discard_dialog_of(id).confirm_label == panel_words(PanelButton::Discard, n),
        n > 1 ==> within(panel_words(PanelButton::Publish, n), decimal(n)),
{
    publishing_says_how_many(n);
}

/// A pull request that left is told by whether it was merged.
pub proof fn a_review_that_left_is_told(merged: bool)
    ensures
        left_words(true) != left_words(false),
        section_hint(ReviewStatus::MergedWithoutReview { merged }, Seq::empty()) == Some(
            left_words(merged),
        ),
        merged <==> starts(left_words(merged), "This PR was merged"@),
{
    reveal_strlit(
        "This PR was merged on GitHub before the review finished — nothing left to review. Dismiss it once acknowledged; if the PR is reopened, it returns to the queue on the next refresh.",
    );
    reveal_strlit(
        "This PR was closed on GitHub without merging — nothing left to review. Dismiss it once acknowledged; if the PR is reopened, it returns to the queue on the next refresh.",
    );
    reveal_strlit("This PR was merged");
    assert(left_words(true)[12] == 'm');
    assert(left_words(false)[12] == 'c');
    assert("This PR was merged"@[12] == 'm' && "This PR was merged"@.len() == 18);
    assert(left_words(true).take(18) =~= "This PR was merged"@);
    assert(left_words(false).take(18)[12] == 'c');
}

/// The panel tells where the pull request comes from and goes to, and what it conflicts
/// with.
pub proof fn the_panel_tells_the_branches(task: ReviewTask, r: ReviewPanelFace)
    requires
        call_ensures(review_panel, (&task,), r),
    ensures
        starts(r.refs@, task.head_ref@),
        crate::text::ends(r.refs@, task.base_ref@),
        r.conflict is Some <==> task.conflicting,
        task.conflicting ==> within(r.conflict->0@, task.base_ref@),
        r.checks_failing <==> task.checks == CheckStatus::Failing,
        r.description <==> trimmed(task.body@).len() > 0,
{
    let arrow = " → "@;
    assert(task.head_ref@ + arrow + task.base_ref@ =~= task.head_ref@ + (arrow + task.base_ref@));
    parts_are_found(Seq::empty(), task.head_ref@, arrow + task.base_ref@);
    parts_are_found(task.head_ref@ + arrow, task.base_ref@, Seq::empty());
    parts_are_found("This PR conflicts with "@, task.base_ref@, "."@);
    blank_is_empty_trim(task.body@);
}

} // verus!
