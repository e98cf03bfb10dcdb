//! The review board: other people's pull requests, lane by lane.

use vstd::prelude::*;

use crate::card::{preview_tools, runs, tools, PreviewTools};
use crate::cardmenu::MenuKind;
use crate::command::{irrevocable, review_of, ExecutorCommand};
use crate::confirm::{
    approve_message, asks, bare_approval, confirm_approve_review, confirm_dismiss_review,
    dismiss_message, leads_to, with_dialog, ConfirmAction, GestureView, OverlaysView, RequestView,
};
use crate::diffdialog::{open_review_diff, DiffRequest, DiffTarget};
use crate::lists::{a_filter_keeps_what_passes, derefs, joined_contains, select_among};
use crate::model::{Id, PreviewStatus, PreviewUrl, ReviewColumn, ReviewStatus, ReviewTask};
use crate::search::title_matches;
use crate::state::{AppState, StateView};
use crate::text::{cat2, ends, parts_are_found, starts};

verus! {

broadcast use vstd::std_specs::hash::group_hash_axioms;

// ---- Lanes ---------------------------------------------------------------

/// The lanes, from left to right.
pub open spec fn review_lanes() -> Seq<ReviewColumn> {
    seq![
        ReviewColumn::ToReview,
        ReviewColumn::Reviewing,
        ReviewColumn::AwaitingValidation,
        ReviewColumn::Reviewed,
    ]
}

impl ReviewColumn {
    pub fn board() -> (r: [ReviewColumn; 4])
        ensures
            r@ == review_lanes(),
    {
        let r = [
            ReviewColumn::ToReview,
            ReviewColumn::Reviewing,
            ReviewColumn::AwaitingValidation,
            ReviewColumn::Reviewed,
        ];
        assert(r@ =~= review_lanes());
        r
    }
}

/// The pull requests left by the find bar, which looks at their titles.
pub fn filtered_tasks<'a>(tasks: Vec<&'a ReviewTask>, query: &Option<String>) -> (r: Vec<
    &'a ReviewTask,
>)
    ensures
        derefs(r@) == (match query {
            Some(q) => derefs(tasks@).filter(|t: ReviewTask| title_matches(t.pr_title@, q@)),
            None => derefs(tasks@),
        }),
{
    match query {
        Some(q) => {
            let hit = |t: &ReviewTask| -> (b: bool)
                ensures
                    b == title_matches(t.pr_title@, q@),
            {
                crate::search::matches(t.pr_title.as_str(), q.as_str())
            };
            select_among(&tasks, hit, Ghost(|t: ReviewTask| title_matches(t.pr_title@, q@)))
        },
        None => tasks,
    }
}

/// The pull requests of one lane, in their order.
pub fn lane_tasks<'a>(tasks: &Vec<&'a ReviewTask>, column: ReviewColumn) -> (r: Vec<&'a ReviewTask>)
    ensures
        derefs(r@) == derefs(tasks@).filter(|t: ReviewTask| t.facts.column == column),
{
    let hit = |t: &ReviewTask| -> (b: bool)
        ensures
            b == (t.facts.column == column),
    {
        t.facts.column == column
    };
    select_among(tasks, hit, Ghost(|t: ReviewTask| t.facts.column == column))
}

// ---- What a status means -------------------------------------------------

/// A committed fix waits at the push gate, possibly after a rejected push.
pub open spec fn gate_ready(s: ReviewStatus) -> bool
    decreases s,
{
    match s {
        ReviewStatus::FixReady => true,
        ReviewStatus::Failed { message: _, previous } => gate_ready(*previous),
        _ => false,
    }
}

/// Whether a committed fix waits at the push gate, including one whose push was
/// rejected: it is retried from the same place.
pub fn fix_gate_ready(status: &ReviewStatus) -> (r: bool)
    ensures
        r == gate_ready(*status),
    decreases status,
{
    match status {
        ReviewStatus::FixReady => true,
        ReviewStatus::Failed { message: _, previous } => fix_gate_ready(&**previous),
        _ => false,
    }
}

/// The fix flow has begun: a fix is being made, or waits to be pushed.
pub open spec fn in_fix_flow(s: ReviewStatus) -> bool
    decreases s,
{
    match s {
        ReviewStatus::Failed { message: _, previous } => in_fix_flow(*previous),
        s => s is Fixing || s is FixReady,
    }
}

/// Whether a fault came out of the fix flow rather than the review pass. Such a
/// review is already published and is not run again.
pub fn fix_faulted(status: &ReviewStatus) -> (r: bool)
    ensures
        r == in_fix_flow(*status),
    decreases status,
{
    match status {
        ReviewStatus::Failed { message: _, previous } => fix_faulted(&**previous),
        _ => matches!(status, ReviewStatus::Fixing | ReviewStatus::FixReady),
    }
}

/// The checkout is there, or can be made: it is torn down once the review is
/// published or the pull request has left.
pub open spec fn has_checkout(s: ReviewStatus) -> bool {
    !(s is Reviewed) && !(s is MergedWithoutReview)
}

// ---- Buttons -------------------------------------------------------------

#[derive(Debug, Clone, Copy, PartialEq, Eq, Structural)]
pub enum ReviewButton {
    Review,
    Approve,
    Dismiss,
    Validate,
    ReadFix,
    Retry,
}

pub open spec fn review_when(c: bool, b: ReviewButton) -> Seq<ReviewButton> {
    if c {
        seq![b]
    } else {
        Seq::empty()
    }
}

/// The buttons of a pull request, in order.
pub open spec fn review_buttons(s: ReviewStatus) -> Seq<ReviewButton> {
    review_when(s is ToReview, ReviewButton::Review) + review_when(
        s is ToReview,
        ReviewButton::Approve,
    ) + review_when(s is ToReview, ReviewButton::Dismiss) + review_when(
        s is AwaitingValidation,
        ReviewButton::Validate,
    ) + review_when(gate_ready(s), ReviewButton::ReadFix) + review_when(
        s is MergedWithoutReview,
        ReviewButton::Dismiss,
    ) + review_when(s is Failed && !gate_ready(s) && !in_fix_flow(s), ReviewButton::Retry)
}

fn push_review(v: &mut Vec<ReviewButton>, c: bool, b: ReviewButton)
    ensures
        final(v)@ == old(v)@ + review_when(c, b),
{
    if c {
        v.push(b);
        assert(v@ =~= old(v)@ + review_when(c, b));
    } else {
        assert(v@ =~= old(v)@ + review_when(c, b));
    }
}

pub fn buttons_of(status: &ReviewStatus) -> (r: Vec<ReviewButton>)
    ensures
        r@ == review_buttons(*status),
{
    let mut v: Vec<ReviewButton> = Vec::new();
    let fresh = matches!(status, ReviewStatus::ToReview);
    let ready = fix_gate_ready(status);
    if fresh {
        v.push(ReviewButton::Review);
    }
    assert(v@ =~= review_when(fresh, ReviewButton::Review));
    push_review(&mut v, fresh, ReviewButton::Approve);
    push_review(&mut v, fresh, ReviewButton::Dismiss);
    push_review(
        &mut v,
        matches!(status, ReviewStatus::AwaitingValidation { .. }),
        ReviewButton::Validate,
    );
    push_review(&mut v, ready, ReviewButton::ReadFix);
    push_review(
        &mut v,
        matches!(status, ReviewStatus::MergedWithoutReview { .. }),
        ReviewButton::Dismiss,
    );
    let failed = matches!(status, ReviewStatus::Failed { .. });
    push_review(&mut v, failed && !ready && !fix_faulted(status), ReviewButton::Retry);
    v
}

pub fn review_button_label(b: ReviewButton) -> (r: &'static str)
    ensures
        r@ == (match b {
            ReviewButton::Review => "Review"@,
            ReviewButton::Approve => "Approve"@,
            ReviewButton::Dismiss => "Dismiss"@,
            ReviewButton::Validate => "Validate comments"@,
            ReviewButton::ReadFix => "Review the fix"@,
            ReviewButton::Retry => "Retry"@,
        }),
{
    match b {
        ReviewButton::Review => "Review",
        ReviewButton::Approve => "Approve",
        ReviewButton::Dismiss => "Dismiss",
        ReviewButton::Validate => "Validate comments",
        ReviewButton::ReadFix => "Review the fix",
        ReviewButton::Retry => "Retry",
    }
}

pub fn review_button_class(b: ReviewButton) -> (r: &'static str)
    ensures
        r@ == (match b {
            ReviewButton::Dismiss => "btn subtle"@,
            ReviewButton::Approve | ReviewButton::Retry => "btn"@,
            _ => "btn primary"@,
        }),
{
    match b {
        ReviewButton::Dismiss => "btn subtle",
        ReviewButton::Approve | ReviewButton::Retry => "btn",
        _ => "btn primary",
    }
}

pub fn review_button_title(b: ReviewButton) -> (r: &'static str)
    ensures
        r@ == (match b {
            ReviewButton::Review => "Check out the PR and run the review agent"@,
            ReviewButton::Approve => "Approve this PR without running the review agent"@,
            ReviewButton::Dismiss => "Dismiss this PR from the review board"@,
            ReviewButton::Validate => "Check the drafted comments against the diff"@,
            ReviewButton::ReadFix => "Read the committed fix before it's pushed"@,
            ReviewButton::Retry => "Retry the review"@,
        }),
{
    match b {
        ReviewButton::Review => "Check out the PR and run the review agent",
        ReviewButton::Approve => "Approve this PR without running the review agent",
        ReviewButton::Dismiss => "Dismiss this PR from the review board",
        ReviewButton::Validate => "Check the drafted comments against the diff",
        ReviewButton::ReadFix => "Read the committed fix before it's pushed",
        ReviewButton::Retry => "Retry the review",
    }
}

/// The state with a pull request's panel and its diff open.
pub open spec fn reading(s: StateView, id: Id, token: Id) -> StateView {
    StateView {
        selected_review: Some(id),
        ui: OverlaysView {
            diff: Some(
                DiffRequest {
                    target: DiffTarget::Review(id),
                    scroll_to: None,
                    scroll_to_path: None,
                    token,
                },
            ),
            ..s.ui
        },
        ..s
    }
}

pub open spec fn dismiss_dialog_of(id: Id, pr_number: u64) -> RequestView {
    RequestView {
        title: "Dismiss pull request"@,
        message: dismiss_message(pr_number),
        confirm_label: "Dismiss"@,
        danger: true,
        action: ConfirmAction::Send(ExecutorCommand::DismissReview { review_id: id }),
    }
}

/// Approving asks first, but for demo mode.
pub open spec fn approving(
    before: StateView,
    after: StateView,
    sent: Option<ExecutorCommand>,
    demo: bool,
    id: Id,
    pr_number: u64,
) -> bool {
    &&& demo ==> after == before && sent is Some && bare_approval(sent->0, id)
    &&& !demo ==> {
        &&& sent is None
        &&& after.ui.confirm is Some
        &&& after == (StateView { ui: with_dialog(before.ui, after.ui.confirm->0), ..before })
        &&& after.ui.confirm->0.title == "Approve pull request"@
        &&& after.ui.confirm->0.message == approve_message(pr_number)
        &&& after.ui.confirm->0.confirm_label == "Approve"@
        &&& !after.ui.confirm->0.danger
        &&& after.ui.confirm->0.action matches ConfirmAction::Send(cmd)
        &&& bare_approval(cmd, id)
    }
}

/// What a button of a pull request does to the state, and what it sends at once.
pub open spec fn review_pressed(
    before: StateView,
    after: StateView,
    sent: Option<ExecutorCommand>,
    demo: bool,
    b: ReviewButton,
    id: Id,
    pr_number: u64,
    guidance: String,
    token: Id,
) -> bool {
    match b {
        ReviewButton::Review | ReviewButton::Retry => after == before && sent == Some(
            (ExecutorCommand::StartReview { review_id: id, guidance }),
        ),
        ReviewButton::Approve => approving(before, after, sent, demo, id, pr_number),
        ReviewButton::Dismiss => sent is None && after == (StateView {
            ui: with_dialog(before.ui, dismiss_dialog_of(id, pr_number)),
            ..before
        }),
        ReviewButton::Validate | ReviewButton::ReadFix => sent is None && after == reading(
            before,
            id,
            token,
        ),
    }
}

impl AppState {
    /// Press a button of a pull request: what is sent at once. Starting from the
    /// board reuses the steering that the panel last sent. `token` is fresh.
    pub fn press_review(
        &mut self,
        demo: bool,
        b: ReviewButton,
        id: Id,
        pr_number: u64,
        guidance: String,
        token: Id,
    ) -> (r: Option<ExecutorCommand>)
        ensures
            review_pressed(old(self)@, final(self)@, r, demo, b, id, pr_number, guidance, token),
    {
        match b {
            ReviewButton::Review | ReviewButton::Retry => Some(self.start_review(id, guidance)),
            ReviewButton::Approve => confirm_approve_review(&mut self.ui, demo, id, pr_number),
            ReviewButton::Dismiss => {
                confirm_dismiss_review(&mut self.ui, id, pr_number);
                None
            },
            ReviewButton::Validate | ReviewButton::ReadFix => {
                self.select_review(Some(id));
                open_review_diff(&mut self.ui.diff, id, token);
                None
            },
        }
    }
}

// ---- The face of a pull request ------------------------------------------

/// What the board knows of a pull request beside it.
#[derive(Debug, Clone, Copy, PartialEq, Eq, Structural)]
pub struct ReviewContext {
    pub selected: bool,
    pub busy: bool,
    pub queued: bool,
    pub run_configured: bool,
}

/// Everything a pull request shows on the board.
#[derive(Debug, Clone, PartialEq, Eq)]
pub struct ReviewFace {
    pub class: String,
    pub spinner: bool,
    pub checks: bool,
    pub conflicts: bool,
    /// The "published" tag.
    pub published: bool,
    pub buttons: Vec<ReviewButton>,
    pub preview: PreviewTools,
    pub menu: MenuKind,
}

pub open spec fn review_face_class(s: ReviewStatus, ctx: ReviewContext) -> Seq<char> {
    let base = if s is Failed {
        "card review-card failed"@
    } else if ctx.selected {
        "card review-card selected"@
    } else {
        "card review-card"@
    };
    if ctx.busy {
        base + " is-busy"@
    } else {
        base
    }
}

/// What a pull request shows. While an agent writes in the checkout it is not
/// the user's to run.
pub fn review_face(
    task: &ReviewTask,
    ctx: ReviewContext,
    preview: Option<&(PreviewStatus, Vec<PreviewUrl>)>,
) -> (r: ReviewFace)
    ensures
        r.class@ == review_face_class(task.status, ctx),
        r.spinner == ((task.facts.running || ctx.busy) && !ctx.queued),
        r.checks == task.facts.checks_reportable,
        r.conflicts == task.conflicting,
        r.published == (task.status is Reviewed),
        r.buttons@ == review_buttons(task.status),
        r.preview@ == tools(
            has_checkout(task.status) && ctx.run_configured && !(task.status is Fixing),
            match preview {
                Some(p) => Some(*p),
                None => None,
            },
        ),
        r.menu == (MenuKind::Review {
            pr_number: task.pr_number,
            has_checkout: has_checkout(task.status),
            has_fix: in_fix_flow(task.status),
        }),
{
    let st = &task.status;
    let published = matches!(st, ReviewStatus::Reviewed);
    let retired = matches!(st, ReviewStatus::MergedWithoutReview { .. });
    let fixing = matches!(st, ReviewStatus::Fixing);
    let checkout = !published && !retired;
    let base = if matches!(st, ReviewStatus::Failed { .. }) {
        "card review-card failed"
    } else if ctx.selected {
        "card review-card selected"
    } else {
        "card review-card"
    };
    ReviewFace {
        class: if ctx.busy {
            cat2(base, " is-busy")
        } else {
            base.to_owned()
        },
        spinner: (task.facts.running || ctx.busy) && !ctx.queued,
        checks: task.facts.checks_reportable,
        conflicts: task.conflicting,
        published,
        buttons: buttons_of(st),
        preview: preview_tools(checkout && ctx.run_configured && !fixing, preview),
        menu: MenuKind::Review {
            pr_number: task.pr_number,
            has_checkout: checkout,
            has_fix: fix_faulted(st),
        },
    }
}

impl AppState {
    /// What the board knows of a pull request.
    pub fn review_context(&self, task: &ReviewTask, queued: bool) -> (r: ReviewContext)
        ensures
            r == (ReviewContext {
                selected: self@.selected_review == Some(task.id),
                busy: self@.busy.contains(task.id),
                queued,
                run_configured: runs(self@.projects, task.project_id),
            }),
    {
        ReviewContext {
            selected: match self.selected_review {
                Some(id) => id == task.id,
                None => false,
            },
            busy: self.busy.contains(&task.id),
            queued,
            run_configured: self.run_configured(task.project_id),
        }
    }
}

// ---- Laws ----------------------------------------------------------------

/// A fix that waits to be pushed is always part of the fix flow.
pub proof fn a_ready_fix_is_a_fix(s: ReviewStatus)
    requires
        gate_ready(s),
    ensures
        in_fix_flow(s),
    decreases s,
{
    match s {
        ReviewStatus::Failed { message: _, previous } => a_ready_fix_is_a_fix(*previous),
        _ => {},
    }
}

/// A published review is never run again: the board offers neither a first pass
/// nor a retry once the fix flow has begun.
pub proof fn a_published_review_is_not_rerun(s: ReviewStatus)
    requires
        in_fix_flow(s),
    ensures
        !review_buttons(s).contains(ReviewButton::Review),
        !review_buttons(s).contains(ReviewButton::Retry),
{
}

/// A button stands on a pull request exactly where its review is at.
pub proof fn a_review_button_has_its_place(s: ReviewStatus, b: ReviewButton)
    ensures
        review_buttons(s).contains(b) <==> (match b {
            ReviewButton::Review => s is ToReview,
            ReviewButton::Approve => s is ToReview,
            ReviewButton::Dismiss => s is ToReview || s is MergedWithoutReview,
            ReviewButton::Validate => s is AwaitingValidation,
            ReviewButton::ReadFix => gate_ready(s),
            ReviewButton::Retry => s is Failed && !in_fix_flow(s),
        }),
{
    let fresh = s is ToReview;
    let again = s is Failed && !gate_ready(s) && !in_fix_flow(s);
    let t0 = review_when(fresh, ReviewButton::Review);
    let t1 = t0 + review_when(fresh, ReviewButton::Approve);
    let t2 = t1 + review_when(fresh, ReviewButton::Dismiss);
    let t3 = t2 + review_when(s is AwaitingValidation, ReviewButton::Validate);
    let t4 = t3 + review_when(gate_ready(s), ReviewButton::ReadFix);
    let t5 = t4 + review_when(s is MergedWithoutReview, ReviewButton::Dismiss);
    assert(review_buttons(s) == t5 + review_when(again, ReviewButton::Retry));
    one_review(t5, again, ReviewButton::Retry, b);
    one_review(t4, s is MergedWithoutReview, ReviewButton::Dismiss, b);
    one_review(t3, gate_ready(s), ReviewButton::ReadFix, b);
    one_review(t2, s is AwaitingValidation, ReviewButton::Validate, b);
    one_review(t1, fresh, ReviewButton::Dismiss, b);
    one_review(t0, fresh, ReviewButton::Approve, b);
    one_review(Seq::empty(), fresh, ReviewButton::Review, b);
    assert(Seq::empty() + t0 =~= t0);
    if gate_ready(s) {
        a_ready_fix_is_a_fix(s);
    }
}

proof fn one_review(t: Seq<ReviewButton>, c: bool, b: ReviewButton, x: ReviewButton)
    ensures
        (t + review_when(c, b)).contains(x) == (t.contains(x) || (c && b == x)),
{
    joined_contains(t, review_when(c, b), x);
    if c {
        assert(review_when(c, b)[0] == b);
    }
}

/// A fault hides nothing of how far a fix has come; beside a fault a fix is ready
/// exactly when it is, and under way while it is made or ready.
pub proof fn a_fault_keeps_the_fix(s: ReviewStatus, text: String)
    ensures
        gate_ready(ReviewStatus::Failed { message: text, previous: Box::new(s) }) == gate_ready(s),
        in_fix_flow(ReviewStatus::Failed { message: text, previous: Box::new(s) }) == in_fix_flow(s),
        !(s is Failed) ==> (gate_ready(s) <==> s is FixReady),
        !(s is Failed) ==> (in_fix_flow(s) <==> s is Fixing || s is FixReady),
        has_checkout(s) <==> !(s is Reviewed) && !(s is MergedWithoutReview),
{
}

/// The same state but for the dialog that is up.
pub open spec fn only_asks(before: StateView, after: StateView) -> bool {
    after.ui.confirm is Some && after == (StateView {
        ui: OverlaysView { confirm: after.ui.confirm, note: Seq::empty(), ..before.ui },
        ..before
    })
}

/// The command the dialog that is up comes to.
pub open spec fn dialog_leads_to(s: StateView) -> Option<ExecutorCommand> {
    match s.ui.confirm {
        Some(req) => leads_to(GestureView::Ask(req)),
        None => None,
    }
}

/// An approval of a pull request with nothing said.
pub open spec fn only_approves(cmd: ExecutorCommand, id: Id) -> bool {
    cmd matches ExecutorCommand::PublishReview { review_id, drafts, event, body } && review_id == id
        && drafts@.len() == 0 && event is Approve && body@.len() == 0
}

/// What a button of a pull request does is about that pull request. Nothing that cannot
/// be taken back is sent without a dialog, the demo aside. Reviewing starts the review
/// with the steering given; approving comes to an approval and nothing more; dismissing
/// asks, in red; reading opens that pull request's diff.
#[verifier::rlimit(40)]
pub proof fn review_buttons_do_their_own(
    before: StateView,
    after: StateView,
    sent: Option<ExecutorCommand>,
    demo: bool,
    b: ReviewButton,
    id: Id,
    pr_number: u64,
    guidance: String,
    token: Id,
)
    requires
        review_pressed(before, after, sent, demo, b, id, pr_number, guidance, token),
    ensures
        sent matches Some(cmd) ==> review_of(cmd) == Some(id),
        sent matches Some(cmd) ==> demo || !irrevocable(cmd),
        b is Review || b is Retry ==> after == before && (sent matches Some(
            ExecutorCommand::StartReview { guidance: said, .. },
        ) && said == guidance),
        b is Approve && !demo ==> sent is None && only_asks(before, after) && (dialog_leads_to(
            after,
        ) matches Some(cmd) && only_approves(cmd, id)),
        b is Approve && demo ==> after == before && (sent matches Some(cmd) && only_approves(
            cmd,
            id,
        )),
        b is Dismiss ==> sent is None && only_asks(before, after) && dialog_leads_to(after) == Some(
            ExecutorCommand::DismissReview { review_id: id },
        ) && after.ui.confirm->0.danger,
        b is Validate || b is ReadFix ==> sent is None && after.selected_review == Some(id) && (
        after.ui.diff matches Some(d) && d.target == DiffTarget::Review(id) && d.token == token)
            && after == (StateView {
            selected_review: after.selected_review,
            ui: OverlaysView { diff: after.ui.diff, ..before.ui },
            ..before
        }),
{
}

/// The lanes of the review board go from what is to be read to what was read, each
/// once.
pub proof fn review_lanes_go_rightwards(col: ReviewColumn)
    ensures
        review_lanes().contains(col),
        review_lanes().no_duplicates(),
        review_lanes()[0] == ReviewColumn::ToReview,
        review_lanes().last() == ReviewColumn::Reviewed,
        review_lanes().index_of(ReviewColumn::Reviewing) < review_lanes().index_of(
            ReviewColumn::AwaitingValidation,
        ),
{
    let l = review_lanes();
    assert(l[0] is ToReview && l[1] is Reviewing && l[2] is AwaitingValidation && l[3] is Reviewed);
    let i = l.index_of(ReviewColumn::Reviewing);
    let j = l.index_of(ReviewColumn::AwaitingValidation);
    assert(l.contains(ReviewColumn::Reviewing) && l.contains(ReviewColumn::AwaitingValidation));
    assert(0 <= i < 4 && 0 <= j < 4 && l[i] is Reviewing && l[j] is AwaitingValidation);
}

/// A lane holds the pull requests whose review is at it, all of them and no other.
pub proof fn a_lane_holds_its_reviews(
    tasks: Vec<&ReviewTask>,
    col: ReviewColumn,
    r: Vec<&ReviewTask>,
    t: ReviewTask,
)
    requires
        call_ensures(lane_tasks, (&tasks, col), r),
    ensures
        derefs(r@).contains(t) <==> derefs(tasks@).contains(t) && t.facts.column == col,
{
    a_filter_keeps_what_passes(derefs(tasks@), |t: ReviewTask| t.facts.column == col, t);
}

/// The class of a pull request tells a fault before a selection, and adds what is busy.
pub proof fn a_review_class_tells_the_status(s: ReviewStatus, ctx: ReviewContext)
    ensures
        s is Failed ==> starts(review_face_class(s, ctx), "card review-card failed"@),
        !(s is Failed) && ctx.selected ==> starts(
            review_face_class(s, ctx),
            "card review-card selected"@,
        ),
        ctx.busy ==> ends(review_face_class(s, ctx), " is-busy"@),
{
    let base = if s is Failed {
        "card review-card failed"@
    } else if ctx.selected {
        "card review-card selected"@
    } else {
        "card review-card"@
    };
    parts_are_found(Seq::empty(), base, " is-busy"@);
    parts_are_found(Seq::empty(), base, Seq::empty());
    assert(base + Seq::<char>::empty() =~= base);
    parts_are_found(base, " is-busy"@, Seq::empty());
}

/// The face of a pull request shows it: what runs, its conflicts, that it was published,
/// and a menu that goes by its checkout and its fix.
pub proof fn a_review_face_shows_its_review(
    task: ReviewTask,
    ctx: ReviewContext,
    preview: Option<&(PreviewStatus, Vec<PreviewUrl>)>,
    r: ReviewFace,
)
    requires
        call_ensures(review_face, (&task, ctx, preview), r),
    ensures
        r.spinner <==> (task.facts.running || ctx.busy) && !ctx.queued,
        r.conflicts == task.conflicting,
        r.published <==> task.status is Reviewed,
        r.checks == task.facts.checks_reportable,
        task.status is Fixing || !ctx.run_configured || task.status is Reviewed ==> r.preview@
            is Hidden,
        r.menu matches MenuKind::Review { pr_number, has_checkout: open, has_fix } && pr_number
            == task.pr_number && (open <==> !(task.status is Reviewed)
            && !(task.status is MergedWithoutReview)) && has_fix == in_fix_flow(task.status),
{
}

/// What the board knows of a pull request is about that one and its project.
pub proof fn a_review_context_is_of_its_review(
    s: AppState,
    task: ReviewTask,
    queued: bool,
    r: ReviewContext,
)
    requires
        call_ensures(AppState::review_context, (&s, &task, queued), r),
    ensures
        r.selected <==> s@.selected_review == Some(task.id),
        r.busy <==> s@.busy.contains(task.id),
        r.queued == queued,
        r.run_configured == runs(s@.projects, task.project_id),
{
}

/// A button says what it does: dismissing is confirmed by the word on the button, and no
/// two buttons say the same.
pub proof fn review_buttons_say_what_they_do(
    a: ReviewButton,
    b: ReviewButton,
    id: Id,
    pr_number: u64,
    x: &'static str,
    y: &'static str,
)
    requires
        call_ensures(review_button_label, (a,), x),
        call_ensures(review_button_label, (b,), y),
    ensures
        a is Dismiss ==> dismiss_dialog_of(id, pr_number).confirm_label == x@,
        x@ == y@ ==> a == b,
{
    reveal_strlit("Review");
    reveal_strlit("Approve");
    reveal_strlit("Dismiss");
    reveal_strlit("Validate comments");
    reveal_strlit("Review the fix");
    reveal_strlit("Retry");
    assert("Review"@.len() == 6 && "Approve"@.len() == 7 && "Dismiss"@.len() == 7
        && "Validate comments"@.len() == 17 && "Review the fix"@.len() == 14 && "Retry"@.len() == 5);
    assert("Approve"@[0] == 'A' && "Dismiss"@[0] == 'D');
}

} // verus!
