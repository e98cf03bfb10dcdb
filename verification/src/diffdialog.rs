//! The diff dialog: a card's committed contribution, or a pull request under
//! review with its drafted comments.

use vstd::prelude::*;

use crate::card::opt_text;
use crate::command::{card_of, review_of, ExecutorCommand};
use crate::confirm::OverlaysView;
use crate::diffview::{total_added, total_removed, totals};
use crate::drafts::forget;
use crate::lists::first_where;
use crate::model::{Card, DiffState, Id, ReviewStatus, ReviewTask};
use crate::reviewboard::{fix_faulted, fix_gate_ready, gate_ready, in_fix_flow};
use crate::reviewdraft::{
    anchor_id, buffer_view, comments_view, edits_for, ensure_seeded, seeded, thread_id,
    DraftEdits, EditsView,
};
use crate::state::{has_review, AppState, StateView};
use crate::text::{cat2, cat4, decimal, decimal_text, ends, parts_are_found, within};

verus! {

/// Whose diff the dialog shows.
#[derive(Debug, Clone, Copy, PartialEq, Eq, Structural)]
pub enum DiffTarget {
    Card(Id),
    Review(Id),
}

pub open spec fn target_id(t: DiffTarget) -> Id {
    match t {
        DiffTarget::Card(id) => id,
        DiffTarget::Review(id) => id,
    }
}

impl DiffTarget {
    pub fn id(self) -> (r: Id)
        ensures
            r == target_id(self),
    {
        match self {
            DiffTarget::Card(id) | DiffTarget::Review(id) => id,
        }
    }

    /// The command that computes this diff, or computes it again.
    pub fn compute(self) -> (r: ExecutorCommand)
        ensures
            r == (match self {
                DiffTarget::Card(card_id) => ExecutorCommand::ComputeDiff { card_id },
                DiffTarget::Review(review_id) => ExecutorCommand::ComputeReviewDiff { review_id },
            }),
    {
        match self {
            DiffTarget::Card(card_id) => ExecutorCommand::ComputeDiff { card_id },
            DiffTarget::Review(review_id) => ExecutorCommand::ComputeReviewDiff { review_id },
        }
    }
}

/// An open dialog.
#[derive(Debug, Clone, PartialEq, Eq)]
pub struct DiffRequest {
    pub target: DiffTarget,
    /// The comment thread to scroll to.
    pub scroll_to: Option<String>,
    /// The file to scroll to; where it stands is known once the diff is there.
    pub scroll_to_path: Option<String>,
    /// Fresh at every opening: the diff is computed once per token.
    pub token: Id,
}

/// A dialog for a target, scrolled nowhere in particular.
pub open spec fn plainly(r: Option<DiffRequest>, target: DiffTarget, token: Id) -> bool {
    r == Some(DiffRequest { target, scroll_to: None, scroll_to_path: None, token })
}

/// Open a card's diff.
pub fn open_diff_dialog(diff: &mut Option<DiffRequest>, card_id: Id, token: Id)
    ensures
        plainly(*final(diff), DiffTarget::Card(card_id), token),
{
    *diff = Some(
        DiffRequest {
            target: DiffTarget::Card(card_id),
            scroll_to: None,
            scroll_to_path: None,
            token,
        },
    );
}

/// Open a card's diff scrolled to one file.
pub fn open_diff_dialog_at(diff: &mut Option<DiffRequest>, card_id: Id, path: String, token: Id)
    ensures
        *final(diff) == Some(
            (DiffRequest {
                target: DiffTarget::Card(card_id),
                scroll_to: None,
                scroll_to_path: Some(path),
                token,
            }),
        ),
{
    *diff = Some(
        DiffRequest {
            target: DiffTarget::Card(card_id),
            scroll_to: None,
            scroll_to_path: Some(path),
            token,
        },
    );
}

/// Open the diff of a pull request under review.
pub fn open_review_diff(diff: &mut Option<DiffRequest>, review_id: Id, token: Id)
    ensures
        plainly(*final(diff), DiffTarget::Review(review_id), token),
{
    *diff = Some(
        DiffRequest {
            target: DiffTarget::Review(review_id),
            scroll_to: None,
            scroll_to_path: None,
            token,
        },
    );
}

/// Open the diff of a pull request scrolled to one drafted comment.
pub fn open_review_diff_at(
    diff: &mut Option<DiffRequest>,
    review_id: Id,
    comment_index: usize,
    token: Id,
)
    ensures
        *final(diff) is Some,
        (*final(diff))->0.target == DiffTarget::Review(review_id),
        (*final(diff))->0.token == token,
        (*final(diff))->0.scroll_to_path is None,
        (*final(diff))->0.scroll_to is Some,
        (*final(diff))->0.scroll_to->0@ == thread_id(comment_index as nat),
{
    *diff = Some(
        DiffRequest {
            target: DiffTarget::Review(review_id),
            scroll_to: Some(anchor_id(comment_index)),
            scroll_to_path: None,
            token,
        },
    );
}

/// Close the dialog. Nothing happens when none is open.
pub fn dismiss_dialog(diff: &mut Option<DiffRequest>)
    ensures
        *final(diff) is None,
{
    *diff = None;
}

/// What opening the dialog has computed: once for each opening.
pub open spec fn computes(
    diff: Option<DiffRequest>,
    before: Option<Id>,
    after: Option<Id>,
    sent: Option<ExecutorCommand>,
) -> bool {
    match diff {
        Some(req) if before != Some(req.token) => {
            &&& after == Some(req.token)
            &&& sent == Some(
                match req.target {
                    DiffTarget::Card(card_id) => ExecutorCommand::ComputeDiff { card_id },
                    DiffTarget::Review(review_id) => ExecutorCommand::ComputeReviewDiff {
                        review_id,
                    },
                },
            )
        },
        _ => sent is None && after == before,
    }
}

/// Compute the diff once per opening, and not whenever none is cached: the same
/// id can stand for two different diffs. What is sent, and the token remembered.
pub fn compute_once(diff: &Option<DiffRequest>, computed: &mut Option<Id>) -> (r: Option<
    ExecutorCommand,
>)
    ensures
        computes(*diff, *old(computed), *final(computed), r),
{
    if let Some(req) = diff {
        let done = match *computed {
            Some(token) => token == req.token,
            None => false,
        };
        if !done {
            *computed = Some(req.token);
            return Some(req.target.compute());
        }
    }
    None
}

// ---- What the dialog shows -----------------------------------------------

/// What stands in the middle of the dialog.
#[derive(Debug, Clone, PartialEq, Eq)]
pub enum DialogBody {
    Computing,
    Empty,
    Failed(String),
    Ready,
}

/// The body as a mathematical value.
pub enum BodyView {
    Computing,
    Empty,
    Failed(Seq<char>),
    Ready,
}

impl View for DialogBody {
    type V = BodyView;

    open spec fn view(&self) -> BodyView {
        match *self {
            DialogBody::Computing => BodyView::Computing,
            DialogBody::Empty => BodyView::Empty,
            DialogBody::Failed(m) => BodyView::Failed(m@),
            DialogBody::Ready => BodyView::Ready,
        }
    }
}

/// Everything around the diff itself.
#[derive(Debug, Clone, PartialEq, Eq)]
pub struct DialogFace {
    pub title: String,
    /// The lines added and removed.
    pub totals: Option<(u128, u128)>,
    pub body: DialogBody,
    /// What the diff stands for, where that needs saying.
    pub hint: Option<&'static str>,
    /// The bar that publishes the drafted review.
    pub validating: bool,
    /// The bar that pushes the fix, and the branch it goes to.
    pub gate: Option<String>,
}

/// The dialog around a diff as a mathematical value.
pub struct FaceView {
    pub title: Seq<char>,
    pub totals: Option<(nat, nat)>,
    pub body: BodyView,
    pub hint: Option<Seq<char>>,
    pub validating: bool,
    pub gate: Option<Seq<char>>,
}

impl View for DialogFace {
    type V = FaceView;

    open spec fn view(&self) -> FaceView {
        FaceView {
            title: self.title@,
            totals: match self.totals {
                Some((a, r)) => Some((a as nat, r as nat)),
                None => None,
            },
            body: self.body@,
            hint: match self.hint {
                Some(h) => Some(h@),
                None => None,
            },
            validating: self.validating,
            gate: opt_text(self.gate),
        }
    }
}

/// The review that stands behind the dialog, if it is one of a review.
pub open spec fn under_review(target: DiffTarget, task: Option<ReviewTask>) -> Option<ReviewTask> {
    if target is Review {
        task
    } else {
        None
    }
}

pub open spec fn dialog_title(
    target: DiffTarget,
    card: Option<Card>,
    task: Option<ReviewTask>,
) -> Seq<char> {
    match target {
        DiffTarget::Card(_) => match card {
            Some(c) => "Diff — "@ + c.title@,
            None => "Diff"@,
        },
        DiffTarget::Review(_) => match task {
            Some(t) => (if in_fix_flow(t.status) {
                "Fix for PR #"@
            } else {
                "PR #"@
            }) + decimal(t.pr_number as nat) + " — "@ + t.pr_title@,
            None => "Pull request"@,
        },
    }
}

pub open spec fn body_of(diff: Option<DiffState>) -> BodyView {
    match diff {
        None | Some(DiffState::Computing) => BodyView::Computing,
        Some(DiffState::Empty) => BodyView::Empty,
        Some(DiffState::Failed(m)) => BodyView::Failed(m@),
        Some(DiffState::Ready(_)) => BodyView::Ready,
    }
}

/// The dialog around a diff. While a fix is under way the diff is the fix and
/// not the pull request, and the dialog says so; a diff of a checkout says that
/// it is one.
pub open spec fn dialog(
    target: DiffTarget,
    card: Option<Card>,
    found: Option<ReviewTask>,
    diff: Option<DiffState>,
    edits: Option<EditsView>,
) -> FaceView {
    let task = under_review(target, found);
    FaceView {
        title: dialog_title(target, card, task),
        totals: match diff {
            Some(DiffState::Ready(files)) if files@.len() > 0 => Some(
                (total_added(files@), total_removed(files@)),
            ),
            _ => None,
        },
        body: body_of(diff),
        hint: match (task, diff) {
            (Some(t), Some(DiffState::Ready(_))) => if t.worktree_path is None {
                None
            } else if in_fix_flow(t.status) {
                Some("The fix as committed in the review checkout — not pushed yet."@)
            } else {
                Some(
                    "Showing the PR as checked out for the review — pushes made after the review started aren't included."@,
                )
            },
            _ => None,
        },
        validating: task is Some && task->0.status is AwaitingValidation && edits is Some
            && edits->0.review_id == target_id(target),
        gate: match task {
            Some(t) if gate_ready(t.status) => Some(t.head_ref@),
            _ => None,
        },
    }
}

pub open spec fn deref_opt<T>(o: Option<&T>) -> Option<T> {
    match o {
        Some(t) => Some(*t),
        None => None,
    }
}

fn title_of(target: DiffTarget, card: Option<&Card>, task: Option<&ReviewTask>) -> (r: String)
    ensures
        r@ == dialog_title(target, deref_opt(card), deref_opt(task)),
{
    match target {
        DiffTarget::Card(_) => match card {
            Some(c) => cat2("Diff — ", c.title.as_str()),
            None => "Diff".to_owned(),
        },
        DiffTarget::Review(_) => match task {
            Some(t) => {
                let n = decimal_text(t.pr_number);
                let head = if fix_faulted(&t.status) {
                    "Fix for PR #"
                } else {
                    "PR #"
                };
                cat4(head, n.as_str(), " — ", t.pr_title.as_str())
            },
            None => "Pull request".to_owned(),
        },
    }
}

/// What the dialog shows, from what is known of its target.
pub fn dialog_face(
    target: DiffTarget,
    card: Option<&Card>,
    found: Option<&ReviewTask>,
    diff: Option<&DiffState>,
    edits: &Option<DraftEdits>,
) -> (r: DialogFace)
    ensures
        r@ == dialog(
            target,
            deref_opt(card),
            deref_opt(found),
            deref_opt(diff),
            buffer_view(*edits),
        ),
{
    let task = match target {
        DiffTarget::Review(_) => found,
        DiffTarget::Card(_) => None,
    };
    assert(deref_opt(task) == under_review(target, deref_opt(found)));
    let ready = matches!(diff, Some(DiffState::Ready(_)));
    let hint = match task {
        Some(t) => if !ready || t.worktree_path.is_none() {
            None
        } else if fix_faulted(&t.status) {
            Some("The fix as committed in the review checkout — not pushed yet.")
        } else {
            Some(
                "Showing the PR as checked out for the review — pushes made after the review started aren't included.",
            )
        },
        None => None,
    };
    let validating = match task {
        Some(t) => matches!(t.status, ReviewStatus::AwaitingValidation { .. }) && edits_for(
            edits,
            target.id(),
        ).is_some(),
        None => false,
    };
    let gate = match task {
        Some(t) => if fix_gate_ready(&t.status) {
            Some(t.head_ref.clone())
        } else {
            None
        },
        None => None,
    };
    DialogFace {
        title: title_of(target, card, task),
        totals: match diff {
            Some(DiffState::Ready(files)) => totals(files),
            _ => None,
        },
        body: match diff {
            None | Some(DiffState::Computing) => DialogBody::Computing,
            Some(DiffState::Empty) => DialogBody::Empty,
            Some(DiffState::Failed(m)) => DialogBody::Failed(m.clone()),
            Some(DiffState::Ready(_)) => DialogBody::Ready,
        },
        hint,
        validating,
        gate,
    }
}

/// The edit buffer once the dialog is on screen: a review that awaits
/// validation has its drafted comments in it.
pub open spec fn seeded_for(
    b: Option<EditsView>,
    target: DiffTarget,
    found: Option<ReviewTask>,
) -> Option<EditsView> {
    match under_review(target, found) {
        Some(t) => match t.status {
            ReviewStatus::AwaitingValidation { drafts, summary, event } => seeded(
                b,
                target_id(target),
                comments_view(drafts@),
                summary@,
                event,
            ),
            _ => b,
        },
        None => b,
    }
}

pub fn seed_validation(
    edits: &mut Option<DraftEdits>,
    target: DiffTarget,
    found: Option<&ReviewTask>,
)
    ensures
        buffer_view(*final(edits)) == seeded_for(
            buffer_view(*old(edits)),
            target,
            deref_opt(found),
        ),
{
    if let DiffTarget::Review(id) = target {
        if let Some(t) = found {
            if let ReviewStatus::AwaitingValidation { drafts, summary, event } = &t.status {
                ensure_seeded(edits, id, drafts, summary.as_str(), *event);
            }
        }
    }
}

/// A review as some project's list has it, or none if no list does.
pub open spec fn found_review(s: StateView, id: Id, task: Option<ReviewTask>) -> bool {
    match task {
        Some(t) => t.id == id && exists|p: Id| #[trigger]
            s.review_tasks.contains_key(p) && s.review_tasks[p].contains(t),
        None => !has_review(s.review_tasks, id),
    }
}

/// What sending a fix back sends, and what it does to the state.
pub open spec fn redone(
    before: StateView,
    after: StateView,
    sent: ExecutorCommand,
    review_id: Id,
    note: String,
) -> bool {
    &&& sent == (ExecutorCommand::ReviseReviewFix { review_id, note })
    &&& after == (StateView {
        drafts: before.drafts.remove((review_id, "review.fixnote"@)),
        ui: OverlaysView { diff: None, ..before.ui },
        ..before
    })
}

impl AppState {
    /// What the open dialog shows; nothing while none is open.
    pub fn diff_face(&self) -> (r: Option<DialogFace>)
        ensures
            match self@.ui.diff {
                None => r is None,
                Some(req) => r is Some && exists|task: Option<ReviewTask>|
                    (req.target is Review ==> #[trigger] found_review(
                        self@,
                        target_id(req.target),
                        task,
                    )) && r->0@ == dialog(
                        req.target,
                        match first_where(self@.cards, |c: Card| c.id == target_id(req.target)) {
                            Some(i) => Some(self@.cards[i]),
                            None => None,
                        },
                        task,
                        if self@.diffs.contains_key(target_id(req.target)) {
                            Some(self@.diffs[target_id(req.target)])
                        } else {
                            None
                        },
                        buffer_view(self@.ui.edits),
                    ),
            },
    {
        match &self.ui.diff {
            None => None,
            Some(req) => {
                let id = req.target.id();
                let card = self.find_card(id);
                let task = self.review_task(id);
                let diff = self.diff(id);
                assert(found_review(self@, id, deref_opt(task)));
                Some(dialog_face(req.target, card, task, diff, &self.ui.edits))
            },
        }
    }

    /// Send the fix back to the agent with a note; the note's draft is done with
    /// and the dialog closes. What is sent.
    pub fn redo_fix(&mut self, review_id: Id, note: String) -> (r: ExecutorCommand)
        ensures
            redone(old(self)@, final(self)@, r, review_id, note),
    {
        forget(&mut self.drafts, review_id, "review.fixnote");
        dismiss_dialog(&mut self.ui.diff);
        ExecutorCommand::ReviseReviewFix { review_id, note }
    }
}

/// Escape in the file filter: clears a filter that is typed, and only then
/// leaves the key to the dialog. Whether the key is used up.
pub fn escape_filter(query: &mut String) -> (used: bool)
    ensures
        used == (old(query)@.len() > 0),
        final(query)@.len() == 0,
{
    if query.as_str().is_empty() {
        false
    } else {
        *query = String::new();
        true
    }
}

// ---- Laws ----------------------------------------------------------------

/// While its diff is on screen, a review that awaits validation can be
/// published from there.
pub proof fn an_open_draft_can_be_published(
    id: Id,
    card: Option<Card>,
    task: ReviewTask,
    diff: Option<DiffState>,
    b: Option<EditsView>,
)
    requires
        task.status is AwaitingValidation,
    ensures
        ({
            let target = DiffTarget::Review(id);
            dialog(target, card, Some(task), diff, seeded_for(b, target, Some(task))).validating
        }),
{
}

/// The dialog never offers to publish and to push at once.
pub proof fn one_bar_at_most(
    target: DiffTarget,
    card: Option<Card>,
    task: Option<ReviewTask>,
    diff: Option<DiffState>,
    edits: Option<EditsView>,
)
    ensures
        ({
            let f = dialog(target, card, task, diff, edits);
            !(f.validating && f.gate is Some)
        }),
{
}

/// A diff is computed of what the dialog is about: a card's of the card, a review's of
/// the review.
pub proof fn a_diff_is_of_its_target(t: DiffTarget, r: ExecutorCommand, id: Id)
    requires
        call_ensures(DiffTarget::compute, (t,), r),
    ensures
        t is Card ==> r is ComputeDiff && card_of(r) == Some(target_id(t)),
        t is Review ==> r is ComputeReviewDiff && review_of(r) == Some(target_id(t)),
        target_id(DiffTarget::Card(id)) == id,
        target_id(DiffTarget::Review(id)) == id,
{
}

/// The dialog is titled by what it is about: the card's title, or the number and the
/// title of the pull request. A fix says that it is one.
pub proof fn a_dialog_says_what_it_is_about(
    id: Id,
    card: Option<Card>,
    task: Option<ReviewTask>,
)
    ensures
        card matches Some(c) ==> ends(dialog_title(DiffTarget::Card(id), card, task), c.title@),
        task matches Some(t) ==> ends(dialog_title(DiffTarget::Review(id), card, task), t.pr_title@)
            && within(
            dialog_title(DiffTarget::Review(id), card, task),
            decimal(t.pr_number as nat),
        ),
        task matches Some(t) ==> (within(
            dialog_title(DiffTarget::Review(id), card, task).take(3),
            "Fix"@,
        ) <==> in_fix_flow(t.status)),
{
    if let Some(c) = card {
        parts_are_found("Diff — "@, c.title@, Seq::empty());
    }
    if let Some(t) = task {
        let head = if in_fix_flow(t.status) {
            "Fix for PR #"@
        } else {
            "PR #"@
        };
        let n = decimal(t.pr_number as nat);
        parts_are_found(head + n + " — "@, t.pr_title@, Seq::empty());
        assert(head + n + " — "@ + t.pr_title@ =~= head + n + (" — "@ + t.pr_title@));
        parts_are_found(head, n, " — "@ + t.pr_title@);
        reveal_strlit("Fix for PR #");
        reveal_strlit("PR #");
        reveal_strlit("Fix");
        let three = dialog_title(DiffTarget::Review(id), card, task).take(3);
        if in_fix_flow(t.status) {
            assert(three =~= "Fix"@);
            parts_are_found(Seq::empty(), "Fix"@, Seq::empty());
            assert(Seq::<char>::empty() + "Fix"@ + Seq::<char>::empty() =~= "Fix"@);
        } else {
            crate::text::find_is_first(three, "Fix"@);
            assert(three[0] == 'P');
            if let Some(i) = crate::text::find(three, "Fix"@) {
                assert(three.subrange(i, i + "Fix"@.len())[0] == 'F');
            }
        }
    }
}

/// The body shows what is known of the diff; the totals come with its files. A card's
/// dialog validates nothing and pushes nothing.
pub proof fn a_dialog_shows_what_is_known(
    target: DiffTarget,
    card: Option<Card>,
    found: Option<ReviewTask>,
    diff: Option<DiffState>,
    edits: Option<EditsView>,
)
    ensures
        ({
            let f = dialog(target, card, found, diff, edits);
            &&& f.body is Computing <==> diff is None || diff->0 is Computing
            &&& f.body is Empty <==> diff is Some && diff->0 is Empty
            &&& f.body is Ready <==> diff is Some && diff->0 is Ready
            &&& f.body is Failed <==> diff is Some && diff->0 is Failed
            &&& diff matches Some(DiffState::Failed(m)) ==> f.body == BodyView::Failed(m@)
            &&& f.totals is Some <==> (diff matches Some(DiffState::Ready(files)) && files@.len()
                > 0)
            &&& target is Card ==> !f.validating && f.gate is None && f.hint is None
            &&& f.validating ==> found is Some && found->0.status is AwaitingValidation
                && edits is Some && edits->0.review_id == target_id(target)
            &&& target is Review && found is Some && gate_ready(found->0.status) ==> f.gate == Some(
                found->0.head_ref@,
            )
            &&& f.gate is Some ==> target is Review && found is Some && gate_ready(found->0.status)
            &&& f.hint is Some <==> target is Review && found is Some
                && found->0.worktree_path is Some && diff is Some && diff->0 is Ready
        }),
{
}

/// A review that waits for its comments to be validated opens with them as they were
/// drafted; nothing else opens a draft.
pub proof fn only_a_waiting_review_is_seeded(
    b: Option<EditsView>,
    target: DiffTarget,
    found: Option<ReviewTask>,
)
    ensures
        target is Card ==> seeded_for(b, target, found) == b,
        found is None ==> seeded_for(b, target, found) == b,
        !(found matches Some(t) && t.status is AwaitingValidation) ==> seeded_for(b, target, found)
            == b,
        target is Review && b is None && (found matches Some(t) && t.status is AwaitingValidation)
            ==> (seeded_for(b, target, found) matches Some(e) && e.review_id == target_id(target)
            && e.comments == comments_view(found->0.status->drafts@) && e.summary
            == found->0.status->summary@ && e.verdict == found->0.status->event),
{
}

/// An opening has its diff computed, of what it was opened on, and has it computed once:
/// a second look at the same opening sends nothing.
pub proof fn a_diff_is_computed_once(
    req: DiffRequest,
    before: Option<Id>,
    after: Option<Id>,
    sent: Option<ExecutorCommand>,
    again: Option<Id>,
    resent: Option<ExecutorCommand>,
)
    requires
        computes(Some(req), before, after, sent),
        computes(Some(req), after, again, resent),
    ensures
        after == Some(req.token),
        before != Some(req.token) ==> (sent matches Some(cmd) && (req.target matches
            DiffTarget::Card(id) ==> cmd is ComputeDiff && card_of(cmd) == Some(id)) && (
        req.target matches DiffTarget::Review(id) ==> cmd is ComputeReviewDiff && review_of(cmd)
            == Some(id))),
        resent is None && again == after,
{
}

/// The dialog is about the review of that id, wherever it stands, and about none only
/// where there is none.
pub proof fn a_review_is_found_by_its_id(s: StateView, id: Id, t: ReviewTask)
    ensures
        found_review(s, id, Some(t)) ==> t.id == id && has_review(s.review_tasks, id),
        found_review(s, id, None) ==> forall|p: Id, i: int|
            #![trigger s.review_tasks[p][i]]
            s.review_tasks.contains_key(p) && 0 <= i < s.review_tasks[p].len()
                ==> s.review_tasks[p][i].id != id,
{
    if found_review(s, id, Some(t)) {
        let p = choose|p: Id| #[trigger]
            s.review_tasks.contains_key(p) && s.review_tasks[p].contains(t);
        let i = s.review_tasks[p].index_of(t);
        assert(s.review_tasks[p][i].id == id);
        assert(crate::state::in_list(s.review_tasks[p], id));
    }
    if found_review(s, id, None) {
        assert forall|p: Id, i: int|
            #![trigger s.review_tasks[p][i]]
            s.review_tasks.contains_key(p) && 0 <= i
                < s.review_tasks[p].len() implies s.review_tasks[p][i].id != id by {
            if s.review_tasks[p][i].id == id {
                assert(crate::state::in_list(s.review_tasks[p], id));
            }
        }
    }
}

/// A fix goes back with its note, which is then forgotten, and the dialog closes; nothing
/// else changes.
pub proof fn a_fix_goes_back_with_its_note(
    before: StateView,
    after: StateView,
    sent: ExecutorCommand,
    id: Id,
    note: String,
    key: (Id, Seq<char>),
)
    requires
        redone(before, after, sent, id, note),
    ensures
        review_of(sent) == Some(id),
        sent matches ExecutorCommand::ReviseReviewFix { note: said, .. } && said == note,
        after.ui.diff is None,
        after == (StateView {
            drafts: after.drafts,
            ui: OverlaysView { diff: after.ui.diff, ..before.ui },
            ..before
        }),
        !after.drafts.contains_key((id, "review.fixnote"@)),
        key != (id, "review.fixnote"@) ==> after.drafts.contains_key(key)
            == before.drafts.contains_key(key) && after.drafts[key] == before.drafts[key],
{
}

} // verus!
