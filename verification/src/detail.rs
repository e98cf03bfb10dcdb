//! The detail panel of a card: its header, its sections, the merge gate and the
//! question a run stopped on.

use vstd::prelude::*;

use crate::card::{
    a_button_has_its_place, button_words, buttons, fits, interrupted, is_draft, is_reviewable, merge_button,
    opt_text, pr_is_draft, pressed, reviewable, CardButton,
};
use crate::chat::{attachments_on_top, attaches_on_top, summary, summary_line};
use crate::command::{card_of, irrevocable, ExecutorCommand};
use crate::confirm::{leads_to, request, ConfirmAction, Gesture, GestureView, RequestView};
use crate::drafts::forget;
use crate::lists::joined_contains;
use crate::markdown::{join, join_text, texts};
use crate::model::{
    asked, beneath, beneath_is_bare, empty_handoff, wrappers_hide_nothing, Card, CardState, CheckStatus,
    DesignSub, Handoff, Id, PrReviewSub, ReviewSub, RunSub,
};
use crate::state::{AppState, StateView};
use crate::text::{
    blank, blank_is_empty_trim, cat2, decimal, decimal_text, ends, is_blank, parts_are_found,
    same_text, starts, starts_with, trim, trimmed,
};

verus! {

// ---- The header ----------------------------------------------------------

/// The key of the panel's body: another key rebuilds it. A fault or a question
/// does not, so that neither resets what is typed below it.
pub open spec fn state_key(s: CardState) -> Seq<char> {
    match beneath(s) {
        CardState::StartingBlock => "start"@,
        CardState::Designing(DesignSub::Running) => "design-run"@,
        CardState::Designing(DesignSub::Intervention(_)) => "design-iv"@,
        CardState::Designing(DesignSub::AwaitingApproval { .. }) => "design-approve"@,
        CardState::Investigating(RunSub::Running) => "invest-run"@,
        CardState::Investigating(RunSub::Intervention(_)) => "invest-iv"@,
        CardState::Concluded { .. } => "concluded"@,
        CardState::Implementing(RunSub::Running) => "impl-run"@,
        CardState::Implementing(RunSub::Intervention(_)) => "impl-iv"@,
        CardState::AwaitingReview(_) => "await-review"@,
        CardState::PrReview(PrReviewSub::Idle) => "pr-idle"@,
        CardState::PrReview(PrReviewSub::FetchingComments) => "pr-fetch"@,
        CardState::PrReview(PrReviewSub::SelectingFixes { .. }) => "pr-select"@,
        CardState::PrReview(PrReviewSub::ApplyingFixes) => "pr-apply"@,
        CardState::PrReview(PrReviewSub::ApplyingChange) => "pr-change"@,
        CardState::PrReview(PrReviewSub::AwaitingAnswer(_)) => "pr-answer"@,
        CardState::ReadyToMerge => "ready"@,
        CardState::MergedWithoutReview { merged } => if merged {
            "ext-merged"@
        } else {
            "ext-closed"@
        },
        CardState::Done => "done"@,
        CardState::Failed { .. } => "wrapped"@,
        CardState::Answering { .. } => "wrapped"@,
    }
}

pub fn state_discriminant(s: &CardState) -> (r: &'static str)
    ensures
        r@ == state_key(*s),
{
    match s.effective() {
        CardState::StartingBlock => "start",
        CardState::Designing(DesignSub::Running) => "design-run",
        CardState::Designing(DesignSub::Intervention(_)) => "design-iv",
        CardState::Designing(DesignSub::AwaitingApproval { .. }) => "design-approve",
        CardState::Investigating(RunSub::Running) => "invest-run",
        CardState::Investigating(RunSub::Intervention(_)) => "invest-iv",
        CardState::Concluded { .. } => "concluded",
        CardState::Implementing(RunSub::Running) => "impl-run",
        CardState::Implementing(RunSub::Intervention(_)) => "impl-iv",
        CardState::AwaitingReview(_) => "await-review",
        CardState::PrReview(PrReviewSub::Idle) => "pr-idle",
        CardState::PrReview(PrReviewSub::FetchingComments) => "pr-fetch",
        CardState::PrReview(PrReviewSub::SelectingFixes { .. }) => "pr-select",
        CardState::PrReview(PrReviewSub::ApplyingFixes) => "pr-apply",
        CardState::PrReview(PrReviewSub::ApplyingChange) => "pr-change",
        CardState::PrReview(PrReviewSub::AwaitingAnswer(_)) => "pr-answer",
        CardState::ReadyToMerge => "ready",
        CardState::MergedWithoutReview { merged } => if *merged {
            "ext-merged"
        } else {
            "ext-closed"
        },
        CardState::Done => "done",
        CardState::Failed { .. } | CardState::Answering { .. } => "wrapped",
    }
}

/// A fault or a question keeps the panel's body as it is.
pub proof fn wrappers_keep_the_body(s: CardState, text: String)
    ensures
        state_key(CardState::Failed { message: text, previous: Box::new(s) }) == state_key(s),
        state_key(CardState::Answering { question: text, previous: Box::new(s) }) == state_key(s),
{
}

/// What is above the panel's body.
#[derive(Debug, Clone, PartialEq, Eq)]
pub struct DetailHeader {
    pub blocked_title: &'static str,
    /// The question being answered.
    pub question: Option<String>,
    /// What went wrong, in words.
    pub fault: Option<String>,
    pub recover_label: &'static str,
    pub body_class: &'static str,
    pub can_diff: bool,
    pub state_key: &'static str,
}

pub open spec fn fault_words(s: CardState) -> Option<Seq<char>> {
    match s {
        CardState::Failed { message, .. } => Some(
            if interrupted(message@) {
                message@
            } else {
                "Run failed: "@ + message@
            },
        ),
        _ => None,
    }
}

/// The header of a card's panel. Under a fault or a question the body stays but
/// is frozen: a command sent from there would be refused.
pub fn detail_header(card: &Card, busy: bool) -> (r: DetailHeader)
    ensures
        r.blocked_title@ == (if card.blocked_note is Some {
            "Marked blocked — this card doesn't count toward the attention badge; the message below is the user's own note"@
        } else {
            "Marked blocked — this card doesn't count toward the attention badge"@
        }),
        opt_text(r.question) == (match card.state {
            CardState::Answering { question, .. } => Some(question@),
            _ => None,
        }),
        opt_text(r.fault) == fault_words(card.state),
        r.recover_label@ == (if card.state matches CardState::Failed { message, .. }
            && interrupted(message@) {
            "Resume"@
        } else {
            "Retry"@
        }),
        r.body_class@ == (if busy || card.state is Answering || card.state is Failed {
            "detail-body is-busy"@
        } else {
            "detail-body"@
        }),
        r.can_diff == reviewable(card.state),
        r.state_key@ == state_key(card.state),
{
    let question = match &card.state {
        CardState::Answering { question, .. } => Some(question.clone()),
        _ => None,
    };
    let (fault, resumes) = match &card.state {
        CardState::Failed { message, .. } => if starts_with(message.as_str(), "Interrupted") {
            (Some(message.clone()), true)
        } else {
            (Some(cat2("Run failed: ", message.as_str())), false)
        },
        _ => (None, false),
    };
    let frozen = busy || question.is_some() || fault.is_some();
    DetailHeader {
        blocked_title: if card.blocked_note.is_some() {
            "Marked blocked — this card doesn't count toward the attention badge; the message below is the user's own note"
        } else {
            "Marked blocked — this card doesn't count toward the attention badge"
        },
        question,
        fault,
        recover_label: if resumes {
            "Resume"
        } else {
            "Retry"
        },
        body_class: if frozen {
            "detail-body is-busy"
        } else {
            "detail-body"
        },
        can_diff: is_reviewable(&card.state),
        state_key: state_discriminant(&card.state),
    }
}

// ---- The sections --------------------------------------------------------

/// A section of the panel.
#[derive(Debug, Clone, Copy, PartialEq, Eq, Structural)]
pub enum Section {
    /// The description and the configuration, to edit.
    TaskForm,
    /// The description, folded away.
    Task,
    Attachments,
    /// A run is in flight; it can be stopped.
    Running,
    /// A conflict resolution stopped rather than guess.
    ConflictDecision,
    Question,
    PlanApproval,
    Conclusion,
    PrCreate,
    PrReview,
    /// Which review comments to fix.
    FixSelection,
    /// Which findings of the self-review to fix.
    FindingSelection,
    NewComments,
    Merge,
    Retired,
    Outcome,
    Activity,
}

pub open spec fn section_when(c: bool, s: Section) -> Seq<Section> {
    if c {
        seq![s]
    } else {
        Seq::empty()
    }
}

/// The run that is in flight, by what it does.
pub open spec fn phase(s: CardState) -> Option<Seq<char>> {
    match s {
        CardState::Designing(DesignSub::Running) => Some("designing"@),
        CardState::Investigating(RunSub::Running) => Some("investigating"@),
        CardState::Implementing(RunSub::Running) => Some("implementing"@),
        _ => None,
    }
}

pub fn running_phase(s: &CardState) -> (r: Option<&'static str>)
    ensures
        match r {
            Some(p) => phase(*s) == Some(p@),
            None => phase(*s) is None,
        },
{
    match s {
        CardState::Designing(DesignSub::Running) => Some("designing"),
        CardState::Investigating(RunSub::Running) => Some("investigating"),
        CardState::Implementing(RunSub::Running) => Some("implementing"),
        _ => None,
    }
}

/// A run stopped on a merge conflict, by the id of its question.
pub open spec fn stopped_on_conflict(s: CardState, conflict_id: Seq<char>) -> bool {
    asked(s) matches Some(iv) && iv.request_id@ == conflict_id
}

/// Feedback arrived after the card reached the merge gate.
pub open spec fn fresh_feedback(card: Card) -> bool {
    card.unanswered_count > 0 || card.facts.pending_bodies@.len() > 0
}

/// The sections of a card's panel, in order. Those of a gate go by the state
/// underneath a fault or a question; those of a live run by the state itself.
pub open spec fn sections(card: Card, conflict_id: Seq<char>) -> Seq<Section> {
    let st = beneath(card.state);
    section_when(st is StartingBlock, Section::TaskForm) + section_when(
        !(st is StartingBlock) && !blank(card.description@),
        Section::Task,
    ) + section_when(attaches_on_top(card.state), Section::Attachments) + section_when(
        phase(card.state) is Some,
        Section::Running,
    ) + section_when(stopped_on_conflict(card.state, conflict_id), Section::ConflictDecision)
        + section_when(asked(card.state) is Some, Section::Question) + section_when(
        st matches CardState::Designing(DesignSub::AwaitingApproval { .. }),
        Section::PlanApproval,
    ) + section_when(st is Concluded, Section::Conclusion) + section_when(
        st is AwaitingReview,
        Section::PrCreate,
    ) + section_when(st is PrReview, Section::PrReview) + section_when(
        st matches CardState::PrReview(PrReviewSub::SelectingFixes { .. }),
        Section::FixSelection,
    ) + section_when(
        st matches CardState::AwaitingReview(ReviewSub::SelectingFixes { .. }),
        Section::FindingSelection,
    ) + section_when(st is ReadyToMerge && fresh_feedback(card), Section::NewComments)
        + section_when(st is ReadyToMerge, Section::Merge) + section_when(
        st is MergedWithoutReview,
        Section::Retired,
    ) + section_when(st is Done, Section::Outcome) + section_when(true, Section::Activity)
}

fn push_section(v: &mut Vec<Section>, c: bool, s: Section)
    ensures
        final(v)@ == old(v)@ + section_when(c, s),
{
    if c {
        v.push(s);
        assert(v@ =~= old(v)@ + section_when(c, s));
    } else {
        assert(v@ =~= old(v)@ + section_when(c, s));
    }
}

pub fn panel_sections(card: &Card, conflict_id: &str) -> (r: Vec<Section>)
    ensures
        r@ == sections(*card, conflict_id@),
{
    let st = card.state.effective();
    let start = matches!(st, CardState::StartingBlock);
    let ready = matches!(st, CardState::ReadyToMerge);
    let asking = card.state.intervention();
    let conflict = match asking {
        Some(iv) => same_text(iv.request_id.as_str(), conflict_id),
        None => false,
    };
    let feedback = card.unanswered_count > 0 || card.facts.pending_bodies.len() > 0;
    let mut v: Vec<Section> = Vec::new();
    if start {
        v.push(Section::TaskForm);
    }
    assert(v@ =~= section_when(start, Section::TaskForm));
    push_section(&mut v, !start && !is_blank(card.description.as_str()), Section::Task);
    push_section(&mut v, attachments_on_top(&card.state), Section::Attachments);
    push_section(&mut v, running_phase(&card.state).is_some(), Section::Running);
    push_section(&mut v, conflict, Section::ConflictDecision);
    push_section(&mut v, asking.is_some(), Section::Question);
    push_section(
        &mut v,
        matches!(st, CardState::Designing(DesignSub::AwaitingApproval { .. })),
        Section::PlanApproval,
    );
    push_section(&mut v, matches!(st, CardState::Concluded { .. }), Section::Conclusion);
    push_section(&mut v, matches!(st, CardState::AwaitingReview(_)), Section::PrCreate);
    push_section(&mut v, matches!(st, CardState::PrReview(_)), Section::PrReview);
    push_section(
        &mut v,
        matches!(st, CardState::PrReview(PrReviewSub::SelectingFixes { .. })),
        Section::FixSelection,
    );
    push_section(
        &mut v,
        matches!(st, CardState::AwaitingReview(ReviewSub::SelectingFixes { .. })),
        Section::FindingSelection,
    );
    push_section(&mut v, ready && feedback, Section::NewComments);
    push_section(&mut v, ready, Section::Merge);
    push_section(&mut v, matches!(st, CardState::MergedWithoutReview { .. }), Section::Retired);
    push_section(&mut v, matches!(st, CardState::Done), Section::Outcome);
    push_section(&mut v, true, Section::Activity);
    v
}

/// The line the folded task is known by.
pub fn task_line(card: &Card) -> (r: String)
    ensures
        r@ == "Task — "@ + summary(card.description@),
{
    let line = summary_line(card.description.as_str());
    cat2("Task — ", line.as_str())
}

/// The dialog a running phase is stopped behind.
pub open spec fn stop_phase_dialog(id: Id) -> RequestView {
    RequestView {
        title: "Stop the run?"@,
        message: "Stop the agent's current run? Its progress is discarded and the card returns to the starting block."@,
        confirm_label: "Stop"@,
        danger: true,
        action: ConfirmAction::Send(ExecutorCommand::Cancel { card_id: id }),
    }
}

pub fn stop_phase(id: Id) -> (r: Gesture)
    ensures
        r@ == GestureView::Ask(stop_phase_dialog(id)),
{
    Gesture::Ask(
        request(
            "Stop the run?",
            "Stop the agent's current run? Its progress is discarded and the card returns to the starting block.".to_owned(),
            "Stop",
            true,
            ConfirmAction::Send(ExecutorCommand::Cancel { card_id: id }),
        ),
    )
}

/// The dialog a conflict resolution is given up behind.
pub open spec fn stop_conflict_dialog(id: Id) -> RequestView {
    RequestView {
        title: "Stop the conflict resolution?"@,
        message: "Discard everything the agent resolved and return the card to the PR gate? You can then resolve the conflicts yourself, or ask the agent again."@,
        confirm_label: "Stop"@,
        danger: true,
        action: ConfirmAction::Send(ExecutorCommand::Cancel { card_id: id }),
    }
}

pub fn stop_conflict(id: Id) -> (r: Gesture)
    ensures
        r@ == GestureView::Ask(stop_conflict_dialog(id)),
{
    Gesture::Ask(
        request(
            "Stop the conflict resolution?",
            "Discard everything the agent resolved and return the card to the PR gate? You can then resolve the conflicts yourself, or ask the agent again.".to_owned(),
            "Stop",
            true,
            ConfirmAction::Send(ExecutorCommand::Cancel { card_id: id }),
        ),
    )
}

// ---- Late feedback at the merge gate -------------------------------------

pub open spec fn feedback_words(unanswered: nat) -> Seq<char> {
    if unanswered == 0 {
        "A review's summary text hasn't been read yet."@
    } else if unanswered == 1 {
        "1 review comment has no answer yet."@
    } else {
        decimal(unanswered) + " review threads have no answer yet."@
    }
}

pub fn feedback_hint(unanswered: u32) -> (r: String)
    ensures
        r@ == feedback_words(unanswered as nat),
{
    if unanswered == 0 {
        "A review's summary text hasn't been read yet.".to_owned()
    } else if unanswered == 1 {
        "1 review comment has no answer yet.".to_owned()
    } else {
        let n = decimal_text(unanswered as u64);
        cat2(n.as_str(), " review threads have no answer yet.")
    }
}

/// A summary that needs no work can be marked as read.
pub fn can_mark_read(card: &Card) -> (r: bool)
    ensures
        r == (card.facts.pending_bodies@.len() > 0),
{
    card.facts.pending_bodies.len() > 0
}

// ---- The merge gate ------------------------------------------------------

/// A button at the merge gate.
#[derive(Debug, Clone, Copy, PartialEq, Eq, Structural)]
pub enum MergeButton {
    MarkReady,
    ResolveConflicts,
    Refresh,
    FixChecks,
    /// Merge over failing checks.
    ForceOverFailing,
    /// Merge without waiting for the checks.
    ForceOverPending,
    Merge,
}

/// The buttons of the merge gate. A conflicting pull request cannot be merged
/// by anyone, so nothing overrides that; failing or running checks can be
/// overridden.
pub open spec fn gate_buttons(card: Card) -> Seq<MergeButton> {
    if is_draft(card) {
        seq![MergeButton::MarkReady]
    } else if card.conflicting {
        seq![MergeButton::ResolveConflicts, MergeButton::Refresh]
    } else {
        match card.checks {
            CheckStatus::Failing => seq![
                MergeButton::FixChecks,
                MergeButton::Refresh,
                MergeButton::ForceOverFailing,
            ],
            CheckStatus::Pending => seq![MergeButton::Refresh, MergeButton::ForceOverPending],
            _ => seq![MergeButton::Merge],
        }
    }
}

/// What the merge panel says of the pull request, where anything stands in its way.
pub open spec fn gate_words(card: Card) -> Option<Seq<char>> {
    if is_draft(card) {
        Some("This PR is still a draft — GitHub won't merge it."@)
    } else if card.conflicting {
        Some("The PR conflicts with the base branch."@)
    } else {
        match card.checks {
            CheckStatus::Failing => Some("The PR's CI checks are failing."@),
            CheckStatus::Pending => Some("The PR's CI checks are still running."@),
            _ => None,
        }
    }
}

/// What the merge gate shows.
#[derive(Debug, Clone, PartialEq, Eq)]
pub struct MergeGate {
    pub hint: Option<&'static str>,
    pub buttons: Vec<MergeButton>,
    /// The checkbox that deletes the branch: not for a draft.
    pub branch_option: bool,
    /// Who approved.
    pub approved_by: Option<String>,
    /// A summary awaits reading.
    pub commented: bool,
    pub checks: bool,
}

fn joined_approvers(card: &Card) -> (r: Option<String>)
    ensures
        opt_text(r) == (if join(texts(card.facts.approved_by@), ", "@).len() == 0 {
            None
        } else {
            Some(join(texts(card.facts.approved_by@), ", "@))
        }),
{
    let names = join_text(&card.facts.approved_by, ", ");
    if names.as_str().is_empty() {
        None
    } else {
        Some(names)
    }
}

pub fn merge_gate(card: &Card) -> (r: MergeGate)
    ensures
        match r.hint {
            Some(h) => gate_words(*card) == Some(h@),
            None => gate_words(*card) is None,
        },
        r.buttons@ == gate_buttons(*card),
        r.branch_option == !is_draft(*card),
        opt_text(r.approved_by) == (if is_draft(*card) || join(
            texts(card.facts.approved_by@),
            ", "@,
        ).len() == 0 {
            None
        } else {
            Some(join(texts(card.facts.approved_by@), ", "@))
        }),
        r.commented == (!is_draft(*card) && card.facts.pending_bodies@.len() > 0),
        r.checks == (!is_draft(*card) && card.facts.checks_reportable),
{
    let mut buttons: Vec<MergeButton> = Vec::new();
    let draft = pr_is_draft(card);
    let hint: Option<&'static str>;
    if draft {
        hint = Some("This PR is still a draft — GitHub won't merge it.");
        buttons.push(MergeButton::MarkReady);
    } else if card.conflicting {
        hint = Some("The PR conflicts with the base branch.");
        buttons.push(MergeButton::ResolveConflicts);
        buttons.push(MergeButton::Refresh);
    } else {
        match card.checks {
            CheckStatus::Failing => {
                hint = Some("The PR's CI checks are failing.");
                buttons.push(MergeButton::FixChecks);
                buttons.push(MergeButton::Refresh);
                buttons.push(MergeButton::ForceOverFailing);
            },
            CheckStatus::Pending => {
                hint = Some("The PR's CI checks are still running.");
                buttons.push(MergeButton::Refresh);
                buttons.push(MergeButton::ForceOverPending);
            },
            _ => {
                hint = None;
                buttons.push(MergeButton::Merge);
            },
        }
    }
    assert(buttons@ =~= gate_buttons(*card));
    MergeGate {
        hint,
        buttons,
        branch_option: !draft,
        approved_by: if draft {
            None
        } else {
            joined_approvers(card)
        },
        commented: !draft && card.facts.pending_bodies.len() > 0,
        checks: !draft && card.facts.checks_reportable,
    }
}

pub fn merge_button_label(b: MergeButton) -> (r: &'static str)
    ensures
        r@ == (match b {
            MergeButton::MarkReady => "Mark ready for review"@,
            MergeButton::ResolveConflicts => "Resolve conflicts with AI"@,
            MergeButton::Refresh => "Refresh checks"@,
            MergeButton::FixChecks => "Fix checks with AI"@,
            MergeButton::ForceOverFailing => "Merge anyway"@,
            MergeButton::ForceOverPending => "Merge anyway"@,
            MergeButton::Merge => "Merge PR"@,
        }),
{
    match b {
        MergeButton::MarkReady => "Mark ready for review",
        MergeButton::ResolveConflicts => "Resolve conflicts with AI",
        MergeButton::Refresh => "Refresh checks",
        MergeButton::FixChecks => "Fix checks with AI",
        MergeButton::ForceOverFailing => "Merge anyway",
        MergeButton::ForceOverPending => "Merge anyway",
        MergeButton::Merge => "Merge PR",
    }
}

pub fn merge_class(b: MergeButton) -> (r: &'static str)
    ensures
        r@ == (match b {
            MergeButton::MarkReady => "btn primary"@,
            MergeButton::ResolveConflicts => "btn primary"@,
            MergeButton::FixChecks => "btn primary"@,
            MergeButton::Refresh => "btn"@,
            MergeButton::ForceOverFailing => "btn subtle"@,
            MergeButton::ForceOverPending => "btn subtle"@,
            MergeButton::Merge => "btn success"@,
        }),
{
    match b {
        MergeButton::MarkReady => "btn primary",
        MergeButton::ResolveConflicts => "btn primary",
        MergeButton::FixChecks => "btn primary",
        MergeButton::Refresh => "btn",
        MergeButton::ForceOverFailing => "btn subtle",
        MergeButton::ForceOverPending => "btn subtle",
        MergeButton::Merge => "btn success",
    }
}

/// What a button at the merge gate says of itself under the pointer.
pub fn merge_title(b: MergeButton) -> (r: &'static str)
    ensures
        r@ == (match b {
            MergeButton::MarkReady =>
                "Flips the PR from draft to ready for review on GitHub; the merge button comes back once it is"@,
            MergeButton::ResolveConflicts =>
                "The agent merges the base branch into this one in the card's worktree, resolves the conflicts and pushes. Nothing is published unless it succeeds; GitHub can't merge a conflicting PR either way."@,
            MergeButton::FixChecks =>
                "The agent reads the failing run's logs, fixes the cause in the card's worktree and pushes"@,
            _ => ""@,
        }),
{
    match b {
        MergeButton::MarkReady =>
            "Flips the PR from draft to ready for review on GitHub; the merge button comes back once it is",
        MergeButton::ResolveConflicts =>
            "The agent merges the base branch into this one in the card's worktree, resolves the conflicts and pushes. Nothing is published unless it succeeds; GitHub can't merge a conflicting PR either way.",
        MergeButton::FixChecks =>
            "The agent reads the failing run's logs, fixes the cause in the card's worktree and pushes",
        _ => "",
    }
}

/// What pressing a button at the merge gate does. Merging over checks always
/// asks; a clean merge asks but for demo mode.
pub open spec fn gate_pressed(b: MergeButton, id: Id, delete_branch: bool) -> GestureView {
    match b {
        MergeButton::MarkReady => GestureView::Send(ExecutorCommand::MarkPrReady { card_id: id }),
        MergeButton::ResolveConflicts => GestureView::Send(
            ExecutorCommand::ResolveConflicts { card_id: id },
        ),
        MergeButton::Refresh => GestureView::Send(ExecutorCommand::RefreshReviews { card_id: id }),
        MergeButton::FixChecks => GestureView::Send(ExecutorCommand::FixChecks { card_id: id }),
        MergeButton::ForceOverFailing => GestureView::Ask(
            RequestView {
                title: "Merge with failing checks?"@,
                message: "This PR's CI checks are failing. Merge it into the base branch anyway? This can't be undone."@,
                confirm_label: "Merge anyway"@,
                danger: true,
                action: ConfirmAction::Send(
                    ExecutorCommand::Merge { card_id: id, delete_branch, force: true },
                ),
            },
        ),
        MergeButton::ForceOverPending => GestureView::Ask(
            RequestView {
                title: "Merge before checks finish?"@,
                message: "This PR's CI checks are still running. Merge it into the base branch without waiting for them? This can't be undone."@,
                confirm_label: "Merge anyway"@,
                danger: false,
                action: ConfirmAction::Send(
                    ExecutorCommand::Merge { card_id: id, delete_branch, force: true },
                ),
            },
        ),
        MergeButton::Merge => GestureView::Guard(
            "Merge pull request"@,
            "Merge this pull request into the base branch on GitHub? This can't be undone."@,
            "Merge"@,
            ExecutorCommand::Merge { card_id: id, delete_branch, force: false },
        ),
    }
}

pub fn press_merge(b: MergeButton, id: Id, delete_branch: bool) -> (r: Gesture)
    ensures
        r@ == gate_pressed(b, id, delete_branch),
{
    match b {
        MergeButton::MarkReady => Gesture::Send(ExecutorCommand::MarkPrReady { card_id: id }),
        MergeButton::ResolveConflicts => Gesture::Send(
            ExecutorCommand::ResolveConflicts { card_id: id },
        ),
        MergeButton::Refresh => Gesture::Send(ExecutorCommand::RefreshReviews { card_id: id }),
        MergeButton::FixChecks => Gesture::Send(ExecutorCommand::FixChecks { card_id: id }),
        MergeButton::ForceOverFailing => Gesture::Ask(
            request(
                "Merge with failing checks?",
                "This PR's CI checks are failing. Merge it into the base branch anyway? This can't be undone.".to_owned(),
                "Merge anyway",
                true,
                ConfirmAction::Send(
                    ExecutorCommand::Merge { card_id: id, delete_branch, force: true },
                ),
            ),
        ),
        MergeButton::ForceOverPending => Gesture::Ask(
            request(
                "Merge before checks finish?",
                "This PR's CI checks are still running. Merge it into the base branch without waiting for them? This can't be undone.".to_owned(),
                "Merge anyway",
                false,
                ConfirmAction::Send(
                    ExecutorCommand::Merge { card_id: id, delete_branch, force: true },
                ),
            ),
        ),
        MergeButton::Merge => Gesture::Guard {
            title: "Merge pull request",
            message: "Merge this pull request into the base branch on GitHub? This can't be undone.".to_owned(),
            label: "Merge",
            cmd: ExecutorCommand::Merge { card_id: id, delete_branch, force: false },
        },
    }
}

/// The panel and the board agree on whether the pull request can be merged
/// outright.
pub proof fn gate_agrees_with_the_board(card: Card)
    ensures
        gate_buttons(card).contains(MergeButton::Merge) == (merge_button(card)
            == CardButton::Merge),
{
    let bs = gate_buttons(card);
    if merge_button(card) == CardButton::Merge {
        assert(bs[0] == MergeButton::Merge);
    }
}

/// Nothing merges a draft or a conflicting pull request, not even by override.
pub proof fn no_merge_over_conflicts(card: Card, b: MergeButton)
    requires
        is_draft(card) || card.conflicting,
        gate_buttons(card).contains(b),
    ensures
        b != MergeButton::Merge,
        b != MergeButton::ForceOverFailing,
        b != MergeButton::ForceOverPending,
{
}

/// Nothing in the merge panel merges without asking, but for a clean merge in demo
/// mode.
pub proof fn merging_always_asks(b: MergeButton, id: Id, delete_branch: bool)
    ensures
        gate_pressed(b, id, delete_branch) matches GestureView::Send(cmd) ==> !(cmd is Merge),
{
}

// ---- A pull request that left --------------------------------------------

pub fn retired_title(merged: bool) -> (r: &'static str)
    ensures
        r@ == (if merged {
            "Merged without review"@
        } else {
            "PR closed"@
        }),
{
    if merged {
        "Merged without review"
    } else {
        "PR closed"
    }
}

pub fn retired_hint(merged: bool) -> (r: &'static str)
    ensures
        r@ == (if merged {
            "Merged on GitHub before its review finished here."@
        } else {
            "Closed on GitHub without merging."@
        }),
{
    if merged {
        "Merged on GitHub before its review finished here."
    } else {
        "Closed on GitHub without merging."
    }
}

/// What is left to do with such a card.
pub fn retired_note(merged: bool) -> (r: &'static str)
    ensures
        r@ == (if merged {
            "The work is on the base branch; the worktree was cleaned up and the branch left alone. Mark the card done, or send it back to start, from the card menu."@
        } else {
            "The branch was left alone in case the work is still wanted. Mark the card done, or send it back to start, from the card menu."@
        }),
{
    if merged {
        "The work is on the base branch; the worktree was cleaned up and the branch left alone. Mark the card done, or send it back to start, from the card menu."
    } else {
        "The branch was left alone in case the work is still wanted. Mark the card done, or send it back to start, from the card menu."
    }
}

// ---- What a finished card leaves behind ----------------------------------

/// The badge of a finished card's pull request: whatever the record says, and
/// not a merge taken for granted.
pub fn outcome_badge(pr_state: &str) -> (r: (&'static str, String))
    ensures
        r.0@ == (if pr_state@ == "merged"@ {
            "badge merged"@
        } else {
            "badge status"@
        }),
        r.1@ == (if pr_state@ == "merged"@ {
            "✓ Merged"@
        } else {
            pr_state@
        }),
{
    if same_text(pr_state, "merged") {
        ("badge merged", "✓ Merged".to_owned())
    } else {
        ("badge status", pr_state.to_owned())
    }
}

/// Which parts of an implement run's note there are.
#[derive(Debug, Clone, Copy, PartialEq, Eq, Structural)]
pub struct HandoffParts {
    pub summary: bool,
    pub questions: bool,
    pub tests: bool,
}

pub fn handoff_parts(h: &Handoff) -> (r: HandoffParts)
    ensures
        r == (HandoffParts {
            summary: h.summary@.len() > 0,
            questions: h.questions@.len() > 0,
            tests: h.tests@.len() > 0,
        }),
{
    HandoffParts {
        summary: !h.summary.as_str().is_empty(),
        questions: h.questions.len() > 0,
        tests: h.tests.len() > 0,
    }
}

// ---- The question a run stopped on ---------------------------------------

/// Clicking an option selects it; clicking the selected one takes it back.
pub open spec fn toggled_option(selected: Option<Seq<char>>, opt: Seq<char>) -> Option<Seq<char>> {
    if selected == Some(opt) {
        None
    } else {
        Some(opt)
    }
}

pub fn toggle_option(selected: &Option<String>, opt: &str) -> (r: Option<String>)
    ensures
        opt_text(r) == toggled_option(opt_text(*selected), opt@),
{
    match selected {
        Some(s) => if same_text(s.as_str(), opt) {
            None
        } else {
            Some(opt.to_owned())
        },
        None => Some(opt.to_owned()),
    }
}

/// There is an answer to send.
pub open spec fn answerable(selected: Option<Seq<char>>, typed: Seq<char>) -> bool {
    selected is Some || !blank(typed)
}

pub fn can_send(selected: &Option<String>, typed: &str) -> (r: bool)
    ensures
        r == answerable(opt_text(*selected), typed@),
{
    selected.is_some() || !is_blank(typed)
}

pub fn question_class(answered: bool) -> (r: &'static str)
    ensures
        r@ == (if answered {
            "question answered"@
        } else {
            "question"@
        }),
{
    if answered {
        "question answered"
    } else {
        "question"
    }
}

/// The answer sent: the option and the text, with a blank line between them.
pub open spec fn answer_text(selected: Option<Seq<char>>, typed: Seq<char>) -> Seq<char> {
    match selected {
        Some(opt) => if blank(typed) {
            opt
        } else {
            opt + "\n\n"@ + trimmed(typed)
        },
        None => trimmed(typed),
    }
}

/// What answering sends, and what it does to the state.
pub open spec fn answered(
    before: StateView,
    after: StateView,
    sent: Option<ExecutorCommand>,
    card_id: Id,
    selected: Option<Seq<char>>,
    typed: Seq<char>,
) -> bool {
    &&& answerable(selected, typed) ==> {
        &&& sent matches Some(ExecutorCommand::Answer { card_id: id, text })
        &&& id == card_id
        &&& text@ == answer_text(selected, typed)
        &&& after == (StateView {
            drafts: before.drafts.remove((card_id, "intervention.option"@)).remove(
                (card_id, "intervention.answer"@),
            ),
            ..before
        })
    }
    &&& !answerable(selected, typed) ==> sent is None && after == before
}

impl AppState {
    /// Send the answer to a run's question. Nothing is sent where there is no
    /// answer; otherwise both fields empty.
    pub fn send_answer(&mut self, card_id: Id, selected: &Option<String>, typed: &str) -> (r: Option<
        ExecutorCommand,
    >)
        ensures
            answered(
                old(self)@,
                final(self)@,
                r,
                card_id,
                opt_text(*selected),
                typed@,
            ),
    {
        if !can_send(selected, typed) {
            return None;
        }
        let bare = is_blank(typed);
        let own = trim(typed);
        let text = match selected {
            Some(opt) => if bare {
                opt.clone()
            } else {
                crate::text::cat3(opt.as_str(), "\n\n", own.as_str())
            },
            None => own,
        };
        forget(&mut self.drafts, card_id, "intervention.option");
        forget(&mut self.drafts, card_id, "intervention.answer");
        Some(ExecutorCommand::Answer { card_id, text })
    }
}

/// Clicking an option twice leaves nothing selected.
pub proof fn options_toggle(selected: Option<Seq<char>>, opt: Seq<char>)
    requires
        selected != Some(opt),
    ensures
        toggled_option(toggled_option(selected, opt), opt) is None,
{
}

// ---- Laws ----------------------------------------------------------------

/// A section stands in the panel exactly where it belongs. The form, the task and
/// each waiting state's own section go by the state beneath a fault or a question;
/// a run and the question it stopped on go by the state itself.
#[verifier::rlimit(40)]
pub proof fn a_section_has_its_place(card: Card, conflict_id: Seq<char>, s: Section)
    ensures
        sections(card, conflict_id).contains(s) <==> ({
            let st = beneath(card.state);
            match s {
                Section::TaskForm => st is StartingBlock,
                Section::Task => !(st is StartingBlock) && !blank(card.description@),
                Section::Attachments => attaches_on_top(card.state),
                Section::Running => {
                    ||| card.state == CardState::Designing(DesignSub::Running)
                    ||| card.state == CardState::Investigating(RunSub::Running)
                    ||| card.state == CardState::Implementing(RunSub::Running)
                },
                Section::ConflictDecision => asked(card.state) matches Some(iv)
                    && iv.request_id@ == conflict_id,
                Section::Question => asked(card.state) is Some,
                Section::PlanApproval => st matches CardState::Designing(sub)
                    && sub is AwaitingApproval,
                Section::Conclusion => st is Concluded,
                Section::PrCreate => st is AwaitingReview,
                Section::PrReview => st is PrReview,
                Section::FixSelection => st matches CardState::PrReview(sub)
                    && sub is SelectingFixes,
                Section::FindingSelection => st matches CardState::AwaitingReview(sub)
                    && sub is SelectingFixes,
                Section::NewComments => st is ReadyToMerge && (card.unanswered_count > 0
                    || card.facts.pending_bodies@.len() > 0),
                Section::Merge => st is ReadyToMerge,
                Section::Retired => st is MergedWithoutReview,
                Section::Outcome => st is Done,
                Section::Activity => true,
            }
        }),
{
    let st = beneath(card.state);
    let approving = st matches CardState::Designing(DesignSub::AwaitingApproval { .. });
    let fixing = st matches CardState::PrReview(PrReviewSub::SelectingFixes { .. });
    let finding = st matches CardState::AwaitingReview(ReviewSub::SelectingFixes { .. });
    let stopped = stopped_on_conflict(card.state, conflict_id);
    let late = st is ReadyToMerge && fresh_feedback(card);
    let tasked = !(st is StartingBlock) && !blank(card.description@);
    let t1 = section_when(st is StartingBlock, Section::TaskForm);
    let t2 = t1 + section_when(tasked, Section::Task);
    let t3 = t2 + section_when(attaches_on_top(card.state), Section::Attachments);
    let t4 = t3 + section_when(phase(card.state) is Some, Section::Running);
    let t5 = t4 + section_when(stopped, Section::ConflictDecision);
    let t6 = t5 + section_when(asked(card.state) is Some, Section::Question);
    let t7 = t6 + section_when(approving, Section::PlanApproval);
    let t8 = t7 + section_when(st is Concluded, Section::Conclusion);
    let t9 = t8 + section_when(st is AwaitingReview, Section::PrCreate);
    let t10 = t9 + section_when(st is PrReview, Section::PrReview);
    let t11 = t10 + section_when(fixing, Section::FixSelection);
    let t12 = t11 + section_when(finding, Section::FindingSelection);
    let t13 = t12 + section_when(late, Section::NewComments);
    let t14 = t13 + section_when(st is ReadyToMerge, Section::Merge);
    let t15 = t14 + section_when(st is MergedWithoutReview, Section::Retired);
    let t16 = t15 + section_when(st is Done, Section::Outcome);
    assert(sections(card, conflict_id) == t16 + section_when(true, Section::Activity));
    one_section(t16, true, Section::Activity, s);
    one_section(t15, st is Done, Section::Outcome, s);
    one_section(t14, st is MergedWithoutReview, Section::Retired, s);
    one_section(t13, st is ReadyToMerge, Section::Merge, s);
    one_section(t12, late, Section::NewComments, s);
    one_section(t11, finding, Section::FindingSelection, s);
    one_section(t10, fixing, Section::FixSelection, s);
    one_section(t9, st is PrReview, Section::PrReview, s);
    one_section(t8, st is AwaitingReview, Section::PrCreate, s);
    one_section(t7, st is Concluded, Section::Conclusion, s);
    one_section(t6, approving, Section::PlanApproval, s);
    one_section(t5, asked(card.state) is Some, Section::Question, s);
    one_section(t4, stopped, Section::ConflictDecision, s);
    one_section(t3, phase(card.state) is Some, Section::Running, s);
    one_section(t2, attaches_on_top(card.state), Section::Attachments, s);
    one_section(t1, tasked, Section::Task, s);
    one_section(Seq::empty(), st is StartingBlock, Section::TaskForm, s);
    assert(Seq::empty() + t1 =~= t1);
}

proof fn one_section(t: Seq<Section>, c: bool, s: Section, x: Section)
    ensures
        (t + section_when(c, s)).contains(x) == (t.contains(x) || (c && s == x)),
{
    joined_contains(t, section_when(c, s), x);
    if c {
        assert(section_when(c, s)[0] == s);
    }
}

/// Every waiting state has its own section and no other state's: two cards whose
/// panels show one of these sections wait in the same place.
pub proof fn waiting_states_do_not_share_sections(card: Card, conflict_id: Seq<char>)
    ensures
        ({
            let all = sections(card, conflict_id);
            let plan = all.contains(Section::PlanApproval);
            let conclusion = all.contains(Section::Conclusion);
            let create = all.contains(Section::PrCreate);
            let review = all.contains(Section::PrReview);
            let merge = all.contains(Section::Merge);
            &&& plan ==> !conclusion && !create && !review && !merge
            &&& conclusion ==> !create && !review && !merge
            &&& create ==> !review && !merge
            &&& review ==> !merge
            &&& all.contains(Section::FixSelection) ==> review
            &&& all.contains(Section::FindingSelection) ==> create
            &&& all.contains(Section::NewComments) ==> merge
            &&& all.contains(Section::ConflictDecision) ==> all.contains(Section::Question)
        }),
{
    a_section_has_its_place(card, conflict_id, Section::PlanApproval);
    a_section_has_its_place(card, conflict_id, Section::Conclusion);
    a_section_has_its_place(card, conflict_id, Section::PrCreate);
    a_section_has_its_place(card, conflict_id, Section::PrReview);
    a_section_has_its_place(card, conflict_id, Section::Merge);
    a_section_has_its_place(card, conflict_id, Section::FixSelection);
    a_section_has_its_place(card, conflict_id, Section::FindingSelection);
    a_section_has_its_place(card, conflict_id, Section::NewComments);
    a_section_has_its_place(card, conflict_id, Section::ConflictDecision);
    a_section_has_its_place(card, conflict_id, Section::Question);
}

/// The section a place in the panel belongs to.
pub open spec fn anchored(anchor: Seq<char>, s: Section) -> bool {
    match s {
        Section::Question => anchor == "intervention-answer"@,
        Section::PlanApproval => anchor == "plan-approval"@,
        Section::PrCreate => anchor == "pr-create"@,
        Section::Conclusion => anchor == "conclusion"@,
        Section::FixSelection => anchor == "fix-selection"@,
        Section::FindingSelection => anchor == "fix-selection"@,
        _ => false,
    }
}

/// A button that opens a card opens it at a section its panel shows, under a question
/// too: but for the question a run stopped on, which is gone while it is answered.
pub proof fn a_button_opens_what_is_there(
    card: Card,
    queued: bool,
    b: CardButton,
    conflict_id: Seq<char>,
)
    requires
        buttons(card, queued).contains(b),
        card.state is Answering ==> b != CardButton::Answer,
    ensures
        pressed(b, card.id) matches GestureView::OpenAt(anchor) ==> exists|s: Section| #[trigger]
            sections(card, conflict_id).contains(s) && anchored(anchor, s),
{
    a_button_has_its_place(card, queued, b);
    beneath_is_bare(card.state);
    wrappers_hide_nothing(card.state, card.title);
    let s = match b {
        CardButton::Answer => Section::Question,
        CardButton::ReadPlan => Section::PlanApproval,
        CardButton::ReadConclusion => Section::Conclusion,
        CardButton::SelectFindings => Section::FindingSelection,
        CardButton::SelectFixes => Section::FixSelection,
        _ => Section::PrCreate,
    };
    a_section_has_its_place(card, conflict_id, s);
    if pressed(b, card.id) is OpenAt {
        assert(sections(card, conflict_id).contains(s));
        assert(anchored(pressed(b, card.id)->OpenAt_0, s));
    }
}

/// A run has a word for its phase exactly while it works, a different one for each.
pub proof fn phases_are_told_apart(s: CardState, t: CardState)
    requires
        phase(s) is Some,
        phase(s) == phase(t),
    ensures
        s == t,
{
    reveal_strlit("designing");
    reveal_strlit("investigating");
    reveal_strlit("implementing");
    assert("designing"@.len() == 9 && "investigating"@.len() == 13 && "implementing"@.len() == 12);
}

/// Stopping a run asks first, in red, and comes to discarding that card's run.
pub proof fn stopping_asks_in_red(id: Id, g: Gesture)
    requires
        call_ensures(stop_phase, (id,), g) || call_ensures(stop_conflict, (id,), g),
    ensures
        g@ matches GestureView::Ask(req) && req.danger,
        leads_to(g@) == Some(ExecutorCommand::Cancel { card_id: id }),
{
}

/// A button of the merge section stands exactly where it helps.
pub proof fn a_merge_button_has_its_place(card: Card, b: MergeButton)
    ensures
        gate_buttons(card).contains(b) <==> ({
            let open = !is_draft(card) && !card.conflicting;
            let red = card.checks == CheckStatus::Failing;
            let waiting = card.checks == CheckStatus::Pending;
            match b {
                MergeButton::MarkReady => is_draft(card),
                MergeButton::ResolveConflicts => !is_draft(card) && card.conflicting,
                MergeButton::Refresh => !is_draft(card) && (card.conflicting || red || waiting),
                MergeButton::FixChecks => open && red,
                MergeButton::ForceOverFailing => open && red,
                MergeButton::ForceOverPending => open && waiting,
                MergeButton::Merge => open && !red && !waiting,
            }
        }),
        gate_words(card) is None <==> gate_buttons(card).contains(MergeButton::Merge),
{
    let all = gate_buttons(card);
    if is_draft(card) {
        assert(all[0] == MergeButton::MarkReady);
    } else if card.conflicting {
        assert(all[0] == MergeButton::ResolveConflicts && all[1] == MergeButton::Refresh);
    } else if card.checks == CheckStatus::Failing {
        assert(all[0] == MergeButton::FixChecks && all[1] == MergeButton::Refresh && all[2]
            == MergeButton::ForceOverFailing);
    } else if card.checks == CheckStatus::Pending {
        assert(all[0] == MergeButton::Refresh && all[1] == MergeButton::ForceOverPending);
    } else {
        assert(all[0] == MergeButton::Merge);
    }
}

/// Whatever a button of the merge section comes to is about its card and fits where
/// the button stands. Merging over the checks' word is asked for in so many words,
/// and the branch goes only where the box says so.
pub proof fn a_merge_button_comes_to_what_fits(card: Card, b: MergeButton, delete: bool)
    requires
        gate_buttons(card).contains(b),
        beneath(card.state) is ReadyToMerge,
    ensures
        leads_to(gate_pressed(b, card.id, delete)) matches Some(cmd) && card_of(cmd) == Some(
            card.id,
        ) && (b != MergeButton::Refresh ==> fits(cmd, card)) && (b == MergeButton::Refresh
            ==> cmd is RefreshReviews) && (cmd matches ExecutorCommand::Merge { delete_branch, .. }
            ==> delete_branch == delete),
        gate_pressed(b, card.id, delete) matches GestureView::Send(cmd) ==> !irrevocable(cmd),
        b == MergeButton::ForceOverFailing || b == MergeButton::ForceOverPending ==> gate_pressed(
            b,
            card.id,
            delete,
        ) is Ask,
        gate_pressed(b, card.id, delete) matches GestureView::Ask(req) ==> (req.danger <==> b
            == MergeButton::ForceOverFailing),
{
    a_merge_button_has_its_place(card, b);
}

/// An answer is the option picked, then what was typed, each where there is one: with
/// both, the option comes first and an empty line parts them.
pub proof fn an_answer_holds_what_was_said(opt: Seq<char>, typed: Seq<char>)
    ensures
        answer_text(None, typed) == trimmed(typed),
        blank(typed) ==> answer_text(Some(opt), typed) == opt,
        !blank(typed) ==> ({
            let said = answer_text(Some(opt), typed);
            &&& starts(said, opt)
            &&& ends(said, trimmed(typed))
            &&& said.len() == opt.len() + 2 + trimmed(typed).len()
            &&& said[opt.len() as int] == '\n'
            &&& said[opt.len() as int + 1] == '\n'
        }),
        answerable(None, typed) <==> trimmed(typed).len() > 0,
        answerable(Some(opt), typed),
{
    blank_is_empty_trim(typed);
    reveal_strlit("\n\n");
    parts_are_found(opt + "\n\n"@, trimmed(typed), Seq::empty());
    assert(opt + "\n\n"@ + trimmed(typed) =~= opt + ("\n\n"@ + trimmed(typed)));
    parts_are_found(Seq::empty(), opt, "\n\n"@ + trimmed(typed));
}

/// Picking an option picks that one, whatever was picked before.
pub proof fn picking_replaces(selected: Option<Seq<char>>, opt: Seq<char>)
    ensures
        selected != Some(opt) ==> toggled_option(selected, opt) == Some(opt),
        selected == Some(opt) ==> toggled_option(selected, opt) is None,
{
}

/// A fault is told where there is one, in its own words at the end.
pub proof fn a_fault_is_told(s: CardState)
    ensures
        fault_words(s) is Some <==> s is Failed,
        s matches CardState::Failed { message, .. } ==> ends(fault_words(s)->0, message@) && (
        interrupted(message@) ==> fault_words(s)->0 == message@),
{
    if let CardState::Failed { message, .. } = s {
        parts_are_found("Run failed: "@, message@, Seq::empty());
        parts_are_found(Seq::empty(), message@, Seq::empty());
        assert(Seq::empty() + message@ =~= message@);
    }
}

/// The header tells of a question while it is answered and of a fault while it stands,
/// and offers to resume what was interrupted and to retry what failed.
pub proof fn the_header_tells_of_faults(card: Card, busy: bool, r: DetailHeader)
    requires
        call_ensures(detail_header, (&card, busy), r),
    ensures
        r.question is Some <==> card.state is Answering,
        card.state matches CardState::Answering { question, .. } ==> r.question->0@ == question@,
        r.fault is Some <==> card.state is Failed,
        r.recover_label@ == "Resume"@ <==> (card.state matches CardState::Failed { message, .. }
            && interrupted(message@)),
        r.can_diff == reviewable(card.state),
{
    reveal_strlit("Resume");
    reveal_strlit("Retry");
    assert("Resume"@.len() != "Retry"@.len());
}

/// A waiting merge is told with who approved it and what was said, but not of a draft.
pub proof fn the_merge_section_tells_who_approved(card: Card, r: MergeGate)
    requires
        call_ensures(merge_gate, (&card,), r),
    ensures
        is_draft(card) ==> !r.branch_option && r.approved_by is None && !r.commented && !r.checks,
        !is_draft(card) ==> r.branch_option && (r.commented <==> card.facts.pending_bodies@.len()
            > 0) && (r.checks <==> card.facts.checks_reportable),
        r.hint is None <==> r.buttons@.contains(MergeButton::Merge),
{
    a_merge_button_has_its_place(card, MergeButton::Merge);
}

/// Unanswered feedback is told by its number.
pub proof fn feedback_is_counted(n: nat)
    ensures
        n > 0 ==> starts(feedback_words(n), decimal(n)),
{
    parts_are_found(Seq::empty(), decimal(n), " review threads have no answer yet."@);
    if n == 1 {
        reveal_strlit("1 review comment has no answer yet.");
        assert(decimal(1) =~= seq!['1']);
        assert(feedback_words(n).take(1) =~= decimal(1));
    }
}

/// A merge forced is confirmed by the words on its button, and no two other buttons say
/// the same.
pub proof fn merge_buttons_say_what_they_do(
    b: MergeButton,
    id: Id,
    delete: bool,
    label: &'static str,
)
    requires
        call_ensures(merge_button_label, (b,), label),
    ensures
        gate_pressed(b, id, delete) matches GestureView::Ask(req) ==> req.confirm_label == label@,
        b is Merge ==> starts(label@, "Merge"@),
{
    reveal_strlit("Merge PR");
    reveal_strlit("Merge");
    assert("Merge PR"@.take(5) =~= "Merge"@);
}

/// A card's button and its panel's header use one word for the way back.
pub proof fn the_way_back_has_one_word(card: Card, busy: bool, r: DetailHeader, b: CardButton)
    requires
        call_ensures(detail_header, (&card, busy), r),
        !card.blocked,
        b is Retry || b is Resume,
        buttons(card, false).contains(b),
    ensures
        r.recover_label@ == button_words(b),
{
    a_button_has_its_place(card, false, b);
}

/// A pull request that left is told by whether it was merged: title, hint and note.
pub proof fn a_pull_request_that_left_is_told(
    merged: bool,
    title: &'static str,
    hint: &'static str,
    note: &'static str,
    state: &str,
    badge: (&'static str, String),
)
    requires
        call_ensures(retired_title, (merged,), title),
        call_ensures(retired_hint, (merged,), hint),
        call_ensures(retired_note, (merged,), note),
        call_ensures(outcome_badge, (state,), badge),
    ensures
        merged <==> starts(title@, "Merged"@),
        merged <==> starts(hint@, "Merged"@),
        badge.0@ == "badge merged"@ <==> state@ == "merged"@,
        state@ != "merged"@ ==> badge.1@ == state@,
{
    reveal_strlit("Merged");
    reveal_strlit("Merged without review");
    reveal_strlit("PR closed");
    reveal_strlit("Merged on GitHub before its review finished here.");
    reveal_strlit("Closed on GitHub without merging.");
    reveal_strlit("badge merged");
    reveal_strlit("badge status");
    let m = "Merged"@;
    assert("Merged without review"@.take(6) =~= m);
    assert("Merged on GitHub before its review finished here."@.take(6) =~= m);
    assert("PR closed"@.take(6)[0] == 'P');
    assert("Closed on GitHub without merging."@.take(6)[0] == 'C');
    assert(m[0] == 'M' && m.len() == 6);
    assert("badge merged"@[6] == 'm' && "badge status"@[6] == 's');
}

/// Summaries can be marked as read where any is unread, and a handoff has the parts that
/// hold something.
pub proof fn what_is_left_is_shown(card: Card, can: bool, h: Handoff, parts: HandoffParts)
    requires
        call_ensures(can_mark_read, (&card,), can),
        call_ensures(handoff_parts, (&h,), parts),
    ensures
        can <==> card.facts.pending_bodies@.len() > 0,
        parts.summary <==> h.summary@.len() > 0,
        parts.questions <==> h.questions@.len() > 0,
        parts.tests <==> h.tests@.len() > 0,
        !parts.summary && !parts.questions && !parts.tests <==> empty_handoff(h),
{
}

/// The panel is rebuilt where a run stops to ask, where comments are fetched, and by how
/// a pull request left.
pub proof fn waiting_and_running_have_other_keys(iv: crate::model::Intervention)
    ensures
        state_key(CardState::Designing(DesignSub::Running)) != state_key(
            CardState::Designing(DesignSub::Intervention(iv)),
        ),
        state_key(CardState::Investigating(RunSub::Running)) != state_key(
            CardState::Investigating(RunSub::Intervention(iv)),
        ),
        state_key(CardState::Implementing(RunSub::Running)) != state_key(
            CardState::Implementing(RunSub::Intervention(iv)),
        ),
        state_key(CardState::PrReview(PrReviewSub::Idle)) != state_key(
            CardState::PrReview(PrReviewSub::FetchingComments),
        ),
        state_key(CardState::MergedWithoutReview { merged: true }) != state_key(
            CardState::MergedWithoutReview { merged: false },
        ),
{
    reveal_strlit("design-run");
    reveal_strlit("design-iv");
    reveal_strlit("invest-run");
    reveal_strlit("invest-iv");
    reveal_strlit("impl-run");
    reveal_strlit("impl-iv");
    reveal_strlit("pr-idle");
    reveal_strlit("pr-fetch");
    reveal_strlit("ext-merged");
    reveal_strlit("ext-closed");
    assert("design-run"@.len() != "design-iv"@.len());
    assert("invest-run"@.len() != "invest-iv"@.len());
    assert("impl-run"@.len() != "impl-iv"@.len());
    assert("pr-idle"@.len() != "pr-fetch"@.len());
    assert("ext-merged"@[4] != "ext-closed"@[4]);
}

/// An answer goes to its card once there is something to say, and what was picked and
/// typed for it is then forgotten: that and nothing else. Without anything to say nothing
/// happens.
pub proof fn an_answer_is_sent_and_forgotten(
    before: StateView,
    after: StateView,
    sent: Option<ExecutorCommand>,
    id: Id,
    selected: Option<Seq<char>>,
    typed: Seq<char>,
    key: (Id, Seq<char>),
)
    requires
        answered(before, after, sent, id, selected, typed),
    ensures
        sent is Some <==> selected is Some || trimmed(typed).len() > 0,
        sent matches Some(cmd) ==> cmd is Answer && card_of(cmd) == Some(id),
        sent is None ==> after == before,
        sent is Some ==> !after.drafts.contains_key((id, "intervention.option"@))
            && !after.drafts.contains_key((id, "intervention.answer"@)),
        after == (StateView { drafts: after.drafts, ..before }),
        key != (id, "intervention.option"@) && key != (id, "intervention.answer"@)
            ==> after.drafts.contains_key(key) == before.drafts.contains_key(key)
            && after.drafts[key] == before.drafts[key],
{
    blank_is_empty_trim(typed);
}

} // verus!
