//! One card on the board: what it shows, and the buttons its state affords.

use vstd::prelude::*;

use crate::command::{card_of, irrevocable, ExecutorCommand};
use crate::confirm::{leads_to, request, ConfirmAction, Gesture, GestureView, RequestView};
use crate::lists::{first_where, first_where_is_first, joined_contains};
use crate::markdown::{join, join_text, texts};
use crate::model::{
    asked, beneath, beneath_is_bare, Card, CardKind, CardState, CheckStatus, DesignSub, Id,
    PrReviewSub, PreviewStatus, PreviewUrl, Project, ReviewSub,
};
use crate::state::AppState;
use crate::text::{
    blank, cat2, ends, is_blank, parts_are_found, same_text, starts, starts_with,
};

verus! {

broadcast use vstd::std_specs::hash::group_hash_axioms;

// ---- Preview controls ----------------------------------------------------

/// What the preview controls offer.
#[derive(Debug, Clone, PartialEq, Eq)]
pub enum PreviewTools {
    /// Nothing to run, or nothing to run it with.
    Hidden,
    /// Stopped, failed or never started: offer to launch it.
    Idle,
    /// The setup runs; it can be stopped.
    Starting,
    /// Up: offer to open it, where it reported an address, and to stop it.
    Running { url: Option<String> },
}

/// The controls as a mathematical value.
pub enum ToolsView {
    Hidden,
    Idle,
    Starting,
    Running(Option<Seq<char>>),
}

impl View for PreviewTools {
    type V = ToolsView;

    open spec fn view(&self) -> ToolsView {
        match *self {
            PreviewTools::Hidden => ToolsView::Hidden,
            PreviewTools::Idle => ToolsView::Idle,
            PreviewTools::Starting => ToolsView::Starting,
            PreviewTools::Running { url } => ToolsView::Running(
                match url {
                    Some(u) => Some(u@),
                    None => None,
                },
            ),
        }
    }
}

/// The controls for what is known of a preview.
pub open spec fn tools(
    eligible: bool,
    preview: Option<(PreviewStatus, Vec<PreviewUrl>)>,
) -> ToolsView {
    if !eligible {
        ToolsView::Hidden
    } else {
        match preview {
            Some((PreviewStatus::SettingUp, _)) => ToolsView::Starting,
            Some((PreviewStatus::Running, urls)) => ToolsView::Running(
                if urls@.len() > 0 {
                    Some(urls@[0].url@)
                } else {
                    None
                },
            ),
            _ => ToolsView::Idle,
        }
    }
}

pub fn preview_tools(eligible: bool, preview: Option<&(PreviewStatus, Vec<PreviewUrl>)>) -> (r:
    PreviewTools)
    ensures
        r@ == tools(
            eligible,
            match preview {
                Some(p) => Some(*p),
                None => None,
            },
        ),
{
    if !eligible {
        return PreviewTools::Hidden;
    }
    match preview {
        Some((status, urls)) => match status {
            PreviewStatus::SettingUp => PreviewTools::Starting,
            PreviewStatus::Running => PreviewTools::Running {
                url: if urls.len() > 0 {
                    Some(urls[0].url.clone())
                } else {
                    None
                },
            },
            _ => PreviewTools::Idle,
        },
        None => PreviewTools::Idle,
    }
}

// ---- What a card's state means on the board ------------------------------

/// The state the buttons go by: the one underneath a question being answered.
/// A fault is seen as it is.
pub open spec fn seen(s: CardState) -> CardState {
    match s {
        CardState::Answering { question: _, previous } => beneath(*previous),
        s => s,
    }
}

pub fn seen_state(s: &CardState) -> (r: &CardState)
    ensures
        *r == seen(*s),
{
    match s {
        CardState::Answering { question: _, previous } => previous.effective(),
        _ => s,
    }
}

/// The pull request is still a draft.
pub open spec fn is_draft(card: Card) -> bool {
    card.pr matches Some(p) && p.state@ == "draft"@
}

pub fn pr_is_draft(card: &Card) -> (r: bool)
    ensures
        r == is_draft(*card),
{
    match &card.pr {
        Some(p) => same_text(p.state.as_str(), "draft"),
        None => false,
    }
}

/// A message left by a run that the app's closing interrupted.
pub open spec fn interrupted(message: Seq<char>) -> bool {
    starts(message, "Interrupted"@)
}

/// Committed work to look at: from just-implemented until the merge.
pub open spec fn reviewable(s: CardState) -> bool {
    beneath(s) is AwaitingReview || beneath(s) is PrReview || beneath(s) is ReadyToMerge
}

pub fn is_reviewable(s: &CardState) -> (r: bool)
    ensures
        r == reviewable(*s),
{
    matches!(
        s.effective(),
        CardState::AwaitingReview(_) | CardState::PrReview(_) | CardState::ReadyToMerge
    )
}

/// A button on a card.
#[derive(Debug, Clone, Copy, PartialEq, Eq, Structural)]
pub enum CardButton {
    Start,
    Answer,
    Approve,
    ReadPlan,
    Review,
    SelectFindings,
    ValidationFailed,
    CreatePr,
    ReadConclusion,
    ReadReview,
    SelectFixes,
    ReReadReview,
    MarkReady,
    ResolveConflicts,
    FixChecks,
    /// Merging waits on CI; the button is disabled.
    MergeWaiting,
    Merge,
    Stop,
    Resume,
    Retry,
}

/// A button, where a condition holds.
pub open spec fn when(c: bool, b: CardButton) -> Seq<CardButton> {
    if c {
        seq![b]
    } else {
        Seq::empty()
    }
}

pub open spec fn awaiting_approval(s: CardState) -> bool {
    s matches CardState::Designing(DesignSub::AwaitingApproval { .. })
}

/// The button of a card parked before its pull request.
pub open spec fn review_button(s: CardState) -> Seq<CardButton> {
    match s {
        CardState::AwaitingReview(ReviewSub::ReadyForReview) => seq![CardButton::Review],
        CardState::AwaitingReview(ReviewSub::SelectingFixes { .. }) => seq![
            CardButton::SelectFindings,
        ],
        CardState::AwaitingReview(ReviewSub::ValidationFailed { .. }) => seq![
            CardButton::ValidationFailed,
        ],
        CardState::AwaitingReview(ReviewSub::ReadyForPr) => seq![CardButton::CreatePr],
        _ => Seq::empty(),
    }
}

/// The merge gate's button. A merge that would be refused is not offered: a
/// draft is marked ready first, conflicts come before failing checks, and a
/// running build is waited for.
pub open spec fn merge_button(card: Card) -> CardButton {
    if is_draft(card) {
        CardButton::MarkReady
    } else if card.conflicting {
        CardButton::ResolveConflicts
    } else if card.checks == CheckStatus::Failing {
        CardButton::FixChecks
    } else if card.checks == CheckStatus::Pending {
        CardButton::MergeWaiting
    } else {
        CardButton::Merge
    }
}

/// The buttons of a card, in order. A blocked card has none: it waits on
/// something outside.
pub open spec fn buttons(card: Card, queued: bool) -> Seq<CardButton> {
    let st = seen(card.state);
    let merging = st is ReadyToMerge;
    if card.blocked {
        Seq::empty()
    } else {
        when(st is StartingBlock, CardButton::Start) + when(
            asked(st) is Some,
            CardButton::Answer,
        ) + when(awaiting_approval(st) && card.facts.plan_questions == 0, CardButton::Approve)
            + when(awaiting_approval(st), CardButton::ReadPlan) + review_button(st) + when(
            st is Concluded,
            CardButton::ReadConclusion,
        ) + when(
            st == CardState::PrReview(PrReviewSub::Idle) && card.facts.triageable,
            CardButton::ReadReview,
        ) + when(
            st matches CardState::PrReview(PrReviewSub::SelectingFixes { .. }),
            CardButton::SelectFixes,
        ) + when(
            merging && (card.unanswered_count > 0 || card.facts.pending_bodies@.len() > 0),
            CardButton::ReReadReview,
        ) + when(merging, merge_button(card)) + when(
            card.facts.running && !(card.state is Answering) && !queued,
            CardButton::Stop,
        ) + (match card.state {
            CardState::Failed { message, .. } => seq![
                if interrupted(message@) {
                    CardButton::Resume
                } else {
                    CardButton::Retry
                },
            ],
            _ => Seq::empty(),
        })
    }
}

fn push_when(v: &mut Vec<CardButton>, c: bool, b: CardButton)
    ensures
        final(v)@ == old(v)@ + when(c, b),
{
    if c {
        v.push(b);
        assert(v@ =~= old(v)@ + when(c, b));
    } else {
        assert(v@ =~= old(v)@ + when(c, b));
    }
}

fn push_review_button(v: &mut Vec<CardButton>, st: &CardState)
    ensures
        final(v)@ == old(v)@ + review_button(*st),
{
    let b = match st {
        CardState::AwaitingReview(ReviewSub::ReadyForReview) => Some(CardButton::Review),
        CardState::AwaitingReview(ReviewSub::SelectingFixes { .. }) => Some(
            CardButton::SelectFindings,
        ),
        CardState::AwaitingReview(ReviewSub::ValidationFailed { .. }) => Some(
            CardButton::ValidationFailed,
        ),
        CardState::AwaitingReview(ReviewSub::ReadyForPr) => Some(CardButton::CreatePr),
        _ => None,
    };
    match b {
        Some(b) => {
            v.push(b);
            assert(v@ =~= old(v)@ + review_button(*st));
        },
        None => {
            assert(v@ =~= old(v)@ + review_button(*st));
        },
    }
}

fn merge_gate_button(card: &Card) -> (r: CardButton)
    ensures
        r == merge_button(*card),
{
    if pr_is_draft(card) {
        CardButton::MarkReady
    } else if card.conflicting {
        CardButton::ResolveConflicts
    } else {
        match card.checks {
            CheckStatus::Failing => CardButton::FixChecks,
            CheckStatus::Pending => CardButton::MergeWaiting,
            _ => CardButton::Merge,
        }
    }
}

/// The buttons of a card, in order. Those that need more input only open the
/// panel; the others send a command.
pub fn card_buttons(card: &Card, queued: bool) -> (r: Vec<CardButton>)
    ensures
        r@ == buttons(*card, queued),
{
    let mut v: Vec<CardButton> = Vec::new();
    if card.blocked {
        assert(v@ =~= buttons(*card, queued));
        return v;
    }
    let st = seen_state(&card.state);
    let merging = matches!(st, CardState::ReadyToMerge);
    let approving = matches!(st, CardState::Designing(DesignSub::AwaitingApproval { .. }));
    if matches!(st, CardState::StartingBlock) {
        v.push(CardButton::Start);
    }
    assert(v@ =~= when(*st is StartingBlock, CardButton::Start));
    push_when(&mut v, st.intervention().is_some(), CardButton::Answer);
    push_when(&mut v, approving && card.facts.plan_questions == 0, CardButton::Approve);
    push_when(&mut v, approving, CardButton::ReadPlan);
    push_review_button(&mut v, st);
    push_when(&mut v, matches!(st, CardState::Concluded { .. }), CardButton::ReadConclusion);
    push_when(
        &mut v,
        matches!(st, CardState::PrReview(PrReviewSub::Idle)) && card.facts.triageable,
        CardButton::ReadReview,
    );
    push_when(
        &mut v,
        matches!(st, CardState::PrReview(PrReviewSub::SelectingFixes { .. })),
        CardButton::SelectFixes,
    );
    push_when(
        &mut v,
        merging && (card.unanswered_count > 0 || card.facts.pending_bodies.len() > 0),
        CardButton::ReReadReview,
    );
    push_when(&mut v, merging, merge_gate_button(card));
    let frozen = matches!(card.state, CardState::Answering { .. });
    push_when(&mut v, card.facts.running && !frozen && !queued, CardButton::Stop);
    let ghost so_far = v@;
    match &card.state {
        CardState::Failed { message, .. } => {
            let b = if starts_with(message.as_str(), "Interrupted") {
                CardButton::Resume
            } else {
                CardButton::Retry
            };
            v.push(b);
            assert(v@ =~= so_far + seq![b]);
        },
        _ => {
            assert(v@ =~= so_far + Seq::<CardButton>::empty());
        },
    }
    v
}

// ---- The buttons themselves ----------------------------------------------

pub open spec fn button_words(b: CardButton) -> Seq<char> {
    match b {
        CardButton::Start => "Start"@,
        CardButton::Answer => "Answer"@,
        CardButton::Approve => "Approve"@,
        CardButton::ReadPlan => "Read plan"@,
        CardButton::Review => "Review"@,
        CardButton::SelectFindings => "Select fixes"@,
        CardButton::ValidationFailed => "Validation failed"@,
        CardButton::CreatePr => "Create PR"@,
        CardButton::ReadConclusion => "Read conclusion"@,
        CardButton::ReadReview => "Read the review"@,
        CardButton::SelectFixes => "Select fixes"@,
        CardButton::ReReadReview => "Re-read the review"@,
        CardButton::MarkReady => "Mark ready"@,
        CardButton::ResolveConflicts => "Resolve conflicts"@,
        CardButton::FixChecks => "Fix checks"@,
        CardButton::MergeWaiting => "Merge"@,
        CardButton::Merge => "Merge"@,
        CardButton::Stop => "Stop"@,
        CardButton::Resume => "Resume"@,
        CardButton::Retry => "Retry"@,
    }
}

pub fn button_label(b: CardButton) -> (r: &'static str)
    ensures
        r@ == button_words(b),
{
    match b {
        CardButton::Start => "Start",
        CardButton::Answer => "Answer",
        CardButton::Approve => "Approve",
        CardButton::ReadPlan => "Read plan",
        CardButton::Review => "Review",
        CardButton::SelectFindings => "Select fixes",
        CardButton::ValidationFailed => "Validation failed",
        CardButton::CreatePr => "Create PR",
        CardButton::ReadConclusion => "Read conclusion",
        CardButton::ReadReview => "Read the review",
        CardButton::SelectFixes => "Select fixes",
        CardButton::ReReadReview => "Re-read the review",
        CardButton::MarkReady => "Mark ready",
        CardButton::ResolveConflicts => "Resolve conflicts",
        CardButton::FixChecks => "Fix checks",
        CardButton::MergeWaiting => "Merge",
        CardButton::Merge => "Merge",
        CardButton::Stop => "Stop",
        CardButton::Resume => "Resume",
        CardButton::Retry => "Retry",
    }
}

pub open spec fn button_style(b: CardButton) -> Seq<char> {
    match b {
        CardButton::ReadPlan | CardButton::Resume | CardButton::Retry => "btn"@,
        CardButton::ReReadReview | CardButton::Stop => "btn subtle"@,
        CardButton::MergeWaiting | CardButton::Merge => "btn success"@,
        _ => "btn primary"@,
    }
}

pub fn button_class(b: CardButton) -> (r: &'static str)
    ensures
        r@ == button_style(b),
{
    match b {
        CardButton::ReadPlan | CardButton::Resume | CardButton::Retry => "btn",
        CardButton::ReReadReview | CardButton::Stop => "btn subtle",
        CardButton::MergeWaiting | CardButton::Merge => "btn success",
        _ => "btn primary",
    }
}

pub fn button_title(b: CardButton) -> (r: &'static str)
    ensures
        r@ == (match b {
            CardButton::ReadReview =>
                "The agent reads the review, triages each comment and proposes which to fix"@,
            CardButton::ReReadReview =>
                "Feedback landed after the last pass — have the agent read and triage it before merging"@,
            CardButton::MergeWaiting =>
                "Waiting on CI — the poll re-enables this within ~20s. Open the card to merge without waiting."@,
            CardButton::Stop => "Stop the agent's current run"@,
            _ => ""@,
        }),
{
    match b {
        CardButton::ReadReview =>
            "The agent reads the review, triages each comment and proposes which to fix",
        CardButton::ReReadReview =>
            "Feedback landed after the last pass — have the agent read and triage it before merging",
        CardButton::MergeWaiting =>
            "Waiting on CI — the poll re-enables this within ~20s. Open the card to merge without waiting.",
        CardButton::Stop => "Stop the agent's current run",
        _ => "",
    }
}

/// The dialog a run is stopped behind.
pub open spec fn stop_dialog(id: Id) -> RequestView {
    RequestView {
        title: "Stop the run?"@,
        message: "Stop the agent's current run? Its progress is discarded."@,
        confirm_label: "Stop"@,
        danger: true,
        action: ConfirmAction::Send(ExecutorCommand::Cancel { card_id: id }),
    }
}

/// What pressing a card's button does.
pub open spec fn pressed(b: CardButton, id: Id) -> GestureView {
    match b {
        CardButton::Start => GestureView::Send(ExecutorCommand::Start { card_id: id }),
        CardButton::Answer => GestureView::OpenAt("intervention-answer"@),
        CardButton::Approve => GestureView::Send(ExecutorCommand::ApprovePlan { card_id: id }),
        CardButton::ReadPlan => GestureView::OpenAt("plan-approval"@),
        CardButton::Review => GestureView::OpenAt("pr-create"@),
        CardButton::SelectFindings => GestureView::OpenAt("fix-selection"@),
        CardButton::ValidationFailed => GestureView::OpenAt("pr-create"@),
        CardButton::CreatePr => GestureView::OpenAt("pr-create"@),
        CardButton::ReadConclusion => GestureView::OpenAt("conclusion"@),
        CardButton::ReadReview => GestureView::Send(ExecutorCommand::FetchComments { card_id: id }),
        CardButton::SelectFixes => GestureView::OpenAt("fix-selection"@),
        CardButton::ReReadReview => GestureView::Send(
            ExecutorCommand::FetchComments { card_id: id },
        ),
        CardButton::MarkReady => GestureView::Send(ExecutorCommand::MarkPrReady { card_id: id }),
        CardButton::ResolveConflicts => GestureView::Send(
            ExecutorCommand::ResolveConflicts { card_id: id },
        ),
        CardButton::FixChecks => GestureView::Send(ExecutorCommand::FixChecks { card_id: id }),
        CardButton::MergeWaiting => GestureView::Nothing,
        CardButton::Merge => GestureView::Guard(
            "Merge pull request"@,
            "Merge this pull request into the base branch on GitHub and delete its branch? This can't be undone."@,
            "Merge"@,
            ExecutorCommand::Merge { card_id: id, delete_branch: true, force: false },
        ),
        CardButton::Stop => GestureView::Ask(stop_dialog(id)),
        CardButton::Resume => GestureView::Send(ExecutorCommand::Retry { card_id: id }),
        CardButton::Retry => GestureView::Send(ExecutorCommand::Retry { card_id: id }),
    }
}

pub fn press(b: CardButton, id: Id) -> (r: Gesture)
    ensures
        r@ == pressed(b, id),
{
    match b {
        CardButton::Start => Gesture::Send(ExecutorCommand::Start { card_id: id }),
        CardButton::Answer => Gesture::OpenAt("intervention-answer"),
        CardButton::Approve => Gesture::Send(ExecutorCommand::ApprovePlan { card_id: id }),
        CardButton::ReadPlan => Gesture::OpenAt("plan-approval"),
        CardButton::Review => Gesture::OpenAt("pr-create"),
        CardButton::SelectFindings => Gesture::OpenAt("fix-selection"),
        CardButton::ValidationFailed => Gesture::OpenAt("pr-create"),
        CardButton::CreatePr => Gesture::OpenAt("pr-create"),
        CardButton::ReadConclusion => Gesture::OpenAt("conclusion"),
        CardButton::ReadReview => Gesture::Send(ExecutorCommand::FetchComments { card_id: id }),
        CardButton::SelectFixes => Gesture::OpenAt("fix-selection"),
        CardButton::ReReadReview => Gesture::Send(ExecutorCommand::FetchComments { card_id: id }),
        CardButton::MarkReady => Gesture::Send(ExecutorCommand::MarkPrReady { card_id: id }),
        CardButton::ResolveConflicts => Gesture::Send(
            ExecutorCommand::ResolveConflicts { card_id: id },
        ),
        CardButton::FixChecks => Gesture::Send(ExecutorCommand::FixChecks { card_id: id }),
        CardButton::MergeWaiting => Gesture::Nothing,
        CardButton::Merge => Gesture::Guard {
            title: "Merge pull request",
            message: "Merge this pull request into the base branch on GitHub and delete its branch? This can't be undone.".to_owned(),
            label: "Merge",
            cmd: ExecutorCommand::Merge { card_id: id, delete_branch: true, force: false },
        },
        CardButton::Stop => Gesture::Ask(
            request(
                "Stop the run?",
                "Stop the agent's current run? Its progress is discarded.".to_owned(),
                "Stop",
                true,
                ConfirmAction::Send(ExecutorCommand::Cancel { card_id: id }),
            ),
        ),
        CardButton::Resume | CardButton::Retry => Gesture::Send(
            ExecutorCommand::Retry { card_id: id },
        ),
    }
}

// ---- The card's face -----------------------------------------------------

/// How the status badge is drawn.
#[derive(Debug, Clone, Copy, PartialEq, Eq, Structural)]
pub enum StatusBadge {
    /// "needs answer", whatever the status says.
    NeedsAnswer,
    /// The status, drawn as something gone wrong.
    Broken,
    Concluded,
    Plain,
}

/// What the card menu offers.
#[derive(Debug, Clone, Copy, PartialEq, Eq, Structural)]
pub struct MenuFlags {
    pub can_reset: bool,
    pub can_done: bool,
    pub can_diff: bool,
    pub can_open: bool,
}

/// Everything a card shows.
#[derive(Debug, Clone, PartialEq, Eq)]
pub struct CardFace {
    pub class: String,
    pub title: String,
    pub spinner: bool,
    pub investigation: bool,
    pub badge: StatusBadge,
    pub status: String,
    /// The real status, for the tooltip.
    pub status_title: String,
    /// The CI badge.
    pub checks: bool,
    /// Who approved, for the badge's tooltip.
    pub approved_by: Option<String>,
    /// Whose summary awaits reading, for the badge's tooltip.
    pub commented_by: Option<String>,
    pub actions_class: &'static str,
    pub buttons: Vec<CardButton>,
    pub preview: PreviewTools,
    pub menu: MenuFlags,
}

/// What the board knows of a card beside the card.
#[derive(Debug, Clone, Copy, PartialEq, Eq, Structural)]
pub struct CardContext {
    pub selected: bool,
    /// A command is in flight for the card.
    pub busy: bool,
    /// The card waits in line for a run slot.
    pub queued: bool,
    /// The project has a command that runs its app.
    pub run_configured: bool,
}

pub open spec fn face_class(card: Card, ctx: CardContext) -> Seq<char> {
    (if card.state is Failed {
        "card failed"@
    } else if ctx.selected {
        "card selected"@
    } else {
        "card"@
    }) + (if ctx.busy {
        " is-busy"@
    } else {
        Seq::empty()
    }) + (if card.blocked {
        " blocked"@
    } else {
        Seq::empty()
    })
}

pub open spec fn face_title(card: Card) -> Seq<char> {
    if blank(card.title@) {
        "Untitled"@
    } else {
        card.title@
    }
}

/// While a command is in flight that the state cannot show yet, the card says
/// that it works.
pub open spec fn face_status(card: Card, ctx: CardContext) -> Seq<char> {
    if ctx.busy && !card.facts.running {
        "working…"@
    } else {
        card.facts.status_label@
    }
}

pub open spec fn status_badge(st: CardState) -> StatusBadge {
    if asked(st) is Some {
        StatusBadge::NeedsAnswer
    } else if (st matches CardState::MergedWithoutReview { merged } && !merged) || (st matches CardState::AwaitingReview(ReviewSub::ValidationFailed { .. })) {
        StatusBadge::Broken
    } else if st is Concluded {
        StatusBadge::Concluded
    } else {
        StatusBadge::Plain
    }
}

/// The names, unless there is no pull request or no name.
pub open spec fn named(card: Card, names: Seq<Seq<char>>) -> Option<Seq<char>> {
    let joined = join(names, ", "@);
    if card.pr is Some && joined.len() > 0 {
        Some(joined)
    } else {
        None
    }
}

pub open spec fn opt_text(s: Option<String>) -> Option<Seq<char>> {
    match s {
        Some(t) => Some(t@),
        None => None,
    }
}

fn names_of(card: &Card, names: &Vec<String>) -> (r: Option<String>)
    ensures
        opt_text(r) == named(*card, texts(names@)),
{
    let joined = join_text(names, ", ");
    if card.pr.is_some() && !joined.as_str().is_empty() {
        Some(joined)
    } else {
        None
    }
}

fn class_of(card: &Card, ctx: CardContext) -> (r: String)
    ensures
        r@ == face_class(*card, ctx),
{
    let base = if card.state.is_failed() {
        "card failed"
    } else if ctx.selected {
        "card selected"
    } else {
        "card"
    };
    let with_busy = if ctx.busy {
        cat2(base, " is-busy")
    } else {
        let r = base.to_owned();
        assert(r@ =~= base@ + Seq::<char>::empty());
        r
    };
    if card.blocked {
        cat2(with_busy.as_str(), " blocked")
    } else {
        assert(with_busy@ =~= with_busy@ + Seq::<char>::empty());
        with_busy
    }
}

fn badge_of(st: &CardState) -> (r: StatusBadge)
    ensures
        r == status_badge(*st),
{
    if st.intervention().is_some() {
        StatusBadge::NeedsAnswer
    } else {
        match st {
            CardState::MergedWithoutReview { merged: false } => StatusBadge::Broken,
            CardState::AwaitingReview(ReviewSub::ValidationFailed { .. }) => StatusBadge::Broken,
            CardState::Concluded { .. } => StatusBadge::Concluded,
            _ => StatusBadge::Plain,
        }
    }
}

/// What a card shows, from the card and what the board knows of it.
pub fn card_face(
    card: &Card,
    ctx: CardContext,
    preview: Option<&(PreviewStatus, Vec<PreviewUrl>)>,
) -> (r: CardFace)
    ensures
        ({
            let st = seen(card.state);
            &&& r.class@ == face_class(*card, ctx)
            &&& r.title@ == face_title(*card)
            &&& r.spinner == ((card.facts.running || ctx.busy) && !ctx.queued)
            &&& r.investigation == (card.config.kind == CardKind::Investigation)
            &&& r.badge == status_badge(st)
            &&& r.status@ == face_status(*card, ctx)
            &&& r.status_title@ == card.facts.status_label@
            &&& r.checks == (card.pr is Some && card.facts.checks_reportable)
            &&& opt_text(r.approved_by) == named(*card, texts(card.facts.approved_by@))
            &&& opt_text(r.commented_by) == (if st is PrReview || st is ReadyToMerge {
                named(*card, texts(card.facts.pending_bodies@))
            } else {
                None
            })
            &&& r.actions_class@ == (if card.state is Answering {
                "card-actions is-busy"@
            } else {
                "card-actions"@
            })
            &&& r.buttons@ == buttons(*card, ctx.queued)
            &&& r.preview@ == tools(
                reviewable(st) && !card.facts.running && ctx.run_configured,
                match preview {
                    Some(p) => Some(*p),
                    None => None,
                },
            )
            &&& r.menu == (MenuFlags {
                can_reset: !(st is StartingBlock),
                can_done: !(st is Done),
                can_diff: reviewable(st),
                can_open: !(st is Done) || card.facts.worktree_present,
            })
        }),
{
    let st = seen_state(&card.state);
    let can_diff = is_reviewable(st);
    let done = matches!(st, CardState::Done);
    let at_gate = matches!(st, CardState::PrReview(_) | CardState::ReadyToMerge);
    CardFace {
        class: class_of(card, ctx),
        title: if is_blank(card.title.as_str()) {
            "Untitled".to_owned()
        } else {
            card.title.clone()
        },
        spinner: (card.facts.running || ctx.busy) && !ctx.queued,
        investigation: card.config.kind == CardKind::Investigation,
        badge: badge_of(st),
        status: if ctx.busy && !card.facts.running {
            "working…".to_owned()
        } else {
            card.facts.status_label.clone()
        },
        status_title: card.facts.status_label.clone(),
        checks: card.pr.is_some() && card.facts.checks_reportable,
        approved_by: names_of(card, &card.facts.approved_by),
        commented_by: if at_gate {
            names_of(card, &card.facts.pending_bodies)
        } else {
            None
        },
        actions_class: if matches!(card.state, CardState::Answering { .. }) {
            "card-actions is-busy"
        } else {
            "card-actions"
        },
        buttons: card_buttons(card, ctx.queued),
        preview: preview_tools(can_diff && !card.facts.running && ctx.run_configured, preview),
        menu: MenuFlags {
            can_reset: !matches!(st, CardState::StartingBlock),
            can_done: !done,
            can_diff,
            can_open: !done || card.facts.worktree_present,
        },
    }
}

/// Whether a project can run its app.
pub open spec fn runs(projects: Seq<Project>, id: Id) -> bool {
    match first_where(projects, |p: Project| p.id == id) {
        Some(i) => projects[i].config.run_script is Some,
        None => false,
    }
}

impl AppState {
    pub fn run_configured(&self, project_id: Id) -> (r: bool)
        ensures
            r == runs(self@.projects, project_id),
    {
        match self.find_project(project_id) {
            Some(p) => p.config.run_script.is_some(),
            None => false,
        }
    }

    /// What the board knows of a card.
    pub fn card_context(&self, card: &Card, queued: bool) -> (r: CardContext)
        ensures
            r == (CardContext {
                selected: self@.selected_card == Some(card.id),
                busy: self@.busy.contains(card.id),
                queued,
                run_configured: runs(self@.projects, card.project_id),
            }),
    {
        CardContext {
            selected: match self.selected_card {
                Some(id) => id == card.id,
                None => false,
            },
            busy: self.busy.contains(&card.id),
            queued,
            run_configured: self.run_configured(card.project_id),
        }
    }

    /// Clicking a card opens its panel; clicking the open card closes it.
    pub fn click_card(&mut self, id: Id)
        ensures
            final(self)@ == (crate::state::StateView {
                selected_card: if old(self)@.selected_card == Some(id) {
                    None
                } else {
                    Some(id)
                },
                ..old(self)@
            }),
    {
        let open = match self.selected_card {
            Some(cur) => cur == id,
            None => false,
        };
        self.select_card(
            if open {
                None
            } else {
                Some(id)
            },
        );
    }
}

// ---- Laws ----------------------------------------------------------------

/// A merge is offered only where it can go through: an approved-of, open pull
/// request without conflicts, whose checks neither fail nor still run.
pub proof fn merge_is_never_a_lie(card: Card, queued: bool)
    requires
        buttons(card, queued).contains(CardButton::Merge),
    ensures
        seen(card.state) is ReadyToMerge,
        !is_draft(card),
        !card.conflicting,
        card.checks != CheckStatus::Failing,
        card.checks != CheckStatus::Pending,
        !card.blocked,
{
    let bs = buttons(card, queued);
    let i = choose|i: int| 0 <= i < bs.len() && bs[i] == CardButton::Merge;
    assert(bs[i] == CardButton::Merge);
}

/// A question being answered keeps the buttons of the state underneath, but for
/// the way out of a run.
pub proof fn a_question_keeps_the_buttons(card: Card, asking: Card, queued: bool)
    requires
        !(card.state is Answering),
        !(card.state is Failed),
        !card.facts.running,
        asking == (Card { state: asking.state, ..card }),
        asking.state matches CardState::Answering { previous, .. } && beneath(*previous)
            == card.state,
    ensures
        buttons(asking, queued) == buttons(card, queued),
{
}

/// A blocked card offers nothing that would move it on.
pub proof fn a_blocked_card_has_no_buttons(card: Card, queued: bool)
    requires
        card.blocked,
    ensures
        buttons(card, queued).len() == 0,
{
}

/// A button stands on a card exactly where its state calls for it, and on no blocked
/// card. Under a fault only the way back stands; under a question, the buttons of the
/// state it was asked in.
#[verifier::rlimit(40)]
pub proof fn a_button_has_its_place(card: Card, queued: bool, b: CardButton)
    ensures
        buttons(card, queued).contains(b) <==> !card.blocked && ({
            let st = seen(card.state);
            let gate = st is ReadyToMerge;
            let open = !is_draft(card) && !card.conflicting;
            match b {
                CardButton::Start => st is StartingBlock,
                CardButton::Answer => asked(st) is Some,
                CardButton::Approve => awaiting_approval(st) && card.facts.plan_questions == 0,
                CardButton::ReadPlan => awaiting_approval(st),
                CardButton::Review => st == CardState::AwaitingReview(ReviewSub::ReadyForReview),
                CardButton::SelectFindings => st matches CardState::AwaitingReview(sub)
                    && sub is SelectingFixes,
                CardButton::ValidationFailed => st matches CardState::AwaitingReview(sub)
                    && sub is ValidationFailed,
                CardButton::CreatePr => st == CardState::AwaitingReview(ReviewSub::ReadyForPr),
                CardButton::ReadConclusion => st is Concluded,
                CardButton::ReadReview => st == CardState::PrReview(PrReviewSub::Idle)
                    && card.facts.triageable,
                CardButton::SelectFixes => st matches CardState::PrReview(sub)
                    && sub is SelectingFixes,
                CardButton::ReReadReview => gate && (card.unanswered_count > 0
                    || card.facts.pending_bodies@.len() > 0),
                CardButton::MarkReady => gate && is_draft(card),
                CardButton::ResolveConflicts => gate && !is_draft(card) && card.conflicting,
                CardButton::FixChecks => gate && open && card.checks == CheckStatus::Failing,
                CardButton::MergeWaiting => gate && open && card.checks == CheckStatus::Pending,
                CardButton::Merge => gate && open && card.checks != CheckStatus::Failing
                    && card.checks != CheckStatus::Pending,
                CardButton::Stop => card.facts.running && !(card.state is Answering) && !queued,
                CardButton::Resume => card.state matches CardState::Failed { message, .. }
                    && interrupted(message@),
                CardButton::Retry => card.state matches CardState::Failed { message, .. }
                    && !interrupted(message@),
            }
        }),
{
    if !card.blocked {
        let st = seen(card.state);
        let merging = st is ReadyToMerge;
        let t1 = when(st is StartingBlock, CardButton::Start);
        let t2 = t1 + when(asked(st) is Some, CardButton::Answer);
        let t3 = t2 + when(
            awaiting_approval(st) && card.facts.plan_questions == 0,
            CardButton::Approve,
        );
        let t4 = t3 + when(awaiting_approval(st), CardButton::ReadPlan);
        let t5 = t4 + review_button(st);
        let t6 = t5 + when(st is Concluded, CardButton::ReadConclusion);
        let idle = st == CardState::PrReview(PrReviewSub::Idle) && card.facts.triageable;
        let t7 = t6 + when(idle, CardButton::ReadReview);
        let fixing = st matches CardState::PrReview(PrReviewSub::SelectingFixes { .. });
        let t8 = t7 + when(fixing, CardButton::SelectFixes);
        let late = merging && (card.unanswered_count > 0 || card.facts.pending_bodies@.len() > 0);
        let t9 = t8 + when(late, CardButton::ReReadReview);
        let t10 = t9 + when(merging, merge_button(card));
        let stops = card.facts.running && !(card.state is Answering) && !queued;
        let t11 = t10 + when(stops, CardButton::Stop);
        let back = match card.state {
            CardState::Failed { message, .. } => seq![
                if interrupted(message@) {
                    CardButton::Resume
                } else {
                    CardButton::Retry
                },
            ],
            _ => Seq::empty(),
        };
        assert(buttons(card, queued) == t11 + back);
        joined_contains(t11, back, b);
        one_when(t10, stops, CardButton::Stop, b);
        one_when(t9, merging, merge_button(card), b);
        one_when(t8, late, CardButton::ReReadReview, b);
        one_when(t7, fixing, CardButton::SelectFixes, b);
        one_when(t6, idle, CardButton::ReadReview, b);
        one_when(t5, st is Concluded, CardButton::ReadConclusion, b);
        joined_contains(t4, review_button(st), b);
        one_when(t3, awaiting_approval(st), CardButton::ReadPlan, b);
        one_when(
            t2,
            awaiting_approval(st) && card.facts.plan_questions == 0,
            CardButton::Approve,
            b,
        );
        one_when(t1, asked(st) is Some, CardButton::Answer, b);
        one_when(Seq::empty(), st is StartingBlock, CardButton::Start, b);
        assert(Seq::empty() + t1 =~= t1);
        assert forall|x: CardButton| #[trigger] seq![x].contains(b) == (x == b) by {
            assert(seq![x][0] == x);
        }
    }
}

proof fn one_when(s: Seq<CardButton>, c: bool, b: CardButton, x: CardButton)
    ensures
        (s + when(c, b)).contains(x) == (s.contains(x) || (c && b == x)),
{
    joined_contains(s, when(c, b), x);
    if c {
        assert(when(c, b)[0] == b);
    }
}

/// What a question is laid over is what the board shows; everything else shows as
/// itself.
pub proof fn the_board_looks_beneath_a_question(s: CardState, q: String)
    ensures
        seen(CardState::Answering { question: q, previous: Box::new(s) }) == beneath(s),
        !(s is Answering) ==> seen(s) == s,
{
}

/// Where a command makes sense: the state a card is in when it is sent.
pub open spec fn fits(cmd: ExecutorCommand, card: Card) -> bool {
    let st = beneath(card.state);
    let open = !is_draft(card) && !card.conflicting;
    match cmd {
        ExecutorCommand::Start { .. } => st is StartingBlock,
        ExecutorCommand::ApprovePlan { .. } => awaiting_approval(st) && card.facts.plan_questions
            == 0,
        ExecutorCommand::FetchComments { .. } => {
            ||| st == CardState::PrReview(PrReviewSub::Idle)
            ||| st is ReadyToMerge && (card.unanswered_count > 0 || card.facts.pending_bodies@.len()
                > 0)
        },
        ExecutorCommand::MarkPrReady { .. } => is_draft(card),
        ExecutorCommand::ResolveConflicts { .. } => !is_draft(card) && card.conflicting,
        ExecutorCommand::FixChecks { .. } => open && card.checks == CheckStatus::Failing,
        ExecutorCommand::Merge { force, .. } => st is ReadyToMerge && open && (force == (card.checks
            == CheckStatus::Failing || card.checks == CheckStatus::Pending)),
        ExecutorCommand::Cancel { .. } => card.facts.running,
        ExecutorCommand::Retry { .. } => card.state is Failed,
        _ => false,
    }
}

/// Whatever a button on a card comes to, once every dialog is confirmed, is a command
/// about that card and one that its state calls for.
pub proof fn a_button_comes_to_what_fits(card: Card, queued: bool, b: CardButton)
    requires
        buttons(card, queued).contains(b),
    ensures
        leads_to(pressed(b, card.id)) matches Some(cmd) ==> card_of(cmd) == Some(card.id) && fits(
            cmd,
            card,
        ),
{
    a_button_has_its_place(card, queued, b);
    beneath_is_bare(card.state);
}

/// No button throws work away, merges or sends a card back by itself: it raises a
/// dialog first.
pub proof fn no_button_is_irrevocable(b: CardButton, id: Id)
    ensures
        pressed(b, id) matches GestureView::Send(cmd) ==> !irrevocable(cmd),
{
}

/// Approving a plan sends that approval and nothing else; a merge keeps the checks'
/// word and deletes the branch; stopping discards the run, and says so in red.
pub proof fn the_weighty_buttons_do_their_own(id: Id)
    ensures
        pressed(CardButton::Approve, id) == GestureView::Send(
            ExecutorCommand::ApprovePlan { card_id: id },
        ),
        leads_to(pressed(CardButton::Merge, id)) == Some(
            ExecutorCommand::Merge { card_id: id, delete_branch: true, force: false },
        ),
        pressed(CardButton::Merge, id) is Guard,
        leads_to(pressed(CardButton::Stop, id)) == Some(ExecutorCommand::Cancel { card_id: id }),
        pressed(CardButton::Stop, id) matches GestureView::Ask(req) && req.danger,
        pressed(CardButton::MergeWaiting, id) is Nothing,
{
}

/// Two buttons come to the same command only where they are two words for one thing:
/// retrying and resuming, reading the review and reading it again. For two cards no
/// button comes to the same.
pub proof fn buttons_come_to_different_things(a: CardButton, b: CardButton, id: Id, other: Id)
    requires
        leads_to(pressed(a, id)) is Some,
        leads_to(pressed(a, id)) == leads_to(pressed(b, other)),
    ensures
        id == other,
        a == b || (a is Retry && b is Resume) || (a is Resume && b is Retry) || (a is ReadReview
            && b is ReReadReview) || (a is ReReadReview && b is ReadReview),
{
}

/// The badge of a card: an unanswered question before all else, then what is broken,
/// then a conclusion.
pub proof fn a_badge_has_its_place(st: CardState)
    ensures
        status_badge(st) == StatusBadge::NeedsAnswer <==> asked(st) is Some,
        st is MergedWithoutReview ==> (status_badge(st) == StatusBadge::Broken <==> !st->merged),
        status_badge(st) == StatusBadge::Broken ==> st is MergedWithoutReview || (st matches
            CardState::AwaitingReview(sub) && sub is ValidationFailed),
        (st matches CardState::AwaitingReview(sub) && sub is ValidationFailed) ==> status_badge(st)
            == StatusBadge::Broken,
        status_badge(st) == StatusBadge::Concluded <==> st is Concluded,
{
}

/// A preview offers what its status allows: nothing where the card has none, its first
/// address where it runs.
pub proof fn preview_tools_follow_the_preview(
    eligible: bool,
    preview: Option<(PreviewStatus, Vec<PreviewUrl>)>,
)
    ensures
        tools(eligible, preview) is Hidden <==> !eligible,
        tools(eligible, preview) is Starting <==> eligible && preview is Some && (preview->0).0
            == PreviewStatus::SettingUp,
        tools(eligible, preview) is Running <==> eligible && preview is Some && (preview->0).0
            == PreviewStatus::Running,
        tools(eligible, preview) matches ToolsView::Running(url) ==> (url is Some
            <==> (preview->0).1@.len() > 0) && (url is Some ==> url->0 == (preview->0).1@[0].url@),
{
}

/// A card's face shows the card: its title or that it has none, what runs, what it is,
/// and a menu that offers what its state allows.
#[verifier::rlimit(40)]
pub proof fn a_face_shows_its_card(
    card: Card,
    ctx: CardContext,
    preview: Option<&(PreviewStatus, Vec<PreviewUrl>)>,
    r: CardFace,
)
    requires
        call_ensures(card_face, (&card, ctx, preview), r),
    ensures
        !blank(card.title@) ==> r.title@ == card.title@,
        r.spinner ==> (card.facts.running || ctx.busy) && !ctx.queued,
        ctx.queued ==> !r.spinner,
        !ctx.queued && (card.facts.running || ctx.busy) ==> r.spinner,
        r.investigation <==> card.config.kind is Investigation,
        r.status_title@ == card.facts.status_label@,
        card.facts.running ==> r.status@ == card.facts.status_label@,
        !ctx.busy ==> r.status@ == card.facts.status_label@,
        r.checks <==> card.pr is Some && card.facts.checks_reportable,
        card.pr is None ==> r.approved_by is None && r.commented_by is None,
        r.menu.can_reset <==> !(seen(card.state) is StartingBlock),
        r.menu.can_done <==> !(seen(card.state) is Done),
        seen(card.state) is AwaitingReview || seen(card.state) is PrReview
            || seen(card.state) is ReadyToMerge ==> r.menu.can_diff,
        seen(card.state) is StartingBlock || seen(card.state) is Designing
            || seen(card.state) is Done ==> !r.menu.can_diff,
        r.menu.can_open <==> !(seen(card.state) is Done) || card.facts.worktree_present,
        card.facts.running || !ctx.run_configured ==> r.preview@ is Hidden,
{
    beneath_is_bare(card.state);
}

/// A diff can be read, and a preview run, from the first commit to the merge, under a
/// fault or a question too.
pub proof fn committed_work_can_be_read(s: CardState)
    ensures
        reviewable(s) <==> beneath(s) is AwaitingReview || beneath(s) is PrReview
            || beneath(s) is ReadyToMerge,
{
}

/// The class of a card tells a fault before a selection, and adds what is busy and what
/// is blocked.
pub proof fn a_class_tells_the_state(card: Card, ctx: CardContext)
    ensures
        card.state is Failed ==> starts(face_class(card, ctx), "card failed"@),
        !(card.state is Failed) && ctx.selected ==> starts(face_class(card, ctx), "card selected"@),
        card.blocked ==> ends(face_class(card, ctx), " blocked"@),
        !card.blocked && ctx.busy ==> ends(face_class(card, ctx), " is-busy"@),
{
    let base = if card.state is Failed {
        "card failed"@
    } else if ctx.selected {
        "card selected"@
    } else {
        "card"@
    };
    let busy = if ctx.busy {
        " is-busy"@
    } else {
        Seq::empty()
    };
    let blocked = if card.blocked {
        " blocked"@
    } else {
        Seq::empty()
    };
    assert(face_class(card, ctx) =~= base + (busy + blocked));
    parts_are_found(Seq::empty(), base, busy + blocked);
    parts_are_found(base + busy, blocked, Seq::empty());
    parts_are_found(base, busy, Seq::empty());
    assert(!card.blocked ==> face_class(card, ctx) =~= base + busy);
}

/// A button says what its dialog does: stopping and merging are confirmed by the word on
/// the button. Two buttons say the same only where both select fixes or both merge.
#[verifier::rlimit(40)]
pub proof fn buttons_say_what_they_do(a: CardButton, b: CardButton, id: Id)
    ensures
        pressed(a, id) matches GestureView::Ask(req) ==> req.confirm_label == button_words(a),
        pressed(a, id) matches GestureView::Guard(_, _, label, _) ==> label == button_words(a),
        button_words(a) == button_words(b) && a != b ==> (a is SelectFindings && b is SelectFixes)
            || (a is SelectFixes && b is SelectFindings) || (a is Merge && b is MergeWaiting) || (
        a is MergeWaiting && b is Merge),
{
    words_told_apart();
}

proof fn words_told_apart()
    ensures
        "Start"@.len() == 5 && "Start"@[2] == 'a',
        "Answer"@.len() == 6 && "Answer"@[0] == 'A',
        "Approve"@.len() == 7,
        "Read plan"@.len() == 9 && "Read plan"@[0] == 'R',
        "Review"@.len() == 6 && "Review"@[2] == 'v',
        "Select fixes"@.len() == 12,
        "Validation failed"@.len() == 17 && "Validation failed"@[0] == 'V',
        "Create PR"@.len() == 9 && "Create PR"@[0] == 'C',
        "Read conclusion"@.len() == 15 && "Read conclusion"@[5] == 'c',
        "Read the review"@.len() == 15 && "Read the review"@[5] == 't',
        "Re-read the review"@.len() == 18,
        "Mark ready"@.len() == 10 && "Mark ready"@[0] == 'M',
        "Resolve conflicts"@.len() == 17 && "Resolve conflicts"@[0] == 'R',
        "Fix checks"@.len() == 10 && "Fix checks"@[0] == 'F',
        "Merge"@.len() == 5 && "Merge"@[0] == 'M',
        "Stop"@.len() == 4,
        "Resume"@.len() == 6 && "Resume"@[0] == 'R' && "Resume"@[2] == 's',
        "Retry"@.len() == 5 && "Retry"@[0] == 'R',
        "Start"@[0] == 'S',
        "Review"@[0] == 'R',
{
    reveal_strlit("Start");
    reveal_strlit("Answer");
    reveal_strlit("Approve");
    reveal_strlit("Read plan");
    reveal_strlit("Review");
    reveal_strlit("Select fixes");
    reveal_strlit("Validation failed");
    reveal_strlit("Create PR");
    reveal_strlit("Read conclusion");
    reveal_strlit("Read the review");
    reveal_strlit("Re-read the review");
    reveal_strlit("Mark ready");
    reveal_strlit("Resolve conflicts");
    reveal_strlit("Fix checks");
    reveal_strlit("Merge");
    reveal_strlit("Stop");
    reveal_strlit("Resume");
    reveal_strlit("Retry");
}

/// A merge is green, what is secondary is plain, and everything else is the way on.
pub proof fn buttons_look_their_part(b: CardButton)
    ensures
        b is Merge || b is MergeWaiting <==> button_style(b) == "btn success"@,
        b is Stop || b is ReReadReview <==> button_style(b) == "btn subtle"@,
        b is ReadPlan || b is Retry || b is Resume <==> button_style(b) == "btn"@,
{
    reveal_strlit("btn");
    reveal_strlit("btn subtle");
    reveal_strlit("btn success");
    reveal_strlit("btn primary");
    assert("btn"@.len() == 3 && "btn subtle"@.len() == 10 && "btn success"@.len() == 11
        && "btn primary"@.len() == 11);
    assert("btn success"@[4] == 's' && "btn primary"@[4] == 'p');
}

/// A card without a title says so; one that is busy before its run is under way says
/// that it works.
pub proof fn a_face_never_stays_blank(card: Card, ctx: CardContext)
    ensures
        blank(card.title@) ==> face_title(card) == "Untitled"@,
        !blank(card.title@) ==> face_title(card) == card.title@,
        face_title(card).len() > 0,
        ctx.busy && !card.facts.running ==> face_status(card, ctx) == "working…"@,
        !(ctx.busy && !card.facts.running) ==> face_status(card, ctx) == card.facts.status_label@,
{
    reveal_strlit("Untitled");
}

/// Names are told of a card with a pull request, all of them in their order, with commas
/// between.
pub proof fn names_are_told_of_a_pull_request(card: Card, a: Seq<char>, b: Seq<char>)
    requires
        a.len() > 0,
        b.len() > 0,
    ensures
        card.pr is None ==> named(card, seq![a, b]) is None,
        card.pr is Some ==> named(card, seq![a]) == Some(a),
        card.pr is Some ==> named(card, seq![a, b]) == Some(a + ", "@ + b),
        named(card, Seq::empty()) is None,
{
    reveal_with_fuel(join, 3);
    assert(seq![a, b].drop_last() =~= seq![a]);
}

/// A preview can be run where the card's own project says how.
pub proof fn runs_go_by_the_project(projects: Seq<Project>, i: int, id: Id)
    ensures
        runs(projects, id) ==> exists|j: int|
            0 <= j < projects.len() && (#[trigger] projects[j]).id == id
                && projects[j].config.run_script is Some,
        0 <= i < projects.len() && crate::state::projects_distinct(projects) ==> runs(
            projects,
            projects[i].id,
        ) == (projects[i].config.run_script is Some),
{
    let p = |p: Project| p.id == id;
    first_where_is_first(projects, p);
    if let Some(j) = first_where(projects, p) {
        assert(projects[j].id == id);
    }
    if 0 <= i < projects.len() && crate::state::projects_distinct(projects) {
        let q = |p: Project| p.id == projects[i].id;
        first_where_is_first(projects, q);
        assert(q(projects[i]));
        let k = first_where(projects, q)->0;
        assert(projects[k].id == projects[i].id);
    }
}

/// What the board knows of a card is about that card and its project.
pub proof fn a_context_is_of_its_card(s: AppState, card: Card, queued: bool, r: CardContext)
    requires
        call_ensures(AppState::card_context, (&s, &card, queued), r),
    ensures
        r.selected <==> s@.selected_card == Some(card.id),
        r.busy <==> s@.busy.contains(card.id),
        r.queued == queued,
        r.run_configured == runs(s@.projects, card.project_id),
{
}

} // verus!
