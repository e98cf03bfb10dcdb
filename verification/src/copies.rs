//! Copies of what the executor reports: a copy holds the same values, list by
//! list and text by text.

use vstd::prelude::*;

use crate::markdown::texts;
use crate::model::{
    AppSettings, Card, CardConfig, CardFacts, CardState, CheckStatus, Column, DesignSub,
    DraftComment, FixVerdict, Id, Intervention, ModelSpec, PrInfo, PrReviewSub, PreviewPort,
    Project, ProjectConfig, Provider, ReviewComment, ReviewEvent, ReviewStatus, ReviewSub, RunSub,
    SubmittedReview,
};

verus! {

/// A list of texts, copied.
pub fn copy_texts(v: &Vec<String>) -> (r: Vec<String>)
    ensures
        texts(r@) == texts(v@),
        r@ == v@,
{
    let r = v.clone();
    assert(r@ =~= v@);
    r
}

pub fn copy_text(s: &Option<String>) -> (r: Option<String>)
    ensures
        r == *s,
{
    match s {
        Some(t) => Some(t.clone()),
        None => None,
    }
}

impl Clone for ReviewComment {
    fn clone(&self) -> (r: ReviewComment)
        ensures
            r == *self,
    {
        ReviewComment {
            id: self.id,
            path: self.path.clone(),
            line: self.line,
            body: self.body.clone(),
            review_body_of: self.review_body_of,
        }
    }
}

impl Clone for FixVerdict {
    fn clone(&self) -> (r: FixVerdict)
        ensures
            r == *self,
    {
        FixVerdict {
            comment: self.comment.clone(),
            worth_fixing: self.worth_fixing,
            selected: self.selected,
            severity: self.severity.clone(),
            rationale: self.rationale.clone(),
            reply: self.reply.clone(),
            instruction: self.instruction.clone(),
        }
    }
}

impl Clone for PrInfo {
    fn clone(&self) -> (r: PrInfo)
        ensures
            r == *self,
    {
        PrInfo {
            number: self.number,
            url: self.url.clone(),
            title: self.title.clone(),
            state: self.state.clone(),
            reviewer: copy_text(&self.reviewer),
            reviewer_recorded: self.reviewer_recorded,
        }
    }
}

impl Clone for SubmittedReview {
    fn clone(&self) -> (r: SubmittedReview)
        ensures
            r == *self,
    {
        SubmittedReview {
            author: self.author.clone(),
            state: self.state.clone(),
            body: self.body.clone(),
        }
    }
}

// ---- States --------------------------------------------------------------

/// A question as a mathematical value.
pub struct InterventionView {
    pub request_id: String,
    pub question: String,
    pub options: Seq<String>,
}

impl View for Intervention {
    type V = InterventionView;

    open spec fn view(&self) -> InterventionView {
        InterventionView {
            request_id: self.request_id,
            question: self.question,
            options: self.options@,
        }
    }
}

impl Clone for Intervention {
    fn clone(&self) -> (r: Intervention)
        ensures
            r@ == self@,
    {
        Intervention {
            request_id: self.request_id.clone(),
            question: self.question.clone(),
            options: copy_texts(&self.options),
        }
    }
}

/// A card's state as a mathematical value.
pub enum CardStateView {
    StartingBlock,
    Designing,
    DesignAsks(InterventionView),
    DesignAwaitsApproval(String),
    Investigating,
    InvestigationAsks(InterventionView),
    Concluded(String),
    Implementing,
    ImplementationAsks(InterventionView),
    ReadyForReview,
    Reviewing,
    SelectingFindings(Seq<FixVerdict>),
    ApplyingFindings,
    Validating(u32),
    FixingValidation(u32),
    ValidationFailed(u32, String),
    ReadyForPr,
    PrIdle,
    PrFetching,
    PrSelecting(Seq<FixVerdict>),
    PrApplyingFixes,
    PrApplyingChange,
    PrAsks(InterventionView),
    ReadyToMerge,
    MergedWithoutReview(bool),
    Done,
    Failed(String, Box<CardStateView>),
    Answering(String, Box<CardStateView>),
}

pub open spec fn state_view(s: CardState) -> CardStateView
    decreases s,
{
    match s {
        CardState::StartingBlock => CardStateView::StartingBlock,
        CardState::Designing(DesignSub::Running) => CardStateView::Designing,
        CardState::Designing(DesignSub::Intervention(iv)) => CardStateView::DesignAsks(iv@),
        CardState::Designing(
            DesignSub::AwaitingApproval { plan },
        ) => CardStateView::DesignAwaitsApproval(plan),
        CardState::Investigating(RunSub::Running) => CardStateView::Investigating,
        CardState::Investigating(RunSub::Intervention(iv)) => CardStateView::InvestigationAsks(iv@),
        CardState::Concluded { conclusion } => CardStateView::Concluded(conclusion),
        CardState::Implementing(RunSub::Running) => CardStateView::Implementing,
        CardState::Implementing(RunSub::Intervention(iv)) => CardStateView::ImplementationAsks(iv@),
        CardState::AwaitingReview(ReviewSub::ReadyForReview) => CardStateView::ReadyForReview,
        CardState::AwaitingReview(ReviewSub::Reviewing) => CardStateView::Reviewing,
        CardState::AwaitingReview(
            ReviewSub::SelectingFixes { verdicts },
        ) => CardStateView::SelectingFindings(verdicts@),
        CardState::AwaitingReview(ReviewSub::ApplyingFixes) => CardStateView::ApplyingFindings,
        CardState::AwaitingReview(ReviewSub::Validating { attempt }) => CardStateView::Validating(
            attempt,
        ),
        CardState::AwaitingReview(
            ReviewSub::FixingValidation { attempt },
        ) => CardStateView::FixingValidation(attempt),
        CardState::AwaitingReview(
            ReviewSub::ValidationFailed { attempt, output },
        ) => CardStateView::ValidationFailed(attempt, output),
        CardState::AwaitingReview(ReviewSub::ReadyForPr) => CardStateView::ReadyForPr,
        CardState::PrReview(PrReviewSub::Idle) => CardStateView::PrIdle,
        CardState::PrReview(PrReviewSub::FetchingComments) => CardStateView::PrFetching,
        CardState::PrReview(PrReviewSub::SelectingFixes { verdicts }) => CardStateView::PrSelecting(
            verdicts@,
        ),
        CardState::PrReview(PrReviewSub::ApplyingFixes) => CardStateView::PrApplyingFixes,
        CardState::PrReview(PrReviewSub::ApplyingChange) => CardStateView::PrApplyingChange,
        CardState::PrReview(PrReviewSub::AwaitingAnswer(iv)) => CardStateView::PrAsks(iv@),
        CardState::ReadyToMerge => CardStateView::ReadyToMerge,
        CardState::MergedWithoutReview { merged } => CardStateView::MergedWithoutReview(merged),
        CardState::Done => CardStateView::Done,
        CardState::Failed { message, previous } => CardStateView::Failed(
            message,
            Box::new(state_view(*previous)),
        ),
        CardState::Answering { question, previous } => CardStateView::Answering(
            question,
            Box::new(state_view(*previous)),
        ),
    }
}

pub fn copy_verdicts(v: &Vec<FixVerdict>) -> (r: Vec<FixVerdict>)
    ensures
        r@ == v@,
{
    let r = v.clone();
    assert(r@ =~= v@);
    r
}

impl Clone for DesignSub {
    fn clone(&self) -> (r: DesignSub)
        ensures
            state_view(CardState::Designing(r)) == state_view(CardState::Designing(*self)),
    {
        match self {
            DesignSub::Running => DesignSub::Running,
            DesignSub::Intervention(iv) => DesignSub::Intervention(iv.clone()),
            DesignSub::AwaitingApproval { plan } => DesignSub::AwaitingApproval {
                plan: plan.clone(),
            },
        }
    }
}

impl Clone for RunSub {
    fn clone(&self) -> (r: RunSub)
        ensures
            state_view(CardState::Investigating(r)) == state_view(CardState::Investigating(*self)),
            state_view(CardState::Implementing(r)) == state_view(CardState::Implementing(*self)),
    {
        match self {
            RunSub::Running => RunSub::Running,
            RunSub::Intervention(iv) => RunSub::Intervention(iv.clone()),
        }
    }
}

impl Clone for ReviewSub {
    fn clone(&self) -> (r: ReviewSub)
        ensures
            state_view(CardState::AwaitingReview(r)) == state_view(
                CardState::AwaitingReview(*self),
            ),
    {
        match self {
            ReviewSub::ReadyForReview => ReviewSub::ReadyForReview,
            ReviewSub::Reviewing => ReviewSub::Reviewing,
            ReviewSub::SelectingFixes { verdicts } => ReviewSub::SelectingFixes {
                verdicts: copy_verdicts(verdicts),
            },
            ReviewSub::ApplyingFixes => ReviewSub::ApplyingFixes,
            ReviewSub::Validating { attempt } => ReviewSub::Validating { attempt: *attempt },
            ReviewSub::FixingValidation { attempt } => ReviewSub::FixingValidation {
                attempt: *attempt,
            },
            ReviewSub::ValidationFailed { attempt, output } => ReviewSub::ValidationFailed {
                attempt: *attempt,
                output: output.clone(),
            },
            ReviewSub::ReadyForPr => ReviewSub::ReadyForPr,
        }
    }
}

impl Clone for PrReviewSub {
    fn clone(&self) -> (r: PrReviewSub)
        ensures
            state_view(CardState::PrReview(r)) == state_view(CardState::PrReview(*self)),
    {
        match self {
            PrReviewSub::Idle => PrReviewSub::Idle,
            PrReviewSub::FetchingComments => PrReviewSub::FetchingComments,
            PrReviewSub::SelectingFixes { verdicts } => PrReviewSub::SelectingFixes {
                verdicts: copy_verdicts(verdicts),
            },
            PrReviewSub::ApplyingFixes => PrReviewSub::ApplyingFixes,
            PrReviewSub::ApplyingChange => PrReviewSub::ApplyingChange,
            PrReviewSub::AwaitingAnswer(iv) => PrReviewSub::AwaitingAnswer(iv.clone()),
        }
    }
}

impl Clone for CardState {
    fn clone(&self) -> (r: CardState)
        ensures
            state_view(r) == state_view(*self),
        decreases self,
    {
        match self {
            CardState::StartingBlock => CardState::StartingBlock,
            CardState::Designing(sub) => CardState::Designing(sub.clone()),
            CardState::Investigating(sub) => CardState::Investigating(sub.clone()),
            CardState::Concluded { conclusion } => CardState::Concluded {
                conclusion: conclusion.clone(),
            },
            CardState::Implementing(sub) => CardState::Implementing(sub.clone()),
            CardState::AwaitingReview(sub) => CardState::AwaitingReview(sub.clone()),
            CardState::PrReview(sub) => CardState::PrReview(sub.clone()),
            CardState::ReadyToMerge => CardState::ReadyToMerge,
            CardState::MergedWithoutReview { merged } => CardState::MergedWithoutReview {
                merged: *merged,
            },
            CardState::Done => CardState::Done,
            CardState::Failed { message, previous } => CardState::Failed {
                message: message.clone(),
                previous: Box::new((&**previous).clone()),
            },
            CardState::Answering { question, previous } => CardState::Answering {
                question: question.clone(),
                previous: Box::new((&**previous).clone()),
            },
        }
    }
}

// ---- Reviews -------------------------------------------------------------

/// A review's status as a mathematical value.
pub enum StatusView {
    ToReview,
    Reviewing,
    AwaitingValidation(Seq<DraftComment>, String, ReviewEvent),
    Reviewed,
    Fixing,
    FixReady,
    MergedWithoutReview(bool),
    Failed(String, Box<StatusView>),
}

pub open spec fn status_view(s: ReviewStatus) -> StatusView
    decreases s,
{
    match s {
        ReviewStatus::ToReview => StatusView::ToReview,
        ReviewStatus::Reviewing => StatusView::Reviewing,
        ReviewStatus::AwaitingValidation { drafts, summary, event } =>
            StatusView::AwaitingValidation(drafts@, summary, event),
        ReviewStatus::Reviewed => StatusView::Reviewed,
        ReviewStatus::Fixing => StatusView::Fixing,
        ReviewStatus::FixReady => StatusView::FixReady,
        ReviewStatus::MergedWithoutReview { merged } => StatusView::MergedWithoutReview(merged),
        ReviewStatus::Failed { message, previous } => StatusView::Failed(
            message,
            Box::new(status_view(*previous)),
        ),
    }
}

pub fn copy_drafts(v: &Vec<DraftComment>) -> (r: Vec<DraftComment>)
    ensures
        r@ == v@,
{
    let r = v.clone();
    assert(r@ =~= v@);
    r
}

impl Clone for ReviewStatus {
    fn clone(&self) -> (r: ReviewStatus)
        ensures
            status_view(r) == status_view(*self),
        decreases self,
    {
        match self {
            ReviewStatus::ToReview => ReviewStatus::ToReview,
            ReviewStatus::Reviewing => ReviewStatus::Reviewing,
            ReviewStatus::AwaitingValidation { drafts, summary, event } => {
                ReviewStatus::AwaitingValidation {
                    drafts: copy_drafts(drafts),
                    summary: summary.clone(),
                    event: *event,
                }
            },
            ReviewStatus::Reviewed => ReviewStatus::Reviewed,
            ReviewStatus::Fixing => ReviewStatus::Fixing,
            ReviewStatus::FixReady => ReviewStatus::FixReady,
            ReviewStatus::MergedWithoutReview { merged } => ReviewStatus::MergedWithoutReview {
                merged: *merged,
            },
            ReviewStatus::Failed { message, previous } => ReviewStatus::Failed {
                message: message.clone(),
                previous: Box::new((&**previous).clone()),
            },
        }
    }
}

// ---- Cards ---------------------------------------------------------------

/// What is reported of a card as a mathematical value.
pub struct FactsView {
    pub column: Column,
    pub running: bool,
    pub needs_attention: bool,
    pub needs_urgent_attention: bool,
    pub status_label: String,
    pub approved_by: Seq<String>,
    pub pending_bodies: Seq<String>,
    pub triageable: bool,
    pub checks_reportable: bool,
    pub plan_questions: u64,
    pub worktree_present: bool,
    pub cost: Option<String>,
}

impl View for CardFacts {
    type V = FactsView;

    open spec fn view(&self) -> FactsView {
        FactsView {
            column: self.column,
            running: self.running,
            needs_attention: self.needs_attention,
            needs_urgent_attention: self.needs_urgent_attention,
            status_label: self.status_label,
            approved_by: self.approved_by@,
            pending_bodies: self.pending_bodies@,
            triageable: self.triageable,
            checks_reportable: self.checks_reportable,
            plan_questions: self.plan_questions,
            worktree_present: self.worktree_present,
            cost: self.cost,
        }
    }
}

impl Clone for CardFacts {
    fn clone(&self) -> (r: CardFacts)
        ensures
            r@ == self@,
    {
        CardFacts {
            column: self.column,
            running: self.running,
            needs_attention: self.needs_attention,
            needs_urgent_attention: self.needs_urgent_attention,
            status_label: self.status_label.clone(),
            approved_by: copy_texts(&self.approved_by),
            pending_bodies: copy_texts(&self.pending_bodies),
            triageable: self.triageable,
            checks_reportable: self.checks_reportable,
            plan_questions: self.plan_questions,
            worktree_present: self.worktree_present,
            cost: copy_text(&self.cost),
        }
    }
}

/// A card as a mathematical value.
pub struct CardView {
    pub id: Id,
    pub project_id: Id,
    pub title: Seq<char>,
    pub description: Seq<char>,
    pub config: CardConfig,
    pub state: CardStateView,
    pub branch: Option<String>,
    pub worktree_path: Option<String>,
    pub pr: Option<PrInfo>,
    pub checks: CheckStatus,
    pub conflicting: bool,
    pub unanswered_count: u32,
    pub reviews: Seq<SubmittedReview>,
    pub blocked: bool,
    pub blocked_note: Option<String>,
    pub created_at: i64,
    pub updated_at: i64,
    pub facts: FactsView,
}

impl View for Card {
    type V = CardView;

    open spec fn view(&self) -> CardView {
        CardView {
            id: self.id,
            project_id: self.project_id,
            title: self.title@,
            description: self.description@,
            config: self.config,
            state: state_view(self.state),
            branch: self.branch,
            worktree_path: self.worktree_path,
            pr: self.pr,
            checks: self.checks,
            conflicting: self.conflicting,
            unanswered_count: self.unanswered_count,
            reviews: self.reviews@,
            blocked: self.blocked,
            blocked_note: self.blocked_note,
            created_at: self.created_at,
            updated_at: self.updated_at,
            facts: self.facts@,
        }
    }
}

impl Clone for Card {
    fn clone(&self) -> (r: Card)
        ensures
            r@ == self@,
    {
        let reviews = self.reviews.clone();
        assert(reviews@ =~= self.reviews@);
        Card {
            id: self.id,
            project_id: self.project_id,
            title: self.title.clone(),
            description: self.description.clone(),
            config: self.config.clone(),
            state: self.state.clone(),
            branch: copy_text(&self.branch),
            worktree_path: copy_text(&self.worktree_path),
            pr: match &self.pr {
                Some(p) => Some(p.clone()),
                None => None,
            },
            checks: self.checks,
            conflicting: self.conflicting,
            unanswered_count: self.unanswered_count,
            reviews,
            blocked: self.blocked,
            blocked_note: copy_text(&self.blocked_note),
            created_at: self.created_at,
            updated_at: self.updated_at,
            facts: self.facts.clone(),
        }
    }
}

// ---- Projects ------------------------------------------------------------

/// A project's configuration as a mathematical value.
#[verifier::ext_equal]
pub struct ConfigView {
    pub base_branch: String,
    pub pinned_base_branch: Option<Seq<char>>,
    pub reviewer: Option<Seq<char>>,
    pub review_contributors: Seq<Seq<char>>,
    pub run_script: Option<Seq<char>>,
    pub validate_script: Option<Seq<char>>,
    pub worktree_setup_script: Option<Seq<char>>,
    pub worktree_teardown_script: Option<Seq<char>>,
    pub preview_ports: Seq<(Seq<char>, u16)>,
    pub auto_preview: bool,
    pub notifications_muted: bool,
    pub new_card: CardConfig,
}

/// The ports as pairs.
pub open spec fn ports_view(v: Seq<PreviewPort>) -> Seq<(Seq<char>, u16)> {
    v.map_values(|p: PreviewPort| (p.label@, p.base))
}

impl View for ProjectConfig {
    type V = ConfigView;

    open spec fn view(&self) -> ConfigView {
        ConfigView {
            base_branch: self.base_branch,
            pinned_base_branch: crate::card::opt_text(self.pinned_base_branch),
            reviewer: crate::card::opt_text(self.reviewer),
            review_contributors: texts(self.review_contributors@),
            run_script: crate::card::opt_text(self.run_script),
            validate_script: crate::card::opt_text(self.validate_script),
            worktree_setup_script: crate::card::opt_text(self.worktree_setup_script),
            worktree_teardown_script: crate::card::opt_text(self.worktree_teardown_script),
            preview_ports: ports_view(self.preview_ports@),
            auto_preview: self.auto_preview,
            notifications_muted: self.notifications_muted,
            new_card: self.new_card,
        }
    }
}

impl Clone for ProjectConfig {
    fn clone(&self) -> (r: ProjectConfig)
        ensures
            r@ == self@,
    {
        let ports = self.preview_ports.clone();
        assert(ports@ =~= self.preview_ports@);
        ProjectConfig {
            base_branch: self.base_branch.clone(),
            pinned_base_branch: copy_text(&self.pinned_base_branch),
            reviewer: copy_text(&self.reviewer),
            review_contributors: copy_texts(&self.review_contributors),
            run_script: copy_text(&self.run_script),
            validate_script: copy_text(&self.validate_script),
            worktree_setup_script: copy_text(&self.worktree_setup_script),
            worktree_teardown_script: copy_text(&self.worktree_teardown_script),
            preview_ports: ports,
            auto_preview: self.auto_preview,
            notifications_muted: self.notifications_muted,
            new_card: self.new_card.clone(),
        }
    }
}

/// A project as a mathematical value.
#[verifier::ext_equal]
pub struct ProjectView {
    pub id: Id,
    pub name: String,
    pub path: String,
    pub config: ConfigView,
}

impl View for Project {
    type V = ProjectView;

    open spec fn view(&self) -> ProjectView {
        ProjectView { id: self.id, name: self.name, path: self.path, config: self.config@ }
    }
}

impl Clone for Project {
    fn clone(&self) -> (r: Project)
        ensures
            r@ == self@,
    {
        Project {
            id: self.id,
            name: self.name.clone(),
            path: self.path.clone(),
            config: self.config.clone(),
        }
    }
}

// ---- Settings ------------------------------------------------------------

/// The settings as a mathematical value.
#[verifier::ext_equal]
pub struct SettingsView {
    pub default_provider: Provider,
    pub default_plan: ModelSpec,
    pub default_implement: ModelSpec,
    pub default_review: Option<ModelSpec>,
    pub terminal_command: Option<Seq<char>>,
    pub editor_command: Option<Seq<char>>,
    pub max_concurrent_runs: u32,
    pub collapsed_columns: Seq<Column>,
    pub sidebar_width: u32,
    pub detail_width: u32,
}

impl View for AppSettings {
    type V = SettingsView;

    open spec fn view(&self) -> SettingsView {
        SettingsView {
            default_provider: self.default_provider,
            default_plan: self.default_plan,
            default_implement: self.default_implement,
            default_review: self.default_review,
            terminal_command: crate::card::opt_text(self.terminal_command),
            editor_command: crate::card::opt_text(self.editor_command),
            max_concurrent_runs: self.max_concurrent_runs,
            collapsed_columns: self.collapsed_columns@,
            sidebar_width: self.sidebar_width,
            detail_width: self.detail_width,
        }
    }
}

impl Clone for AppSettings {
    fn clone(&self) -> (r: AppSettings)
        ensures
            r@ == self@,
    {
        let folded = self.collapsed_columns.clone();
        assert(folded@ =~= self.collapsed_columns@);
        AppSettings {
            default_provider: self.default_provider,
            default_plan: self.default_plan.clone(),
            default_implement: self.default_implement.clone(),
            default_review: match &self.default_review {
                Some(spec) => Some(spec.clone()),
                None => None,
            },
            terminal_command: copy_text(&self.terminal_command),
            editor_command: copy_text(&self.editor_command),
            max_concurrent_runs: self.max_concurrent_runs,
            collapsed_columns: folded,
            sidebar_width: self.sidebar_width,
            detail_width: self.detail_width,
        }
    }
}

} // verus!
