//! What the board knows of the work: cards, pull requests under review,
//! projects and settings, as the executor reports them.
//!
//! What the executor alone can tell of a card (its lane, whether a run is in
//! flight, how its status reads) comes with the card as plain values, in
//! [`CardFacts`] and [`ReviewFacts`].

use vstd::prelude::*;

verus! {

/// The identity of a card, a review, a project or an open dialog: the 128 bits
/// of its UUID.
pub type Id = u128;

#[derive(Debug, Clone, Copy, PartialEq, Eq, Structural)]
pub enum Provider {
    Claude,
    Codex,
}

#[derive(Debug, Clone, Copy, PartialEq, Eq, Structural)]
pub enum Effort {
    Low,
    Medium,
    High,
    XHigh,
    Max,
    Ultra,
}

/// A model and how hard it should think.
#[derive(Debug, PartialEq, Eq)]
pub struct ModelSpec {
    pub model: String,
    pub effort: Effort,
}

impl Clone for ModelSpec {
    fn clone(&self) -> (r: ModelSpec)
        ensures
            r == *self,
    {
        ModelSpec { model: self.model.clone(), effort: self.effort }
    }
}

#[derive(Debug, Clone, Copy, PartialEq, Eq, Structural)]
pub enum CardKind {
    Task,
    Investigation,
}

#[derive(Debug, PartialEq, Eq)]
pub struct CardConfig {
    pub provider: Provider,
    pub kind: CardKind,
    pub plan: ModelSpec,
    pub implement: ModelSpec,
    /// `None` reviews with the implement model.
    pub review: Option<ModelSpec>,
}

impl Clone for CardConfig {
    fn clone(&self) -> (r: CardConfig)
        ensures
            r == *self,
    {
        CardConfig {
            provider: self.provider,
            kind: self.kind,
            plan: self.plan.clone(),
            implement: self.implement.clone(),
            review: match &self.review {
                Some(spec) => Some(spec.clone()),
                None => None,
            },
        }
    }
}

/// A question a run stopped on.
#[derive(Debug, PartialEq, Eq)]
pub struct Intervention {
    pub request_id: String,
    pub question: String,
    pub options: Vec<String>,
}

#[derive(Debug, PartialEq, Eq)]
pub enum DesignSub {
    Running,
    Intervention(Intervention),
    AwaitingApproval { plan: String },
}

#[derive(Debug, PartialEq, Eq)]
pub enum RunSub {
    Running,
    Intervention(Intervention),
}

/// A comment left on a pull request, or a finding of the self-review.
#[derive(Debug, PartialEq, Eq)]
pub struct ReviewComment {
    pub id: u64,
    pub path: String,
    pub line: Option<u32>,
    pub body: String,
    /// The review whose summary text this item stands for, if it is one.
    pub review_body_of: Option<u64>,
}

/// What the triage made of one comment, with the user's own steering.
#[derive(Debug, PartialEq, Eq)]
pub struct FixVerdict {
    pub comment: ReviewComment,
    pub worth_fixing: bool,
    pub selected: bool,
    pub severity: String,
    pub rationale: String,
    pub reply: String,
    pub instruction: String,
}

#[derive(Debug, PartialEq, Eq)]
pub enum ReviewSub {
    ReadyForReview,
    Reviewing,
    SelectingFixes { verdicts: Vec<FixVerdict> },
    ApplyingFixes,
    Validating { attempt: u32 },
    FixingValidation { attempt: u32 },
    ValidationFailed { attempt: u32, output: String },
    ReadyForPr,
}

#[derive(Debug, PartialEq, Eq)]
pub enum PrReviewSub {
    Idle,
    FetchingComments,
    SelectingFixes { verdicts: Vec<FixVerdict> },
    ApplyingFixes,
    ApplyingChange,
    AwaitingAnswer(Intervention),
}

/// Where a card stands. Two states wrap another one: a fault, and a question
/// being answered.
#[derive(Debug, PartialEq, Eq)]
pub enum CardState {
    StartingBlock,
    Designing(DesignSub),
    Investigating(RunSub),
    Concluded { conclusion: String },
    Implementing(RunSub),
    AwaitingReview(ReviewSub),
    PrReview(PrReviewSub),
    ReadyToMerge,
    MergedWithoutReview { merged: bool },
    Done,
    Failed { message: String, previous: Box<CardState> },
    Answering { question: String, previous: Box<CardState> },
}

/// The state underneath any fault and any question.
pub open spec fn beneath(s: CardState) -> CardState
    decreases s,
{
    match s {
        CardState::Failed { message: _, previous } => beneath(*previous),
        CardState::Answering { question: _, previous } => beneath(*previous),
        s => s,
    }
}

/// The question a run is parked on. A fault or a question run has none of its
/// own.
pub open spec fn asked(s: CardState) -> Option<Intervention> {
    match s {
        CardState::Designing(DesignSub::Intervention(iv)) => Some(iv),
        CardState::Investigating(RunSub::Intervention(iv)) => Some(iv),
        CardState::Implementing(RunSub::Intervention(iv)) => Some(iv),
        CardState::PrReview(PrReviewSub::AwaitingAnswer(iv)) => Some(iv),
        _ => None,
    }
}

impl CardState {
    /// The state seen through a fault or a question.
    pub fn effective(&self) -> (r: &CardState)
        ensures
            *r == beneath(*self),
            !(r is Failed),
            !(r is Answering),
        decreases self,
    {
        match self {
            CardState::Failed { message: _, previous } => previous.effective(),
            CardState::Answering { question: _, previous } => previous.effective(),
            _ => self,
        }
    }

    pub fn intervention(&self) -> (r: Option<&Intervention>)
        ensures
            match r {
                Some(iv) => asked(*self) == Some(*iv),
                None => asked(*self) is None,
            },
    {
        match self {
            CardState::Designing(DesignSub::Intervention(iv)) => Some(iv),
            CardState::Investigating(RunSub::Intervention(iv)) => Some(iv),
            CardState::Implementing(RunSub::Intervention(iv)) => Some(iv),
            CardState::PrReview(PrReviewSub::AwaitingAnswer(iv)) => Some(iv),
            _ => None,
        }
    }

    pub fn is_failed(&self) -> (r: bool)
        ensures
            r == (self is Failed),
    {
        matches!(self, CardState::Failed { .. })
    }
}

/// A card's state is always found beneath its wrappers, and looking twice finds
/// the same.
pub proof fn beneath_is_bare(s: CardState)
    ensures
        !(beneath(s) is Failed),
        !(beneath(s) is Answering),
        beneath(beneath(s)) == beneath(s),
    decreases s,
{
    match s {
        CardState::Failed { message: _, previous } => beneath_is_bare(*previous),
        CardState::Answering { question: _, previous } => beneath_is_bare(*previous),
        _ => {},
    }
}

/// A fault or a question hides nothing of the state it is laid over, and a state under
/// neither is its own.
pub proof fn wrappers_hide_nothing(s: CardState, text: String)
    ensures
        beneath(CardState::Failed { message: text, previous: Box::new(s) }) == beneath(s),
        beneath(CardState::Answering { question: text, previous: Box::new(s) }) == beneath(s),
        !(s is Failed) && !(s is Answering) ==> beneath(s) == s,
{
}

/// A run is parked on a question in exactly four places, each with its own question.
pub proof fn questions_have_their_place(s: CardState, iv: Intervention)
    ensures
        asked(s) == Some(iv) <==> {
            ||| s == CardState::Designing(DesignSub::Intervention(iv))
            ||| s == CardState::Investigating(RunSub::Intervention(iv))
            ||| s == CardState::Implementing(RunSub::Intervention(iv))
            ||| s == CardState::PrReview(PrReviewSub::AwaitingAnswer(iv))
        },
{
}

/// A pull request a card opened.
#[derive(Debug, PartialEq, Eq)]
pub struct PrInfo {
    pub number: u64,
    pub url: String,
    pub title: String,
    pub state: String,
    pub reviewer: Option<String>,
    pub reviewer_recorded: bool,
}

#[derive(Debug, Clone, Copy, PartialEq, Eq, Structural)]
pub enum CheckStatus {
    /// No check reported.
    Unreported,
    Pending,
    Passing,
    Failing,
}

/// A board lane.
#[derive(Debug, Clone, Copy, PartialEq, Eq, Structural)]
pub enum Column {
    StartingBlock,
    Designing,
    Investigating,
    Implementing,
    SelfReview,
    PrReview,
    ReadyToMerge,
    Done,
}

/// A review someone submitted on a card's pull request.
#[derive(Debug, PartialEq, Eq)]
pub struct SubmittedReview {
    pub author: String,
    pub state: String,
    pub body: String,
}

/// What the executor reports of a card beside its state.
#[derive(Debug, PartialEq, Eq)]
pub struct CardFacts {
    pub column: Column,
    /// A run is in flight.
    pub running: bool,
    pub needs_attention: bool,
    /// Failed, or blocked on a question.
    pub needs_urgent_attention: bool,
    pub status_label: String,
    /// Who approved the pull request.
    pub approved_by: Vec<String>,
    /// Who left review summaries that await reading.
    pub pending_bodies: Vec<String>,
    /// There is a comment or a summary a triage pass could read.
    pub triageable: bool,
    /// The CI state is worth showing.
    pub checks_reportable: bool,
    /// How many questions the plan up for approval still asks.
    pub plan_questions: u64,
    /// The card's worktree is still on disk.
    pub worktree_present: bool,
    /// What the card cost so far, unless that is nothing.
    pub cost: Option<String>,
}

#[derive(Debug, PartialEq, Eq)]
pub struct Card {
    pub id: Id,
    pub project_id: Id,
    pub title: String,
    pub description: String,
    pub config: CardConfig,
    pub state: CardState,
    pub branch: Option<String>,
    pub worktree_path: Option<String>,
    pub pr: Option<PrInfo>,
    pub checks: CheckStatus,
    /// The pull request conflicts with its base.
    pub conflicting: bool,
    pub unanswered_count: u32,
    pub reviews: Vec<SubmittedReview>,
    pub blocked: bool,
    pub blocked_note: Option<String>,
    pub created_at: i64,
    pub updated_at: i64,
    pub facts: CardFacts,
}

/// An implement run's note to whoever reads its changes.
#[derive(Debug, Clone, PartialEq, Eq)]
pub struct Handoff {
    pub summary: String,
    pub questions: Vec<String>,
    pub tests: Vec<String>,
}

/// Nothing was left to say.
pub open spec fn empty_handoff(h: Handoff) -> bool {
    h.summary@.len() == 0 && h.questions@.len() == 0 && h.tests@.len() == 0
}

impl Handoff {
    pub fn is_empty(&self) -> (r: bool)
        ensures
            r == empty_handoff(*self),
    {
        self.summary.as_str().is_empty() && self.questions.len() == 0 && self.tests.len() == 0
    }
}

/// The verdict a review is submitted with.
#[derive(Debug, Clone, Copy, PartialEq, Eq, Structural)]
pub enum ReviewEvent {
    Comment,
    RequestChanges,
    Approve,
}

/// A comment the review agent drafted.
#[derive(Debug, PartialEq, Eq)]
pub struct DraftComment {
    pub path: String,
    pub line: Option<u32>,
    pub body: String,
    pub severity: String,
    pub selected: bool,
}

impl Clone for DraftComment {
    fn clone(&self) -> (r: DraftComment)
        ensures
            r == *self,
    {
        DraftComment {
            path: self.path.clone(),
            line: self.line,
            body: self.body.clone(),
            severity: self.severity.clone(),
            selected: self.selected,
        }
    }
}

#[derive(Debug, PartialEq, Eq)]
pub enum ReviewStatus {
    ToReview,
    Reviewing,
    AwaitingValidation { drafts: Vec<DraftComment>, summary: String, event: ReviewEvent },
    Reviewed,
    Fixing,
    FixReady,
    MergedWithoutReview { merged: bool },
    Failed { message: String, previous: Box<ReviewStatus> },
}

#[derive(Debug, Clone, Copy, PartialEq, Eq, Structural)]
pub enum ReviewColumn {
    ToReview,
    Reviewing,
    AwaitingValidation,
    Reviewed,
}

/// What the executor reports of a review beside its status.
#[derive(Debug, Clone, PartialEq, Eq)]
pub struct ReviewFacts {
    pub column: ReviewColumn,
    pub running: bool,
    pub needs_attention: bool,
    pub status_label: String,
    pub checks_reportable: bool,
    pub cost: Option<String>,
}

/// Someone else's pull request on the review board.
#[derive(Debug, Clone, PartialEq, Eq)]
pub struct ReviewTask {
    pub id: Id,
    pub project_id: Id,
    pub pr_number: u64,
    pub pr_title: String,
    pub author: String,
    pub url: String,
    pub head_ref: String,
    pub base_ref: String,
    pub body: String,
    pub guidance: String,
    pub status: ReviewStatus,
    pub checks: CheckStatus,
    pub conflicting: bool,
    pub worktree_path: Option<String>,
    pub facts: ReviewFacts,
}

/// A port the app listens on, before the worktree's own offset.
#[derive(Debug, PartialEq, Eq)]
pub struct PreviewPort {
    pub label: String,
    pub base: u16,
}

impl Clone for PreviewPort {
    fn clone(&self) -> (r: PreviewPort)
        ensures
            r == *self,
    {
        PreviewPort { label: self.label.clone(), base: self.base }
    }
}

#[derive(Debug, PartialEq, Eq)]
pub struct ProjectConfig {
    pub base_branch: String,
    pub pinned_base_branch: Option<String>,
    pub reviewer: Option<String>,
    pub review_contributors: Vec<String>,
    pub run_script: Option<String>,
    pub validate_script: Option<String>,
    pub worktree_setup_script: Option<String>,
    pub worktree_teardown_script: Option<String>,
    pub preview_ports: Vec<PreviewPort>,
    pub auto_preview: bool,
    pub notifications_muted: bool,
    /// What a new card of the project starts with.
    pub new_card: CardConfig,
}

#[derive(Debug, PartialEq, Eq)]
pub struct Project {
    pub id: Id,
    pub name: String,
    pub path: String,
    pub config: ProjectConfig,
}

#[derive(Debug, PartialEq, Eq)]
pub struct AppSettings {
    pub default_provider: Provider,
    pub default_plan: ModelSpec,
    pub default_implement: ModelSpec,
    pub default_review: Option<ModelSpec>,
    pub terminal_command: Option<String>,
    pub editor_command: Option<String>,
    pub max_concurrent_runs: u32,
    pub collapsed_columns: Vec<Column>,
    pub sidebar_width: u32,
    pub detail_width: u32,
}

#[derive(Debug, Clone, Copy, PartialEq, Eq, Structural)]
pub enum Severity {
    Info,
    Success,
    Warning,
    Error,
}

#[derive(Debug, Clone, Copy, PartialEq, Eq, Structural)]
pub enum PreviewStatus {
    Stopped,
    SettingUp,
    Running,
    Failed,
}

#[derive(Debug, Clone, PartialEq, Eq)]
pub struct PreviewUrl {
    pub label: String,
    pub url: String,
}

#[derive(Debug, Clone, Copy, PartialEq, Eq, Structural)]
pub enum DirtyAction {
    Include,
    Ignore,
}

/// An open pull request that a card can take over.
#[derive(Debug, Clone, PartialEq, Eq)]
pub struct OpenPr {
    pub number: u64,
    pub title: String,
    pub body: String,
    pub head_ref: String,
    pub author: String,
    pub draft: bool,
    pub mine: bool,
}

/// What the executor found out about one candidate branch.
#[derive(Debug, Clone, PartialEq, Eq)]
pub struct AdoptProbe {
    pub source_ref: String,
    pub commits_ahead: u64,
    pub subjects: Vec<String>,
    pub refusal: Option<String>,
    pub dirty_checkout: Option<String>,
    /// The number of the pull request open on the branch.
    pub open_pr: Option<u64>,
}

#[derive(Debug, Clone, Copy, PartialEq, Eq, Structural)]
pub enum FileStatus {
    Added,
    Deleted,
    Modified,
    Renamed,
    Copied,
}

#[derive(Debug, Clone, Copy, PartialEq, Eq, Structural)]
pub enum DiffLineKind {
    Added,
    Removed,
    Context,
}

#[derive(Debug, Clone, PartialEq, Eq)]
pub struct DiffToken {
    pub text: String,
    pub color: Option<String>,
}

#[derive(Debug, Clone, PartialEq, Eq)]
pub struct DiffLine {
    pub kind: DiffLineKind,
    pub old_no: Option<u32>,
    pub new_no: Option<u32>,
    pub tokens: Vec<DiffToken>,
}

#[derive(Debug, Clone, PartialEq, Eq)]
pub struct DiffHunk {
    pub header: String,
    pub lines: Vec<DiffLine>,
}

#[derive(Debug, Clone, PartialEq, Eq)]
pub struct DiffFile {
    pub old_path: Option<String>,
    pub new_path: Option<String>,
    pub status: FileStatus,
    pub added: u32,
    pub removed: u32,
    pub binary: bool,
    pub highlighted: bool,
    pub hunks: Vec<DiffHunk>,
}

#[derive(Debug, Clone, PartialEq, Eq)]
pub enum DiffState {
    Computing,
    Empty,
    Failed(String),
    Ready(Vec<DiffFile>),
}

/// One rate-limit window. The share used is kept as its whole percentage and
/// whether it is more than nothing at all.
#[derive(Debug, Clone, PartialEq, Eq)]
pub struct RateLimitWindow {
    pub whole_percent: u32,
    pub started: bool,
    pub resets_text: Option<String>,
    pub resets_at: Option<i64>,
}

/// One provider's account-level usage.
#[derive(Debug, Clone, PartialEq, Eq)]
pub struct ProviderUsage {
    pub session: Option<RateLimitWindow>,
    pub weekly: Option<RateLimitWindow>,
    /// A model family with a weekly cap of its own, by name.
    pub weekly_model: Option<(String, RateLimitWindow)>,
}

#[derive(Debug, Clone, PartialEq, Eq)]
pub struct UsageSnapshot {
    pub claude: Option<ProviderUsage>,
    pub codex: Option<ProviderUsage>,
    pub refreshed_at: Option<i64>,
}

} // verus!
