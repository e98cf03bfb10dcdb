//! What the board asks of the executor, and what it hears back.

use vstd::prelude::*;

use crate::model::{
    AdoptProbe, AppSettings, Card, CardConfig, DiffState, DirtyAction, DraftComment, FixVerdict,
    Handoff, Id, PreviewStatus, PreviewUrl, Project, ReviewEvent, ReviewTask, Severity,
    UsageSnapshot,
};

verus! {

/// What opens a worktree.
#[derive(Debug, Clone, Copy, PartialEq, Eq, Structural)]
pub enum OpenTarget {
    Editor,
    Terminal,
}

/// A request to the executor.
#[allow(inconsistent_fields)]
#[derive(Debug, Clone, PartialEq, Eq)]
pub enum ExecutorCommand {
    // A card's way through the pipeline.
    Start { card_id: Id },
    ApprovePlan { card_id: Id },
    RejectPlan { card_id: Id, feedback: String },
    Answer { card_id: Id, text: String },
    AskQuestion { card_id: Id, question: String },
    FollowUpInvestigation { card_id: Id, feedback: String },
    ConvertToImplementation { card_id: Id },
    SelfReview { card_id: Id },
    SkipReview { card_id: Id },
    SkipToPr { card_id: Id },
    ApplySelfFixes {
        card_id: Id,
        verdicts: Vec<FixVerdict>,
        note: String,
        prompt: Option<String>,
    },
    ReviseImplementation { card_id: Id, feedback: String },
    RunValidation { card_id: Id },
    FixValidation { card_id: Id },
    SkipValidation { card_id: Id },
    CreatePr {
        card_id: Id,
        branch: String,
        title: String,
        body: String,
        reviewer: Option<String>,
        draft: bool,
    },
    MarkPrReady { card_id: Id },
    FetchComments { card_id: Id },
    MarkReviewBodiesRead { card_id: Id },
    RefreshReviews { card_id: Id },
    ApplyFixes {
        card_id: Id,
        verdicts: Vec<FixVerdict>,
        note: String,
        prompt: Option<String>,
    },
    RequestPostPrChange { card_id: Id, feedback: String },
    ResolveConflicts { card_id: Id },
    FixChecks { card_id: Id },
    Merge { card_id: Id, delete_branch: bool, force: bool },
    MarkDone { card_id: Id },
    BackToStart { card_id: Id },
    Cancel { card_id: Id },
    Retry { card_id: Id },
    BumpQueued { id: Id },
    SetBlocked { card_id: Id, blocked: bool, note: Option<String> },
    SetSkipPlan { card_id: Id, skip: bool },
    SetAutoReview { card_id: Id, auto: bool },
    // Its surroundings.
    ComputeDiff { card_id: Id },
    StartPreview { card_id: Id },
    StopPreview { card_id: Id },
    OpenWorktree { card_id: Id, target: OpenTarget },
    OpenPath { card_id: Id, path: String },
    AttachImage { card_id: Id, src: String },
    AttachImageBytes { card_id: Id, data: Vec<u8> },
    DetachImage { card_id: Id, path: String },
    // Reviewing other people's pull requests.
    ScanReviews { project_id: Id },
    StartReview { review_id: Id, guidance: String },
    PublishReview {
        review_id: Id,
        drafts: Vec<DraftComment>,
        event: ReviewEvent,
        body: String,
    },
    DismissReview { review_id: Id },
    ReviseReviewFix { review_id: Id, note: String },
    PushReviewFix { review_id: Id },
    DiscardReviewFix { review_id: Id },
    ComputeReviewDiff { review_id: Id },
    StartReviewPreview { review_id: Id },
    StopReviewPreview { review_id: Id },
    OpenReviewWorktree { review_id: Id, target: OpenTarget },
    // Records.
    CreateCard {
        card_id: Id,
        project_id: Id,
        title: String,
        description: String,
        config: CardConfig,
    },
    SaveCard { card: Box<Card> },
    DeleteCard { card_id: Id },
    AddProject { project_id: Id, name: String, path: String },
    SaveProject { project: Box<Project> },
    DeleteProject { project_id: Id },
    SaveSettings { settings: Box<AppSettings> },
    ListReviewers { project_id: Id },
    ListAdoptSources { project_id: Id },
    ProbeAdoptSource { project_id: Id, source_ref: String },
    AdoptBranch {
        project_id: Id,
        source_ref: String,
        title: String,
        description: String,
        retire_original: bool,
        dirty_action: DirtyAction,
    },
    AdoptPr { project_id: Id, pr_number: u64, title: String, description: String },
    RefreshUsage,
}

/// What happened to a card, a review or a project.
#[derive(Debug, Clone, PartialEq, Eq)]
pub enum ExecutorEventKind {
    CardUpdated(Box<Card>),
    CardRemoved,
    ProjectUpserted(Box<Project>),
    ProjectRemoved { project_id: Id },
    SettingsUpdated(Box<AppSettings>),
    SkipPlanChanged { skip: bool },
    AutoReviewChanged { auto: bool },
    CardBusy { busy: bool },
    AttachmentsChanged { paths: Vec<String> },
    Transcript { ts: i64, line: String },
    Reviewers { project_id: Id, logins: Vec<String> },
    AdoptSources { project_id: Id, refs: Vec<String> },
    AdoptProbe { project_id: Id, probe: AdoptProbe },
    ReviewTasksUpdated { project_id: Id, tasks: Vec<ReviewTask> },
    ReviewTaskUpdated(Box<ReviewTask>),
    RecapUpdated { recap: String },
    AnswerUpdated { question: String, answer: String },
    HandoffUpdated { handoff: Handoff },
    PreviewUpdated { status: PreviewStatus, urls: Vec<PreviewUrl> },
    DiffUpdated { state: DiffState },
    MergeConflict { pr_number: u64, base: String },
    ChecksFailed { pr_number: u64, failed: Vec<String> },
    UsageUpdated(UsageSnapshot),
    Toast { severity: Severity, message: String },
}

/// An event, with the card (or review) it is about.
#[derive(Debug, Clone, PartialEq, Eq)]
pub struct ExecutorEvent {
    pub card_id: Id,
    pub kind: ExecutorEventKind,
}

/// The card a command is about, of the commands about one.
pub open spec fn card_of(cmd: ExecutorCommand) -> Option<Id> {
    match cmd {
        ExecutorCommand::Start { card_id } => Some(card_id),
        ExecutorCommand::ApprovePlan { card_id } => Some(card_id),
        ExecutorCommand::RejectPlan { card_id, .. } => Some(card_id),
        ExecutorCommand::Answer { card_id, .. } => Some(card_id),
        ExecutorCommand::AskQuestion { card_id, .. } => Some(card_id),
        ExecutorCommand::FollowUpInvestigation { card_id, .. } => Some(card_id),
        ExecutorCommand::ConvertToImplementation { card_id } => Some(card_id),
        ExecutorCommand::SelfReview { card_id } => Some(card_id),
        ExecutorCommand::SkipReview { card_id } => Some(card_id),
        ExecutorCommand::SkipToPr { card_id } => Some(card_id),
        ExecutorCommand::ApplySelfFixes { card_id, .. } => Some(card_id),
        ExecutorCommand::ReviseImplementation { card_id, .. } => Some(card_id),
        ExecutorCommand::RunValidation { card_id } => Some(card_id),
        ExecutorCommand::FixValidation { card_id } => Some(card_id),
        ExecutorCommand::SkipValidation { card_id } => Some(card_id),
        ExecutorCommand::CreatePr { card_id, .. } => Some(card_id),
        ExecutorCommand::MarkPrReady { card_id } => Some(card_id),
        ExecutorCommand::FetchComments { card_id } => Some(card_id),
        ExecutorCommand::MarkReviewBodiesRead { card_id } => Some(card_id),
        ExecutorCommand::RefreshReviews { card_id } => Some(card_id),
        ExecutorCommand::ApplyFixes { card_id, .. } => Some(card_id),
        ExecutorCommand::RequestPostPrChange { card_id, .. } => Some(card_id),
        ExecutorCommand::ResolveConflicts { card_id } => Some(card_id),
        ExecutorCommand::FixChecks { card_id } => Some(card_id),
        ExecutorCommand::Merge { card_id, .. } => Some(card_id),
        ExecutorCommand::MarkDone { card_id } => Some(card_id),
        ExecutorCommand::BackToStart { card_id } => Some(card_id),
        ExecutorCommand::Cancel { card_id } => Some(card_id),
        ExecutorCommand::Retry { card_id } => Some(card_id),
        ExecutorCommand::BumpQueued { id } => Some(id),
        ExecutorCommand::SetBlocked { card_id, .. } => Some(card_id),
        ExecutorCommand::SetSkipPlan { card_id, .. } => Some(card_id),
        ExecutorCommand::SetAutoReview { card_id, .. } => Some(card_id),
        ExecutorCommand::ComputeDiff { card_id } => Some(card_id),
        ExecutorCommand::StartPreview { card_id } => Some(card_id),
        ExecutorCommand::StopPreview { card_id } => Some(card_id),
        ExecutorCommand::OpenWorktree { card_id, .. } => Some(card_id),
        ExecutorCommand::OpenPath { card_id, .. } => Some(card_id),
        ExecutorCommand::AttachImage { card_id, .. } => Some(card_id),
        ExecutorCommand::AttachImageBytes { card_id, .. } => Some(card_id),
        ExecutorCommand::DetachImage { card_id, .. } => Some(card_id),
        ExecutorCommand::DeleteCard { card_id } => Some(card_id),
        _ => None,
    }
}

/// The review a command is about, of the commands about one.
pub open spec fn review_of(cmd: ExecutorCommand) -> Option<Id> {
    match cmd {
        ExecutorCommand::StartReview { review_id, .. } => Some(review_id),
        ExecutorCommand::PublishReview { review_id, .. } => Some(review_id),
        ExecutorCommand::DismissReview { review_id } => Some(review_id),
        ExecutorCommand::ReviseReviewFix { review_id, .. } => Some(review_id),
        ExecutorCommand::PushReviewFix { review_id } => Some(review_id),
        ExecutorCommand::DiscardReviewFix { review_id } => Some(review_id),
        ExecutorCommand::ComputeReviewDiff { review_id } => Some(review_id),
        ExecutorCommand::StartReviewPreview { review_id } => Some(review_id),
        ExecutorCommand::StopReviewPreview { review_id } => Some(review_id),
        ExecutorCommand::OpenReviewWorktree { review_id, .. } => Some(review_id),
        _ => None,
    }
}

/// The commands that throw work away or publish something for good: none of them is
/// sent without a dialog.
pub open spec fn irrevocable(cmd: ExecutorCommand) -> bool {
    ||| cmd is Merge
    ||| cmd is BackToStart
    ||| cmd is Cancel
    ||| cmd is DeleteCard
    ||| cmd is DeleteProject
    ||| cmd is PublishReview
    ||| cmd is DismissReview
    ||| cmd is PushReviewFix
    ||| cmd is DiscardReviewFix
}

} // verus!
