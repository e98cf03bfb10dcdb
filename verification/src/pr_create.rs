//! From finished work to a pull request: the self-review gate, validation, and
//! the form that opens the pull request.

use vstd::prelude::*;

use crate::command::{card_of, ExecutorCommand};
use crate::confirm::{leads_to, Gesture, GestureView};
use crate::lists::joined_contains;
use crate::model::{Card, CardState, Handoff, Id, Project, ReviewSub};
use crate::state::AppState;
use crate::text::{
    blank, blank_is_empty_trim, cat2, cat3, decimal, decimal_text, ends, is_blank, parts_are_found,
    same_text, starts, trim, trimmed, within,
};

verus! {

broadcast use vstd::std_specs::hash::group_hash_axioms;

// ---- The sections --------------------------------------------------------

/// A section of the panel before the pull request.
#[derive(Debug, Clone, Copy, PartialEq, Eq, Structural)]
pub enum PrCreateSection {
    Handoff,
    Branch,
    /// The self-review did not run.
    ReviewGate,
    Reviewing,
    Validating,
    FixingValidation,
    ValidationFailed,
    Form,
    /// Send the work back before anything else.
    Chat,
}

pub open spec fn part_when(c: bool, s: PrCreateSection) -> Seq<PrCreateSection> {
    if c {
        seq![s]
    } else {
        Seq::empty()
    }
}

pub open spec fn review_sub(s: CardState) -> Option<ReviewSub> {
    match s {
        CardState::AwaitingReview(sub) => Some(sub),
        _ => None,
    }
}

/// The work can be sent back: the card that never ran its review, the choice of
/// findings, the validation that failed, and the form.
pub open spec fn revisable(sub: Option<ReviewSub>) -> bool {
    sub matches Some(s) && (s is ReadyForReview || s is SelectingFixes || s is ValidationFailed
        || s is ReadyForPr)
}

/// The sections, in order. They go by the state as it is: under a fault or a
/// question only the branch and the note are left.
pub open spec fn parts(card: Card, handoff: bool) -> Seq<PrCreateSection> {
    let sub = review_sub(card.state);
    part_when(handoff, PrCreateSection::Handoff) + part_when(
        card.branch matches Some(b) && b@.len() > 0,
        PrCreateSection::Branch,
    ) + part_when(
        sub matches Some(s) && s is ReadyForReview,
        PrCreateSection::ReviewGate,
    ) + part_when(
        sub matches Some(s) && (s is Reviewing || s is ApplyingFixes),
        PrCreateSection::Reviewing,
    ) + part_when(
        sub matches Some(s) && s is Validating,
        PrCreateSection::Validating,
    ) + part_when(
        sub matches Some(s) && s is FixingValidation,
        PrCreateSection::FixingValidation,
    ) + part_when(
        sub matches Some(s) && s is ValidationFailed,
        PrCreateSection::ValidationFailed,
    ) + part_when(sub matches Some(s) && s is ReadyForPr, PrCreateSection::Form) + part_when(
        revisable(sub),
        PrCreateSection::Chat,
    )
}

fn push_part(v: &mut Vec<PrCreateSection>, c: bool, s: PrCreateSection)
    ensures
        final(v)@ == old(v)@ + part_when(c, s),
{
    if c {
        v.push(s);
        assert(v@ =~= old(v)@ + part_when(c, s));
    } else {
        assert(v@ =~= old(v)@ + part_when(c, s));
    }
}

pub fn pr_create_sections(card: &Card, handoff: Option<&Handoff>) -> (r: Vec<PrCreateSection>)
    ensures
        r@ == parts(*card, handoff is Some),
{
    let st = &card.state;
    let gate = matches!(st, CardState::AwaitingReview(ReviewSub::ReadyForReview));
    let selecting = matches!(st, CardState::AwaitingReview(ReviewSub::SelectingFixes { .. }));
    let failed = matches!(st, CardState::AwaitingReview(ReviewSub::ValidationFailed { .. }));
    let form = matches!(st, CardState::AwaitingReview(ReviewSub::ReadyForPr));
    let has_branch = match &card.branch {
        Some(b) => !b.as_str().is_empty(),
        None => false,
    };
    let mut v: Vec<PrCreateSection> = Vec::new();
    if handoff.is_some() {
        v.push(PrCreateSection::Handoff);
    }
    assert(v@ =~= part_when(handoff is Some, PrCreateSection::Handoff));
    push_part(&mut v, has_branch, PrCreateSection::Branch);
    push_part(&mut v, gate, PrCreateSection::ReviewGate);
    push_part(
        &mut v,
        matches!(
            st,
            CardState::AwaitingReview(ReviewSub::Reviewing)
            | CardState::AwaitingReview(ReviewSub::ApplyingFixes)
        ),
        PrCreateSection::Reviewing,
    );
    push_part(
        &mut v,
        matches!(st, CardState::AwaitingReview(ReviewSub::Validating { .. })),
        PrCreateSection::Validating,
    );
    push_part(
        &mut v,
        matches!(st, CardState::AwaitingReview(ReviewSub::FixingValidation { .. })),
        PrCreateSection::FixingValidation,
    );
    push_part(&mut v, failed, PrCreateSection::ValidationFailed);
    push_part(&mut v, form, PrCreateSection::Form);
    push_part(&mut v, gate || selecting || failed || form, PrCreateSection::Chat);
    v
}

/// What sending the work back does, for the button's tooltip.
pub fn send_back_title(card: &Card) -> (r: &'static str)
    ensures
        r@ == (if review_sub(card.state) matches Some(s) && s is ReadyForPr {
            "The agent picks the work back up in the card's worktree, before anything is pushed to GitHub"@
        } else {
            "The agent picks the work back up in the card's worktree and re-runs the self-review afterwards"@
        }),
{
    match &card.state {
        CardState::AwaitingReview(ReviewSub::ReadyForPr) =>
            "The agent picks the work back up in the card's worktree, before anything is pushed to GitHub",
        _ =>
            "The agent picks the work back up in the card's worktree and re-runs the self-review afterwards",
    }
}

// ---- Buttons -------------------------------------------------------------

#[derive(Debug, Clone, Copy, PartialEq, Eq, Structural)]
pub enum PrCreateButton {
    SelfReview,
    SkipReview,
    CancelReview,
    StopValidation,
    CancelFix,
    ValidateAgain,
    FixAgain,
    CreateAnyway,
}

/// What pressing a button of the panel sends.
pub open spec fn create_pressed(b: PrCreateButton, id: Id) -> ExecutorCommand {
    match b {
        PrCreateButton::SelfReview => ExecutorCommand::SelfReview { card_id: id },
        PrCreateButton::SkipReview => ExecutorCommand::SkipReview { card_id: id },
        PrCreateButton::CancelReview => ExecutorCommand::Cancel { card_id: id },
        PrCreateButton::StopValidation => ExecutorCommand::Cancel { card_id: id },
        PrCreateButton::CancelFix => ExecutorCommand::Cancel { card_id: id },
        PrCreateButton::ValidateAgain => ExecutorCommand::RunValidation { card_id: id },
        PrCreateButton::FixAgain => ExecutorCommand::FixValidation { card_id: id },
        PrCreateButton::CreateAnyway => ExecutorCommand::SkipValidation { card_id: id },
    }
}

pub fn press_pr_create(b: PrCreateButton, id: Id) -> (r: ExecutorCommand)
    ensures
        r == create_pressed(b, id),
{
    match b {
        PrCreateButton::SelfReview => ExecutorCommand::SelfReview { card_id: id },
        PrCreateButton::SkipReview => ExecutorCommand::SkipReview { card_id: id },
        PrCreateButton::CancelReview => ExecutorCommand::Cancel { card_id: id },
        PrCreateButton::StopValidation => ExecutorCommand::Cancel { card_id: id },
        PrCreateButton::CancelFix => ExecutorCommand::Cancel { card_id: id },
        PrCreateButton::ValidateAgain => ExecutorCommand::RunValidation { card_id: id },
        PrCreateButton::FixAgain => ExecutorCommand::FixValidation { card_id: id },
        PrCreateButton::CreateAnyway => ExecutorCommand::SkipValidation { card_id: id },
    }
}

/// The buttons a section of the panel ends with.
pub open spec fn buttons_in(s: PrCreateSection) -> Seq<PrCreateButton> {
    match s {
        PrCreateSection::ReviewGate => seq![PrCreateButton::SelfReview, PrCreateButton::SkipReview],
        PrCreateSection::Reviewing => seq![PrCreateButton::CancelReview],
        PrCreateSection::Validating => seq![PrCreateButton::StopValidation],
        PrCreateSection::FixingValidation => seq![PrCreateButton::CancelFix],
        PrCreateSection::ValidationFailed => seq![
            PrCreateButton::ValidateAgain,
            PrCreateButton::FixAgain,
            PrCreateButton::CreateAnyway,
        ],
        _ => Seq::empty(),
    }
}

pub fn pr_create_buttons(s: PrCreateSection) -> (r: Vec<PrCreateButton>)
    ensures
        r@ == buttons_in(s),
{
    let v: Vec<PrCreateButton> = match s {
        PrCreateSection::ReviewGate => vec![PrCreateButton::SelfReview, PrCreateButton::SkipReview],
        PrCreateSection::Reviewing => vec![PrCreateButton::CancelReview],
        PrCreateSection::Validating => vec![PrCreateButton::StopValidation],
        PrCreateSection::FixingValidation => vec![PrCreateButton::CancelFix],
        PrCreateSection::ValidationFailed => vec![
            PrCreateButton::ValidateAgain,
            PrCreateButton::FixAgain,
            PrCreateButton::CreateAnyway,
        ],
        _ => Vec::new(),
    };
    assert(v@ =~= buttons_in(s));
    v
}

pub fn pr_create_label(b: PrCreateButton) -> (r: &'static str)
    ensures
        r@ == (match b {
            PrCreateButton::SelfReview => "Self-review"@,
            PrCreateButton::SkipReview => "Skip review"@,
            PrCreateButton::CancelReview => "Cancel"@,
            PrCreateButton::StopValidation => "Stop validation"@,
            PrCreateButton::CancelFix => "Cancel fix"@,
            PrCreateButton::ValidateAgain => "Run validation again"@,
            PrCreateButton::FixAgain => "Send to agent again"@,
            PrCreateButton::CreateAnyway => "Create PR anyway"@,
        }),
{
    match b {
        PrCreateButton::SelfReview => "Self-review",
        PrCreateButton::SkipReview => "Skip review",
        PrCreateButton::CancelReview => "Cancel",
        PrCreateButton::StopValidation => "Stop validation",
        PrCreateButton::CancelFix => "Cancel fix",
        PrCreateButton::ValidateAgain => "Run validation again",
        PrCreateButton::FixAgain => "Send to agent again",
        PrCreateButton::CreateAnyway => "Create PR anyway",
    }
}

/// What a button says of itself under the pointer.
pub fn pr_create_title(b: PrCreateButton) -> (r: &'static str)
    ensures
        r@ == (match b {
            PrCreateButton::SelfReview =>
                "Runs the review pass over the committed diff, guided by the project's review.md (or a default prompt)"@,
            PrCreateButton::SkipReview =>
                "Goes straight to the create-PR form with no review pass"@,
            PrCreateButton::StopValidation =>
                "Stops the validate command; the card returns to the create-PR gate"@,
            _ => ""@,
        }),
{
    match b {
        PrCreateButton::SelfReview =>
            "Runs the review pass over the committed diff, guided by the project's review.md (or a default prompt)",
        PrCreateButton::SkipReview => "Goes straight to the create-PR form with no review pass",
        PrCreateButton::StopValidation =>
            "Stops the validate command; the card returns to the create-PR gate",
        _ => "",
    }
}

pub fn pr_create_class(b: PrCreateButton) -> (r: &'static str)
    ensures
        r@ == (match b {
            PrCreateButton::SelfReview => "btn primary"@,
            PrCreateButton::ValidateAgain => "btn primary"@,
            _ => "btn"@,
        }),
{
    match b {
        PrCreateButton::SelfReview => "btn primary",
        PrCreateButton::ValidateAgain => "btn primary",
        _ => "btn",
    }
}

/// The heading of a section, where it has one of its own.
pub fn pr_create_heading(s: PrCreateSection) -> (r: &'static str)
    ensures
        r@ == (match s {
            PrCreateSection::Branch => "Branch"@,
            PrCreateSection::ReviewGate => "Self-review"@,
            PrCreateSection::Validating => "Validation"@,
            PrCreateSection::FixingValidation => "Validation"@,
            PrCreateSection::ValidationFailed => "Validation failed"@,
            PrCreateSection::Form => "Create pull request"@,
            _ => ""@,
        }),
{
    match s {
        PrCreateSection::Branch => "Branch",
        PrCreateSection::ReviewGate => "Self-review",
        PrCreateSection::Validating => "Validation",
        PrCreateSection::FixingValidation => "Validation",
        PrCreateSection::ValidationFailed => "Validation failed",
        PrCreateSection::Form => "Create pull request",
        _ => "",
    }
}

/// What a section says that does not depend on the validation.
pub fn pr_create_hint(s: PrCreateSection) -> (r: &'static str)
    ensures
        r@ == (match s {
            PrCreateSection::ReviewGate =>
                "The self-review didn't run — it was cancelled or failed to start."@,
            PrCreateSection::Reviewing => "Self-review in progress…"@,
            _ => ""@,
        }),
{
    match s {
        PrCreateSection::ReviewGate =>
            "The self-review didn't run — it was cancelled or failed to start.",
        PrCreateSection::Reviewing => "Self-review in progress…",
        _ => "",
    }
}

// ---- Validation ----------------------------------------------------------

/// An attempt out of the most there are; a later one counts as the last.
pub open spec fn attempt_words(attempt: nat, most: nat) -> Seq<char> {
    decimal(
        if attempt < most {
            attempt
        } else {
            most
        },
    ) + "/"@ + decimal(most)
}

fn attempt_text(attempt: u32, most: u32) -> (r: String)
    ensures
        r@ == attempt_words(attempt as nat, most as nat),
{
    let n = if attempt < most {
        decimal_text(attempt as u64)
    } else {
        decimal_text(most as u64)
    };
    let m = decimal_text(most as u64);
    cat3(n.as_str(), "/", m.as_str())
}

/// What the validation gate says, with the most attempts it makes.
pub open spec fn validation_words(sub: ReviewSub, most: nat) -> Option<Seq<char>> {
    match sub {
        ReviewSub::Validating { attempt } => Some(
            "Running the project's validate command (attempt "@ + attempt_words(
                attempt as nat,
                most,
            ) + ")…"@,
        ),
        ReviewSub::FixingValidation { attempt } => Some(
            "Validation failed — the agent is fixing it (attempt "@ + attempt_words(
                attempt as nat,
                most,
            ) + ")…"@,
        ),
        ReviewSub::ValidationFailed { attempt, .. } => Some(
            "The validate command still fails after "@ + decimal(attempt as nat)
                + " attempt(s). The output ends with:"@,
        ),
        _ => None,
    }
}

pub fn validation_hint(sub: &ReviewSub, most: u32) -> (r: Option<String>)
    ensures
        crate::card::opt_text(r) == validation_words(*sub, most as nat),
{
    match sub {
        ReviewSub::Validating { attempt } => {
            let n = attempt_text(*attempt, most);
            Some(cat3("Running the project's validate command (attempt ", n.as_str(), ")…"))
        },
        ReviewSub::FixingValidation { attempt } => {
            let n = attempt_text(*attempt, most);
            Some(
                cat3("Validation failed — the agent is fixing it (attempt ", n.as_str(), ")…"),
            )
        },
        ReviewSub::ValidationFailed { attempt, .. } => {
            let n = decimal_text(*attempt as u64);
            Some(
                cat3(
                    "The validate command still fails after ",
                    n.as_str(),
                    " attempt(s). The output ends with:",
                ),
            )
        },
        _ => None,
    }
}

/// A run under way offers one thing: to stop it.
pub proof fn a_run_can_be_stopped(s: PrCreateSection, id: Id)
    requires
        s is Reviewing || s is Validating || s is FixingValidation,
    ensures
        buttons_in(s).len() == 1,
        create_pressed(buttons_in(s)[0], id) == (ExecutorCommand::Cancel { card_id: id }),
{
}

/// An attempt is never shown as one past the last.
pub proof fn attempts_stay_in_range(attempt: nat, most: nat)
    ensures
        exists|n: nat| n <= most && attempt_words(attempt, most) == #[trigger] decimal(n) + "/"@
            + decimal(most),
{
    let n = if attempt < most {
        attempt
    } else {
        most
    };
    assert(attempt_words(attempt, most) == decimal(n) + "/"@ + decimal(most));
}

// ---- The form ------------------------------------------------------------

/// What the form says of the branch name as typed, given the name it comes to.
pub open spec fn branch_words(typed: Seq<char>, clean: Seq<char>) -> Seq<char> {
    if clean.len() > 0 && clean != trimmed(typed) {
        "Will be created as "@ + clean
    } else if !blank(typed) && clean.len() == 0 {
        "Not a usable branch name."@
    } else {
        "Choose the branch name the PR opens from."@
    }
}

/// The branch name cannot be used.
pub open spec fn branch_unusable(typed: Seq<char>, clean: Seq<char>) -> bool {
    !blank(typed) && clean.len() == 0
}

/// What the form says of the branch, and whether it is a warning.
pub fn branch_hint(typed: &str, clean: &str) -> (r: (String, bool))
    ensures
        r.0@ == branch_words(typed@, clean@),
        r.1 == branch_unusable(typed@, clean@),
{
    let own = trim(typed);
    let bare = is_blank(typed);
    if !clean.is_empty() {
        if !same_text(clean, own.as_str()) {
            (cat2("Will be created as ", clean), false)
        } else {
            ("Choose the branch name the PR opens from.".to_owned(), false)
        }
    } else if !bare {
        ("Not a usable branch name.".to_owned(), true)
    } else {
        ("Choose the branch name the PR opens from.".to_owned(), false)
    }
}

/// The pull request as filled in.
#[derive(Debug, Clone, PartialEq, Eq)]
pub struct PrForm {
    /// The branch name, cleaned up.
    pub branch: String,
    pub title: String,
    pub body: String,
    pub reviewer: String,
}

/// The command that opens a pull request as filled in; a blank login is
/// none.
pub open spec fn creates(cmd: ExecutorCommand, id: Id, form: PrForm, draft: bool) -> bool {
    cmd matches ExecutorCommand::CreatePr {
        card_id,
        branch,
        title,
        body,
        reviewer,
        draft: d,
    } && card_id == id && branch == form.branch && title == form.title && body == form.body && d
        == draft && crate::card::opt_text(reviewer) == (if blank(form.reviewer@) {
        None
    } else {
        Some(trimmed(form.reviewer@))
    })
}

/// Open the pull request, behind a dialog but for demo mode. Without a branch
/// name the button is disabled: a generated one is never shipped by default.
pub fn create_pr(id: Id, form: PrForm, draft: bool) -> (r: Gesture)
    ensures
        form.branch@.len() == 0 ==> r@ is Nothing,
        form.branch@.len() > 0 ==> (r@ matches GestureView::Guard(title, message, label, cmd)
            && creates(cmd, id, form, draft) && title == (if draft {
            "Create draft pull request"@
        } else {
            "Create pull request"@
        }) && message == (if draft {
            "Rename the branch (if changed), push it, and open a draft pull request on GitHub? You can add screenshots and mark it ready afterwards."@
        } else {
            "Rename the branch (if changed), push it, and open a pull request ready for review on GitHub?"@
        }) && label == (if draft {
            "Create draft PR"@
        } else {
            "Create PR"@
        })),
{
    if form.branch.as_str().is_empty() {
        return Gesture::Nothing;
    }
    let reviewer = if is_blank(form.reviewer.as_str()) {
        None
    } else {
        Some(trim(form.reviewer.as_str()))
    };
    let cmd = ExecutorCommand::CreatePr {
        card_id: id,
        branch: form.branch,
        title: form.title,
        body: form.body,
        reviewer,
        draft,
    };
    if draft {
        Gesture::Guard {
            title: "Create draft pull request",
            message: "Rename the branch (if changed), push it, and open a draft pull request on GitHub? You can add screenshots and mark it ready afterwards.".to_owned(),
            label: "Create draft PR",
            cmd,
        }
    } else {
        Gesture::Guard {
            title: "Create pull request",
            message: "Rename the branch (if changed), push it, and open a pull request ready for review on GitHub?".to_owned(),
            label: "Create PR",
            cmd,
        }
    }
}

impl AppState {
    /// Who could review is looked up on first sight of the form.
    pub fn reviewers_once(&self, project_id: Id) -> (r: Option<ExecutorCommand>)
        ensures
            r == (if self@.reviewers.contains_key(project_id) {
                None
            } else {
                Some(ExecutorCommand::ListReviewers { project_id })
            }),
    {
        if self.reviewers.contains_key(&project_id) {
            None
        } else {
            Some(self.fetch_reviewers(project_id))
        }
    }

    /// The login the form starts with: the project's own.
    pub fn default_reviewer(&self, project_id: Id) -> (r: String)
        ensures
            r@ == (match crate::lists::first_where(
                self@.projects,
                |p: Project| p.id == project_id,
            ) {
                Some(i) => match self@.projects[i].config.reviewer {
                    Some(who) => who@,
                    None => Seq::empty(),
                },
                None => Seq::empty(),
            }),
    {
        match self.find_project(project_id) {
            Some(p) => match &p.config.reviewer {
                Some(who) => who.clone(),
                None => String::new(),
            },
            None => String::new(),
        }
    }
}

// ---- Laws ----------------------------------------------------------------

/// The panel has a chat box wherever the chat says it has one.
pub proof fn chat_where_it_is_said(card: Card)
    requires
        card.state is AwaitingReview,
    ensures
        revisable(review_sub(card.state)) == crate::chat::chats(card.state),
{
}

/// A part of the panel stands exactly where the work is at.
pub proof fn a_part_has_its_place(card: Card, handoff: bool, p: PrCreateSection)
    ensures
        parts(card, handoff).contains(p) <==> ({
            let sub = card.state->AwaitingReview_0;
            let here = card.state is AwaitingReview;
            match p {
                PrCreateSection::Handoff => handoff,
                PrCreateSection::Branch => card.branch is Some && card.branch->0@.len() > 0,
                PrCreateSection::ReviewGate => here && sub is ReadyForReview,
                PrCreateSection::Reviewing => here && (sub is Reviewing || sub is ApplyingFixes),
                PrCreateSection::Validating => here && sub is Validating,
                PrCreateSection::FixingValidation => here && sub is FixingValidation,
                PrCreateSection::ValidationFailed => here && sub is ValidationFailed,
                PrCreateSection::Form => here && sub is ReadyForPr,
                PrCreateSection::Chat => here && (sub is ReadyForReview || sub is SelectingFixes
                    || sub is ValidationFailed || sub is ReadyForPr),
            }
        }),
{
    let sub = review_sub(card.state);
    let named = card.branch matches Some(b) && b@.len() > 0;
    let asks = sub matches Some(s) && s is ReadyForReview;
    let reads = sub matches Some(s) && (s is Reviewing || s is ApplyingFixes);
    let validates = sub matches Some(s) && s is Validating;
    let mends = sub matches Some(s) && s is FixingValidation;
    let failed = sub matches Some(s) && s is ValidationFailed;
    let forms = sub matches Some(s) && s is ReadyForPr;
    let t0 = part_when(handoff, PrCreateSection::Handoff);
    let t1 = t0 + part_when(named, PrCreateSection::Branch);
    let t2 = t1 + part_when(asks, PrCreateSection::ReviewGate);
    let t3 = t2 + part_when(reads, PrCreateSection::Reviewing);
    let t4 = t3 + part_when(validates, PrCreateSection::Validating);
    let t5 = t4 + part_when(mends, PrCreateSection::FixingValidation);
    let t6 = t5 + part_when(failed, PrCreateSection::ValidationFailed);
    let t7 = t6 + part_when(forms, PrCreateSection::Form);
    assert(parts(card, handoff) == t7 + part_when(revisable(sub), PrCreateSection::Chat));
    one_part(t7, revisable(sub), PrCreateSection::Chat, p);
    one_part(t6, forms, PrCreateSection::Form, p);
    one_part(t5, failed, PrCreateSection::ValidationFailed, p);
    one_part(t4, mends, PrCreateSection::FixingValidation, p);
    one_part(t3, validates, PrCreateSection::Validating, p);
    one_part(t2, reads, PrCreateSection::Reviewing, p);
    one_part(t1, asks, PrCreateSection::ReviewGate, p);
    one_part(t0, named, PrCreateSection::Branch, p);
    one_part(Seq::empty(), handoff, PrCreateSection::Handoff, p);
    assert(Seq::empty() + t0 =~= t0);
}

proof fn one_part(t: Seq<PrCreateSection>, c: bool, s: PrCreateSection, x: PrCreateSection)
    ensures
        (t + part_when(c, s)).contains(x) == (t.contains(x) || (c && s == x)),
{
    joined_contains(t, part_when(c, s), x);
    if c {
        assert(part_when(c, s)[0] == s);
    }
}

/// Whatever a button of the panel sends is about its card and fits where the work is
/// at: a run can be stopped while it runs, a failed validation run again, handed to
/// the agent or passed over.
pub proof fn a_create_button_sends_what_fits(
    card: Card,
    handoff: bool,
    p: PrCreateSection,
    b: PrCreateButton,
)
    requires
        parts(card, handoff).contains(p),
        buttons_in(p).contains(b),
    ensures
        card_of(create_pressed(b, card.id)) == Some(card.id),
        card.state is AwaitingReview,
        ({
            let sub = card.state->AwaitingReview_0;
            match create_pressed(b, card.id) {
                ExecutorCommand::SelfReview { .. } => sub is ReadyForReview,
                ExecutorCommand::SkipReview { .. } => sub is ReadyForReview,
                ExecutorCommand::Cancel { .. } => sub is Reviewing || sub is ApplyingFixes
                    || sub is Validating || sub is FixingValidation,
                ExecutorCommand::RunValidation { .. } => sub is ValidationFailed,
                ExecutorCommand::FixValidation { .. } => sub is ValidationFailed,
                ExecutorCommand::SkipValidation { .. } => sub is ValidationFailed,
                _ => false,
            }
        }),
{
    a_part_has_its_place(card, handoff, p);
    a_create_button_has_its_place(p, b);
}

/// A button stands in one part of the panel and no other.
pub proof fn a_create_button_has_its_place(p: PrCreateSection, b: PrCreateButton)
    ensures
        buttons_in(p).contains(b) <==> (match b {
            PrCreateButton::SelfReview => p is ReviewGate,
            PrCreateButton::SkipReview => p is ReviewGate,
            PrCreateButton::CancelReview => p is Reviewing,
            PrCreateButton::StopValidation => p is Validating,
            PrCreateButton::CancelFix => p is FixingValidation,
            PrCreateButton::ValidateAgain => p is ValidationFailed,
            PrCreateButton::FixAgain => p is ValidationFailed,
            PrCreateButton::CreateAnyway => p is ValidationFailed,
        }),
{
    let all = buttons_in(p);
    match p {
        PrCreateSection::ReviewGate => {
            assert(all[0] is SelfReview && all[1] is SkipReview);
        },
        PrCreateSection::Reviewing => {
            assert(all[0] is CancelReview);
        },
        PrCreateSection::Validating => {
            assert(all[0] is StopValidation);
        },
        PrCreateSection::FixingValidation => {
            assert(all[0] is CancelFix);
        },
        PrCreateSection::ValidationFailed => {
            assert(all[0] is ValidateAgain && all[1] is FixAgain && all[2] is CreateAnyway);
        },
        _ => {},
    }
}

/// Two buttons send the same only where both stop a run; reviewing and passing over the
/// review, validating, mending and passing over the validation are each their own.
pub proof fn create_buttons_do_their_own(b: PrCreateButton, id: Id)
    ensures
        b is SelfReview <==> create_pressed(b, id) is SelfReview,
        b is SkipReview <==> create_pressed(b, id) is SkipReview,
        b is ValidateAgain <==> create_pressed(b, id) is RunValidation,
        b is FixAgain <==> create_pressed(b, id) is FixValidation,
        b is CreateAnyway <==> create_pressed(b, id) is SkipValidation,
        b is CancelReview || b is StopValidation || b is CancelFix <==> create_pressed(
            b,
            id,
        ) is Cancel,
{
}

/// A pull request is created from what the form holds, as a draft where that is asked
/// for, after a dialog; without a branch name nothing is created.
pub proof fn a_pull_request_is_what_the_form_says(id: Id, form: PrForm, draft: bool, g: Gesture)
    requires
        call_ensures(create_pr, (id, form, draft), g),
    ensures
        form.branch@.len() == 0 ==> leads_to(g@) is None,
        form.branch@.len() > 0 ==> g@ is Guard && (leads_to(g@) matches Some(
            ExecutorCommand::CreatePr { card_id, branch, title, body, reviewer, draft: as_draft },
        ) && card_id == id && branch@ == form.branch@ && title@ == form.title@ && body@
            == form.body@ && as_draft == draft && (reviewer is None <==> blank(form.reviewer@)) && (
        reviewer is Some ==> reviewer->0@ == trimmed(form.reviewer@))),
{
}

/// An attempt is counted as it is, up to the most there are.
pub proof fn attempts_are_counted(attempt: nat, most: nat)
    ensures
        attempt <= most ==> attempt_words(attempt, most) == decimal(attempt) + "/"@ + decimal(most),
        attempt > most ==> attempt_words(attempt, most) == decimal(most) + "/"@ + decimal(most),
{
}

/// A validation is told of while it runs, while it is mended and when it has failed,
/// with the attempt it is at.
pub proof fn validations_are_told(sub: ReviewSub, most: nat)
    ensures
        validation_words(sub, most) is Some <==> sub is Validating || sub is FixingValidation
            || sub is ValidationFailed,
        sub matches ReviewSub::Validating { attempt } ==> within(
            validation_words(sub, most)->0,
            attempt_words(attempt as nat, most),
        ),
        sub matches ReviewSub::FixingValidation { attempt } ==> within(
            validation_words(sub, most)->0,
            attempt_words(attempt as nat, most),
        ),
        sub matches ReviewSub::ValidationFailed { attempt, .. } ==> within(
            validation_words(sub, most)->0,
            decimal(attempt as nat),
        ),
{
    if let ReviewSub::Validating { attempt } = sub {
        parts_are_found(
            "Running the project's validate command (attempt "@,
            attempt_words(attempt as nat, most),
            ")…"@,
        );
    }
    if let ReviewSub::FixingValidation { attempt } = sub {
        parts_are_found(
            "Validation failed — the agent is fixing it (attempt "@,
            attempt_words(attempt as nat, most),
            ")…"@,
        );
    }
    if let ReviewSub::ValidationFailed { attempt, .. } = sub {
        parts_are_found(
            "The validate command still fails after "@,
            decimal(attempt as nat),
            " attempt(s). The output ends with:"@,
        );
    }
}

/// A branch name that will be changed is told of as it will be; one of which nothing is
/// left is refused.
pub proof fn a_branch_name_is_told(typed: Seq<char>, clean: Seq<char>)
    ensures
        clean.len() > 0 && clean != trimmed(typed) ==> ends(branch_words(typed, clean), clean),
        branch_unusable(typed, clean) <==> clean.len() == 0 && trimmed(typed).len() > 0,
        clean.len() > 0 ==> !branch_unusable(typed, clean),
{
    blank_is_empty_trim(typed);
    parts_are_found("Will be created as "@, clean, Seq::empty());
}

/// Who could review is looked up where it is not known yet, and the form opens with the
/// one the project names.
pub proof fn reviewers_are_asked_for_once(
    s: AppState,
    id: Id,
    r: Option<ExecutorCommand>,
    who: String,
)
    requires
        call_ensures(AppState::reviewers_once, (&s, id), r),
        call_ensures(AppState::default_reviewer, (&s, id), who),
    ensures
        r is None <==> s@.reviewers.contains_key(id),
        r matches Some(cmd) ==> cmd == (ExecutorCommand::ListReviewers { project_id: id }),
        who@.len() > 0 ==> exists|i: int|
            0 <= i < s@.projects.len() && (#[trigger] s@.projects[i]).id == id
                && s@.projects[i].config.reviewer is Some && s@.projects[i].config.reviewer->0@
                == who@,
{
    let p = |p: Project| p.id == id;
    crate::lists::first_where_is_first(s@.projects, p);
    if let Some(i) = crate::lists::first_where(s@.projects, p) {
        assert(s@.projects[i].id == id);
    }
}

/// A button says what it does: no two say the same.
pub proof fn create_buttons_say_what_they_do(
    a: PrCreateButton,
    b: PrCreateButton,
    x: &'static str,
    y: &'static str,
)
    requires
        call_ensures(pr_create_label, (a,), x),
        call_ensures(pr_create_label, (b,), y),
    ensures
        x@ == y@ ==> a == b,
{
    reveal_strlit("Self-review");
    reveal_strlit("Skip review");
    reveal_strlit("Cancel");
    reveal_strlit("Stop validation");
    reveal_strlit("Cancel fix");
    reveal_strlit("Run validation again");
    reveal_strlit("Send to agent again");
    reveal_strlit("Create PR anyway");
    assert("Self-review"@.len() == 11 && "Skip review"@.len() == 11 && "Cancel"@.len() == 6
        && "Stop validation"@.len() == 15 && "Cancel fix"@.len() == 10 && "Run validation again"@.len()
        == 20 && "Send to agent again"@.len() == 19 && "Create PR anyway"@.len() == 16);
    assert("Self-review"@[1] == 'e' && "Skip review"@[1] == 'k');
}

/// The hint under the branch says one of three things: how the name will be changed, that
/// nothing is left of it, or that one is to be chosen.
pub proof fn the_branch_hint_says_one_thing(typed: Seq<char>, clean: Seq<char>)
    ensures
        branch_unusable(typed, clean) <==> branch_words(typed, clean)
            == "Not a usable branch name."@,
        clean == trimmed(typed) ==> branch_words(typed, clean)
            == "Choose the branch name the PR opens from."@,
        clean.len() > 0 && clean != trimmed(typed) ==> starts(
            branch_words(typed, clean),
            "Will be created as "@,
        ),
{
    blank_is_empty_trim(typed);
    parts_are_found(Seq::empty(), "Will be created as "@, clean);
    reveal_strlit("Not a usable branch name.");
    reveal_strlit("Choose the branch name the PR opens from.");
    reveal_strlit("Will be created as ");
    assert("Not a usable branch name."@[0] == 'N');
    assert("Choose the branch name the PR opens from."@[0] == 'C');
    assert(("Will be created as "@ + clean)[0] == 'W');
}

} // verus!
