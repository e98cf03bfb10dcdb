//! A card's own pull request under review: its reviews, their triage, and the
//! last resort of merging without one.

use vstd::prelude::*;

use crate::card::{is_draft, pr_is_draft};
use crate::command::{card_of, irrevocable, ExecutorCommand};
use crate::confirm::{leads_to, request, ConfirmAction, Gesture, GestureView, RequestView};
use crate::lists::joined_contains;
use crate::model::{Card, CardState, Id, PrReviewSub, SubmittedReview};
use crate::text::{is_blank, trim, trimmed};

verus! {

/// A section of the panel.
#[derive(Debug, Clone, Copy, PartialEq, Eq, Structural)]
pub enum PrReviewSection {
    PullRequest,
    Reviews,
    Triage,
    Chat,
    /// Merging without a review, or resolving what stands in its way.
    LastResort,
    Fetching,
    ApplyingFixes,
    ApplyingChange,
}

pub open spec fn pr_when(c: bool, s: PrReviewSection) -> Seq<PrReviewSection> {
    if c {
        seq![s]
    } else {
        Seq::empty()
    }
}

pub open spec fn idle(card: Card) -> bool {
    card.state == CardState::PrReview(PrReviewSub::Idle)
}

/// The sections, in order. Triage needs something to triage; the last resort is
/// offered only where it can work, and a draft cannot be merged.
pub open spec fn pr_sections(card: Card) -> Seq<PrReviewSection> {
    seq![PrReviewSection::PullRequest, PrReviewSection::Reviews] + pr_when(
        idle(card) && card.facts.triageable,
        PrReviewSection::Triage,
    ) + pr_when(idle(card), PrReviewSection::Chat) + pr_when(
        idle(card) && !is_draft(card),
        PrReviewSection::LastResort,
    ) + pr_when(
        card.state == CardState::PrReview(PrReviewSub::FetchingComments),
        PrReviewSection::Fetching,
    ) + pr_when(
        card.state == CardState::PrReview(PrReviewSub::ApplyingFixes),
        PrReviewSection::ApplyingFixes,
    ) + pr_when(
        card.state == CardState::PrReview(PrReviewSub::ApplyingChange),
        PrReviewSection::ApplyingChange,
    )
}

fn push_pr(v: &mut Vec<PrReviewSection>, c: bool, s: PrReviewSection)
    ensures
        final(v)@ == old(v)@ + pr_when(c, s),
{
    if c {
        v.push(s);
        assert(v@ =~= old(v)@ + pr_when(c, s));
    } else {
        assert(v@ =~= old(v)@ + pr_when(c, s));
    }
}

pub fn pr_review_sections(card: &Card) -> (r: Vec<PrReviewSection>)
    ensures
        r@ == pr_sections(*card),
{
    let st = &card.state;
    let waits = matches!(st, CardState::PrReview(PrReviewSub::Idle));
    let mut v: Vec<PrReviewSection> = Vec::new();
    v.push(PrReviewSection::PullRequest);
    v.push(PrReviewSection::Reviews);
    assert(v@ =~= seq![PrReviewSection::PullRequest, PrReviewSection::Reviews]);
    push_pr(&mut v, waits && card.facts.triageable, PrReviewSection::Triage);
    push_pr(&mut v, waits, PrReviewSection::Chat);
    push_pr(&mut v, waits && !pr_is_draft(card), PrReviewSection::LastResort);
    push_pr(
        &mut v,
        matches!(st, CardState::PrReview(PrReviewSub::FetchingComments)),
        PrReviewSection::Fetching,
    );
    push_pr(
        &mut v,
        matches!(st, CardState::PrReview(PrReviewSub::ApplyingFixes)),
        PrReviewSection::ApplyingFixes,
    );
    push_pr(
        &mut v,
        matches!(st, CardState::PrReview(PrReviewSub::ApplyingChange)),
        PrReviewSection::ApplyingChange,
    );
    v
}

/// What a run under way is doing, for the sections that have one.
pub fn running_hint(s: PrReviewSection) -> (r: Option<&'static str>)
    ensures
        match s {
            PrReviewSection::Fetching => r is Some && r->0@ == "Triaging review comments…"@,
            PrReviewSection::ApplyingFixes => r is Some && r->0@
                == "Applying fixes & replying to comments…"@,
            PrReviewSection::ApplyingChange => r is Some && r->0@
                == "Applying your requested change…"@,
            _ => r is None,
        },
{
    match s {
        PrReviewSection::Fetching => Some("Triaging review comments…"),
        PrReviewSection::ApplyingFixes => Some("Applying fixes & replying to comments…"),
        PrReviewSection::ApplyingChange => Some("Applying your requested change…"),
        _ => None,
    }
}

/// A submitted review's own words, or nothing where it has none.
pub fn review_words(review: &SubmittedReview) -> (r: Option<String>)
    ensures
        match r {
            Some(t) => t@ == trimmed(review.body@) && t@.len() > 0,
            None => trimmed(review.body@).len() == 0,
        },
{
    if is_blank(review.body.as_str()) {
        None
    } else {
        Some(trim(review.body.as_str()))
    }
}

/// A review's summary awaits reading, under the reviews there are.
pub fn summary_awaits(card: &Card) -> (r: bool)
    ensures
        r == (card.reviews@.len() > 0 && card.facts.pending_bodies@.len() > 0),
{
    card.reviews.len() > 0 && card.facts.pending_bodies.len() > 0
}

// ---- Buttons -------------------------------------------------------------

#[derive(Debug, Clone, Copy, PartialEq, Eq, Structural)]
pub enum PrReviewButton {
    MarkReady,
    Refresh,
    MarkRead,
    Evaluate,
    ResolveConflicts,
    MergeWithoutReview,
    Cancel,
}

/// What the last resort offers: the merge, or the way out of a conflict that
/// would refuse it.
pub open spec fn last_resort(card: Card) -> Seq<PrReviewButton> {
    if card.conflicting {
        seq![PrReviewButton::ResolveConflicts, PrReviewButton::Refresh]
    } else {
        seq![PrReviewButton::MergeWithoutReview]
    }
}

pub fn last_resort_buttons(card: &Card) -> (r: Vec<PrReviewButton>)
    ensures
        r@ == last_resort(*card),
{
    let mut v: Vec<PrReviewButton> = Vec::new();
    if card.conflicting {
        v.push(PrReviewButton::ResolveConflicts);
        v.push(PrReviewButton::Refresh);
    } else {
        v.push(PrReviewButton::MergeWithoutReview);
    }
    assert(v@ =~= last_resort(*card));
    v
}

pub fn pr_review_label(b: PrReviewButton) -> (r: &'static str)
    ensures
        r@ == (match b {
            PrReviewButton::MarkReady => "Mark ready for review"@,
            PrReviewButton::Refresh => "Refresh checks"@,
            PrReviewButton::MarkRead => "Mark as read"@,
            PrReviewButton::Evaluate => "Evaluate the review"@,
            PrReviewButton::ResolveConflicts => "Resolve conflicts with AI"@,
            PrReviewButton::MergeWithoutReview => "Merge without review"@,
            PrReviewButton::Cancel => "Cancel"@,
        }),
{
    match b {
        PrReviewButton::MarkReady => "Mark ready for review",
        PrReviewButton::Refresh => "Refresh checks",
        PrReviewButton::MarkRead => "Mark as read",
        PrReviewButton::Evaluate => "Evaluate the review",
        PrReviewButton::ResolveConflicts => "Resolve conflicts with AI",
        PrReviewButton::MergeWithoutReview => "Merge without review",
        PrReviewButton::Cancel => "Cancel",
    }
}

pub fn pr_review_class(b: PrReviewButton) -> (r: &'static str)
    ensures
        r@ == (match b {
            PrReviewButton::MarkReady => "btn primary"@,
            PrReviewButton::Evaluate => "btn primary"@,
            PrReviewButton::MergeWithoutReview => "btn subtle"@,
            _ => "btn"@,
        }),
{
    match b {
        PrReviewButton::MarkReady => "btn primary",
        PrReviewButton::Evaluate => "btn primary",
        PrReviewButton::MergeWithoutReview => "btn subtle",
        _ => "btn",
    }
}

/// What the last resort says: what stands in the way of a merge, or what merging
/// now leaves behind.
pub fn last_resort_hint(card: &Card) -> (r: &'static str)
    ensures
        r@ == (if card.conflicting {
            "The PR conflicts with the base branch — GitHub can't merge it as it stands. Have the agent resolve them, then merge again."@
        } else {
            "Nobody is coming to review this? Merge the PR as it stands. The review comments stay unread and unanswered — last resort."@
        }),
{
    if card.conflicting {
        "The PR conflicts with the base branch — GitHub can't merge it as it stands. Have the agent resolve them, then merge again."
    } else {
        "Nobody is coming to review this? Merge the PR as it stands. The review comments stay unread and unanswered — last resort."
    }
}

pub open spec fn pr_pressed(b: PrReviewButton, id: Id, delete_branch: bool) -> GestureView {
    match b {
        PrReviewButton::MarkReady => GestureView::Send(
            ExecutorCommand::MarkPrReady { card_id: id },
        ),
        PrReviewButton::Refresh => GestureView::Send(
            ExecutorCommand::RefreshReviews { card_id: id },
        ),
        PrReviewButton::MarkRead => GestureView::Send(
            ExecutorCommand::MarkReviewBodiesRead { card_id: id },
        ),
        PrReviewButton::Evaluate => GestureView::Send(
            ExecutorCommand::FetchComments { card_id: id },
        ),
        PrReviewButton::ResolveConflicts => GestureView::Send(
            ExecutorCommand::ResolveConflicts { card_id: id },
        ),
        PrReviewButton::MergeWithoutReview => GestureView::Ask(
            RequestView {
                title: "Merge without review?"@,
                message: "No review has cleared this PR. Merge it into the base branch anyway? Any review comments stay unread and unanswered. This can't be undone."@,
                confirm_label: "Merge without review"@,
                danger: true,
                action: ConfirmAction::Send(
                    ExecutorCommand::Merge { card_id: id, delete_branch, force: false },
                ),
            },
        ),
        PrReviewButton::Cancel => GestureView::Send(ExecutorCommand::Cancel { card_id: id }),
    }
}

pub fn press_pr_review(b: PrReviewButton, id: Id, delete_branch: bool) -> (r: Gesture)
    ensures
        r@ == pr_pressed(b, id, delete_branch),
{
    match b {
        PrReviewButton::MarkReady => Gesture::Send(ExecutorCommand::MarkPrReady { card_id: id }),
        PrReviewButton::Refresh => Gesture::Send(ExecutorCommand::RefreshReviews { card_id: id }),
        PrReviewButton::MarkRead => Gesture::Send(
            ExecutorCommand::MarkReviewBodiesRead { card_id: id },
        ),
        PrReviewButton::Evaluate => Gesture::Send(ExecutorCommand::FetchComments { card_id: id }),
        PrReviewButton::ResolveConflicts => Gesture::Send(
            ExecutorCommand::ResolveConflicts { card_id: id },
        ),
        PrReviewButton::MergeWithoutReview => Gesture::Ask(
            request(
                "Merge without review?",
                "No review has cleared this PR. Merge it into the base branch anyway? Any review comments stay unread and unanswered. This can't be undone.".to_owned(),
                "Merge without review",
                true,
                ConfirmAction::Send(
                    ExecutorCommand::Merge { card_id: id, delete_branch, force: false },
                ),
            ),
        ),
        PrReviewButton::Cancel => Gesture::Send(ExecutorCommand::Cancel { card_id: id }),
    }
}

/// Skipping the review never skips the checks: the merge is not forced.
pub proof fn checks_are_never_skipped(b: PrReviewButton, id: Id, delete_branch: bool)
    ensures
        pr_pressed(b, id, delete_branch) matches GestureView::Ask(req) ==> req.action
            == ConfirmAction::Send(
            ExecutorCommand::Merge { card_id: id, delete_branch, force: false },
        ),
        pr_pressed(b, id, delete_branch) matches GestureView::Send(cmd) ==> !(cmd is Merge),
{
}

/// The panel has a chat box exactly where the chat says so.
pub proof fn chat_at_the_idle_gate(card: Card)
    requires
        card.state is PrReview,
    ensures
        idle(card) == crate::chat::chats(card.state),
{
}

// ---- Laws ----------------------------------------------------------------

/// A section stands in the panel exactly where it belongs: the pull request and its
/// reviews always, what can be asked for while nothing runs, what runs while it runs.
pub proof fn a_pr_section_has_its_place(card: Card, s: PrReviewSection)
    ensures
        pr_sections(card).contains(s) <==> ({
            let idle = card.state == CardState::PrReview(PrReviewSub::Idle);
            match s {
                PrReviewSection::PullRequest => true,
                PrReviewSection::Reviews => true,
                PrReviewSection::Triage => idle && card.facts.triageable,
                PrReviewSection::Chat => idle,
                PrReviewSection::LastResort => idle && !is_draft(card),
                PrReviewSection::Fetching => card.state == CardState::PrReview(
                    PrReviewSub::FetchingComments,
                ),
                PrReviewSection::ApplyingFixes => card.state == CardState::PrReview(
                    PrReviewSub::ApplyingFixes,
                ),
                PrReviewSection::ApplyingChange => card.state == CardState::PrReview(
                    PrReviewSub::ApplyingChange,
                ),
            }
        }),
{
    let fetching = card.state == CardState::PrReview(PrReviewSub::FetchingComments);
    let fixing = card.state == CardState::PrReview(PrReviewSub::ApplyingFixes);
    let changing = card.state == CardState::PrReview(PrReviewSub::ApplyingChange);
    let t0 = seq![PrReviewSection::PullRequest, PrReviewSection::Reviews];
    let t1 = t0 + pr_when(idle(card) && card.facts.triageable, PrReviewSection::Triage);
    let t2 = t1 + pr_when(idle(card), PrReviewSection::Chat);
    let t3 = t2 + pr_when(idle(card) && !is_draft(card), PrReviewSection::LastResort);
    let t4 = t3 + pr_when(fetching, PrReviewSection::Fetching);
    let t5 = t4 + pr_when(fixing, PrReviewSection::ApplyingFixes);
    assert(pr_sections(card) == t5 + pr_when(changing, PrReviewSection::ApplyingChange));
    one_pr(t5, changing, PrReviewSection::ApplyingChange, s);
    one_pr(t4, fixing, PrReviewSection::ApplyingFixes, s);
    one_pr(t3, fetching, PrReviewSection::Fetching, s);
    one_pr(t2, idle(card) && !is_draft(card), PrReviewSection::LastResort, s);
    one_pr(t1, idle(card), PrReviewSection::Chat, s);
    one_pr(t0, idle(card) && card.facts.triageable, PrReviewSection::Triage, s);
    assert(t0[0] is PullRequest && t0[1] is Reviews);
}

proof fn one_pr(t: Seq<PrReviewSection>, c: bool, s: PrReviewSection, x: PrReviewSection)
    ensures
        (t + pr_when(c, s)).contains(x) == (t.contains(x) || (c && s == x)),
{
    joined_contains(t, pr_when(c, s), x);
    if c {
        assert(pr_when(c, s)[0] == s);
    }
}

/// A conflict is resolved before anything is merged; only then can a merge be the last
/// resort.
pub proof fn the_last_resort_has_its_place(card: Card, b: PrReviewButton)
    ensures
        last_resort(card).contains(b) <==> (match b {
            PrReviewButton::ResolveConflicts => card.conflicting,
            PrReviewButton::Refresh => card.conflicting,
            PrReviewButton::MergeWithoutReview => !card.conflicting,
            _ => false,
        }),
{
    let all = last_resort(card);
    if card.conflicting {
        assert(all[0] is ResolveConflicts && all[1] is Refresh);
    } else {
        assert(all[0] is MergeWithoutReview);
    }
}

/// Each button does its own, for its card: no two come to the same. A merge is asked
/// for first, in red, and deletes the branch only where the box says so.
pub proof fn pr_buttons_do_their_own(b: PrReviewButton, id: Id, delete: bool)
    ensures
        leads_to(pr_pressed(b, id, delete)) matches Some(cmd) && card_of(cmd) == Some(id) && (
        match b {
            PrReviewButton::MarkReady => cmd is MarkPrReady,
            PrReviewButton::Refresh => cmd is RefreshReviews,
            PrReviewButton::MarkRead => cmd is MarkReviewBodiesRead,
            PrReviewButton::Evaluate => cmd is FetchComments,
            PrReviewButton::ResolveConflicts => cmd is ResolveConflicts,
            PrReviewButton::MergeWithoutReview => cmd matches ExecutorCommand::Merge {
                delete_branch,
                force,
                ..
            } && delete_branch == delete && !force,
            PrReviewButton::Cancel => cmd is Cancel,
        }),
        pr_pressed(b, id, delete) matches GestureView::Send(cmd) ==> !irrevocable(cmd)
            || cmd is Cancel,
        pr_pressed(b, id, delete) matches GestureView::Ask(req) ==> req.danger,
{
}

/// Only a run has a word for what it does.
pub proof fn runs_are_told(s: PrReviewSection, r: Option<&'static str>)
    requires
        call_ensures(running_hint, (s,), r),
    ensures
        r is Some <==> s is Fetching || s is ApplyingFixes || s is ApplyingChange,
{
}

/// A button says what it does: a merge is confirmed by the words on its button, and no
/// two buttons say the same. Summaries wait where there are reviews and any is unread.
pub proof fn pr_buttons_say_what_they_do(
    a: PrReviewButton,
    b: PrReviewButton,
    id: Id,
    delete: bool,
    x: &'static str,
    y: &'static str,
    card: Card,
    awaits: bool,
)
    requires
        call_ensures(pr_review_label, (a,), x),
        call_ensures(pr_review_label, (b,), y),
        call_ensures(summary_awaits, (&card,), awaits),
    ensures
        pr_pressed(a, id, delete) matches GestureView::Ask(req) ==> req.confirm_label == x@,
        x@ == y@ ==> a == b,
        awaits <==> card.reviews@.len() > 0 && card.facts.pending_bodies@.len() > 0,
{
    reveal_strlit("Mark ready for review");
    reveal_strlit("Refresh checks");
    reveal_strlit("Mark as read");
    reveal_strlit("Evaluate the review");
    reveal_strlit("Resolve conflicts with AI");
    reveal_strlit("Merge without review");
    reveal_strlit("Cancel");
    assert("Mark ready for review"@.len() == 21 && "Refresh checks"@.len() == 14
        && "Mark as read"@.len() == 12 && "Evaluate the review"@.len() == 19
        && "Resolve conflicts with AI"@.len() == 25 && "Merge without review"@.len() == 20
        && "Cancel"@.len() == 6);
}

} // verus!
