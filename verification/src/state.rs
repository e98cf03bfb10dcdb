//! What is on screen, and the one place executor events change it.

use std::collections::{HashMap, HashSet};

use vstd::prelude::*;

use crate::command::{ExecutorCommand, ExecutorEvent, ExecutorEventKind};
use crate::confirm::{
    leads_to, request, request_confirm, with_dialog, ConfirmAction, GestureView, Overlays,
    OverlaysView, RequestView,
};
use crate::drafts::{
    forget_owner_in, forget_owners, without_owner, without_owners, DraftMap,
};
use crate::edit::{ascii_lower, ascii_lowered, capitals_become_small};
use crate::lists::{
    a_filter_keeps_what_passes, an_upsert_replaces_or_adds, filter_from, first_where,
    first_where_is_first, retain, upsert, upserted,
};
use crate::markdown::{join, join_text, texts};
use crate::model::{
    empty_handoff, AdoptProbe, AppSettings, Card, DiffState, Handoff, Id, PreviewStatus,
    PreviewUrl, Project, Provider, ReviewTask, Severity, UsageSnapshot,
};
use crate::text::{cat2, cat3, cat5, decimal, decimal_text, parts_are_found, starts, within};
use crate::toast::{newest, Toast, Toasts, MAX_TOASTS};

verus! {

broadcast use vstd::std_specs::hash::group_hash_axioms;

/// Which view the sidebar has selected.
#[derive(Debug, Clone, Copy, PartialEq, Eq, Structural)]
pub enum SelectedView {
    Global,
    Project(Id),
}

/// Whether the board shows cards or pull requests to review.
#[derive(Debug, Clone, Copy, PartialEq, Eq, Structural)]
pub enum BoardMode {
    Normal,
    Review,
}

/// Everything the window draws from.
pub struct AppState {
    pub projects: Vec<Project>,
    pub cards: Vec<Card>,
    pub settings: AppSettings,
    pub selected_view: SelectedView,
    pub board_mode: BoardMode,
    pub selected_card: Option<Id>,
    pub selected_review: Option<Id>,
    /// Per card: what its runs said, with the time.
    pub transcripts: HashMap<Id, Vec<(i64, String)>>,
    /// Per project: who could review.
    pub reviewers: HashMap<Id, Vec<String>>,
    /// Per project: the branches a card can adopt.
    pub adopt_sources: HashMap<Id, Vec<String>>,
    /// Per project: the latest answer about one branch.
    pub adopt_probes: HashMap<Id, AdoptProbe>,
    /// Per project: the pull requests to review.
    pub review_tasks: HashMap<Id, Vec<ReviewTask>>,
    pub skip_plans: HashMap<Id, bool>,
    pub auto_reviews: HashMap<Id, bool>,
    pub attachments: HashMap<Id, Vec<String>>,
    pub review_recaps: HashMap<Id, String>,
    /// Per card: the last question asked and its answer.
    pub answers: HashMap<Id, (String, String)>,
    pub handoffs: HashMap<Id, Handoff>,
    pub previews: HashMap<Id, (PreviewStatus, Vec<PreviewUrl>)>,
    pub diffs: HashMap<Id, DiffState>,
    /// The cards and reviews with a command in flight.
    pub busy: HashSet<Id>,
    pub usage: UsageSnapshot,
    pub drafts: DraftMap,
    pub toasts: Toasts,
    pub ui: Overlays,
}

/// The state as a mathematical value.
#[verifier::ext_equal]
pub struct StateView {
    pub projects: Seq<Project>,
    pub cards: Seq<Card>,
    pub settings: AppSettings,
    pub selected_view: SelectedView,
    pub board_mode: BoardMode,
    pub selected_card: Option<Id>,
    pub selected_review: Option<Id>,
    pub transcripts: Map<Id, Seq<(i64, String)>>,
    pub reviewers: Map<Id, Vec<String>>,
    pub adopt_sources: Map<Id, Vec<String>>,
    pub adopt_probes: Map<Id, AdoptProbe>,
    pub review_tasks: Map<Id, Seq<ReviewTask>>,
    pub skip_plans: Map<Id, bool>,
    pub auto_reviews: Map<Id, bool>,
    pub attachments: Map<Id, Vec<String>>,
    pub review_recaps: Map<Id, String>,
    pub answers: Map<Id, (String, String)>,
    pub handoffs: Map<Id, Handoff>,
    pub previews: Map<Id, (PreviewStatus, Vec<PreviewUrl>)>,
    pub diffs: Map<Id, DiffState>,
    pub busy: Set<Id>,
    pub usage: UsageSnapshot,
    pub drafts: Map<(Id, Seq<char>), Seq<char>>,
    pub toasts: Seq<Toast>,
    pub next_toast: u64,
    pub ui: OverlaysView,
}

/// The lists of a map of lists.
pub open spec fn lists<T>(m: Map<Id, Vec<T>>) -> Map<Id, Seq<T>> {
    m.map_values(|v: Vec<T>| v@)
}

impl View for AppState {
    type V = StateView;

    open spec fn view(&self) -> StateView {
        StateView {
            projects: self.projects@,
            cards: self.cards@,
            settings: self.settings,
            selected_view: self.selected_view,
            board_mode: self.board_mode,
            selected_card: self.selected_card,
            selected_review: self.selected_review,
            transcripts: lists(self.transcripts@),
            reviewers: self.reviewers@,
            adopt_sources: self.adopt_sources@,
            adopt_probes: self.adopt_probes@,
            review_tasks: lists(self.review_tasks@),
            skip_plans: self.skip_plans@,
            auto_reviews: self.auto_reviews@,
            attachments: self.attachments@,
            review_recaps: self.review_recaps@,
            answers: self.answers@,
            handoffs: self.handoffs@,
            previews: self.previews@,
            diffs: self.diffs@,
            busy: self.busy@,
            usage: self.usage,
            drafts: self.drafts@,
            toasts: self.toasts.list@,
            next_toast: self.toasts.next_id,
            ui: self.ui@,
        }
    }
}

// ---- What an event does --------------------------------------------------

pub open spec fn has_card(cards: Seq<Card>, id: Id) -> bool {
    exists|i: int| 0 <= i < cards.len() && (#[trigger] cards[i]).id == id
}

pub open spec fn in_list(tasks: Seq<ReviewTask>, id: Id) -> bool {
    exists|i: int| 0 <= i < tasks.len() && (#[trigger] tasks[i]).id == id
}

/// Some project's list has the review.
pub open spec fn has_review(tasks: Map<Id, Seq<ReviewTask>>, id: Id) -> bool {
    exists|p: Id| #[trigger] tasks.contains_key(p) && in_list(tasks[p], id)
}

/// A selection, unless what it selects is gone.
pub open spec fn still(selected: Option<Id>, there: bool) -> Option<Id> {
    if there {
        selected
    } else {
        None
    }
}

/// The list under a key, or an empty one.
pub open spec fn list_at<T>(m: Map<Id, Seq<T>>, k: Id) -> Seq<T> {
    if m.contains_key(k) {
        m[k]
    } else {
        Seq::empty()
    }
}

/// The cards that belong to a project.
pub open spec fn card_ids(cards: Seq<Card>, project_id: Id) -> Set<Id> {
    Set::new(
        |id: Id|
            exists|i: int|
                0 <= i < cards.len() && (#[trigger] cards[i]).id == id && cards[i].project_id
                    == project_id,
    )
}

pub open spec fn task_ids(tasks: Seq<ReviewTask>) -> Set<Id> {
    Set::new(|id: Id| in_list(tasks, id))
}

/// The reviews that a new list of a project's reviews no longer has.
pub open spec fn dropped(before: Seq<ReviewTask>, after: Seq<ReviewTask>) -> Set<Id> {
    Set::new(|id: Id| in_list(before, id) && !in_list(after, id))
}

/// The dialog that offers to resolve conflicts.
pub open spec fn conflict_offer(card_id: Id, pr_number: u64, base: Seq<char>) -> RequestView {
    RequestView {
        title: "Merge conflicts"@,
        message: "PR #"@ + decimal(pr_number as nat) + " can't be merged — it conflicts with `"@
            + base + "`.\n\nHave the agent merge `"@ + (base
            + "` into the branch, resolve the conflicts, and push? You can review the result before merging again."@),
        confirm_label: "Resolve with AI"@,
        danger: false,
        action: ConfirmAction::Send(ExecutorCommand::ResolveConflicts { card_id }),
    }
}

/// The failing checks by name, where any is known.
pub open spec fn failing_names(failed: Seq<Seq<char>>) -> Seq<char> {
    if failed.len() == 0 {
        Seq::empty()
    } else {
        "\n\nFailing: "@ + join(failed, ", "@)
    }
}

/// The dialog that offers to fix failing checks.
pub open spec fn checks_offer(card_id: Id, pr_number: u64, failed: Seq<Seq<char>>) -> RequestView {
    RequestView {
        title: "CI checks failing"@,
        message: "PR #"@ + decimal(pr_number as nat)
            + " can't be merged — its CI checks are failing."@ + failing_names(failed)
            + "\n\nHave the agent investigate the failures, fix them, and push? The checks re-run on the push."@,
        confirm_label: "Fix with AI"@,
        danger: false,
        action: ConfirmAction::Send(ExecutorCommand::FixChecks { card_id }),
    }
}

/// The state after an event.
pub open spec fn reduced(s: StateView, evt: ExecutorEvent) -> StateView {
    let id = evt.card_id;
    match evt.kind {
        ExecutorEventKind::CardUpdated(card) => StateView {
            cards: upserted(s.cards, *card, |c: Card| c.id == card.id),
            ..s
        },
        ExecutorEventKind::CardRemoved => StateView {
            cards: s.cards.filter(|c: Card| c.id != id),
            transcripts: s.transcripts.remove(id),
            attachments: s.attachments.remove(id),
            answers: s.answers.remove(id),
            drafts: without_owner(s.drafts, id),
            selected_card: still(s.selected_card, s.selected_card != Some(id)),
            ..s
        },
        ExecutorEventKind::ProjectUpserted(project) => StateView {
            projects: upserted(s.projects, *project, |p: Project| p.id == project.id),
            ..s
        },
        ExecutorEventKind::ProjectRemoved { project_id } => {
            let cards = s.cards.filter(|c: Card| c.project_id != project_id);
            let tasks = s.review_tasks.remove(project_id);
            let gone = card_ids(s.cards, project_id).union(
                task_ids(list_at(s.review_tasks, project_id)),
            );
            StateView {
                projects: s.projects.filter(|p: Project| p.id != project_id),
                cards,
                review_tasks: tasks,
                drafts: without_owners(s.drafts, gone),
                selected_view: if s.selected_view == SelectedView::Project(project_id) {
                    SelectedView::Global
                } else {
                    s.selected_view
                },
                selected_card: still(
                    s.selected_card,
                    s.selected_card is Some && has_card(cards, s.selected_card->0),
                ),
                selected_review: still(
                    s.selected_review,
                    s.selected_review is Some && has_review(tasks, s.selected_review->0),
                ),
                ..s
            }
        },
        ExecutorEventKind::SettingsUpdated(settings) => StateView { settings: *settings, ..s },
        ExecutorEventKind::SkipPlanChanged { skip } => StateView {
            skip_plans: s.skip_plans.insert(id, skip),
            ..s
        },
        ExecutorEventKind::AutoReviewChanged { auto } => StateView {
            auto_reviews: s.auto_reviews.insert(id, auto),
            ..s
        },
        ExecutorEventKind::CardBusy { busy } => StateView {
            busy: if busy {
                s.busy.insert(id)
            } else {
                s.busy.remove(id)
            },
            ..s
        },
        ExecutorEventKind::AttachmentsChanged { paths } => StateView {
            attachments: s.attachments.insert(id, paths),
            ..s
        },
        ExecutorEventKind::Transcript { ts, line } => StateView {
            transcripts: s.transcripts.insert(id, list_at(s.transcripts, id).push((ts, line))),
            ..s
        },
        ExecutorEventKind::Reviewers { project_id, logins } => StateView {
            reviewers: s.reviewers.insert(project_id, logins),
            ..s
        },
        ExecutorEventKind::AdoptSources { project_id, refs } => StateView {
            adopt_sources: s.adopt_sources.insert(project_id, refs),
            ..s
        },
        ExecutorEventKind::AdoptProbe { project_id, probe } => StateView {
            adopt_probes: s.adopt_probes.insert(project_id, probe),
            ..s
        },
        ExecutorEventKind::ReviewTasksUpdated { project_id, tasks } => {
            let all = s.review_tasks.insert(project_id, tasks@);
            StateView {
                review_tasks: all,
                drafts: without_owners(
                    s.drafts,
                    dropped(list_at(s.review_tasks, project_id), tasks@),
                ),
                selected_review: still(
                    s.selected_review,
                    s.selected_review is Some && has_review(all, s.selected_review->0),
                ),
                ..s
            }
        },
        ExecutorEventKind::ReviewTaskUpdated(task) => StateView {
            review_tasks: s.review_tasks.insert(
                task.project_id,
                upserted(
                    list_at(s.review_tasks, task.project_id),
                    *task,
                    |t: ReviewTask| t.id == task.id,
                ),
            ),
            ..s
        },
        ExecutorEventKind::RecapUpdated { recap } => StateView {
            review_recaps: s.review_recaps.insert(id, recap),
            ..s
        },
        ExecutorEventKind::AnswerUpdated { question, answer } => StateView {
            answers: if answer@.len() == 0 {
                s.answers.remove(id)
            } else {
                s.answers.insert(id, (question, answer))
            },
            ..s
        },
        ExecutorEventKind::HandoffUpdated { handoff } => StateView {
            handoffs: if empty_handoff(handoff) {
                s.handoffs.remove(id)
            } else {
                s.handoffs.insert(id, handoff)
            },
            ..s
        },
        ExecutorEventKind::PreviewUpdated { status, urls } => StateView {
            previews: s.previews.insert(id, (status, urls)),
            ..s
        },
        ExecutorEventKind::DiffUpdated { state } => StateView {
            diffs: s.diffs.insert(id, state),
            ..s
        },
        ExecutorEventKind::MergeConflict { pr_number, base } => StateView {
            ui: with_dialog(s.ui, conflict_offer(id, pr_number, base@)),
            ..s
        },
        ExecutorEventKind::ChecksFailed { pr_number, failed } => StateView {
            ui: with_dialog(s.ui, checks_offer(id, pr_number, texts(failed@))),
            ..s
        },
        ExecutorEventKind::UsageUpdated(snapshot) => StateView { usage: snapshot, ..s },
        ExecutorEventKind::Toast { severity, message } => StateView {
            toasts: newest(
                s.toasts.push(Toast { id: s.next_toast, severity, message }),
                MAX_TOASTS as int,
            ),
            next_toast: if s.next_toast == u64::MAX {
                0
            } else {
                (s.next_toast + 1) as u64
            },
            ..s
        },
    }
}

fn take_list<T>(m: &mut HashMap<Id, Vec<T>>, k: Id) -> (r: Vec<T>)
    ensures
        final(m)@ == old(m)@.remove(k),
        r@ == list_at(lists(old(m)@), k),
{
    match m.remove(&k) {
        Some(v) => v,
        None => Vec::new(),
    }
}

proof fn lists_insert<T>(m: Map<Id, Vec<T>>, k: Id, v: Vec<T>)
    ensures
        lists(m.insert(k, v)) == lists(m).insert(k, v@),
        lists(m.remove(k)) == lists(m).remove(k),
        lists(m.remove(k).insert(k, v)) == lists(m).insert(k, v@),
{
    assert(lists(m.insert(k, v)) =~= lists(m).insert(k, v@));
    assert(lists(m.remove(k)) =~= lists(m).remove(k));
    assert(lists(m.remove(k).insert(k, v)) =~= lists(m).insert(k, v@));
}

fn list_has(tasks: &Vec<ReviewTask>, id: Id) -> (r: bool)
    ensures
        r == in_list(tasks@, id),
{
    let mut i: usize = 0;
    while i < tasks.len()
        invariant
            i <= tasks.len(),
            forall|j: int| 0 <= j < i ==> (#[trigger] tasks@[j]).id != id,
        decreases tasks.len() - i,
    {
        if tasks[i].id == id {
            return true;
        }
        i += 1;
    }
    false
}

fn cards_have(cards: &Vec<Card>, id: Id) -> (r: bool)
    ensures
        r == has_card(cards@, id),
{
    let mut i: usize = 0;
    while i < cards.len()
        invariant
            i <= cards.len(),
            forall|j: int| 0 <= j < i ==> (#[trigger] cards@[j]).id != id,
        decreases cards.len() - i,
    {
        if cards[i].id == id {
            return true;
        }
        i += 1;
    }
    false
}

fn ids_of_project(cards: &Vec<Card>, project_id: Id) -> (r: Vec<Id>)
    ensures
        r@.to_set() == card_ids(cards@, project_id),
{
    let mut out: Vec<Id> = Vec::new();
    let mut i: usize = 0;
    while i < cards.len()
        invariant
            i <= cards.len(),
            forall|id: Id| #[trigger]
                out@.contains(id) <==> exists|j: int|
                    0 <= j < i && (#[trigger] cards@[j]).id == id && cards@[j].project_id
                        == project_id,
        decreases cards.len() - i,
    {
        let ghost before = out@;
        if cards[i].project_id == project_id {
            out.push(cards[i].id);
            proof {
                push_contains(before, cards@[i as int].id);
            }
        }
        i += 1;
    }
    assert(out@.to_set() =~= card_ids(cards@, project_id));
    out
}

proof fn push_contains(s: Seq<Id>, x: Id)
    ensures
        forall|y: Id| #[trigger] s.push(x).contains(y) <==> s.contains(y) || y == x,
{
    assert forall|y: Id| #[trigger] s.push(x).contains(y) <==> s.contains(y) || y == x by {
        if s.contains(y) {
            let i = choose|i: int| 0 <= i < s.len() && s[i] == y;
            assert(s.push(x)[i] == y);
        }
        assert(s.push(x)[s.len() as int] == x);
    }
}

fn ids_dropped(before: &Vec<ReviewTask>, after: &Vec<ReviewTask>) -> (r: Vec<Id>)
    ensures
        r@.to_set() == dropped(before@, after@),
{
    let mut out: Vec<Id> = Vec::new();
    let mut i: usize = 0;
    while i < before.len()
        invariant
            i <= before.len(),
            forall|id: Id| #[trigger]
                out@.contains(id) <==> (!in_list(after@, id) && exists|j: int|
                    0 <= j < i && (#[trigger] before@[j]).id == id),
        decreases before.len() - i,
    {
        let ghost so_far = out@;
        if !list_has(after, before[i].id) {
            out.push(before[i].id);
            proof {
                push_contains(so_far, before@[i as int].id);
            }
        }
        i += 1;
    }
    assert(out@.to_set() =~= dropped(before@, after@));
    out
}

proof fn drop_all(tasks: Seq<ReviewTask>)
    ensures
        dropped(tasks, Seq::empty()) == task_ids(tasks),
{
    assert(dropped(tasks, Seq::empty()) =~= task_ids(tasks));
}

proof fn forget_in_turn(map: Map<(Id, Seq<char>), Seq<char>>, a: Set<Id>, b: Set<Id>)
    ensures
        without_owners(without_owners(map, a), b) == without_owners(map, a.union(b)),
{
    assert(without_owners(without_owners(map, a), b) =~= without_owners(map, a.union(b)));
}

impl AppState {
    /// A review by its id, across every project's list.
    pub fn review_task(&self, review_id: Id) -> (r: Option<&ReviewTask>)
        ensures
            match r {
                Some(t) => t.id == review_id && exists|p: Id| #[trigger]
                    self@.review_tasks.contains_key(p) && self@.review_tasks[p].contains(*t),
                None => !has_review(self@.review_tasks, review_id),
            },
    {
        let ghost all = vstd::std_specs::iter::IteratorSpec::remaining(
            &vstd::std_specs::hash::spec_values_iter(&self.review_tasks),
        );
        for list in it: self.review_tasks.values()
            invariant
                it.seq() == all,
                all.unref().to_set() == self.review_tasks@.values(),
                forall|i: int| 0 <= i < it.index() ==> !in_list((#[trigger] all[i])@, review_id),
        {
            assert(all.unref()[it.index()] == *list);
            assert(all.unref().to_set().contains(*list));
            let mut i: usize = 0;
            while i < list.len()
                invariant
                    i <= list.len(),
                    forall|j: int| 0 <= j < i ==> (#[trigger] list@[j]).id != review_id,
                    self.review_tasks@.values().contains(*list),
                decreases list.len() - i,
            {
                if list[i].id == review_id {
                    proof {
                        let p = choose|p: Id| #[trigger]
                            self.review_tasks@.contains_key(p) && self.review_tasks@[p] == *list;
                        assert(self@.review_tasks.contains_key(p));
                        assert(self@.review_tasks[p] == list@);
                        assert(list@.contains(list@[i as int]));
                    }
                    return Some(&list[i]);
                }
                i += 1;
            }
        }
        proof {
            if has_review(self@.review_tasks, review_id) {
                let p = choose|p: Id| #[trigger]
                    self@.review_tasks.contains_key(p) && in_list(
                        self@.review_tasks[p],
                        review_id,
                    );
                assert(self.review_tasks@.contains_key(p));
                let v = self.review_tasks@[p];
                assert(self.review_tasks@.values().contains(v));
                assert(all.unref().to_set().contains(v));
                let i = choose|i: int| 0 <= i < all.unref().len() && all.unref()[i] == v;
                assert(*all[i] == v);
            }
        }
        None
    }
}

fn remove_card(state: &mut AppState, id: Id)
    ensures
        final(state)@ == reduced(
            old(state)@,
            (ExecutorEvent { card_id: id, kind: ExecutorEventKind::CardRemoved }),
        ),
{
    let mut all: Vec<Card> = Vec::new();
    std::mem::swap(&mut all, &mut state.cards);
    let stays = |c: &Card| -> (b: bool)
        ensures
            b == (c.id != id),
    {
        c.id != id
    };
    state.cards = retain(all, stays, Ghost(|c: Card| c.id != id));
    let ghost lines = state.transcripts@;
    state.transcripts.remove(&id);
    assert(lists(state.transcripts@) =~= lists(lines).remove(id));
    state.attachments.remove(&id);
    state.answers.remove(&id);
    forget_owner_in(&mut state.drafts, id);
    let gone = match state.selected_card {
        Some(cid) => cid == id,
        None => false,
    };
    if gone {
        state.selected_card = None;
    }
    assert(state@ =~= reduced(
        old(state)@,
        (ExecutorEvent { card_id: id, kind: ExecutorEventKind::CardRemoved }),
    ));
}

/// Drop a review selection whose review is gone.
fn check_selected_review(state: &mut AppState)
    ensures
        final(state)@ == (StateView {
            selected_review: still(
                old(state)@.selected_review,
                old(state)@.selected_review is Some && has_review(
                    old(state)@.review_tasks,
                    old(state)@.selected_review->0,
                ),
            ),
            ..old(state)@
        }),
{
    if let Some(rid) = state.selected_review {
        let there = state.review_task(rid).is_some();
        proof {
            if there {
                let t = choose|t: ReviewTask|
                    t.id == rid && exists|p: Id| #[trigger]
                        state@.review_tasks.contains_key(p) && #[trigger]
                        state@.review_tasks[p].contains(t);
                let p = choose|p: Id| #[trigger]
                    state@.review_tasks.contains_key(p) && state@.review_tasks[p].contains(t);
                let i = choose|i: int|
                    0 <= i < state@.review_tasks[p].len() && state@.review_tasks[p][i] == t;
                assert(in_list(state@.review_tasks[p], rid));
            }
        }
        if !there {
            state.selected_review = None;
        }
    }
}

fn remove_project(state: &mut AppState, card_id: Id, project_id: Id)
    ensures
        final(state)@ == reduced(
            old(state)@,
            (ExecutorEvent { card_id, kind: ExecutorEventKind::ProjectRemoved { project_id } }),
        ),
{
    let ghost before = state@;
    let mut projects: Vec<Project> = Vec::new();
    std::mem::swap(&mut projects, &mut state.projects);
    let other = |p: &Project| -> (b: bool)
        ensures
            b == (p.id != project_id),
    {
        p.id != project_id
    };
    state.projects = retain(projects, other, Ghost(|p: Project| p.id != project_id));
    let removed = ids_of_project(&state.cards, project_id);
    let mut cards: Vec<Card> = Vec::new();
    std::mem::swap(&mut cards, &mut state.cards);
    let stays = |c: &Card| -> (b: bool)
        ensures
            b == (c.project_id != project_id),
    {
        c.project_id != project_id
    };
    state.cards = retain(cards, stays, Ghost(|c: Card| c.project_id != project_id));
    forget_owners(&mut state.drafts, &removed);
    let ghost tasks0 = state.review_tasks@;
    let tasks = take_list(&mut state.review_tasks, project_id);
    let none: Vec<ReviewTask> = Vec::new();
    let task_drops = ids_dropped(&tasks, &none);
    forget_owners(&mut state.drafts, &task_drops);
    proof {
        assert(none@ =~= Seq::<ReviewTask>::empty());
        drop_all(tasks@);
        forget_in_turn(before.drafts, card_ids(before.cards, project_id), task_ids(tasks@));
        assert(lists(state.review_tasks@) =~= lists(tasks0).remove(project_id));
    }
    check_selected_review(state);
    let here = match state.selected_view {
        SelectedView::Project(pid) => pid == project_id,
        SelectedView::Global => false,
    };
    if here {
        state.selected_view = SelectedView::Global;
    }
    if let Some(cid) = state.selected_card {
        if !cards_have(&state.cards, cid) {
            state.selected_card = None;
        }
    }
    assert(state@ =~= reduced(
        before,
        (ExecutorEvent { card_id, kind: ExecutorEventKind::ProjectRemoved { project_id } }),
    ));
}

fn replace_reviews(state: &mut AppState, card_id: Id, project_id: Id, tasks: Vec<ReviewTask>)
    ensures
        final(state)@ == reduced(
            old(state)@,
            (ExecutorEvent {
                card_id,
                kind: ExecutorEventKind::ReviewTasksUpdated { project_id, tasks },
            }),
        ),
{
    let ghost before = state@;
    let ghost tasks0 = state.review_tasks@;
    let old_tasks = take_list(&mut state.review_tasks, project_id);
    let gone = ids_dropped(&old_tasks, &tasks);
    forget_owners(&mut state.drafts, &gone);
    proof {
        lists_insert(tasks0, project_id, tasks);
    }
    state.review_tasks.insert(project_id, tasks);
    check_selected_review(state);
    assert(state@ =~= reduced(
        before,
        (ExecutorEvent {
            card_id,
            kind: ExecutorEventKind::ReviewTasksUpdated { project_id, tasks },
        }),
    ));
}

fn upsert_review(state: &mut AppState, card_id: Id, task: Box<ReviewTask>)
    ensures
        final(state)@ == reduced(
            old(state)@,
            (ExecutorEvent { card_id, kind: ExecutorEventKind::ReviewTaskUpdated(task) }),
        ),
{
    let ghost before = state@;
    let ghost tasks0 = state.review_tasks@;
    let task = *task;
    let id: Id = task.id;
    let project_id: Id = task.project_id;
    let mut list = take_list(&mut state.review_tasks, project_id);
    let same = |t: &ReviewTask| -> (b: bool)
        ensures
            b == (t.id == id),
    {
        t.id == id
    };
    upsert(&mut list, task, same, Ghost(|t: ReviewTask| t.id == id));
    proof {
        lists_insert(tasks0, project_id, list);
    }
    state.review_tasks.insert(project_id, list);
    assert(state@ =~= reduced(
        before,
        (ExecutorEvent { card_id, kind: ExecutorEventKind::ReviewTaskUpdated(Box::new(task)) }),
    ));
}

fn log_line(state: &mut AppState, card_id: Id, ts: i64, line: String)
    ensures
        final(state)@ == reduced(
            old(state)@,
            (ExecutorEvent { card_id, kind: ExecutorEventKind::Transcript { ts, line } }),
        ),
{
    let ghost before = state@;
    let ghost lines0 = state.transcripts@;
    let mut list = take_list(&mut state.transcripts, card_id);
    list.push((ts, line));
    proof {
        lists_insert(lines0, card_id, list);
    }
    state.transcripts.insert(card_id, list);
    assert(state@ =~= reduced(
        before,
        (ExecutorEvent { card_id, kind: ExecutorEventKind::Transcript { ts, line } }),
    ));
}

fn offer_resolve(state: &mut AppState, card_id: Id, pr_number: u64, base: String)
    ensures
        final(state)@ == reduced(
            old(state)@,
            (ExecutorEvent { card_id, kind: ExecutorEventKind::MergeConflict { pr_number, base } }),
        ),
{
    let n = decimal_text(pr_number);
    let again = cat2(
        base.as_str(),
        "` into the branch, resolve the conflicts, and push? You can review the result before merging again.",
    );
    let start = cat5(
        "PR #",
        n.as_str(),
        " can't be merged — it conflicts with `",
        base.as_str(),
        "`.\n\nHave the agent merge `",
    );
    let message = cat2(start.as_str(), again.as_str());
    request_confirm(
        &mut state.ui,
        request(
            "Merge conflicts",
            message,
            "Resolve with AI",
            false,
            ConfirmAction::Send(ExecutorCommand::ResolveConflicts { card_id }),
        ),
    );
}

fn offer_fix(state: &mut AppState, card_id: Id, pr_number: u64, failed: Vec<String>)
    ensures
        final(state)@ == reduced(
            old(state)@,
            (ExecutorEvent { card_id, kind: ExecutorEventKind::ChecksFailed { pr_number, failed } }),
        ),
{
    let n = decimal_text(pr_number);
    let names = if failed.len() == 0 {
        String::new()
    } else {
        let joined = join_text(&failed, ", ");
        cat2("\n\nFailing: ", joined.as_str())
    };
    let message = cat5(
        "PR #",
        n.as_str(),
        " can't be merged — its CI checks are failing.",
        names.as_str(),
        "\n\nHave the agent investigate the failures, fix them, and push? The checks re-run on the push.",
    );
    request_confirm(
        &mut state.ui,
        request(
            "CI checks failing",
            message,
            "Fix with AI",
            false,
            ConfirmAction::Send(ExecutorCommand::FixChecks { card_id }),
        ),
    );
}

impl AppState {
    /// The single place executor events change what is on screen.
    pub fn apply_event(&mut self, evt: ExecutorEvent)
        ensures
            final(self)@ == reduced(old(self)@, evt),
    {
        let id: Id = evt.card_id;
        match evt.kind {
            ExecutorEventKind::CardUpdated(card) => {
                let card = *card;
                let cid: Id = card.id;
                let same = |c: &Card| -> (b: bool)
                    ensures
                        b == (c.id == cid),
                {
                    c.id == cid
                };
                upsert(&mut self.cards, card, same, Ghost(|c: Card| c.id == cid));
            },
            ExecutorEventKind::CardRemoved => remove_card(self, id),
            ExecutorEventKind::ProjectUpserted(project) => {
                let project = *project;
                let pid: Id = project.id;
                let same = |p: &Project| -> (b: bool)
                    ensures
                        b == (p.id == pid),
                {
                    p.id == pid
                };
                upsert(&mut self.projects, project, same, Ghost(|p: Project| p.id == pid));
            },
            ExecutorEventKind::ProjectRemoved { project_id } => remove_project(
                self,
                id,
                project_id,
            ),
            ExecutorEventKind::SettingsUpdated(settings) => {
                self.settings = *settings;
            },
            ExecutorEventKind::SkipPlanChanged { skip } => {
                self.skip_plans.insert(id, skip);
            },
            ExecutorEventKind::AutoReviewChanged { auto } => {
                self.auto_reviews.insert(id, auto);
            },
            ExecutorEventKind::CardBusy { busy } => {
                if busy {
                    self.busy.insert(id);
                } else {
                    self.busy.remove(&id);
                }
            },
            ExecutorEventKind::AttachmentsChanged { paths } => {
                self.attachments.insert(id, paths);
            },
            ExecutorEventKind::Transcript { ts, line } => log_line(self, id, ts, line),
            ExecutorEventKind::Reviewers { project_id, logins } => {
                self.reviewers.insert(project_id, logins);
            },
            ExecutorEventKind::AdoptSources { project_id, refs } => {
                self.adopt_sources.insert(project_id, refs);
            },
            ExecutorEventKind::AdoptProbe { project_id, probe } => {
                self.adopt_probes.insert(project_id, probe);
            },
            ExecutorEventKind::ReviewTasksUpdated { project_id, tasks } => replace_reviews(
                self,
                id,
                project_id,
                tasks,
            ),
            ExecutorEventKind::ReviewTaskUpdated(task) => upsert_review(self, id, task),
            ExecutorEventKind::RecapUpdated { recap } => {
                self.review_recaps.insert(id, recap);
            },
            // An empty answer means the exchange was cleared.
            ExecutorEventKind::AnswerUpdated { question, answer } => {
                if answer.as_str().is_empty() {
                    self.answers.remove(&id);
                } else {
                    self.answers.insert(id, (question, answer));
                }
            },
            // An empty hand-off means the run left none.
            ExecutorEventKind::HandoffUpdated { handoff } => {
                if handoff.is_empty() {
                    self.handoffs.remove(&id);
                } else {
                    self.handoffs.insert(id, handoff);
                }
            },
            ExecutorEventKind::PreviewUpdated { status, urls } => {
                self.previews.insert(id, (status, urls));
            },
            ExecutorEventKind::DiffUpdated { state } => {
                self.diffs.insert(id, state);
            },
            // A refused merge is an offer, not an error: the card still stands
            // at the merge gate.
            ExecutorEventKind::MergeConflict { pr_number, base } => offer_resolve(
                self,
                id,
                pr_number,
                base,
            ),
            ExecutorEventKind::ChecksFailed { pr_number, failed } => offer_fix(
                self,
                id,
                pr_number,
                failed,
            ),
            ExecutorEventKind::UsageUpdated(snapshot) => {
                self.usage = snapshot;
            },
            ExecutorEventKind::Toast { severity, message } => self.toasts.push_toast(
                severity,
                message,
            ),
        }
        assert(self@ =~= reduced(old(self)@, evt));
    }
}

// ---- Laws of the reducer -------------------------------------------------

/// No two cards share an id.
pub open spec fn cards_distinct(cards: Seq<Card>) -> bool {
    forall|i: int, j: int|
        0 <= i < j < cards.len() ==> (#[trigger] cards[i]).id != (#[trigger] cards[j]).id
}

/// No two projects share an id.
pub open spec fn projects_distinct(projects: Seq<Project>) -> bool {
    forall|i: int, j: int|
        0 <= i < j < projects.len() ==> (#[trigger] projects[i]).id != (#[trigger] projects[j]).id
}

proof fn filter_cards_distinct(cards: Seq<Card>, p: spec_fn(Card) -> bool)
    requires
        cards_distinct(cards),
    ensures
        cards_distinct(cards.filter(p)),
    decreases cards.len(),
{
    reveal(Seq::filter);
    if cards.len() > 0 {
        let t = cards.drop_last();
        filter_cards_distinct(t, p);
        assert forall|m: int| 0 <= m < t.filter(p).len() implies (#[trigger] t.filter(p)[m]).id
            != cards.last().id by {
            filter_from(t, p, m);
            let i = choose|i: int| 0 <= i < t.len() && t[i] == t.filter(p)[m];
            assert(cards[i] == t[i]);
        }
    }
}

proof fn filter_projects_distinct(projects: Seq<Project>, p: spec_fn(Project) -> bool)
    requires
        projects_distinct(projects),
    ensures
        projects_distinct(projects.filter(p)),
    decreases projects.len(),
{
    reveal(Seq::filter);
    if projects.len() > 0 {
        let t = projects.drop_last();
        filter_projects_distinct(t, p);
        assert forall|m: int| 0 <= m < t.filter(p).len() implies (#[trigger] t.filter(p)[m]).id
            != projects.last().id by {
            filter_from(t, p, m);
            let i = choose|i: int| 0 <= i < t.len() && t[i] == t.filter(p)[m];
            assert(projects[i] == t[i]);
        }
    }
}

/// Ids stay unique under every event.
pub proof fn events_keep_ids_distinct(s: StateView, evt: ExecutorEvent)
    requires
        cards_distinct(s.cards),
        projects_distinct(s.projects),
    ensures
        cards_distinct(reduced(s, evt).cards),
        projects_distinct(reduced(s, evt).projects),
{
    match evt.kind {
        ExecutorEventKind::CardUpdated(card) => {
            first_where_is_first(s.cards, |c: Card| c.id == card.id);
        },
        ExecutorEventKind::CardRemoved => {
            filter_cards_distinct(s.cards, |c: Card| c.id != evt.card_id);
        },
        ExecutorEventKind::ProjectUpserted(project) => {
            first_where_is_first(s.projects, |p: Project| p.id == project.id);
        },
        ExecutorEventKind::ProjectRemoved { project_id } => {
            filter_cards_distinct(s.cards, |c: Card| c.project_id != project_id);
            filter_projects_distinct(s.projects, |p: Project| p.id != project_id);
        },
        _ => {},
    }
}

/// What a removal takes away is no longer selected, and nothing of it is left:
/// neither the card nor any draft of it.
pub proof fn removed_card_is_gone(s: StateView, id: Id, field: Seq<char>)
    ensures
        ({
            let r = reduced(
                s,
                (ExecutorEvent { card_id: id, kind: ExecutorEventKind::CardRemoved }),
            );
            &&& r.selected_card != Some(id)
            &&& !has_card(r.cards, id)
            &&& !r.drafts.contains_key((id, field))
            &&& !r.transcripts.contains_key(id)
        }),
{
    let p = |c: Card| c.id != id;
    assert forall|m: int| 0 <= m < s.cards.filter(p).len() implies (#[trigger] s.cards.filter(
        p,
    )[m]).id != id by {
        filter_from(s.cards, p, m);
    }
}

/// Removing a project leaves nothing selected that is not there, no card or
/// review of it, and no draft of theirs.
pub proof fn removed_project_is_gone(s: StateView, card_id: Id, project_id: Id)
    ensures
        ({
            let r = reduced(
                s,
                (ExecutorEvent {
                    card_id,
                    kind: ExecutorEventKind::ProjectRemoved { project_id },
                }),
            );
            &&& r.selected_view != SelectedView::Project(project_id)
            &&& r.selected_card matches Some(id) ==> has_card(r.cards, id)
            &&& r.selected_review matches Some(id) ==> has_review(r.review_tasks, id)
            &&& !r.review_tasks.contains_key(project_id)
            &&& forall|i: int|
                0 <= i < r.cards.len() ==> (#[trigger] r.cards[i]).project_id != project_id
            &&& forall|i: int, field: Seq<char>|
                0 <= i < s.cards.len() && s.cards[i].project_id == project_id
                    ==> !(#[trigger] r.drafts.contains_key((s.cards[i].id, field)))
        }),
{
    let p = |c: Card| c.project_id != project_id;
    assert forall|m: int| 0 <= m < s.cards.filter(p).len() implies (#[trigger] s.cards.filter(
        p,
    )[m]).project_id != project_id by {
        filter_from(s.cards, p, m);
    }
    assert forall|i: int| 0 <= i < s.cards.len() && s.cards[i].project_id
        == project_id implies card_ids(s.cards, project_id).contains(#[trigger] s.cards[i].id) by {}
}

/// A new list of a project's reviews never leaves a review selected that no
/// list has, and drops the drafts of exactly the reviews it dropped.
pub proof fn rescan_keeps_selection_honest(
    s: StateView,
    card_id: Id,
    project_id: Id,
    tasks: Vec<ReviewTask>,
    owner: Id,
    field: Seq<char>,
)
    ensures
        ({
            let r = reduced(
                s,
                (ExecutorEvent {
                    card_id,
                    kind: ExecutorEventKind::ReviewTasksUpdated { project_id, tasks },
                }),
            );
            &&& r.selected_review matches Some(id) ==> has_review(r.review_tasks, id)
            &&& r.drafts.contains_key((owner, field)) <==> s.drafts.contains_key((owner, field))
                && !dropped(list_at(s.review_tasks, project_id), tasks@).contains(owner)
        }),
{
}

/// A card's update is seen at once, and no other card is touched by it.
pub proof fn updated_card_is_seen(s: StateView, card_id: Id, card: Box<Card>, other: int)
    ensures
        ({
            let r = reduced(
                s,
                (ExecutorEvent { card_id, kind: ExecutorEventKind::CardUpdated(card) }),
            );
            &&& r.cards.contains(*card)
            &&& 0 <= other < s.cards.len() && s.cards[other].id != card.id ==> r.cards[other]
                == s.cards[other]
        }),
{
    let same = |c: Card| c.id == card.id;
    first_where_is_first(s.cards, same);
    let r = upserted(s.cards, *card, same);
    match first_where(s.cards, same) {
        Some(i) => {
            assert(r[i] == *card);
        },
        None => {
            assert(r[s.cards.len() as int] == *card);
        },
    }
}

/// Applying the same card update twice is applying it once.
pub proof fn card_update_is_idempotent(s: StateView, card_id: Id, card: Box<Card>)
    ensures
        ({
            let evt = ExecutorEvent { card_id, kind: ExecutorEventKind::CardUpdated(card) };
            reduced(reduced(s, evt), evt) == reduced(s, evt)
        }),
{
    let same = |c: Card| c.id == card.id;
    let once = upserted(s.cards, *card, same);
    first_where_is_first(s.cards, same);
    first_where_is_first(once, same);
    let at = match first_where(s.cards, same) {
        Some(i) => i,
        None => s.cards.len() as int,
    };
    assert(once[at] == *card);
    match first_where(once, same) {
        Some(i) => {
            if i < at {
                assert(once[i] == s.cards[i]);
            }
            assert(i == at);
            assert(once.update(i, *card) =~= once);
        },
        None => {},
    }
}

// ---- What events tell ----------------------------------------------------

pub open spec fn told<V>(m: Map<Id, V>, id: Id) -> Option<V> {
    if m.contains_key(id) {
        Some(m[id])
    } else {
        None
    }
}

/// What the state knows of one card or review beside its record.
pub struct Known {
    pub skips_plan: Option<bool>,
    pub auto_reviews: Option<bool>,
    pub busy: bool,
    pub attachments: Option<Vec<String>>,
    pub transcript: Seq<(i64, String)>,
    pub recap: Option<String>,
    pub answer: Option<(String, String)>,
    pub handoff: Option<Handoff>,
    pub preview: Option<(PreviewStatus, Vec<PreviewUrl>)>,
    pub diff: Option<DiffState>,
}

pub open spec fn known_of(s: StateView, id: Id) -> Known {
    Known {
        skips_plan: told(s.skip_plans, id),
        auto_reviews: told(s.auto_reviews, id),
        busy: s.busy.contains(id),
        attachments: told(s.attachments, id),
        transcript: list_at(s.transcripts, id),
        recap: told(s.review_recaps, id),
        answer: told(s.answers, id),
        handoff: told(s.handoffs, id),
        preview: told(s.previews, id),
        diff: told(s.diffs, id),
    }
}

/// What the state knows of one project beside its record.
pub struct KnownProject {
    pub reviewers: Option<Vec<String>>,
    pub sources: Option<Vec<String>>,
    pub probe: Option<AdoptProbe>,
}

pub open spec fn known_project(s: StateView, id: Id) -> KnownProject {
    KnownProject {
        reviewers: told(s.reviewers, id),
        sources: told(s.adopt_sources, id),
        probe: told(s.adopt_probes, id),
    }
}

/// An event about one card changes nothing that is known of another.
#[verifier::rlimit(40)]
pub proof fn events_keep_to_their_card(s: StateView, evt: ExecutorEvent, other: Id)
    requires
        other != evt.card_id,
    ensures
        known_of(reduced(s, evt), other) == known_of(s, other),
{
    let r = reduced(s, evt);
    assert(told(r.skip_plans, other) == told(s.skip_plans, other));
    assert(told(r.auto_reviews, other) == told(s.auto_reviews, other));
    assert(r.busy.contains(other) == s.busy.contains(other));
    assert(told(r.attachments, other) == told(s.attachments, other));
    assert(list_at(r.transcripts, other) == list_at(s.transcripts, other));
    assert(told(r.review_recaps, other) == told(s.review_recaps, other));
    assert(told(r.answers, other) == told(s.answers, other));
    assert(told(r.handoffs, other) == told(s.handoffs, other));
    assert(told(r.previews, other) == told(s.previews, other));
    assert(told(r.diffs, other) == told(s.diffs, other));
}

/// What an event reports of its card is what is known afterwards, and the rest of what
/// is known of the card stays. An empty answer or handoff takes back the one there was;
/// a line of a transcript comes last.
#[verifier::rlimit(40)]
pub proof fn events_tell_what_they_say(s: StateView, evt: ExecutorEvent)
    ensures
        ({
            let id = evt.card_id;
            let before = known_of(s, id);
            let after = known_of(reduced(s, evt), id);
            match evt.kind {
                ExecutorEventKind::SkipPlanChanged { skip } => after == (Known {
                    skips_plan: Some(skip),
                    ..before
                }),
                ExecutorEventKind::AutoReviewChanged { auto } => after == (Known {
                    auto_reviews: Some(auto),
                    ..before
                }),
                ExecutorEventKind::CardBusy { busy } => after == (Known { busy, ..before }),
                ExecutorEventKind::AttachmentsChanged { paths } => after == (Known {
                    attachments: Some(paths),
                    ..before
                }),
                ExecutorEventKind::Transcript { ts, line } => after == (Known {
                    transcript: before.transcript + seq![(ts, line)],
                    ..before
                }),
                ExecutorEventKind::RecapUpdated { recap } => after == (Known {
                    recap: Some(recap),
                    ..before
                }),
                ExecutorEventKind::AnswerUpdated { question, answer } => after == (Known {
                    answer: if answer@.len() == 0 {
                        None
                    } else {
                        Some((question, answer))
                    },
                    ..before
                }),
                ExecutorEventKind::HandoffUpdated { handoff } => after == (Known {
                    handoff: if handoff.summary@.len() == 0 && handoff.questions@.len() == 0
                        && handoff.tests@.len() == 0 {
                        None
                    } else {
                        Some(handoff)
                    },
                    ..before
                }),
                ExecutorEventKind::PreviewUpdated { status, urls } => after == (Known {
                    preview: Some((status, urls)),
                    ..before
                }),
                ExecutorEventKind::DiffUpdated { state } => after == (Known {
                    diff: Some(state),
                    ..before
                }),
                ExecutorEventKind::CardRemoved => after == (Known {
                    attachments: None,
                    transcript: Seq::empty(),
                    answer: None,
                    ..before
                }),
                _ => after == before,
            }
        }),
{
    if let ExecutorEventKind::Transcript { ts, line } = evt.kind {
        let t = list_at(s.transcripts, evt.card_id);
        assert(t.push((ts, line)) =~= t + seq![(ts, line)]);
    }
}

/// What is known of a project changes only by an event about that project, which tells
/// its own part of it.
#[verifier::rlimit(40)]
pub proof fn project_events_tell_what_they_say(s: StateView, evt: ExecutorEvent, project: Id)
    ensures
        ({
            let before = known_project(s, project);
            let after = known_project(reduced(s, evt), project);
            match evt.kind {
                ExecutorEventKind::Reviewers { project_id, logins } if project_id == project => after
                    == (KnownProject { reviewers: Some(logins), ..before }),
                ExecutorEventKind::AdoptSources { project_id, refs } if project_id == project => after
                    == (KnownProject { sources: Some(refs), ..before }),
                ExecutorEventKind::AdoptProbe { project_id, probe } if project_id == project => after
                    == (KnownProject { probe: Some(probe), ..before }),
                _ => after == before,
            }
        }),
{
}

/// An event leaves alone what it is not about: the records but for its own, the
/// settings, the usage, the toasts, the dialogs, the selection and the drafts. No event
/// changes the board's mode.
#[verifier::rlimit(40)]
pub proof fn events_leave_the_rest(s: StateView, evt: ExecutorEvent)
    ensures
        ({
            let r = reduced(s, evt);
            let k = evt.kind;
            let removes = k is CardRemoved || k is ProjectRemoved;
            &&& r.board_mode == s.board_mode
            &&& r.cards == s.cards || k is CardUpdated || removes
            &&& r.projects == s.projects || k is ProjectUpserted || k is ProjectRemoved
            &&& r.settings == s.settings || k is SettingsUpdated
            &&& r.usage == s.usage || k is UsageUpdated
            &&& r.toasts == s.toasts && r.next_toast == s.next_toast || k is Toast
            &&& r.ui == s.ui || k is MergeConflict || k is ChecksFailed
            &&& r.ui == (OverlaysView { confirm: r.ui.confirm, note: r.ui.note, ..s.ui })
            &&& r.review_tasks == s.review_tasks || k is ReviewTasksUpdated || k is ReviewTaskUpdated
                || k is ProjectRemoved
            &&& r.drafts == s.drafts || removes || k is ReviewTasksUpdated
            &&& r.selected_view == s.selected_view || k is ProjectRemoved
            &&& r.selected_card == s.selected_card || (r.selected_card is None && removes)
            &&& r.selected_review == s.selected_review || (r.selected_review is None && (
            k is ProjectRemoved || k is ReviewTasksUpdated))
            &&& k matches ExecutorEventKind::SettingsUpdated(settings) ==> r.settings == *settings
            &&& k matches ExecutorEventKind::UsageUpdated(snapshot) ==> r.usage == snapshot
        }),
{
}

/// Removing a card removes that card and leaves the others, their drafts and a selection
/// that is another's.
pub proof fn removal_spares_the_others(s: StateView, id: Id, card: Card, key: (Id, Seq<char>))
    ensures
        ({
            let r = reduced(
                s,
                (ExecutorEvent { card_id: id, kind: ExecutorEventKind::CardRemoved }),
            );
            &&& r.cards.contains(card) <==> s.cards.contains(card) && card.id != id
            &&& key.0 != id ==> told_draft(r, key) == told_draft(s, key)
            &&& s.selected_card != Some(id) ==> r.selected_card == s.selected_card
        }),
{
    a_filter_keeps_what_passes(s.cards, |c: Card| c.id != id, card);
}

pub open spec fn told_draft(s: StateView, key: (Id, Seq<char>)) -> Option<Seq<char>> {
    if s.drafts.contains_key(key) {
        Some(s.drafts[key])
    } else {
        None
    }
}

/// Removing a project removes its record and its cards and leaves the others, with
/// their reviews and, where it is another's, what is selected.
pub proof fn project_removal_spares_the_others(
    s: StateView,
    card_id: Id,
    project_id: Id,
    card: Card,
    project: Project,
    other: Id,
)
    requires
        other != project_id,
    ensures
        ({
            let r = reduced(
                s,
                (ExecutorEvent { card_id, kind: ExecutorEventKind::ProjectRemoved { project_id } }),
            );
            &&& r.cards.contains(card) <==> s.cards.contains(card) && card.project_id != project_id
            &&& r.projects.contains(project) <==> s.projects.contains(project) && project.id
                != project_id
            &&& list_at(r.review_tasks, other) == list_at(s.review_tasks, other)
            &&& s.selected_view != SelectedView::Project(project_id) ==> r.selected_view
                == s.selected_view
            &&& s.selected_view == SelectedView::Project(project_id) ==> r.selected_view
                == SelectedView::Global
            &&& s.selected_card == Some(card.id) && s.cards.contains(card) && card.project_id
                != project_id ==> r.selected_card == s.selected_card
        }),
{
    a_filter_keeps_what_passes(s.cards, |c: Card| c.project_id != project_id, card);
    a_filter_keeps_what_passes(s.projects, |p: Project| p.id != project_id, project);
    let kept = s.cards.filter(|c: Card| c.project_id != project_id);
    if kept.contains(card) {
        let i = kept.index_of(card);
        assert(kept[i].id == card.id);
    }
}

/// A record that comes in is there afterwards, in the place of the one with its id or at
/// the end, and every other record stays where it was.
pub proof fn records_come_in_one_by_one(
    s: StateView,
    card_id: Id,
    project: Box<Project>,
    task: Box<ReviewTask>,
    i: int,
    other: Id,
)
    ensures
        ({
            let r = reduced(
                s,
                (ExecutorEvent { card_id, kind: ExecutorEventKind::ProjectUpserted(project) }),
            );
            let known = exists|j: int|
                0 <= j < s.projects.len() && (#[trigger] s.projects[j]).id == project.id;
            &&& r.projects.contains(*project)
            &&& 0 <= i < s.projects.len() && s.projects[i].id != project.id ==> r.projects[i]
                == s.projects[i]
            &&& r.projects.len() == s.projects.len() + (if known {
                0int
            } else {
                1int
            })
        }),
        ({
            let r = reduced(
                s,
                (ExecutorEvent { card_id, kind: ExecutorEventKind::ReviewTaskUpdated(task) }),
            );
            let before = list_at(s.review_tasks, task.project_id);
            let after = list_at(r.review_tasks, task.project_id);
            &&& after.contains(*task)
            &&& 0 <= i < before.len() && before[i].id != task.id ==> after[i] == before[i]
            &&& after.len() == before.len() + (if in_list(before, task.id) {
                0int
            } else {
                1int
            })
            &&& other != task.project_id ==> list_at(r.review_tasks, other) == list_at(
                s.review_tasks,
                other,
            )
        }),
{
    let same_project = |p: Project| p.id == project.id;
    let same_task = |t: ReviewTask| t.id == task.id;
    an_upsert_replaces_or_adds(s.projects, *project, same_project, i);
    let before = list_at(s.review_tasks, task.project_id);
    an_upsert_replaces_or_adds(before, *task, same_task, i);
    assert((exists|j: int| 0 <= j < s.projects.len() && same_project(#[trigger] s.projects[j]))
        == exists|j: int| 0 <= j < s.projects.len() && (#[trigger] s.projects[j]).id == project.id);
    assert((exists|j: int| 0 <= j < before.len() && same_task(#[trigger] before[j])) == in_list(
        before,
        task.id,
    ));
}

/// Conflicts and failing checks are offered to the agent in a dialog that says which
/// pull request, against what or which checks, and sends nothing by itself.
pub proof fn failures_are_offered(
    s: StateView,
    card_id: Id,
    pr_number: u64,
    base: String,
    failed: Vec<String>,
)
    ensures
        ({
            let r = reduced(
                s,
                (ExecutorEvent {
                    card_id,
                    kind: ExecutorEventKind::MergeConflict { pr_number, base },
                }),
            );
            r.ui.confirm matches Some(req) && leads_to(GestureView::Ask(req)) == Some(
                ExecutorCommand::ResolveConflicts { card_id },
            ) && !req.danger && within(req.message, decimal(pr_number as nat)) && within(
                req.message,
                base@,
            )
        }),
        ({
            let r = reduced(
                s,
                (ExecutorEvent {
                    card_id,
                    kind: ExecutorEventKind::ChecksFailed { pr_number, failed },
                }),
            );
            r.ui.confirm matches Some(req) && leads_to(GestureView::Ask(req)) == Some(
                ExecutorCommand::FixChecks { card_id },
            ) && !req.danger && within(req.message, decimal(pr_number as nat)) && (failed@.len() > 0
                ==> within(req.message, join(texts(failed@), ", "@)))
        }),
{
    let n = decimal(pr_number as nat);
    let b1 = " can't be merged — it conflicts with `"@;
    let b2 = "`.\n\nHave the agent merge `"@;
    let b3 = "` into the branch, resolve the conflicts, and push? You can review the result before merging again."@;
    let m = conflict_offer(card_id, pr_number, base@).message;
    assert(m =~= "PR #"@ + n + (b1 + base@ + b2 + (base@ + b3)));
    parts_are_found("PR #"@, n, b1 + base@ + b2 + (base@ + b3));
    assert(m =~= "PR #"@ + n + b1 + base@ + (b2 + (base@ + b3)));
    parts_are_found("PR #"@ + n + b1, base@, b2 + (base@ + b3));
    let c1 = " can't be merged — its CI checks are failing."@;
    let c2 = "\n\nHave the agent investigate the failures, fix them, and push? The checks re-run on the push."@;
    let names = texts(failed@);
    let w = checks_offer(card_id, pr_number, names).message;
    assert(w =~= "PR #"@ + n + (c1 + failing_names(names) + c2));
    parts_are_found("PR #"@, n, c1 + failing_names(names) + c2);
    if failed@.len() > 0 {
        let list = join(names, ", "@);
        assert(w =~= "PR #"@ + n + c1 + "\n\nFailing: "@ + list + c2);
        parts_are_found("PR #"@ + n + c1 + "\n\nFailing: "@, list, c2);
    }
}

// ---- Starting up ---------------------------------------------------------

/// The reviews of each project, in the order they came.
pub open spec fn grouped(tasks: Seq<ReviewTask>) -> Map<Id, Seq<ReviewTask>> {
    Map::new(
        |p: Id|
            exists|i: int| 0 <= i < tasks.len() && (#[trigger] tasks[i]).project_id == p,
        |p: Id| tasks.filter(|t: ReviewTask| t.project_id == p),
    )
}

proof fn grouped_step(tasks: Seq<ReviewTask>, t: ReviewTask)
    ensures
        grouped(tasks.push(t)) == grouped(tasks).insert(
            t.project_id,
            list_at(grouped(tasks), t.project_id).push(t),
        ),
{
    let next = tasks.push(t);
    let want = grouped(tasks).insert(
        t.project_id,
        list_at(grouped(tasks), t.project_id).push(t),
    );
    assert(next.drop_last() =~= tasks);
    assert forall|p: Id| #[trigger] grouped(next).dom().contains(p) == want.dom().contains(p) by {
        if grouped(tasks).dom().contains(p) {
            let i = choose|i: int| 0 <= i < tasks.len() && (#[trigger] tasks[i]).project_id == p;
            assert(next[i].project_id == p);
        }
        assert(next[tasks.len() as int] == t);
        if grouped(next).dom().contains(p) && p != t.project_id {
            let i = choose|i: int| 0 <= i < next.len() && (#[trigger] next[i]).project_id == p;
            assert(tasks[i].project_id == p);
        }
    }
    assert forall|p: Id| #[trigger] grouped(next).dom().contains(p) implies grouped(next)[p]
        == want[p] by {
        reveal(Seq::filter);
        let here = |t: ReviewTask| t.project_id == p;
        if p == t.project_id && !grouped(tasks).contains_key(p) {
            if tasks.filter(here).len() > 0 {
                filter_from(tasks, here, 0);
                let i = choose|i: int| 0 <= i < tasks.len() && tasks[i] == tasks.filter(here)[0];
                assert(tasks[i].project_id == p);
            }
            assert(tasks.filter(here) =~= Seq::empty());
        }
    }
    assert(grouped(next) =~= want);
}

/// Group the stored reviews by project for the review board.
pub fn group_reviews(tasks: Vec<ReviewTask>) -> (r: HashMap<Id, Vec<ReviewTask>>)
    ensures
        lists(r@) == grouped(tasks@),
{
    let mut out: HashMap<Id, Vec<ReviewTask>> = HashMap::new();
    let ghost all = tasks@;
    assert(lists(out@) =~= grouped(all.take(0)));
    for t in it: tasks.into_iter()
        invariant
            it.seq() == all,
            lists(out@) == grouped(all.take(it.index())),
    {
        let ghost before = out@;
        let p: Id = t.project_id;
        proof {
            let i = it.index();
            assert(all.take(i + 1) =~= all.take(i).push(t));
            grouped_step(all.take(i), t);
        }
        let mut list = take_list(&mut out, p);
        list.push(t);
        proof {
            lists_insert(before, p, list);
        }
        out.insert(p, list);
    }
    assert(all.take(all.len() as int) =~= all);
    out
}

/// What the store holds at launch.
pub struct Records {
    pub projects: Vec<Project>,
    pub cards: Vec<Card>,
    pub settings: AppSettings,
    pub review_tasks: Vec<ReviewTask>,
    pub skip_plans: HashMap<Id, bool>,
    pub auto_reviews: HashMap<Id, bool>,
    pub attachments: HashMap<Id, Vec<String>>,
    pub review_recaps: HashMap<Id, String>,
    pub answers: HashMap<Id, (String, String)>,
    pub handoffs: HashMap<Id, Handoff>,
}

impl AppState {
    /// The state at launch: what the store holds, nothing selected, nothing in
    /// flight.
    pub fn init(records: Records) -> (r: AppState)
        ensures
            r@.projects == records.projects@,
            r@.cards == records.cards@,
            r@.settings == records.settings,
            r@.review_tasks == grouped(records.review_tasks@),
            r@.skip_plans == records.skip_plans@,
            r@.auto_reviews == records.auto_reviews@,
            r@.attachments == records.attachments@,
            r@.review_recaps == records.review_recaps@,
            r@.answers == records.answers@,
            r@.handoffs == records.handoffs@,
            r@.selected_view == SelectedView::Global,
            r@.board_mode == BoardMode::Normal,
            r@.selected_card is None,
            r@.selected_review is None,
            r@.transcripts == Map::<Id, Seq<(i64, String)>>::empty(),
            r@.reviewers == Map::<Id, Vec<String>>::empty(),
            r@.adopt_sources == Map::<Id, Vec<String>>::empty(),
            r@.adopt_probes == Map::<Id, AdoptProbe>::empty(),
            r@.previews == Map::<Id, (PreviewStatus, Vec<PreviewUrl>)>::empty(),
            r@.diffs == Map::<Id, DiffState>::empty(),
            r@.busy == Set::<Id>::empty(),
            r@.usage == (UsageSnapshot { claude: None, codex: None, refreshed_at: None }),
            r@.drafts == Map::<(Id, Seq<char>), Seq<char>>::empty(),
            r@.toasts == Seq::<Toast>::empty(),
            r@.next_toast == 1,
            r.ui.confirm is None && r.ui.edits is None && r.ui.diff is None,
            r.ui.note@ == Seq::<char>::empty(),
    {
        let r = AppState {
            projects: records.projects,
            cards: records.cards,
            settings: records.settings,
            selected_view: SelectedView::Global,
            board_mode: BoardMode::Normal,
            selected_card: None,
            selected_review: None,
            transcripts: HashMap::new(),
            reviewers: HashMap::new(),
            adopt_sources: HashMap::new(),
            adopt_probes: HashMap::new(),
            review_tasks: group_reviews(records.review_tasks),
            skip_plans: records.skip_plans,
            auto_reviews: records.auto_reviews,
            attachments: records.attachments,
            review_recaps: records.review_recaps,
            answers: records.answers,
            handoffs: records.handoffs,
            previews: HashMap::new(),
            diffs: HashMap::new(),
            busy: HashSet::new(),
            usage: UsageSnapshot { claude: None, codex: None, refreshed_at: None },
            drafts: DraftMap::new(),
            toasts: Toasts::new(),
            ui: Overlays::new(),
        };
        assert(r@.transcripts =~= Map::<Id, Seq<(i64, String)>>::empty());
        r
    }
}

/// A switch is on for `1`, and for `true` in any letter case.
pub open spec fn switched_on(v: Seq<char>) -> bool {
    v == seq!['1'] || (v.len() == 4 && (v[0] == 't' || v[0] == 'T') && (v[1] == 'r' || v[1]
        == 'R') && (v[2] == 'u' || v[2] == 'U') && (v[3] == 'e' || v[3] == 'E'))
}

/// A switch is on for a one and for the word true, in capitals or not, and for nothing
/// else.
pub proof fn a_switch_reads_any_case(v: Seq<char>)
    ensures
        switched_on(v) <==> ascii_lowered(v) == "1"@ || ascii_lowered(v) == "true"@,
{
    let l = ascii_lowered(v);
    reveal_strlit("1");
    reveal_strlit("true");
    assert forall|i: int| 0 <= i < v.len() implies #[trigger] l[i] == ascii_lower(v[i]) && ('A'
        <= v[i] <= 'Z' ==> l[i] as int == v[i] as int + 32) && (!('A' <= v[i] <= 'Z') ==> l[i]
        == v[i]) by {
        capitals_become_small(v[i]);
    }
    if switched_on(v) {
        if v == seq!['1'] {
            assert(l =~= "1"@);
        } else {
            assert(l =~= "true"@);
        }
    }
    assert(l.len() == v.len());
    if l == "1"@ {
        assert("1"@[0] == '1' && "1"@.len() == 1);
        assert(l[0] == '1');
        assert(v[0] == '1');
        assert(v =~= seq!['1']);
    }
    if l == "true"@ {
        assert("true"@.len() == 4);
        assert(l[0] == 't' && l[1] == 'r' && l[2] == 'u' && l[3] == 'e');
        assert(v.len() == 4);
        assert(v[0] == 't' || v[0] == 'T');
        assert(v[1] == 'r' || v[1] == 'R');
        assert(v[2] == 'u' || v[2] == 'U');
        assert(v[3] == 'e' || v[3] == 'E');
    }
}

/// Whether the value of the demo switch, if it is set, asks for demo mode.
pub fn demo_mode(value: Option<&str>) -> (r: bool)
    ensures
        r == (value matches Some(v) && switched_on(v@)),
{
    match value {
        None => false,
        Some(v) => {
            let c = crate::text::chars_of(v);
            if c.len() == 1 {
                assert(c@[0] == '1' ==> c@ =~= seq!['1']);
                c[0] == '1'
            } else {
                assert(v@ == seq!['1'] ==> v@.len() == 1);
                c.len() == 4 && (c[0] == 't' || c[0] == 'T') && (c[1] == 'r' || c[1] == 'R') && (
                c[2] == 'u' || c[2] == 'U') && (c[3] == 'e' || c[3] == 'E')
            }
        },
    }
}

/// The user-visible name: a test window is never mistaken for the real one.
pub fn app_display_name(demo: bool) -> (r: &'static str)
    ensures
        r@ == (if demo {
            "Usine (test)"@
        } else {
            "Usine"@
        }),
{
    if demo {
        "Usine (test)"
    } else {
        "Usine"
    }
}

/// The toast of a first launch that found only the second agent; `label` names
/// the first.
pub open spec fn fallback_words(label: Seq<char>) -> Seq<char> {
    label + " CLI not found — defaulting to Codex"@
}

/// The toast of a first launch that found no agent; `binary` is the command of
/// the first.
pub open spec fn nothing_found_words(binary: Seq<char>) -> Seq<char> {
    "No agent CLI found on PATH — install "@ + binary + " or codex"@
}

/// What a first launch says about the agent it defaults to: `seeded` is the
/// provider just recorded, if one was, and the flags tell which agents are
/// installed. `label` and `binary` are the default provider's.
pub fn provider_notice(
    seeded: Option<Provider>,
    claude: bool,
    codex: bool,
    label: &str,
    binary: &str,
) -> (r: Option<(Severity, String)>)
    ensures
        match seeded {
            Some(Provider::Codex) => r is Some && (r->0).0 == Severity::Info && (r->0).1@
                == fallback_words(label@),
            Some(Provider::Claude) if !claude && !codex => r is Some && (r->0).0 == Severity::Warning
                && (r->0).1@ == nothing_found_words(binary@),
            _ => r is None,
        },
{
    match seeded {
        Some(Provider::Codex) => Some(
            (Severity::Info, cat2(label, " CLI not found — defaulting to Codex")),
        ),
        Some(Provider::Claude) => if !claude && !codex {
            Some(
                (
                    Severity::Warning,
                    cat3("No agent CLI found on PATH — install ", binary, " or codex"),
                ),
            )
        } else {
            None
        },
        None => None,
    }
}

/// What is said when the database cannot be opened.
pub open spec fn store_failure_text(error: Seq<char>, locked: bool) -> Seq<char> {
    "could not open database ("@ + error + ")."@ + (if locked {
        " Quit any other Usine instance — the database allows only one writer."@
    } else {
        Seq::empty()
    })
        + " Falling back to a temporary in-memory store — the board starts empty and changes will NOT be saved"@
}

pub fn store_failure(error: &str, locked: bool) -> (r: String)
    ensures
        r@ == store_failure_text(error@, locked),
{
    let hint = if locked {
        " Quit any other Usine instance — the database allows only one writer.".to_owned()
    } else {
        String::new()
    };
    cat5(
        "could not open database (",
        error,
        ").",
        hint.as_str(),
        " Falling back to a temporary in-memory store — the board starts empty and changes will NOT be saved",
    )
}

/// The number shown on the dock: the cards and reviews waiting on the user.
pub fn badge_label(cards: usize, reviews: usize) -> (r: Option<String>)
    requires
        cards + reviews <= u64::MAX,
    ensures
        match r {
            Some(s) => cards + reviews > 0 && s@ == decimal((cards + reviews) as nat),
            None => cards + reviews == 0,
        },
{
    let n: u64 = cards as u64 + reviews as u64;
    if n > 0 {
        Some(decimal_text(n))
    } else {
        None
    }
}

/// Whether a launch from a shell starts over in the background: only the
/// installed program does, once, and unless told not to.
pub fn should_detach(debug_build: bool, detached: bool, stay: bool) -> (r: bool)
    ensures
        r == (!debug_build && !detached && !stay),
{
    !(debug_build || detached || stay)
}

/// The reviews at startup stand under their own projects, all of them and in their
/// order.
pub proof fn reviews_stand_under_their_project(tasks: Seq<ReviewTask>, t: ReviewTask, p: Id)
    ensures
        list_at(grouped(tasks), p).contains(t) <==> tasks.contains(t) && t.project_id == p,
        grouped(tasks).contains_key(p) <==> exists|i: int|
            0 <= i < tasks.len() && (#[trigger] tasks[i]).project_id == p,
{
    a_filter_keeps_what_passes(tasks, |t: ReviewTask| t.project_id == p, t);
    if tasks.contains(t) && t.project_id == p {
        let i = tasks.index_of(t);
        assert(tasks[i].project_id == p);
    }
}

/// The user is told where the provider was picked for them and where there is none.
pub proof fn a_missing_provider_is_told(
    seeded: Option<Provider>,
    first: bool,
    second: bool,
    label: &str,
    binary: &str,
    r: Option<(Severity, String)>,
)
    requires
        call_ensures(provider_notice, (seeded, first, second, label, binary), r),
    ensures
        r is Some <==> seeded is Some && (seeded->0 is Codex || (!first && !second)),
        seeded == Some(Provider::Codex) ==> (r->0).0 == Severity::Info && starts(
            (r->0).1@,
            label@,
        ),
        r is Some && seeded != Some(Provider::Codex) ==> (r->0).0 == Severity::Warning && within(
            (r->0).1@,
            binary@,
        ),
{
    parts_are_found(Seq::empty(), label@, " CLI not found — defaulting to Codex"@);
    parts_are_found("No agent CLI found on PATH — install "@, binary@, " or codex"@);
}

/// A store that did not open is told with its error; that another instance holds it is
/// said only where it does.
pub proof fn a_store_failure_is_told(error: Seq<char>)
    ensures
        within(store_failure_text(error, true), error),
        within(store_failure_text(error, false), error),
        store_failure_text(error, true).len() > store_failure_text(error, false).len(),
{
    let a = "could not open database ("@;
    let b = ")."@;
    let c = " Quit any other Usine instance — the database allows only one writer."@;
    let d = " Falling back to a temporary in-memory store — the board starts empty and changes will NOT be saved"@;
    assert(store_failure_text(error, true) =~= a + error + (b + c + d));
    parts_are_found(a, error, b + c + d);
    assert(store_failure_text(error, false) =~= a + error + (b + d));
    parts_are_found(a, error, b + d);
    reveal_strlit(" Quit any other Usine instance — the database allows only one writer.");
}

/// The badge counts the cards and the reviews that wait together, and is gone where none
/// does.
pub proof fn the_badge_counts_what_waits(cards: usize, reviews: usize, r: Option<String>)
    requires
        cards + reviews <= u64::MAX,
        call_ensures(badge_label, (cards, reviews), r),
    ensures
        r is None <==> cards == 0 && reviews == 0,
        r matches Some(t) ==> t@ == decimal((cards + reviews) as nat),
{
}

/// The app leaves its terminal in a release build, unless it already did or is told to
/// stay.
pub proof fn when_the_app_detaches(debug: bool, detached: bool, stay: bool, r: bool)
    requires
        call_ensures(should_detach, (debug, detached, stay), r),
    ensures
        r ==> !debug && !detached && !stay,
        !r ==> debug || detached || stay,
{
}

/// The app starts with its records, and with nothing selected, told or typed.
pub proof fn the_app_starts_with_its_records(records: Records, r: AppState, id: Id)
    requires
        call_ensures(AppState::init, (records,), r),
    ensures
        r.projects@ == records.projects@,
        r.cards@ == records.cards@,
        r.settings == records.settings,
        r.skip_plans@ == records.skip_plans@,
        r.auto_reviews@ == records.auto_reviews@,
        r.attachments@ == records.attachments@,
        r.review_recaps@ == records.review_recaps@,
        r.answers@ == records.answers@,
        r.handoffs@ == records.handoffs@,
        r.selected_view is Global,
        r.board_mode is Normal,
        r.selected_card is None && r.selected_review is None,
        known_of(r@, id).transcript.len() == 0,
        !known_of(r@, id).busy,
        known_of(r@, id).preview is None && known_of(r@, id).diff is None,
        r@.drafts.dom() == Set::<(Id, Seq<char>)>::empty(),
        r@.toasts.len() == 0,
        r.ui.confirm is None,
{
}

} // verus!
