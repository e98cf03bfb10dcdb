//! Navigation, what the panels read from the state, and the commands they send.

use vstd::prelude::*;

use crate::command::{card_of, review_of, ExecutorCommand, ExecutorEvent, ExecutorEventKind};
use crate::lists::{
    a_filter_keeps_what_passes, count, count_where, derefs, first_where, first_where_is_first,
    position, select, sort_by_key, stable_sorted, stable_sorted_orders,
};
use crate::model::{
    AppSettings, Card, DiffState, DirtyAction, Id, PreviewStatus, PreviewUrl, Project, ReviewTask,
    Severity,
};
use crate::state::{
    has_card, list_at, lists, projects_distinct, reduced, AppState, BoardMode, SelectedView,
    StateView,
};
use crate::toast::{newest, MAX_TOASTS};

verus! {

broadcast use vstd::std_specs::hash::group_hash_axioms;

// ---- Navigation ----------------------------------------------------------

/// The state with another view selected: always back on the card board.
pub open spec fn viewing(s: StateView, view: SelectedView) -> StateView {
    StateView {
        selected_view: view,
        board_mode: BoardMode::Normal,
        selected_review: None,
        ..s
    }
}

/// The state on a project's review board.
pub open spec fn reviewing(s: StateView, project_id: Id) -> StateView {
    StateView { board_mode: BoardMode::Review, ..viewing(s, SelectedView::Project(project_id)) }
}

/// The state back on the card board.
pub open spec fn done_reviewing(s: StateView) -> StateView {
    StateView { board_mode: BoardMode::Normal, selected_review: None, ..s }
}

/// The state after escape: an open menu takes the key, else the panel closes.
pub open spec fn escaped(s: StateView, menu_open: bool) -> StateView {
    if menu_open {
        s
    } else {
        StateView { selected_card: None, ..s }
    }
}

impl AppState {
    pub fn select_card(&mut self, id: Option<Id>)
        ensures
            final(self)@ == (StateView { selected_card: id, ..old(self)@ }),
    {
        self.selected_card = id;
    }

    pub fn select_review(&mut self, id: Option<Id>)
        ensures
            final(self)@ == (StateView { selected_review: id, ..old(self)@ }),
    {
        self.selected_review = id;
    }

    pub fn select_view(&mut self, view: SelectedView)
        ensures
            final(self)@ == viewing(old(self)@, view),
    {
        self.selected_view = view;
        self.board_mode = BoardMode::Normal;
        self.select_review(None);
    }

    pub fn board_mode(&self) -> (r: BoardMode)
        ensures
            r == self@.board_mode,
    {
        self.board_mode
    }

    /// Enter the review board of a project: select it, switch boards, and have
    /// its pull requests looked up.
    pub fn enter_review_mode(&mut self, project_id: Id) -> (r: ExecutorCommand)
        ensures
            final(self)@ == reviewing(old(self)@, project_id),
            r == (ExecutorCommand::ScanReviews { project_id }),
    {
        self.select_view(SelectedView::Project(project_id));
        self.board_mode = BoardMode::Review;
        self.scan_reviews(project_id)
    }

    pub fn exit_review_mode(&mut self)
        ensures
            final(self)@ == done_reviewing(old(self)@),
    {
        self.board_mode = BoardMode::Normal;
        self.select_review(None);
    }

    /// Escape closes the topmost thing that can be closed: an open menu first,
    /// the panel otherwise. Whether it is the menu.
    pub fn escape(&mut self, menu_open: bool) -> (closes_menu: bool)
        ensures
            closes_menu == menu_open,
            final(self)@ == escaped(old(self)@, menu_open),
    {
        if !menu_open {
            self.select_card(None);
        }
        menu_open
    }
}

/// Entering and leaving the review board ends on the card board of that
/// project, with no review open.
pub proof fn review_board_round_trip(s: StateView, project_id: Id)
    ensures
        done_reviewing(reviewing(s, project_id)) == viewing(s, SelectedView::Project(project_id)),
        reviewing(s, project_id).board_mode == BoardMode::Review,
        reviewing(s, project_id).selected_view == SelectedView::Project(project_id),
        reviewing(s, project_id).selected_card == s.selected_card,
        done_reviewing(s).board_mode == BoardMode::Normal,
        done_reviewing(s).selected_view == s.selected_view,
{
}

// ---- Lookups -------------------------------------------------------------

/// The cards a view shows.
pub open spec fn in_view(view: SelectedView, c: Card) -> bool {
    match view {
        SelectedView::Global => true,
        SelectedView::Project(id) => c.project_id == id,
    }
}

/// The cards of the selected view, oldest first.
pub open spec fn shown_cards(cards: Seq<Card>, view: SelectedView) -> Seq<Card> {
    stable_sorted(cards.filter(|c: Card| in_view(view, c)), |c: Card| c.created_at as int)
}

/// The reviews of every list that wait on the user.
pub open spec fn waiting_reviews(tasks: Map<Id, Seq<ReviewTask>>) -> nat
    decreases tasks.dom().len(),
    when tasks.dom().finite()
{
    if tasks.dom().len() == 0 {
        0
    } else {
        let k = tasks.dom().choose();
        count_where(tasks[k], |t: ReviewTask| t.facts.needs_attention) + waiting_reviews(
            tasks.remove(k),
        )
    }
}

/// The total does not depend on the order the lists are counted in.
pub proof fn waiting_reviews_by(tasks: Map<Id, Seq<ReviewTask>>, k: Id)
    requires
        tasks.dom().finite(),
        tasks.contains_key(k),
    ensures
        waiting_reviews(tasks) == count_where(
            tasks[k],
            |t: ReviewTask| t.facts.needs_attention,
        ) + waiting_reviews(tasks.remove(k)),
    decreases tasks.dom().len(),
{
    let c = tasks.dom().choose();
    assert(tasks.dom().contains(c));
    if c != k {
        waiting_reviews_by(tasks.remove(c), k);
        assert(tasks.remove(c).remove(k) =~= tasks.remove(k).remove(c));
        waiting_reviews_by(tasks.remove(k), c);
    }
}

/// What a project is called; a dash stands for one that is not there.
pub open spec fn name_of(projects: Seq<Project>, id: Id) -> Seq<char> {
    match first_where(projects, |p: Project| p.id == id) {
        Some(i) => projects[i].name@,
        None => "—"@,
    }
}

impl AppState {
    pub fn find_card(&self, id: Id) -> (r: Option<&Card>)
        ensures
            match first_where(self@.cards, |c: Card| c.id == id) {
                Some(i) => r == Some(&self@.cards[i]),
                None => r is None,
            },
    {
        let same = |c: &Card| -> (b: bool)
            ensures
                b == (c.id == id),
        {
            c.id == id
        };
        match position(&self.cards, same, Ghost(|c: Card| c.id == id)) {
            Some(i) => Some(&self.cards[i]),
            None => None,
        }
    }

    pub fn find_project(&self, id: Id) -> (r: Option<&Project>)
        ensures
            match first_where(self@.projects, |p: Project| p.id == id) {
                Some(i) => r == Some(&self@.projects[i]),
                None => r is None,
            },
    {
        let same = |p: &Project| -> (b: bool)
            ensures
                b == (p.id == id),
        {
            p.id == id
        };
        match position(&self.projects, same, Ghost(|p: Project| p.id == id)) {
            Some(i) => Some(&self.projects[i]),
            None => None,
        }
    }

    pub fn project_name(&self, id: Id) -> (r: String)
        ensures
            r@ == name_of(self@.projects, id),
    {
        match self.find_project(id) {
            Some(p) => p.name.clone(),
            None => "—".to_owned(),
        }
    }

    /// The cards of the selected view, in the order they were created.
    pub fn visible_cards(&self) -> (r: Vec<&Card>)
        ensures
            derefs(r@) == shown_cards(self@.cards, self@.selected_view),
    {
        let view = self.selected_view;
        let keep = |c: &Card| -> (b: bool)
            ensures
                b == in_view(view, *c),
        {
            match view {
                SelectedView::Global => true,
                SelectedView::Project(id) => c.project_id == id,
            }
        };
        let out = select(&self.cards, keep, Ghost(|c: Card| in_view(view, c)));
        let key = |c: &Card| -> (k: i128)
            ensures
                k == c.created_at,
        {
            c.created_at as i128
        };
        sort_by_key(out, key, Ghost(|c: Card| c.created_at as int))
    }

    /// A project's reviews, in the order they came.
    pub fn review_tasks_for(&self, project_id: Id) -> (r: Vec<&ReviewTask>)
        ensures
            derefs(r@) == list_at(self@.review_tasks, project_id),
    {
        match self.review_tasks.get(&project_id) {
            Some(v) => {
                let all = |t: &ReviewTask| -> (b: bool)
                    ensures
                        b,
                {
                    true
                };
                let out = select(v, all, Ghost(|t: ReviewTask| true));
                proof {
                    filter_true(v@);
                }
                out
            },
            None => {
                let out: Vec<&ReviewTask> = Vec::new();
                assert(derefs(out@) =~= Seq::empty());
                out
            },
        }
    }

    /// How many of a project's reviews wait on the user.
    pub fn project_review_count(&self, project_id: Id) -> (r: usize)
        ensures
            r == count_where(
                list_at(self@.review_tasks, project_id),
                |t: ReviewTask| t.facts.needs_attention,
            ),
    {
        match self.review_tasks.get(&project_id) {
            Some(v) => count_waiting(v),
            None => 0,
        }
    }

    /// How many cards wait on the user, over all projects.
    pub fn attention_count(&self) -> (r: usize)
        ensures
            r == count_where(self@.cards, |c: Card| c.facts.needs_attention),
    {
        let waits = |c: &Card| -> (b: bool)
            ensures
                b == c.facts.needs_attention,
        {
            c.facts.needs_attention
        };
        count(&self.cards, waits, Ghost(|c: Card| c.facts.needs_attention))
    }

    /// How many of a project's cards wait on the user, and how many of those
    /// failed or are blocked on a question.
    pub fn project_attention_counts(&self, project_id: Id) -> (r: (usize, usize))
        ensures
            r.0 == count_where(
                self@.cards,
                |c: Card| c.project_id == project_id && c.facts.needs_attention,
            ),
            r.1 == count_where(
                self@.cards,
                |c: Card|
                    c.project_id == project_id && c.facts.needs_attention
                        && c.facts.needs_urgent_attention,
            ),
            r.1 <= r.0,
    {
        let ghost waits = |c: Card| c.project_id == project_id && c.facts.needs_attention;
        let ghost urges = |c: Card|
            c.project_id == project_id && c.facts.needs_attention && c.facts.needs_urgent_attention;
        let mut waiting: usize = 0;
        let mut urgent: usize = 0;
        let mut i: usize = 0;
        while i < self.cards.len()
            invariant
                urgent <= waiting <= i <= self.cards.len(),
                waits == (|c: Card| c.project_id == project_id && c.facts.needs_attention),
                urges == (|c: Card|
                    c.project_id == project_id && c.facts.needs_attention
                        && c.facts.needs_urgent_attention),
                waiting == count_where(self.cards@.take(i as int), waits),
                urgent == count_where(self.cards@.take(i as int), urges),
            decreases self.cards.len() - i,
        {
            assert(self.cards@.take(i + 1).drop_last() =~= self.cards@.take(i as int));
            let c = &self.cards[i];
            if c.project_id == project_id && c.facts.needs_attention {
                waiting += 1;
                if c.facts.needs_urgent_attention {
                    urgent += 1;
                }
            }
            i += 1;
        }
        assert(self.cards@.take(i as int) =~= self.cards@);
        (waiting, urgent)
    }

    /// How many reviews wait on the user, over all projects.
    pub fn review_attention_count(&self) -> (r: usize)
        requires
            waiting_reviews(self@.review_tasks) <= usize::MAX,
        ensures
            r == waiting_reviews(self@.review_tasks),
    {
        let ghost tasks = self@.review_tasks;
        let ghost mut left = tasks;
        let ghost keys = vstd::std_specs::iter::IteratorSpec::remaining(
            &vstd::std_specs::hash::spec_keys_iter(&self.review_tasks),
        );
        let mut n: usize = 0;
        proof {
            assert(tasks.dom() =~= self.review_tasks@.dom());
        }
        for k in it: self.review_tasks.keys()
            invariant
                it.seq() == keys,
                keys.no_duplicates(),
                keys.unref().to_set() == self.review_tasks@.dom(),
                tasks == lists(self.review_tasks@),
                tasks.dom() == self.review_tasks@.dom(),
                tasks.dom().finite(),
                left.dom().finite(),
                forall|p: Id| #[trigger]
                    left.contains_key(p) <==> tasks.contains_key(p) && !keys.unref().take(
                        it.index(),
                    ).contains(p),
                forall|p: Id| #[trigger] left.contains_key(p) ==> left[p] == tasks[p],
                n + waiting_reviews(left) == waiting_reviews(tasks),
                waiting_reviews(tasks) <= usize::MAX,
        {
            let ghost i = it.index();
            proof {
                assert(keys.unref()[i] == *k);
                assert(keys.unref().to_set().contains(*k));
                assert(!keys.unref().take(i).contains(*k)) by {
                    if keys.unref().take(i).contains(*k) {
                        let j = choose|j: int|
                            0 <= j < keys.unref().take(i).len() && keys.unref().take(i)[j] == *k;
                        assert(keys[j] == keys[i]);
                    }
                }
                waiting_reviews_by(left, *k);
            }
            match self.review_tasks.get(k) {
                Some(v) => {
                    n = n + count_waiting(v);
                },
                None => {},
            }
            proof {
                let before = left;
                left = left.remove(*k);
                assert(keys.unref().take(i + 1) =~= keys.unref().take(i).push(*k));
                assert forall|p: Id| #[trigger] left.contains_key(p) <==> tasks.contains_key(p)
                    && !keys.unref().take(i + 1).contains(p) by {
                    let seen = keys.unref().take(i);
                    if seen.contains(p) {
                        let j = choose|j: int| 0 <= j < seen.len() && seen[j] == p;
                        assert(seen.push(*k)[j] == p);
                    }
                    assert(seen.push(*k)[i] == *k);
                }
            }
        }
        proof {
            assert(keys.unref().take(keys.len() as int) =~= keys.unref());
            assert forall|p: Id| !left.contains_key(p) by {
                if tasks.contains_key(p) {
                    assert(keys.unref().to_set().contains(p));
                }
            }
            assert(left.dom() =~= Set::empty());
        }
        n
    }

    pub fn preview(&self, card_id: Id) -> (r: Option<&(PreviewStatus, Vec<PreviewUrl>)>)
        ensures
            match r {
                Some(p) => self@.previews.contains_key(card_id) && *p == self@.previews[card_id],
                None => !self@.previews.contains_key(card_id),
            },
    {
        self.previews.get(&card_id)
    }

    /// The computed diff; none means it was never asked for.
    pub fn diff(&self, card_id: Id) -> (r: Option<&DiffState>)
        ensures
            match r {
                Some(d) => self@.diffs.contains_key(card_id) && *d == self@.diffs[card_id],
                None => !self@.diffs.contains_key(card_id),
            },
    {
        self.diffs.get(&card_id)
    }

    /// Whether a card skips planning; by default it does not.
    pub fn card_skip_plan(&self, card_id: Id) -> (r: bool)
        ensures
            r == (self@.skip_plans.contains_key(card_id) && self@.skip_plans[card_id]),
    {
        match self.skip_plans.get(&card_id) {
            Some(skip) => *skip,
            None => false,
        }
    }

    /// Whether a card's self-review starts by itself; by default it does.
    pub fn card_auto_review(&self, card_id: Id) -> (r: bool)
        ensures
            r == (self@.auto_reviews.contains_key(card_id) ==> self@.auto_reviews[card_id]),
    {
        match self.auto_reviews.get(&card_id) {
            Some(auto) => *auto,
            None => true,
        }
    }

    /// The images attached to a card.
    pub fn card_attachments(&self, card_id: Id) -> (r: Option<&Vec<String>>)
        ensures
            match r {
                Some(v) => self@.attachments.contains_key(card_id) && *v
                    == self@.attachments[card_id],
                None => !self@.attachments.contains_key(card_id),
            },
    {
        self.attachments.get(&card_id)
    }
}

proof fn filter_true<T>(s: Seq<T>)
    ensures
        s.filter(|t: T| true) == s,
    decreases s.len(),
{
    reveal(Seq::filter);
    if s.len() > 0 {
        filter_true(s.drop_last());
        assert(s.drop_last().push(s.last()) =~= s);
    }
}

fn count_waiting(v: &Vec<ReviewTask>) -> (r: usize)
    ensures
        r == count_where(v@, |t: ReviewTask| t.facts.needs_attention),
{
    let hit = |t: &ReviewTask| -> (b: bool)
        ensures
            b == t.facts.needs_attention,
    {
        t.facts.needs_attention
    };
    count(v, hit, Ghost(|t: ReviewTask| t.facts.needs_attention))
}

// ---- Commands ------------------------------------------------------------

impl AppState {
    pub fn fetch_reviewers(&self, project_id: Id) -> (r: ExecutorCommand)
        ensures
            r == (ExecutorCommand::ListReviewers { project_id }),
    {
        ExecutorCommand::ListReviewers { project_id }
    }

    pub fn fetch_adopt_sources(&self, project_id: Id) -> (r: ExecutorCommand)
        ensures
            r == (ExecutorCommand::ListAdoptSources { project_id }),
    {
        ExecutorCommand::ListAdoptSources { project_id }
    }

    pub fn probe_adopt_source(&self, project_id: Id, source_ref: String) -> (r: ExecutorCommand)
        ensures
            r == (ExecutorCommand::ProbeAdoptSource { project_id, source_ref }),
    {
        ExecutorCommand::ProbeAdoptSource { project_id, source_ref }
    }

    /// Adopt a branch into a new card that starts in the self-review pipeline.
    pub fn adopt_branch(
        &self,
        project_id: Id,
        source_ref: String,
        title: String,
        description: String,
        retire_original: bool,
        dirty_action: DirtyAction,
    ) -> (r: ExecutorCommand)
        ensures
            r == (ExecutorCommand::AdoptBranch {
                project_id,
                source_ref,
                title,
                description,
                retire_original,
                dirty_action,
            }),
    {
        ExecutorCommand::AdoptBranch {
            project_id,
            source_ref,
            title,
            description,
            retire_original,
            dirty_action,
        }
    }

    pub fn refresh_usage(&self) -> (r: ExecutorCommand)
        ensures
            r == ExecutorCommand::RefreshUsage,
    {
        ExecutorCommand::RefreshUsage
    }

    pub fn fetch_reviews(&self, card_id: Id) -> (r: ExecutorCommand)
        ensures
            r == (ExecutorCommand::RefreshReviews { card_id }),
    {
        ExecutorCommand::RefreshReviews { card_id }
    }

    pub fn scan_reviews(&self, project_id: Id) -> (r: ExecutorCommand)
        ensures
            r == (ExecutorCommand::ScanReviews { project_id }),
    {
        ExecutorCommand::ScanReviews { project_id }
    }

    /// Start a review, or start it over, with the user's steering.
    pub fn start_review(&self, review_id: Id, guidance: String) -> (r: ExecutorCommand)
        ensures
            r == (ExecutorCommand::StartReview { review_id, guidance }),
    {
        ExecutorCommand::StartReview { review_id, guidance }
    }

    pub fn start_review_preview(&self, review_id: Id) -> (r: ExecutorCommand)
        ensures
            r == (ExecutorCommand::StartReviewPreview { review_id }),
    {
        ExecutorCommand::StartReviewPreview { review_id }
    }

    pub fn stop_review_preview(&self, review_id: Id) -> (r: ExecutorCommand)
        ensures
            r == (ExecutorCommand::StopReviewPreview { review_id }),
    {
        ExecutorCommand::StopReviewPreview { review_id }
    }

    pub fn save_project(&self, project: Project) -> (r: ExecutorCommand)
        ensures
            r == (ExecutorCommand::SaveProject { project: Box::new(project) }),
    {
        ExecutorCommand::SaveProject { project: Box::new(project) }
    }

    pub fn set_card_skip_plan(&self, card_id: Id, skip: bool) -> (r: ExecutorCommand)
        ensures
            r == (ExecutorCommand::SetSkipPlan { card_id, skip }),
    {
        ExecutorCommand::SetSkipPlan { card_id, skip }
    }

    pub fn set_card_auto_review(&self, card_id: Id, auto: bool) -> (r: ExecutorCommand)
        ensures
            r == (ExecutorCommand::SetAutoReview { card_id, auto }),
    {
        ExecutorCommand::SetAutoReview { card_id, auto }
    }

    /// One command per picked file, in the order they were picked.
    pub fn attach_images(&self, card_id: Id, srcs: Vec<String>) -> (r: Vec<ExecutorCommand>)
        ensures
            r@ == srcs@.map_values(|src: String| ExecutorCommand::AttachImage { card_id, src }),
    {
        let mut out: Vec<ExecutorCommand> = Vec::new();
        let ghost all = srcs@;
        for src in it: srcs.into_iter()
            invariant
                it.seq() == all,
                out@ == all.take(it.index()).map_values(
                    |src: String| ExecutorCommand::AttachImage { card_id, src },
                ),
        {
            out.push(ExecutorCommand::AttachImage { card_id, src });
            assert(out@ =~= all.take(it.index() + 1).map_values(
                |src: String| ExecutorCommand::AttachImage { card_id, src },
            ));
        }
        assert(all.take(all.len() as int) =~= all);
        out
    }

    pub fn attach_image_bytes(&self, card_id: Id, data: Vec<u8>) -> (r: ExecutorCommand)
        ensures
            r == (ExecutorCommand::AttachImageBytes { card_id, data }),
    {
        ExecutorCommand::AttachImageBytes { card_id, data }
    }

    pub fn detach_image(&self, card_id: Id, path: String) -> (r: ExecutorCommand)
        ensures
            r == (ExecutorCommand::DetachImage { card_id, path }),
    {
        ExecutorCommand::DetachImage { card_id, path }
    }

    /// Add a project, named after the last part of its path where that has one,
    /// and go to it. The project itself arrives as an event.
    pub fn add_project(&mut self, id: Id, leaf: Option<String>, path: String) -> (r:
        ExecutorCommand)
        ensures
            final(self)@ == (StateView {
                selected_view: SelectedView::Project(id),
                ..old(self)@
            }),
            r matches ExecutorCommand::AddProject { project_id, name, path: p } && project_id == id
                && p@ == path@ && name@ == (match leaf {
                Some(n) => n@,
                None => path@,
            }),
    {
        let name = match leaf {
            Some(n) => n,
            None => path.clone(),
        };
        self.selected_view = SelectedView::Project(id);
        ExecutorCommand::AddProject { project_id: id, name, path }
    }

    pub fn delete_project(&self, id: Id) -> (r: ExecutorCommand)
        ensures
            r == (ExecutorCommand::DeleteProject { project_id: id }),
    {
        ExecutorCommand::DeleteProject { project_id: id }
    }

    /// Create a card with its project's defaults and select it. Of a project
    /// that is not there, the user is told so instead.
    pub fn create_card(
        &mut self,
        card_id: Id,
        project_id: Id,
        title: String,
        description: String,
    ) -> (r: Option<ExecutorCommand>)
        ensures
            match first_where(old(self)@.projects, |p: Project| p.id == project_id) {
                Some(i) => {
                    &&& r == Some(
                        ExecutorCommand::CreateCard {
                            card_id,
                            project_id,
                            title,
                            description,
                            config: old(self)@.projects[i].config.new_card,
                        },
                    )
                    &&& final(self)@ == (StateView {
                        selected_card: Some(card_id),
                        ..old(self)@
                    })
                },
                None => {
                    &&& r is None
                    &&& final(self)@.toasts.len() > 0
                    &&& final(self)@.toasts.last().severity == Severity::Error
                    &&& final(self)@.toasts.last().message@ == "unknown project"@
                    &&& final(self)@.toasts.last().id == old(self)@.next_toast
                    &&& final(self)@.next_toast == (if old(self)@.next_toast == u64::MAX {
                        0
                    } else {
                        (old(self)@.next_toast + 1) as u64
                    })
                    &&& final(self)@.toasts == newest(
                        old(self)@.toasts.push(final(self)@.toasts.last()),
                        MAX_TOASTS as int,
                    )
                    &&& final(self)@ == (StateView {
                        toasts: final(self)@.toasts,
                        next_toast: final(self)@.next_toast,
                        ..old(self)@
                    })
                },
            },
    {
        let config = match self.find_project(project_id) {
            Some(p) => Some(p.config.new_card.clone()),
            None => None,
        };
        match config {
            Some(config) => {
                self.selected_card = Some(card_id);
                Some(ExecutorCommand::CreateCard { card_id, project_id, title, description, config })
            },
            None => {
                self.toasts.push_toast(Severity::Error, "unknown project".to_owned());
                None
            },
        }
    }

    pub fn save_settings(&self, settings: AppSettings) -> (r: ExecutorCommand)
        ensures
            r == (ExecutorCommand::SaveSettings { settings: Box::new(settings) }),
    {
        ExecutorCommand::SaveSettings { settings: Box::new(settings) }
    }

    pub fn save_card(&self, card: Card) -> (r: ExecutorCommand)
        ensures
            r == (ExecutorCommand::SaveCard { card: Box::new(card) }),
    {
        ExecutorCommand::SaveCard { card: Box::new(card) }
    }

    pub fn delete_card(&self, id: Id) -> (r: ExecutorCommand)
        ensures
            r == (ExecutorCommand::DeleteCard { card_id: id }),
    {
        ExecutorCommand::DeleteCard { card_id: id }
    }
}

// ---- Laws ----------------------------------------------------------------

/// Looking at a view leaves the review board and its selection, and keeps the selected
/// card and everything else.
pub proof fn looking_elsewhere_leaves_the_review_board(s: StateView, view: SelectedView)
    ensures
        ({
            let r = viewing(s, view);
            &&& r.selected_view == view
            &&& r.board_mode == BoardMode::Normal
            &&& r.selected_review is None
            &&& r == (StateView {
                selected_view: r.selected_view,
                board_mode: r.board_mode,
                selected_review: r.selected_review,
                ..s
            })
        }),
{
}

/// The board shows the cards of the view, all of them and no other, oldest first.
pub proof fn the_board_shows_its_view(cards: Seq<Card>, view: SelectedView, c: Card, i: int, j: int)
    ensures
        shown_cards(cards, view).contains(c) <==> cards.contains(c) && (view is Global || view
            == SelectedView::Project(c.project_id)),
        0 <= i < j < shown_cards(cards, view).len() ==> shown_cards(cards, view)[i].created_at
            <= shown_cards(cards, view)[j].created_at,
{
    let p = |c: Card| in_view(view, c);
    let key = |c: Card| c.created_at as int;
    let here = cards.filter(p);
    let shown = shown_cards(cards, view);
    stable_sorted_orders(here, key);
    a_filter_keeps_what_passes(cards, p, c);
    shown.to_multiset_ensures();
    here.to_multiset_ensures();
    assert(shown.contains(c) <==> shown.to_multiset().count(c) > 0);
    assert(here.contains(c) <==> here.to_multiset().count(c) > 0);
    if 0 <= i < j < shown.len() {
        assert(key(shown[i]) <= key(shown[j]));
    }
}

/// A project's name is its own; one that is not there has a dash.
pub proof fn a_name_is_the_projects_own(projects: Seq<Project>, i: int, id: Id)
    ensures
        0 <= i < projects.len() && projects_distinct(projects) ==> name_of(projects, projects[i].id)
            == projects[i].name@,
        (forall|j: int| 0 <= j < projects.len() ==> (#[trigger] projects[j]).id != id) ==> name_of(
            projects,
            id,
        ) == "—"@,
{
    if 0 <= i < projects.len() && projects_distinct(projects) {
        let p = |p: Project| p.id == projects[i].id;
        first_where_is_first(projects, p);
        assert(p(projects[i]));
        let k = first_where(projects, p)->0;
        assert(projects[k].id == projects[i].id);
    }
    first_where_is_first(projects, |p: Project| p.id == id);
}

/// What an event told is what is read: a card skips its plan only where that was said,
/// and reviews itself unless that was switched off.
pub proof fn what_was_told_is_read(
    s: AppState,
    before: StateView,
    id: Id,
    said: bool,
    skips: bool,
    reviews: bool,
)
    requires
        call_ensures(AppState::card_skip_plan, (&s, id), skips),
        call_ensures(AppState::card_auto_review, (&s, id), reviews),
    ensures
        s@ == reduced(
            before,
            (ExecutorEvent {
                card_id: id,
                kind: ExecutorEventKind::SkipPlanChanged { skip: said },
            }),
        ) ==> skips == said,
        s@ == reduced(
            before,
            (ExecutorEvent {
                card_id: id,
                kind: ExecutorEventKind::AutoReviewChanged { auto: said },
            }),
        ) ==> reviews == said,
        !s@.skip_plans.contains_key(id) ==> !skips,
        !s@.auto_reviews.contains_key(id) ==> reviews,
{
}

/// The cards found by an id have that id.
pub proof fn what_is_found_has_the_id(
    s: AppState,
    id: Id,
    card: Option<&Card>,
    project: Option<&Project>,
)
    requires
        call_ensures(AppState::find_card, (&s, id), card),
        call_ensures(AppState::find_project, (&s, id), project),
    ensures
        card matches Some(c) ==> c.id == id && s@.cards.contains(*c),
        card is None <==> !has_card(s@.cards, id),
        project matches Some(p) ==> p.id == id && s@.projects.contains(*p),
        project is None <==> forall|i: int|
            0 <= i < s@.projects.len() ==> (#[trigger] s@.projects[i]).id != id,
{
    let pc = |c: Card| c.id == id;
    let pp = |p: Project| p.id == id;
    first_where_is_first(s@.cards, pc);
    first_where_is_first(s@.projects, pp);
    assert forall|i: int| first_where(s@.cards, pc) is None && 0 <= i < s@.cards.len() implies (
    #[trigger] s@.cards[i]).id != id by {
        assert(!pc(s@.cards[i]));
    }
    assert forall|i: int| first_where(s@.projects, pp) is None && 0 <= i < s@.projects.len() implies (
    #[trigger] s@.projects[i]).id != id by {
        assert(!pp(s@.projects[i]));
    }
}

/// A card's commands are about that card, and each is its own.
pub proof fn card_commands_do_their_own(
    s: AppState,
    id: Id,
    yes: bool,
    text: String,
    srcs: Vec<String>,
    data: Vec<u8>,
    r: ExecutorCommand,
    all: Vec<ExecutorCommand>,
)
    ensures
        call_ensures(AppState::fetch_reviews, (&s, id), r) ==> card_of(r) == Some(id)
            && r is RefreshReviews,
        call_ensures(AppState::set_card_skip_plan, (&s, id, yes), r) ==> card_of(r) == Some(id) && (
        r matches ExecutorCommand::SetSkipPlan { skip, .. } && skip == yes),
        call_ensures(AppState::set_card_auto_review, (&s, id, yes), r) ==> card_of(r) == Some(id) && (
        r matches ExecutorCommand::SetAutoReview { auto, .. } && auto == yes),
        call_ensures(AppState::detach_image, (&s, id, text), r) ==> card_of(r) == Some(id) && (
        r matches ExecutorCommand::DetachImage { path, .. } && path == text),
        call_ensures(AppState::attach_image_bytes, (&s, id, data), r) ==> card_of(r) == Some(id) && (
        r matches ExecutorCommand::AttachImageBytes { data: sent, .. } && sent == data),
        call_ensures(AppState::delete_card, (&s, id), r) ==> card_of(r) == Some(id)
            && r is DeleteCard,
        call_ensures(AppState::attach_images, (&s, id, srcs), all) ==> all@.len() == srcs@.len()
            && forall|i: int|
            0 <= i < srcs@.len() ==> card_of(#[trigger] all@[i]) == Some(id) && (
            all@[i] matches ExecutorCommand::AttachImage { src, .. } && src == srcs@[i]),
{
}

/// A project's and a review's commands are about that project or that review.
pub proof fn other_commands_do_their_own(
    s: AppState,
    id: Id,
    text: String,
    title: String,
    description: String,
    retire: bool,
    dirty: DirtyAction,
    r: ExecutorCommand,
)
    ensures
        call_ensures(AppState::fetch_reviewers, (&s, id), r) ==> r == (
        ExecutorCommand::ListReviewers { project_id: id }),
        call_ensures(AppState::fetch_adopt_sources, (&s, id), r) ==> r == (
        ExecutorCommand::ListAdoptSources { project_id: id }),
        call_ensures(AppState::scan_reviews, (&s, id), r) ==> r == (ExecutorCommand::ScanReviews {
            project_id: id,
        }),
        call_ensures(AppState::delete_project, (&s, id), r) ==> r == (
        ExecutorCommand::DeleteProject { project_id: id }),
        call_ensures(AppState::probe_adopt_source, (&s, id, text), r) ==> (
        r matches ExecutorCommand::ProbeAdoptSource { project_id, source_ref } && project_id == id
            && source_ref == text),
        call_ensures(AppState::adopt_branch, (&s, id, text, title, description, retire, dirty), r)
            ==> (r matches ExecutorCommand::AdoptBranch {
            project_id,
            source_ref,
            title: t,
            description: d,
            retire_original,
            dirty_action,
        } && project_id == id && source_ref == text && t == title && d == description
            && retire_original == retire && dirty_action == dirty),
        call_ensures(AppState::start_review, (&s, id, text), r) ==> review_of(r) == Some(id) && (
        r matches ExecutorCommand::StartReview { guidance, .. } && guidance == text),
        call_ensures(AppState::start_review_preview, (&s, id), r) ==> review_of(r) == Some(id)
            && r is StartReviewPreview,
        call_ensures(AppState::stop_review_preview, (&s, id), r) ==> review_of(r) == Some(id)
            && r is StopReviewPreview,
{
}

/// Escape closes an open menu and leaves the rest; without one it closes the panel and
/// nothing else.
pub proof fn escape_closes_one_thing(s: StateView, menu_open: bool)
    ensures
        menu_open ==> escaped(s, menu_open) == s,
        !menu_open ==> escaped(s, menu_open).selected_card is None && escaped(s, menu_open) == (
        StateView { selected_card: escaped(s, menu_open).selected_card, ..s }),
{
}

/// The reviews that wait add up project by project, and none wait where there are none.
pub proof fn waiting_reviews_add_up(
    tasks: Map<Id, Seq<ReviewTask>>,
    project: Id,
    list: Seq<ReviewTask>,
)
    requires
        tasks.dom().finite(),
        !tasks.contains_key(project),
    ensures
        waiting_reviews(Map::<Id, Seq<ReviewTask>>::empty()) == 0,
        waiting_reviews(tasks.insert(project, list)) == waiting_reviews(tasks) + count_where(
            list,
            |t: ReviewTask| t.facts.needs_attention,
        ),
{
    let more = tasks.insert(project, list);
    assert(more.dom() =~= tasks.dom().insert(project));
    waiting_reviews_by(more, project);
    assert(more.remove(project) =~= tasks);
    assert(Map::<Id, Seq<ReviewTask>>::empty().dom() =~= Set::empty());
}

} // verus!
