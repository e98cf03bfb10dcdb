//! The card board: its lanes, their order, and where a new card goes.

use vstd::prelude::*;

use crate::command::ExecutorCommand;
use crate::copies::SettingsView;
use crate::lists::{
    a_filter_keeps_what_passes, derefs, filter_from, filter_keeps, filters_combine, first_where,
    first_where_is_first, position, select_among, sink, sinking_keeps_order, sinking_parts,
    sort_by_key, stable_sorted, stable_sorted_orders, sunk, sunk_keeps_all,
};
use crate::model::{Card, Column, Id, Project};
use crate::search::title_matches;
use crate::state::{AppState, SelectedView};

verus! {

/// The lanes, left to right.
pub open spec fn lanes() -> Seq<Column> {
    seq![
        Column::StartingBlock,
        Column::Designing,
        Column::Investigating,
        Column::Implementing,
        Column::SelfReview,
        Column::PrReview,
        Column::ReadyToMerge,
        Column::Done,
    ]
}

impl Column {
    pub fn board() -> (r: [Column; 8])
        ensures
            r@ == lanes(),
    {
        let r = [
            Column::StartingBlock,
            Column::Designing,
            Column::Investigating,
            Column::Implementing,
            Column::SelfReview,
            Column::PrReview,
            Column::ReadyToMerge,
            Column::Done,
        ];
        assert(r@ =~= lanes());
        r
    }
}

/// Being a given lane.
pub open spec fn being(col: Column) -> spec_fn(Column) -> bool {
    |c: Column| c == col
}

/// The folded lanes with `col`'s entry flipped.
pub open spec fn toggled(list: Seq<Column>, col: Column) -> Seq<Column> {
    match first_where(list, being(col)) {
        Some(i) => list.remove(i),
        None => list.push(col),
    }
}

/// Flip `col`'s entry in the list of folded lanes. A lane that is not in the
/// list is open.
pub fn toggle_collapsed(list: &mut Vec<Column>, col: Column)
    ensures
        final(list)@ == toggled(old(list)@, col),
{
    let same = |c: &Column| -> (b: bool)
        ensures
            b == (*c == col),
    {
        *c == col
    };
    proof {
        first_where_is_first(list@, being(col));
    }
    match position(list, same, Ghost(being(col))) {
        Some(i) => {
            list.remove(i);
        },
        None => list.push(col),
    }
}

/// The cards of a lane in display order: as they come, the most recently
/// touched first in the last lane, those waiting on the user first in the review
/// lane, and everywhere the blocked ones last.
pub open spec fn lane(cards: Seq<Card>, col: Column) -> Seq<Card> {
    let here = cards.filter(|c: Card| c.facts.column == col);
    let dated = if col == Column::Done {
        stable_sorted(here, |c: Card| -c.updated_at)
    } else {
        here
    };
    let raised = if col == Column::SelfReview {
        sunk(dated, |c: Card| !c.facts.needs_attention)
    } else {
        dated
    };
    sunk(raised, |c: Card| c.blocked)
}

/// One lane's cards in display order.
pub fn column_cards<'a>(cards: &Vec<&'a Card>, col: Column) -> (r: Vec<&'a Card>)
    ensures
        derefs(r@) == lane(derefs(cards@), col),
{
    let here = |c: &Card| -> (b: bool)
        ensures
            b == (c.facts.column == col),
    {
        c.facts.column == col
    };
    let mut out = select_among(cards, here, Ghost(|c: Card| c.facts.column == col));
    if col == Column::Done {
        let key = |c: &Card| -> (k: i128)
            ensures
                k == -c.updated_at,
        {
            -(c.updated_at as i128)
        };
        out = sort_by_key(out, key, Ghost(|c: Card| -c.updated_at));
    }
    if col == Column::SelfReview {
        let idle = |c: &Card| -> (b: bool)
            ensures
                b == !c.facts.needs_attention,
        {
            !c.facts.needs_attention
        };
        out = sink(out, idle, Ghost(|c: Card| !c.facts.needs_attention));
    }
    let blocked = |c: &Card| -> (b: bool)
        ensures
            b == c.blocked,
    {
        c.blocked
    };
    sink(out, blocked, Ghost(|c: Card| c.blocked))
}

/// A lane is drawn when it has cards, when it is the starting block, or when
/// every lane is kept.
pub open spec fn drawn(cards: Seq<Card>, keep_all: bool, col: Column) -> bool {
    keep_all || lane(cards, col).len() > 0 || col == Column::StartingBlock
}

/// The lanes drawn, left to right.
pub open spec fn drawn_lanes(cards: Seq<Card>, keep_all: bool) -> Seq<Column> {
    lanes().filter(|col: Column| drawn(cards, keep_all, col))
}

/// The lanes the board draws, with their cards. An empty lane is left out, but
/// for the starting block, where an empty board begins; while the find bar
/// filters the board every lane stays, an empty one being the answer.
pub fn visible_columns<'a>(cards: &Vec<&'a Card>, keep_all: bool) -> (r: Vec<
    (Column, Vec<&'a Card>),
>)
    ensures
        r@.len() == drawn_lanes(derefs(cards@), keep_all).len(),
        forall|i: int|
            #![trigger r@[i]]
            0 <= i < r@.len() ==> r@[i].0 == drawn_lanes(derefs(cards@), keep_all)[i] && derefs(
                r@[i].1@,
            ) == lane(derefs(cards@), r@[i].0),
{
    let ghost all = derefs(cards@);
    let ghost p = |col: Column| drawn(all, keep_all, col);
    let board = Column::board();
    let mut out: Vec<(Column, Vec<&'a Card>)> = Vec::new();
    let mut k: usize = 0;
    proof {
        assert(lanes().take(0) =~= Seq::empty());
        reveal(Seq::filter);
    }
    while k < 8
        invariant
            k <= 8,
            board@ == lanes(),
            all == derefs(cards@),
            p == (|col: Column| drawn(all, keep_all, col)),
            out@.len() == lanes().take(k as int).filter(p).len(),
            forall|i: int|
                #![trigger out@[i]]
                0 <= i < out@.len() ==> out@[i].0 == lanes().take(k as int).filter(p)[i] && derefs(
                    out@[i].1@,
                ) == lane(all, out@[i].0),
        decreases 8 - k,
    {
        let col = board[k];
        let col_cards = column_cards(cards, col);
        proof {
            assert(lanes().take(k + 1).drop_last() =~= lanes().take(k as int));
            reveal(Seq::filter);
        }
        if keep_all || col_cards.len() > 0 || col == Column::StartingBlock {
            out.push((col, col_cards));
        }
        k += 1;
    }
    assert(lanes().take(8) =~= lanes());
    out
}

/// The cards left by the find bar.
pub fn filtered_cards<'a>(cards: Vec<&'a Card>, query: &Option<String>) -> (r: Vec<&'a Card>)
    ensures
        derefs(r@) == (match query {
            Some(q) => derefs(cards@).filter(|c: Card| title_matches(c.title@, q@)),
            None => derefs(cards@),
        }),
{
    match query {
        Some(q) => {
            let hit = |c: &Card| -> (b: bool)
                ensures
                    b == title_matches(c.title@, q@),
            {
                crate::search::matches(c.title.as_str(), q.as_str())
            };
            select_among(&cards, hit, Ghost(|c: Card| title_matches(c.title@, q@)))
        },
        None => cards,
    }
}

impl AppState {
    /// Fold a lane, or unfold it, for good: what is sent.
    pub fn fold_lane(&self, col: Column) -> (r: ExecutorCommand)
        ensures
            r matches ExecutorCommand::SaveSettings { settings } && settings@ == (SettingsView {
                collapsed_columns: toggled(self@.settings@.collapsed_columns, col),
                ..self@.settings@
            }),
    {
        let mut settings = self.settings.clone();
        toggle_collapsed(&mut settings.collapsed_columns, col);
        self.save_settings(settings)
    }
}

pub fn column_class(collapsed: bool) -> (r: &'static str)
    ensures
        r@ == (if collapsed {
            "column collapsed"@
        } else {
            "column"@
        }),
{
    if collapsed {
        "column collapsed"
    } else {
        "column"
    }
}

/// Where a new card goes.
#[derive(Debug, Clone, Copy, PartialEq, Eq, Structural)]
pub enum NewCardTarget {
    Project(Id),
    Ask,
}

/// A project view names its own target; the home view asks, unless there is
/// nothing to ask about. Without a project there is no target.
pub fn new_card_target(view: SelectedView, projects: &Vec<Project>) -> (r: Option<NewCardTarget>)
    ensures
        r == (match view {
            SelectedView::Project(id) => Some(NewCardTarget::Project(id)),
            SelectedView::Global => if projects@.len() == 0 {
                None
            } else if projects@.len() == 1 {
                Some(NewCardTarget::Project(projects@[0].id))
            } else {
                Some(NewCardTarget::Ask)
            },
        }),
{
    match view {
        SelectedView::Project(id) => Some(NewCardTarget::Project(id)),
        SelectedView::Global => if projects.len() == 0 {
            None
        } else if projects.len() == 1 {
            Some(NewCardTarget::Project(projects[0].id))
        } else {
            Some(NewCardTarget::Ask)
        },
    }
}

// ---- Laws ----------------------------------------------------------------

/// Folding a lane and unfolding it again leaves every lane as it was, and a
/// list without repeats stays one.
pub proof fn folding_twice_is_nothing(list: Seq<Column>, col: Column)
    requires
        list.no_duplicates(),
    ensures
        toggled(list, col).contains(col) == !list.contains(col),
        toggled(list, col).no_duplicates(),
        toggled(toggled(list, col), col).to_set() == list.to_set(),
{
    let same = being(col);
    first_where_is_first(list, same);
    let once = toggled(list, col);
    first_where_is_first(once, same);
    match first_where(list, same) {
        Some(i) => {
            assert forall|j: int| 0 <= j < once.len() implies once[j] != col by {
                let k = if j < i {
                    j
                } else {
                    j + 1
                };
                assert(once[j] == list[k]);
                assert(list[k] != list[i]);
            }
            assert(first_where(once, same) is None);
            let twice = once.push(col);
            assert forall|c: Column| twice.contains(c) <==> list.contains(c) by {
                if list.contains(c) {
                    let k = choose|k: int| 0 <= k < list.len() && list[k] == c;
                    if k < i {
                        assert(twice[k] == c);
                    } else if k > i {
                        assert(twice[k - 1] == c);
                    } else {
                        assert(twice[once.len() as int] == c);
                    }
                }
                if twice.contains(c) {
                    let k = choose|k: int| 0 <= k < twice.len() && twice[k] == c;
                    if k == once.len() {
                        assert(list[i] == c);
                    } else if k < i {
                        assert(list[k] == c);
                    } else {
                        assert(list[k + 1] == c);
                    }
                }
            }
            assert(twice.to_set() =~= list.to_set());
            assert(list.contains(list[i]));
        },
        None => {
            assert(once[list.len() as int] == col);
            match first_where(once, same) {
                Some(j) => {
                    if j < list.len() {
                        assert(once[j] == list[j]);
                    }
                    assert(once.remove(j) =~= list);
                },
                None => {},
            }
        },
    }
}

/// Folding one lane leaves the others folded or open as they were.
pub proof fn folding_spares_other_lanes(list: Seq<Column>, col: Column, other: Column)
    requires
        other != col,
    ensures
        toggled(list, col).contains(other) == list.contains(other),
{
    let same = being(col);
    first_where_is_first(list, same);
    let once = toggled(list, col);
    match first_where(list, same) {
        Some(i) => {
            if list.contains(other) {
                let k = choose|k: int| 0 <= k < list.len() && list[k] == other;
                if k < i {
                    assert(once[k] == other);
                } else {
                    assert(once[k - 1] == other);
                }
            }
            if once.contains(other) {
                let k = choose|k: int| 0 <= k < once.len() && once[k] == other;
                if k < i {
                    assert(list[k] == other);
                } else {
                    assert(list[k + 1] == other);
                }
            }
        },
        None => {
            if list.contains(other) {
                let k = choose|k: int| 0 <= k < list.len() && list[k] == other;
                assert(once[k] == other);
            }
            if once.contains(other) {
                let k = choose|k: int| 0 <= k < once.len() && once[k] == other;
                assert(list[k] == other);
            }
        },
    }
}

/// A lane shows exactly the cards that belong in it, each as often as it is
/// there.
pub proof fn lane_keeps_its_cards(cards: Seq<Card>, col: Column)
    ensures
        lane(cards, col).to_multiset() == cards.filter(
            |c: Card| c.facts.column == col,
        ).to_multiset(),
        forall|i: int|
            0 <= i < lane(cards, col).len() ==> (#[trigger] lane(cards, col)[i]).facts.column
                == col,
{
    let p = |c: Card| c.facts.column == col;
    let here = cards.filter(p);
    let dated = if col == Column::Done {
        stable_sorted(here, |c: Card| -c.updated_at)
    } else {
        here
    };
    let raised = if col == Column::SelfReview {
        sunk(dated, |c: Card| !c.facts.needs_attention)
    } else {
        dated
    };
    stable_sorted_orders(here, |c: Card| -c.updated_at);
    sunk_keeps_all(dated, |c: Card| !c.facts.needs_attention);
    sunk_keeps_all(raised, |c: Card| c.blocked);
    let r = lane(cards, col);
    assert forall|i: int| 0 <= i < r.len() implies (#[trigger] r[i]).facts.column == col by {
        broadcast use vstd::seq_lib::group_to_multiset_ensures;

        assert(r.contains(r[i]));
        assert(r.to_multiset().count(r[i]) > 0);
        assert(here.to_multiset().count(r[i]) > 0);
        assert(here.contains(r[i]));
        let m = choose|m: int| 0 <= m < here.len() && here[m] == r[i];
        filter_from(cards, p, m);
    }
}

/// Blocked cards stand below the live ones in every lane.
pub proof fn blocked_cards_sink(cards: Seq<Card>, col: Column, i: int, j: int)
    requires
        0 <= i < j < lane(cards, col).len(),
        lane(cards, col)[i].blocked,
    ensures
        lane(cards, col)[j].blocked,
{
    let here = cards.filter(|c: Card| c.facts.column == col);
    let dated = if col == Column::Done {
        stable_sorted(here, |c: Card| -c.updated_at)
    } else {
        here
    };
    let raised = if col == Column::SelfReview {
        sunk(dated, |c: Card| !c.facts.needs_attention)
    } else {
        dated
    };
    let stuck = |c: Card| c.blocked;
    let live = |c: Card| !stuck(c);
    let r = lane(cards, col);
    let n = raised.filter(live).len();
    if i < n {
        filter_from(raised, live, i);
        assert(r[i] == raised.filter(live)[i]);
    } else {
        filter_from(raised, stuck, j - n);
        assert(r[j] == raised.filter(stuck)[j - n]);
    }
}

/// The starting block is always drawn, and while the board is filtered so is
/// every lane.
pub proof fn board_never_vanishes(cards: Seq<Card>)
    ensures
        drawn_lanes(cards, false).contains(Column::StartingBlock),
        drawn_lanes(cards, true) == lanes(),
{
    let p = |col: Column| drawn(cards, false, col);
    assert(lanes()[0] == Column::StartingBlock);
    filter_keeps(lanes(), p, Column::StartingBlock);
    let q = |col: Column| drawn(cards, true, col);
    all_pass(lanes(), q);
}

proof fn all_pass<T>(s: Seq<T>, p: spec_fn(T) -> bool)
    requires
        forall|i: int| 0 <= i < s.len() ==> p(#[trigger] s[i]),
    ensures
        s.filter(p) == s,
    decreases s.len(),
{
    reveal(Seq::filter);
    if s.len() > 0 {
        assert(p(s[s.len() - 1]));
        assert forall|i: int| 0 <= i < s.drop_last().len() implies p(#[trigger] s.drop_last()[i]) by {
            assert(s.drop_last()[i] == s[i]);
        }
        all_pass(s.drop_last(), p);
        assert(s.drop_last().push(s.last()) =~= s);
    }
}

/// A lane with a card in it is drawn.
pub proof fn occupied_lane_is_drawn(cards: Seq<Card>, i: int)
    requires
        0 <= i < cards.len(),
        lanes().contains(cards[i].facts.column),
    ensures
        drawn_lanes(cards, false).contains(cards[i].facts.column),
{
    broadcast use vstd::seq_lib::group_to_multiset_ensures;

    let col = cards[i].facts.column;
    let here = |c: Card| c.facts.column == col;
    assert(cards.contains(cards[i]));
    filter_keeps(cards, here, cards[i]);
    lane_keeps_its_cards(cards, col);
    assert(cards.filter(here).to_multiset().count(cards[i]) > 0);
    assert(lane(cards, col).to_multiset().count(cards[i]) > 0);
    assert(lane(cards, col).contains(cards[i]));
    filter_keeps(lanes(), |c: Column| drawn(cards, false, c), col);
}

/// Done cards stand newest first, the blocked ones below the others.
pub proof fn done_cards_stand_newest_first(cards: Seq<Card>, i: int, j: int)
    requires
        0 <= i < j < lane(cards, Column::Done).len(),
        lane(cards, Column::Done)[i].blocked == lane(cards, Column::Done)[j].blocked,
    ensures
        lane(cards, Column::Done)[i].updated_at >= lane(cards, Column::Done)[j].updated_at,
{
    let here = cards.filter(|c: Card| c.facts.column == Column::Done);
    let key = |c: Card| -c.updated_at;
    stable_sorted_orders(here, key);
    sinking_keeps_order(stable_sorted(here, key), |c: Card| c.blocked, key, i, j);
}

/// In the self-review lane the cards that wait for the user stand above those that do
/// not, the blocked ones below.
pub proof fn waiting_cards_rise(cards: Seq<Card>, i: int, j: int)
    requires
        0 <= i < j < lane(cards, Column::SelfReview).len(),
        lane(cards, Column::SelfReview)[i].blocked == lane(cards, Column::SelfReview)[j].blocked,
        lane(cards, Column::SelfReview)[j].facts.needs_attention,
    ensures
        lane(cards, Column::SelfReview)[i].facts.needs_attention,
{
    let here = cards.filter(|c: Card| c.facts.column == Column::SelfReview);
    let idle = |c: Card| !c.facts.needs_attention;
    let key = |c: Card|
        if c.facts.needs_attention {
            0int
        } else {
            1int
        };
    let raised = sunk(here, idle);
    assert forall|a: int, b: int| 0 <= a < b < raised.len() implies key(#[trigger] raised[a])
        <= key(#[trigger] raised[b]) by {
        if idle(raised[a]) {
            sinking_parts(here, idle, a, b);
        }
    }
    sinking_keeps_order(raised, |c: Card| c.blocked, key, i, j);
}

/// In every other lane the cards stand in the order they come, the blocked ones below
/// the others.
pub proof fn other_lanes_keep_their_order(cards: Seq<Card>, col: Column)
    requires
        col != Column::Done,
        col != Column::SelfReview,
    ensures
        lane(cards, col) == cards.filter(|c: Card| c.facts.column == col && !c.blocked)
            + cards.filter(|c: Card| c.facts.column == col && c.blocked),
{
    let here = |c: Card| c.facts.column == col;
    let blocked = |c: Card| c.blocked;
    let free = |c: Card| !blocked(c);
    filters_combine(cards, here, blocked);
    filters_combine(cards, here, free);
    same_filter(cards, |c: Card| here(c) && blocked(c), |c: Card| c.facts.column == col && c.blocked);
    same_filter(cards, |c: Card| here(c) && free(c), |c: Card| c.facts.column == col && !c.blocked);
}

proof fn same_filter<T>(s: Seq<T>, f: spec_fn(T) -> bool, g: spec_fn(T) -> bool)
    requires
        forall|t: T| #[trigger] f(t) == g(t),
    ensures
        s.filter(f) == s.filter(g),
    decreases s.len(),
{
    reveal(Seq::filter);
    if s.len() > 0 {
        same_filter(s.drop_last(), f, g);
    } else {
        assert(s.filter(f) =~= s.filter(g));
    }
}

/// A lane is drawn where it holds a card; the first always is, and all of them where
/// that is asked for. The lanes drawn keep their order.
pub proof fn a_lane_is_drawn_for_its_cards(cards: Seq<Card>, keep_all: bool, col: Column)
    ensures
        drawn_lanes(cards, keep_all).contains(col) <==> lanes().contains(col) && (keep_all || col
            == Column::StartingBlock || exists|i: int|
            0 <= i < cards.len() && (#[trigger] cards[i]).facts.column == col),
{
    let p = |c: Column| drawn(cards, keep_all, c);
    a_filter_keeps_what_passes(lanes(), p, col);
    let here = |c: Card| c.facts.column == col;
    lane_keeps_its_cards(cards, col);
    let l = lane(cards, col);
    let f = cards.filter(here);
    l.to_multiset_ensures();
    f.to_multiset_ensures();
    assert(l.len() == f.len());
    if f.len() > 0 {
        a_filter_keeps_what_passes(cards, here, f[0]);
        assert(f.contains(f[0]));
        let i = cards.index_of(f[0]);
        assert(cards[i].facts.column == col);
    }
    if exists|i: int| 0 <= i < cards.len() && (#[trigger] cards[i]).facts.column == col {
        let i = choose|i: int| 0 <= i < cards.len() && (#[trigger] cards[i]).facts.column == col;
        a_filter_keeps_what_passes(cards, here, cards[i]);
        assert(cards.contains(cards[i]));
        assert(f.contains(cards[i]));
        assert(f.len() > 0);
    }
}

/// A new card goes to the project in view; from the overview it goes to the one project
/// there is, or asks which.
pub proof fn a_new_card_goes_where_one_looks(
    view: SelectedView,
    projects: Vec<Project>,
    r: Option<NewCardTarget>,
)
    requires
        call_ensures(new_card_target, (view, &projects), r),
    ensures
        view matches SelectedView::Project(id) ==> r == Some(NewCardTarget::Project(id)),
        view is Global ==> (r is None <==> projects@.len() == 0),
        view is Global && r == Some(NewCardTarget::Ask) ==> projects@.len() > 1,
        view is Global && projects@.len() > 1 ==> r == Some(NewCardTarget::Ask),
        view is Global && projects@.len() == 1 ==> r == Some(
            NewCardTarget::Project(projects@[0].id),
        ),
{
}

/// Folding a lane saves the settings with that lane folded or unfolded, and nothing else
/// of them changed.
pub proof fn folding_is_saved(s: AppState, col: Column, other: Column, r: ExecutorCommand)
    requires
        call_ensures(AppState::fold_lane, (&s, col), r),
        s@.settings.collapsed_columns@.no_duplicates(),
        other != col,
    ensures
        r matches ExecutorCommand::SaveSettings { settings }
            && settings.collapsed_columns@.contains(col)
            == !s@.settings.collapsed_columns@.contains(col)
            && settings.collapsed_columns@.contains(other)
            == s@.settings.collapsed_columns@.contains(other) && settings@ == (SettingsView {
            collapsed_columns: settings.collapsed_columns@,
            ..s@.settings@
        }),
{
    folding_twice_is_nothing(s@.settings.collapsed_columns@, col);
    folding_spares_other_lanes(s@.settings.collapsed_columns@, col, other);
}

} // verus!
