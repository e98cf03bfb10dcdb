//! The sidebar: a row per project.

use vstd::prelude::*;

use crate::command::ExecutorCommand;
use crate::confirm::{
    leads_to, request, ConfirmAction, ConfirmRequest, GestureView, RequestView,
};
use crate::lists::count_where;
use crate::model::{Card, Id, Project, ReviewTask};
use crate::state::{list_at, AppState, SelectedView, StateView};
use crate::text::{cat2, cat3, decimal, decimal_text, ends, parts_are_found, starts, within};

verus! {

/// What a project's row shows.
#[derive(Debug, Clone, PartialEq, Eq)]
pub struct ProjectRow {
    pub class: &'static str,
    pub dot_class: &'static str,
    pub muted: bool,
    /// The cards waiting on the user.
    pub attention: usize,
    pub attention_title: String,
    /// The pull requests waiting on the user.
    pub reviews: usize,
    pub review_title: &'static str,
}

pub open spec fn row_class(active: bool, muted: bool) -> Seq<char> {
    if active && muted {
        "nav-item active muted"@
    } else if active {
        "nav-item active"@
    } else if muted {
        "nav-item muted"@
    } else {
        "nav-item"@
    }
}

/// The health dot: something failed or asks a question, something waits, or
/// all is quiet.
pub open spec fn dot(waiting: nat, urgent: nat) -> Seq<char> {
    if urgent > 0 {
        "proj-dot urgent"@
    } else if waiting > 0 {
        "proj-dot"@
    } else {
        "proj-dot idle"@
    }
}

pub open spec fn waiting_words(n: nat) -> Seq<char> {
    if n == 1 {
        "1 card waiting on you"@
    } else {
        decimal(n) + " cards waiting on you"@
    }
}

/// How many of a project's cards wait, or none where it is muted.
pub open spec fn row_waiting(s: StateView, p: Project) -> nat {
    if p.config.notifications_muted {
        0
    } else {
        count_where(s.cards, |c: Card| c.project_id == p.id && c.facts.needs_attention)
    }
}

pub open spec fn row_urgent(s: StateView, p: Project) -> nat {
    if p.config.notifications_muted {
        0
    } else {
        count_where(
            s.cards,
            |c: Card|
                c.project_id == p.id && c.facts.needs_attention && c.facts.needs_urgent_attention,
        )
    }
}

pub open spec fn row_reviews(s: StateView, p: Project) -> nat {
    if p.config.notifications_muted {
        0
    } else {
        count_where(
            list_at(s.review_tasks, p.id),
            |t: ReviewTask| t.facts.needs_attention,
        )
    }
}

/// A project's row. A muted project raises no attention: an idle dot and no
/// counts.
pub fn project_row(state: &AppState, project: &Project) -> (r: ProjectRow)
    ensures
        r.class@ == row_class(
            state@.selected_view == SelectedView::Project(project.id),
            project.config.notifications_muted,
        ),
        r.dot_class@ == dot(row_waiting(state@, *project), row_urgent(state@, *project)),
        r.muted == project.config.notifications_muted,
        r.attention == row_waiting(state@, *project),
        r.attention_title@ == waiting_words(row_waiting(state@, *project)),
        r.reviews == row_reviews(state@, *project),
        r.review_title@ == (if row_reviews(state@, *project) > 0 {
            "PRs awaiting your review"@
        } else {
            "Review PRs"@
        }),
{
    let active = match state.selected_view {
        SelectedView::Project(id) => id == project.id,
        SelectedView::Global => false,
    };
    let muted = project.config.notifications_muted;
    let class = if active && muted {
        "nav-item active muted"
    } else if active {
        "nav-item active"
    } else if muted {
        "nav-item muted"
    } else {
        "nav-item"
    };
    let (attention, urgent) = if muted {
        (0, 0)
    } else {
        state.project_attention_counts(project.id)
    };
    let reviews: usize = if muted {
        0
    } else {
        state.project_review_count(project.id)
    };
    let dot_class = if urgent > 0 {
        "proj-dot urgent"
    } else if attention > 0 {
        "proj-dot"
    } else {
        "proj-dot idle"
    };
    let attention_title = if attention == 1 {
        "1 card waiting on you".to_owned()
    } else {
        let n = decimal_text(attention as u64);
        cat2(n.as_str(), " cards waiting on you")
    };
    let review_title = if reviews > 0 {
        "PRs awaiting your review"
    } else {
        "Review PRs"
    };
    ProjectRow {
        class,
        dot_class,
        muted,
        attention,
        attention_title,
        reviews,
        review_title,
    }
}

pub fn home_class(view: SelectedView) -> (r: &'static str)
    ensures
        r@ == (if view == SelectedView::Global {
            "nav-item home active"@
        } else {
            "nav-item home"@
        }),
{
    match view {
        SelectedView::Global => "nav-item home active",
        SelectedView::Project(_) => "nav-item home",
    }
}

/// The dialog a project is removed behind.
pub fn remove_project_dialog(id: Id, name: &str) -> (r: ConfirmRequest)
    ensures
        r@ == (RequestView {
            title: "Remove project"@,
            message: "Remove “"@ + name@
                + "” and its cards from Usine? Your files and git history are not touched."@,
            confirm_label: "Remove"@,
            danger: true,
            action: ConfirmAction::DeleteProject(id),
        }),
{
    request(
        "Remove project",
        cat3(
            "Remove “",
            name,
            "” and its cards from Usine? Your files and git history are not touched.",
        ),
        "Remove",
        true,
        ConfirmAction::DeleteProject(id),
    )
}

/// A muted project's row is quiet, whatever its cards and reviews are at.
pub proof fn muted_rows_are_quiet(s: StateView, p: Project)
    requires
        p.config.notifications_muted,
    ensures
        row_waiting(s, p) == 0,
        row_reviews(s, p) == 0,
        dot(row_waiting(s, p), row_urgent(s, p)) == "proj-dot idle"@,
{
}

/// A project's dot is red where something urgent waits, lit where anything waits, and
/// idle where nothing does.
pub proof fn a_dot_tells_what_waits(waiting: nat, urgent: nat)
    ensures
        dot(waiting, urgent) == "proj-dot urgent"@ <==> urgent > 0,
        dot(waiting, urgent) == "proj-dot idle"@ <==> urgent == 0 && waiting == 0,
        dot(waiting, urgent) == "proj-dot"@ <==> urgent == 0 && waiting > 0,
{
    reveal_strlit("proj-dot");
    reveal_strlit("proj-dot urgent");
    reveal_strlit("proj-dot idle");
    assert("proj-dot"@.len() == 8 && "proj-dot urgent"@.len() == 15 && "proj-dot idle"@.len() == 13);
}

/// What waits is told by its number.
pub proof fn what_waits_is_counted(n: nat)
    ensures
        starts(waiting_words(n), decimal(n)),
{
    parts_are_found(Seq::empty(), decimal(n), " cards waiting on you"@);
    if n == 1 {
        reveal_strlit("1 card waiting on you");
        assert(decimal(1) =~= seq!['1']);
        assert(waiting_words(n).take(1) =~= decimal(1));
    }
}

/// A project that is not muted counts its own cards and reviews that wait, and none of
/// another's.
pub proof fn a_row_counts_its_own(s: StateView, p: Project, c: Card)
    requires
        !p.config.notifications_muted,
    ensures
        ({
            let more = StateView { cards: s.cards.push(c), ..s };
            &&& row_waiting(more, p) == row_waiting(s, p) + (if c.project_id == p.id
                && c.facts.needs_attention {
                1nat
            } else {
                0nat
            })
            &&& row_urgent(more, p) == row_urgent(s, p) + (if c.project_id == p.id
                && c.facts.needs_attention && c.facts.needs_urgent_attention {
                1nat
            } else {
                0nat
            })
            &&& row_reviews(more, p) == row_reviews(s, p)
        }),
{
    assert(s.cards.push(c).drop_last() =~= s.cards);
}

/// Removing a project asks first, in red, by its name.
pub proof fn removing_a_project_asks(id: Id, name: &str, r: ConfirmRequest)
    requires
        call_ensures(remove_project_dialog, (id, name), r),
    ensures
        r.danger,
        leads_to(GestureView::Ask(r@)) == Some(ExecutorCommand::DeleteProject { project_id: id }),
        within(r.message@, name@),
{
    parts_are_found(
        "Remove “"@,
        name@,
        "” and its cards from Usine? Your files and git history are not touched."@,
    );
}

/// A row tells whether it is the one in view and whether it is muted, each for itself.
pub proof fn a_row_looks_its_part(active: bool, muted: bool)
    ensures
        muted <==> ends(row_class(active, muted), " muted"@),
        active <==> starts(row_class(active, muted), "nav-item active"@),
        starts(row_class(active, muted), "nav-item"@),
{
    reveal_strlit("nav-item active muted");
    reveal_strlit("nav-item active");
    reveal_strlit("nav-item muted");
    reveal_strlit("nav-item");
    reveal_strlit(" muted");
    let c = row_class(active, muted);
    assert("nav-item active muted"@.skip(15) =~= " muted"@);
    assert("nav-item muted"@.skip(8) =~= " muted"@);
    assert("nav-item active"@.skip(9)[0] == 'a');
    assert("nav-item"@.skip(2)[0] == 'v');
    assert(" muted"@[0] == ' ' && " muted"@.len() == 6);
    assert("nav-item active muted"@.take(15) =~= "nav-item active"@);
    assert("nav-item active"@.take(15) =~= "nav-item active"@);
    assert("nav-item active"@.len() == 15 && "nav-item muted"@.len() == 14 && "nav-item"@.len()
        == 8);
    assert(c.take(8) =~= "nav-item"@);
}

/// A project's row is about that project: in view where it is, muted where it is, with
/// its own counts.
pub proof fn a_row_is_of_its_project(s: AppState, p: Project, r: ProjectRow)
    requires
        call_ensures(project_row, (&s, &p), r),
    ensures
        r.muted == p.config.notifications_muted,
        r.class@ == row_class(s@.selected_view == SelectedView::Project(p.id), r.muted),
        r.attention == row_waiting(s@, p),
        r.reviews == row_reviews(s@, p),
        starts(r.attention_title@, decimal(r.attention as nat)),
        r.review_title@ == "Review PRs"@ <==> r.reviews == 0,
{
    what_waits_is_counted(r.attention as nat);
    reveal_strlit("Review PRs");
    reveal_strlit("PRs awaiting your review");
    assert("Review PRs"@.len() != "PRs awaiting your review"@.len());
}

} // verus!
