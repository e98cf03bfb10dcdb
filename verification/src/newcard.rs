//! The "which project?" dialog of the home view.

use vstd::prelude::*;

use crate::lists::{first_where, position};
use crate::model::{Card, Id, Project};
use crate::outside::{uuid_form, uuid_parse, uuid_read, uuid_text};
use crate::text::same_text;

verus! {

/// What the picked project is for.
#[derive(Debug, Clone, Copy, PartialEq, Eq, Structural)]
pub enum NewCardIntent {
    Blank,
    Adopt,
}

pub open spec fn has_project(projects: Seq<Project>, id: Id) -> bool {
    exists|i: int| 0 <= i < projects.len() && (#[trigger] projects[i]).id == id
}

/// The card created last among those whose project is still there; of several
/// created together, the one that comes last.
pub open spec fn latest(projects: Seq<Project>, cards: Seq<Card>) -> Option<Card>
    decreases cards.len(),
{
    if cards.len() == 0 {
        None
    } else {
        let before = latest(projects, cards.drop_last());
        let c = cards.last();
        if has_project(projects, c.project_id) && (before is None || before->0.created_at
            <= c.created_at) {
            Some(c)
        } else {
            before
        }
    }
}

/// The project of the card created last, or else the first one.
pub open spec fn preferred(projects: Seq<Project>, cards: Seq<Card>) -> Option<Id> {
    match latest(projects, cards) {
        Some(c) => Some(c.project_id),
        None => if projects.len() > 0 {
            Some(projects[0].id)
        } else {
            None
        },
    }
}

fn project_is_there(projects: &Vec<Project>, id: Id) -> (r: bool)
    ensures
        r == has_project(projects@, id),
{
    let mut i: usize = 0;
    while i < projects.len()
        invariant
            i <= projects.len(),
            forall|j: int| 0 <= j < i ==> (#[trigger] projects@[j]).id != id,
        decreases projects.len() - i,
    {
        if projects[i].id == id {
            return true;
        }
        i += 1;
    }
    false
}

/// Which project the picker starts on: people keep adding cards to the same
/// one.
pub fn default_project(projects: &Vec<Project>, cards: &Vec<Card>) -> (r: Option<Id>)
    ensures
        r == preferred(projects@, cards@),
{
    let mut best: Option<(i64, Id)> = None;
    let mut i: usize = 0;
    while i < cards.len()
        invariant
            i <= cards.len(),
            match latest(projects@, cards@.take(i as int)) {
                Some(c) => best == Some((c.created_at, c.project_id)),
                None => best is None,
            },
        decreases cards.len() - i,
    {
        assert(cards@.take(i + 1).drop_last() =~= cards@.take(i as int));
        let c = &cards[i];
        if project_is_there(projects, c.project_id) {
            let newer = match best {
                Some((at, _)) => at <= c.created_at,
                None => true,
            };
            if newer {
                best = Some((c.created_at, c.project_id));
            }
        }
        i += 1;
    }
    assert(cards@.take(i as int) =~= cards@);
    match best {
        Some((_, id)) => Some(id),
        None => if projects.len() > 0 {
            Some(projects[0].id)
        } else {
            None
        },
    }
}

/// The picker's value at the start: the preferred project's id as text.
pub fn default_choice(projects: &Vec<Project>, cards: &Vec<Card>) -> (r: String)
    ensures
        r@ == (match preferred(projects@, cards@) {
            Some(id) => uuid_form(id),
            None => Seq::empty(),
        }),
{
    match default_project(projects, cards) {
        Some(id) => uuid_text(id),
        None => String::new(),
    }
}

/// The project a picker value stands for; the value of a project stands for
/// that project.
pub fn picked_project(chosen: &str) -> (r: Option<Id>)
    ensures
        r == uuid_read(chosen@),
        forall|id: Id| chosen@ == #[trigger] uuid_form(id) ==> r == Some(id),
{
    uuid_parse(chosen)
}

/// The path shown under the picker, to tell projects of one name apart.
pub fn picked_path<'a>(projects: &'a Vec<Project>, chosen: &str) -> (r: Option<&'a String>)
    ensures
        match first_where(projects@, |p: Project| uuid_form(p.id) == chosen@) {
            Some(i) => r == Some(&projects@[i].path),
            None => r is None,
        },
{
    let same = |p: &Project| -> (b: bool)
        ensures
            b == (uuid_form(p.id) == chosen@),
    {
        let text = uuid_text(p.id);
        same_text(text.as_str(), chosen)
    };
    match position(projects, same, Ghost(|p: Project| uuid_form(p.id) == chosen@)) {
        Some(i) => Some(&projects[i].path),
        None => None,
    }
}

/// The dialog's title and the label of its button.
pub fn picker_words(intent: NewCardIntent) -> (r: (&'static str, &'static str))
    ensures
        r.0@ == (match intent {
            NewCardIntent::Blank => "New card"@,
            NewCardIntent::Adopt => "Adopt a branch"@,
        }),
        r.1@ == (match intent {
            NewCardIntent::Blank => "Create card"@,
            NewCardIntent::Adopt => "Continue"@,
        }),
{
    match intent {
        NewCardIntent::Blank => ("New card", "Create card"),
        NewCardIntent::Adopt => ("Adopt a branch", "Continue"),
    }
}

/// The preferred project is one of the projects, whenever there is one.
pub proof fn preferred_is_there(projects: Seq<Project>, cards: Seq<Card>)
    ensures
        match preferred(projects, cards) {
            Some(id) => has_project(projects, id),
            None => projects.len() == 0,
        },
{
    latest_is_there(projects, cards);
    if latest(projects, cards) is None && projects.len() > 0 {
        assert(projects[0].id == projects[0].id);
    }
}

proof fn latest_is_there(projects: Seq<Project>, cards: Seq<Card>)
    ensures
        latest(projects, cards) matches Some(c) ==> has_project(projects, c.project_id),
    decreases cards.len(),
{
    if cards.len() > 0 {
        latest_is_there(projects, cards.drop_last());
    }
}

/// No card of a project that is there was created after the latest one.
pub proof fn latest_is_newest(projects: Seq<Project>, cards: Seq<Card>, i: int)
    requires
        0 <= i < cards.len(),
        has_project(projects, cards[i].project_id),
    ensures
        latest(projects, cards) is Some,
        cards[i].created_at <= latest(projects, cards)->0.created_at,
    decreases cards.len(),
{
    if i < cards.len() - 1 {
        latest_is_newest(projects, cards.drop_last(), i);
    }
}

/// The project on offer is one that is there: the one of the newest card whose project
/// is still there, else the first.
pub proof fn the_project_on_offer_is_there(projects: Seq<Project>, cards: Seq<Card>, i: int)
    requires
        projects.len() > 0,
    ensures
        preferred(projects, cards) is Some,
        exists|j: int|
            0 <= j < projects.len() && (#[trigger] projects[j]).id == preferred(projects, cards)->0,
        (forall|k: int, j: int|
            0 <= k < cards.len() && 0 <= j < projects.len() ==> (#[trigger] cards[k]).project_id != (
            #[trigger] projects[j]).id) ==> preferred(projects, cards) == Some(projects[0].id),
        0 <= i < cards.len() && (exists|j: int|
            0 <= j < projects.len() && (#[trigger] projects[j]).id == cards[i].project_id) && (forall|
            k: int,
        |
            0 <= k < cards.len() && k != i ==> (#[trigger] cards[k]).created_at
                < cards[i].created_at) ==> preferred(projects, cards) == Some(cards[i].project_id),
{
    preferred_is_there(projects, cards);
    if latest(projects, cards) is Some {
        let k = latest_among(projects, cards);
        latest_is_there(projects, cards);
        let j = choose|j: int|
            0 <= j < projects.len() && (#[trigger] projects[j]).id == cards[k].project_id;
        assert(cards[k].project_id == projects[j].id);
    }
    if 0 <= i < cards.len() && (exists|j: int|
        0 <= j < projects.len() && (#[trigger] projects[j]).id == cards[i].project_id) {
        latest_is_newest(projects, cards, i);
    }
}

proof fn latest_among(projects: Seq<Project>, cards: Seq<Card>) -> (k: int)
    requires
        latest(projects, cards) is Some,
    ensures
        0 <= k < cards.len(),
        latest(projects, cards) == Some(cards[k]),
    decreases cards.len(),
{
    let before = latest(projects, cards.drop_last());
    let c = cards.last();
    if has_project(projects, c.project_id) && (before is None || before->0.created_at
        <= c.created_at) {
        cards.len() - 1
    } else {
        let k = latest_among(projects, cards.drop_last());
        assert(cards.drop_last()[k] == cards[k]);
        k
    }
}

} // verus!
