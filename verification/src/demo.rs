//! What a first run in demo mode starts with: a project, and cards all along
//! the pipeline.

use vstd::prelude::*;

use crate::card::opt_text;
use crate::markdown::texts;
use crate::model::{CardState, DesignSub, Handoff, PrInfo, ReviewSub, RunSub};

verus! {

/// A card of the demo project.
#[derive(Debug, Clone, PartialEq, Eq)]
pub struct DemoCard {
    pub title: &'static str,
    pub description: &'static str,
    pub state: CardState,
    pub branch: Option<String>,
    pub pr: Option<PrInfo>,
    /// The note an implement run would have left.
    pub handoff: Option<Handoff>,
}

/// The authors whose pull requests the simulator serves: without any to watch,
/// the review board stays empty.
pub fn demo_contributors() -> (r: Vec<String>)
    ensures
        texts(r@) == seq!["octocat"@, "hubot"@],
{
    let mut v: Vec<String> = Vec::new();
    v.push("octocat".to_owned());
    v.push("hubot".to_owned());
    assert(texts(v@) =~= seq!["octocat"@, "hubot"@]);
    v
}

fn bare(title: &'static str, description: &'static str, state: CardState) -> (r: DemoCard)
    ensures
        r.title == title,
        r.description == description,
        r.state == state,
        r.branch is None,
        r.pr is None,
        r.handoff is None,
{
    DemoCard { title, description, state, branch: None, pr: None, handoff: None }
}

/// The note on the demo's finished work.
pub open spec fn demo_note(h: Handoff) -> bool {
    &&& h.summary@
        == "Deferred the syntax-highlighting theme load until the first diff is opened, which is where the 300ms went. Cold start is now ~90ms on my machine. I did not touch the database open path — it looked cheap enough that the added complexity wasn't worth it."@
    &&& texts(h.questions@) == seq![
        "The theme now loads on the first diff open, so that click is ~200ms slower. Worth pre-warming it in the background instead?"@,
    ]
    &&& texts(h.tests@) == seq![
        "Launch the app cold — the board should paint before the window finishes animating"@,
        "Open a card's diff — highlighting should appear, not plain text"@,
    ]
}

pub fn demo_handoff() -> (r: Handoff)
    ensures
        demo_note(r),
{
    let mut questions: Vec<String> = Vec::new();
    questions.push(
        "The theme now loads on the first diff open, so that click is ~200ms slower. Worth pre-warming it in the background instead?".to_owned(),
    );
    let mut tests: Vec<String> = Vec::new();
    tests.push(
        "Launch the app cold — the board should paint before the window finishes animating".to_owned(),
    );
    tests.push(
        "Open a card's diff — highlighting should appear, not plain text".to_owned(),
    );
    assert(texts(questions@) =~= seq![
        "The theme now loads on the first diff open, so that click is ~200ms slower. Worth pre-warming it in the background instead?"@,
    ]);
    assert(texts(tests@) =~= seq![
        "Launch the app cold — the board should paint before the window finishes animating"@,
        "Open a card's diff — highlighting should appear, not plain text"@,
    ]);
    Handoff {
        summary: "Deferred the syntax-highlighting theme load until the first diff is opened, which is where the 300ms went. Cold start is now ~90ms on my machine. I did not touch the database open path — it looked cheap enough that the added complexity wasn't worth it.".to_owned(),
        questions,
        tests,
    }
}

/// The titles of the demo cards, in order.
pub open spec fn demo_titles() -> Seq<Seq<char>> {
    seq![
        "Add dark mode"@,
        "Refactor the auth module"@,
        "Fix flaky integration test"@,
        "Speed up cold start"@,
        "Bump dependencies"@,
    ]
}

/// The descriptions of the demo cards, in order.
pub open spec fn demo_descriptions() -> Seq<Seq<char>> {
    seq![
        "Add a dark theme toggle to the settings screen."@,
        "Split the monolithic auth module into smaller units."@,
        "Investigate and fix the intermittently failing test."@,
        "Profile and reduce the app's cold-start time."@,
        "Update all dependencies to their latest compatible versions."@,
    ]
}

/// The demo cards: one at the start, one with a plan up for approval, one being
/// implemented, one before its review, and one ready to merge.
pub fn demo_cards() -> (r: Vec<DemoCard>)
    ensures
        r@.map_values(|c: DemoCard| c.title@) == demo_titles(),
        r@.map_values(|c: DemoCard| c.description@) == demo_descriptions(),
        r@[0].state is StartingBlock,
        r@[1].state matches CardState::Designing(DesignSub::AwaitingApproval { plan }) && plan@
            == "## Plan\n\n1. Extract token handling.\n2. Add tests.\n3. Wire it back in."@,
        r@[2].state == CardState::Implementing(RunSub::Running),
        r@[3].state == CardState::AwaitingReview(ReviewSub::ReadyForReview),
        r@[4].state is ReadyToMerge,
        forall|i: int| 0 <= i < 3 ==> (#[trigger] r@[i]).branch is None,
        opt_text(r@[3].branch) == Some("usine/speed-up-cold-start"@),
        opt_text(r@[4].branch) == Some("usine/bump-dependencies"@),
        forall|i: int| 0 <= i < 4 ==> (#[trigger] r@[i]).pr is None,
        r@[4].pr matches Some(p) && p.number == 17 && p.url@
            == "https://github.com/example/repo/pull/17"@ && p.title@ == "Bump dependencies"@
            && p.state@ == "open"@ && opt_text(p.reviewer) == Some("octocat"@)
            && p.reviewer_recorded,
        forall|i: int| 0 <= i < 5 ==> ((#[trigger] r@[i]).handoff is Some <==> i == 3),
        demo_note(r@[3].handoff->0),
{
    let mut v: Vec<DemoCard> = Vec::new();
    v.push(
        bare(
            "Add dark mode",
            "Add a dark theme toggle to the settings screen.",
            CardState::StartingBlock,
        ),
    );
    v.push(
        bare(
            "Refactor the auth module",
            "Split the monolithic auth module into smaller units.",
            CardState::Designing(
                DesignSub::AwaitingApproval {
                    plan: "## Plan\n\n1. Extract token handling.\n2. Add tests.\n3. Wire it back in.".to_owned(),
                },
            ),
        ),
    );
    v.push(
        bare(
            "Fix flaky integration test",
            "Investigate and fix the intermittently failing test.",
            CardState::Implementing(RunSub::Running),
        ),
    );
    let mut awaiting = bare(
        "Speed up cold start",
        "Profile and reduce the app's cold-start time.",
        CardState::AwaitingReview(ReviewSub::ReadyForReview),
    );
    awaiting.branch = Some("usine/speed-up-cold-start".to_owned());
    awaiting.handoff = Some(demo_handoff());
    v.push(awaiting);
    let mut ready = bare(
        "Bump dependencies",
        "Update all dependencies to their latest compatible versions.",
        CardState::ReadyToMerge,
    );
    ready.branch = Some("usine/bump-dependencies".to_owned());
    ready.pr = Some(
        PrInfo {
            number: 17,
            url: "https://github.com/example/repo/pull/17".to_owned(),
            title: "Bump dependencies".to_owned(),
            state: "open".to_owned(),
            reviewer: Some("octocat".to_owned()),
            reviewer_recorded: true,
        },
    );
    v.push(ready);
    assert(v@.map_values(|c: DemoCard| c.title@) =~= demo_titles());
    assert(v@.map_values(|c: DemoCard| c.description@) =~= demo_descriptions());
    v
}

} // verus!
