//! The command line: records of cards, and driving one to the end.

use usine::cli::{
    find_one, missing_cards, parse_args, rebuild_paths, recovered_card, reset_card, short_id,
    skipped_note, Drive, Found, Mode, Step,
};
use usine::command::ExecutorCommand;
use usine::demo::{demo_cards, demo_contributors, demo_handoff};
use usine::model::{
    Card, CardConfig, CardFacts, CardKind, CardState, CheckStatus, Column, DesignSub, Effort,
    FixVerdict, Intervention, ModelSpec, PrInfo, PrReviewSub, Provider, ReviewComment, ReviewSub,
};

fn spec(model: &str) -> ModelSpec {
    ModelSpec {
        model: model.into(),
        effort: Effort::Medium,
    }
}

fn config() -> CardConfig {
    CardConfig {
        provider: Provider::Claude,
        kind: CardKind::Task,
        plan: spec("opus"),
        implement: spec("opus"),
        review: None,
    }
}

fn card(id: u128, project_id: u128, state: CardState) -> Card {
    Card {
        id,
        project_id,
        title: format!("card {id}"),
        description: String::new(),
        config: config(),
        state,
        branch: None,
        worktree_path: None,
        pr: None,
        checks: CheckStatus::Unreported,
        conflicting: false,
        unanswered_count: 0,
        reviews: vec![],
        blocked: false,
        blocked_note: None,
        created_at: id as i64,
        updated_at: id as i64,
        facts: CardFacts {
            column: Column::StartingBlock,
            running: false,
            needs_attention: false,
            needs_urgent_attention: false,
            status_label: "status".into(),
            approved_by: vec![],
            pending_bodies: vec![],
            triageable: false,
            checks_reportable: false,
            plan_questions: 0,
            worktree_present: false,
            cost: None,
        },
    }
}

fn args(words: &[&str]) -> Vec<String> {
    words.iter().map(|w| w.to_string()).collect()
}

#[test]
fn arguments_choose_what_to_do() {
    assert_eq!(parse_args(&args(&[])), Ok(Mode::Simulate));
    assert_eq!(parse_args(&args(&["whatever"])), Ok(Mode::Simulate));
    assert_eq!(parse_args(&args(&["github"])), Ok(Mode::Github));
    assert_eq!(parse_args(&args(&["real-e2e"])), Ok(Mode::RealE2e));
    assert_eq!(
        parse_args(&args(&["inspect-db", "a.db"])),
        Ok(Mode::InspectDb("a.db".into()))
    );
    assert_eq!(
        parse_args(&args(&["recover-db", "a.db", "b.db"])),
        Ok(Mode::RecoverDb("a.db".into(), "b.db".into()))
    );
    assert_eq!(
        parse_args(&args(&["rebuild-db", "a.db"])),
        Ok(Mode::RebuildDb("a.db".into()))
    );
    assert_eq!(
        parse_args(&args(&["reset-to-pr-open", "a.db", "x"])),
        Ok(Mode::ResetToPrOpen("a.db".into(), "x".into()))
    );
    assert_eq!(
        parse_args(&args(&["real-plan", ".", "Do", "it", "well"])),
        Ok(Mode::RealPlan(Some(".".into()), "Do it well".into()))
    );
    assert_eq!(
        parse_args(&args(&["real-plan"])),
        Ok(Mode::RealPlan(
            None,
            "Summarize what this project does and propose one improvement.".into()
        ))
    );
}

#[test]
fn missing_arguments_are_asked_for() {
    for (words, usage) in [
        (vec!["inspect-db"], "usage: usine-cli inspect-db <path>"),
        (
            vec!["recover-db", "a.db"],
            "usage: usine-cli recover-db <current.db> <backup.db>",
        ),
        (
            vec!["rebuild-db"],
            "usage: usine-cli rebuild-db <db>  (run with Usine closed)",
        ),
        (
            vec!["reset-to-pr-open", "a.db"],
            "usage: usine-cli reset-to-pr-open <db> <card-id-prefix-or-title>",
        ),
    ] {
        assert_eq!(parse_args(&args(&words)), Err(usage));
    }
}

#[test]
fn a_card_is_found_by_id_or_title_when_it_is_the_only_one() {
    let id = 0x1234_5678_9abc_def0_0000_0000_0000_0001;
    assert_eq!(short_id(id), "12345678");
    let mut a = card(id, 9, CardState::Done);
    a.title = "Add OAuth".into();
    let mut b = card(2, 9, CardState::Done);
    b.title = "Fix OAUTH".into();
    let cards = vec![a, b];
    match find_one(&cards, "12345678-9abc") {
        Found::One(c) => assert_eq!(c.title, "Add OAuth"),
        _ => panic!(),
    }
    match find_one(&cards, "fix oauth") {
        Found::One(c) => assert_eq!(c.id, 2),
        _ => panic!(),
    }
    match find_one(&cards, "oauth") {
        Found::Several(v) => assert_eq!(v.len(), 2),
        _ => panic!(),
    }
    match find_one(&cards, "zzz") {
        Found::Nothing(m) => assert_eq!(m, "no card matches “zzz”"),
        _ => panic!(),
    }
}

#[test]
fn records_are_reset_and_recovered() {
    let mut c = card(1, 9, CardState::Done);
    c.worktree_path = Some("/tmp/w".into());
    let c = reset_card(c, 77);
    assert_eq!(c.state, CardState::PrReview(PrReviewSub::Idle));
    assert_eq!(c.worktree_path, None);
    assert_eq!(c.updated_at, 77);
    assert_eq!(c.created_at, 1);
    let backup = vec![card(1, 9, CardState::Done), card(5, 9, CardState::Done)];
    let current = vec![card(1, 9, CardState::Done)];
    let missing = missing_cards(&current, &backup);
    assert_eq!(missing.iter().map(|c| c.id).collect::<Vec<_>>(), [5]);
    let back = recovered_card(missing[0], 6);
    assert_eq!(back.id, 6);
    assert_eq!(back.title, "card 5");
    assert_eq!(
        rebuild_paths("/tmp/a.db", 12),
        (
            "/tmp/a.db.bak-before-rebuild-12".into(),
            "/tmp/a.db.rebuilt-12".into()
        )
    );
    assert_eq!(skipped_note(0), "");
    assert_eq!(skipped_note(2), "  (2 undecodable skipped)");
}

fn labelled(state: CardState, label: &str) -> Card {
    let mut c = card(1, 9, state);
    c.facts.status_label = label.into();
    c
}

fn verdict() -> FixVerdict {
    FixVerdict {
        comment: ReviewComment {
            id: 1,
            path: "a.rs".into(),
            line: None,
            body: "b".into(),
            review_body_of: None,
        },
        worth_fixing: true,
        selected: false,
        severity: String::new(),
        rationale: String::new(),
        reply: String::new(),
        instruction: String::new(),
    }
}

#[test]
fn a_simulated_card_is_driven_to_the_end() {
    let mut d = Drive::new();
    let question = Intervention {
        request_id: "r".into(),
        question: "q".into(),
        options: vec![],
    };
    let asking = labelled(
        CardState::Designing(DesignSub::Intervention(question)),
        "asks",
    );
    assert_eq!(
        d.simulate(1, &asking),
        Step::Send(ExecutorCommand::Answer {
            card_id: 1,
            text: "Simplicity".into()
        })
    );
    assert_eq!(d.simulate(1, &asking), Step::Same);
    assert_eq!(
        d.simulate(1, &labelled(CardState::ReadyToMerge, "ready")),
        Step::Send(ExecutorCommand::Merge {
            card_id: 1,
            delete_branch: true,
            force: false
        })
    );
    match d.simulate(
        1,
        &labelled(
            CardState::AwaitingReview(ReviewSub::SelectingFixes {
                verdicts: vec![verdict()],
            }),
            "pick",
        ),
    ) {
        Step::Send(ExecutorCommand::ApplySelfFixes { verdicts, .. }) => {
            assert!(verdicts[0].selected)
        }
        other => panic!("{other:?}"),
    }
    assert_eq!(
        d.simulate(1, &labelled(CardState::StartingBlock, "start")),
        Step::Seen
    );
    assert_eq!(
        d.simulate(1, &labelled(CardState::Done, "done")),
        Step::Finished
    );
    let broken = CardState::Failed {
        message: "boom".into(),
        previous: Box::new(CardState::Done),
    };
    assert_eq!(
        d.simulate(1, &labelled(broken, "failed")),
        Step::Failed("boom".into())
    );
}

#[test]
fn a_real_card_stops_at_its_pull_request() {
    let mut d = Drive::new();
    assert_eq!(
        d.run_e2e(
            1,
            &labelled(CardState::AwaitingReview(ReviewSub::Reviewing), "reviewing")
        ),
        Step::Send(ExecutorCommand::Cancel { card_id: 1 })
    );
    assert_eq!(
        d.run_e2e(
            1,
            &labelled(CardState::AwaitingReview(ReviewSub::ReadyForReview), "r")
        ),
        Step::Send(ExecutorCommand::SkipReview { card_id: 1 })
    );
    assert_eq!(
        d.run_e2e(1, &labelled(CardState::PrReview(PrReviewSub::Idle), "open")),
        Step::Finished
    );
}

#[test]
fn comments_are_fetched_once() {
    let mut d = Drive::new();
    let mut c = card(1, 9, CardState::PrReview(PrReviewSub::Idle));
    assert_eq!(d.on_release(1, Some(&c)), None);
    c.pr = Some(PrInfo {
        number: 1,
        url: String::new(),
        title: String::new(),
        state: "draft".into(),
        reviewer: None,
        reviewer_recorded: false,
    });
    assert_eq!(
        d.on_release(1, Some(&c)),
        Some(ExecutorCommand::MarkPrReady { card_id: 1 })
    );
    c.pr.as_mut().unwrap().state = "open".into();
    assert_eq!(
        d.on_release(1, Some(&c)),
        Some(ExecutorCommand::FetchComments { card_id: 1 })
    );
    assert_eq!(d.on_release(1, Some(&c)), None);
    assert_eq!(d.on_release(1, None), None);
}

#[test]
fn the_demo_has_a_card_at_each_stage() {
    let cards = demo_cards();
    assert_eq!(cards.len(), 5);
    assert_eq!(cards[0].state, CardState::StartingBlock);
    assert_eq!(cards[4].state, CardState::ReadyToMerge);
    assert_eq!(cards[4].branch, Some("usine/bump-dependencies".into()));
    assert!(cards[4].pr.is_some());
    assert!(!demo_contributors().is_empty());
    assert!(!demo_handoff().is_empty());
    assert_eq!(cards[3].handoff, Some(demo_handoff()));
    assert_eq!(demo_handoff().questions.len(), 1);
    assert_eq!(demo_handoff().tests.len(), 2);
}
