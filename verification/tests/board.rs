//! The board: lanes, cards, menus, search and the choice of a project.

use usine::board::{
    column_cards, column_class, filtered_cards, new_card_target, toggle_collapsed,
    visible_columns, NewCardTarget,
};
use usine::card::{
    button_class, button_label, button_title, card_buttons, card_face, is_reviewable,
    preview_tools, press, CardButton, CardContext, PreviewTools, StatusBadge,
};
use usine::cardmenu::{
    choose_for_card, choose_for_review, entry_class, entry_label, menu_entries, MenuEntry,
    MenuKind, MenuOutcome,
};
use usine::command::{ExecutorCommand, OpenTarget};
use usine::confirm::{ConfirmAction, Gesture};
use usine::diffdialog::DiffTarget;
use usine::model::{
    Card, CardConfig, CardFacts, CardKind, CardState, CheckStatus, Column, DesignSub, Effort,
    FixVerdict, Intervention, ModelSpec, PrInfo, PrReviewSub, PreviewStatus, PreviewUrl, Project,
    ProjectConfig, Provider, ReviewSub, RunSub,
};
use usine::newcard::{
    default_choice, default_project, picked_path, picked_project, picker_words, NewCardIntent,
};
use usine::search::{close, contains_text, open, query};
use usine::state::SelectedView;

fn spec(model: &str) -> ModelSpec {
    ModelSpec {
        model: model.into(),
        effort: Effort::Medium,
    }
}

fn config() -> CardConfig {
    CardConfig {
        provider: Provider::Claude,
        kind: CardKind::Task,
        plan: spec("opus"),
        implement: spec("opus"),
        review: None,
    }
}

fn id_of(name: &str) -> u128 {
    name.bytes().fold(7, |n, b| n * 257 + b as u128)
}

fn project(name: &str) -> Project {
    Project {
        id: id_of(name),
        name: name.into(),
        path: format!("/tmp/{name}"),
        config: ProjectConfig {
            base_branch: "main".into(),
            pinned_base_branch: None,
            reviewer: None,
            review_contributors: vec![],
            run_script: None,
            validate_script: None,
            worktree_setup_script: None,
            worktree_teardown_script: None,
            preview_ports: vec![],
            auto_preview: false,
            notifications_muted: false,
            new_card: config(),
        },
    }
}

/// The lane a state belongs to.
fn lane(state: &CardState) -> Column {
    match state {
        CardState::StartingBlock => Column::StartingBlock,
        CardState::Designing(_) => Column::Designing,
        CardState::Investigating(_) | CardState::Concluded { .. } => Column::Investigating,
        CardState::Implementing(_) => Column::Implementing,
        CardState::AwaitingReview(_) => Column::SelfReview,
        CardState::PrReview(_) => Column::PrReview,
        CardState::ReadyToMerge => Column::ReadyToMerge,
        CardState::MergedWithoutReview { .. } | CardState::Done => Column::Done,
        CardState::Failed { previous, .. } | CardState::Answering { previous, .. } => {
            lane(previous)
        }
    }
}

/// A card with a recognisable title, so assertions read as the column does.
fn card(title: &str, state: CardState, blocked: bool, stamp: i64) -> Card {
    let needs_attention = matches!(
        state,
        CardState::AwaitingReview(ReviewSub::ReadyForPr)
            | CardState::AwaitingReview(ReviewSub::SelectingFixes { .. })
    );
    Card {
        id: id_of(title),
        project_id: 1,
        title: title.into(),
        description: String::new(),
        config: config(),
        branch: None,
        worktree_path: None,
        pr: None,
        checks: CheckStatus::Unreported,
        conflicting: false,
        unanswered_count: 0,
        reviews: vec![],
        blocked,
        blocked_note: None,
        created_at: stamp,
        updated_at: stamp,
        facts: CardFacts {
            column: lane(&state),
            running: false,
            needs_attention,
            needs_urgent_attention: false,
            status_label: "status".into(),
            approved_by: vec![],
            pending_bodies: vec![],
            triageable: false,
            checks_reportable: false,
            plan_questions: 0,
            worktree_present: false,
            cost: None,
        },
        state,
    }
}

fn titles<'a>(cards: &[&'a Card]) -> Vec<&'a str> {
    cards.iter().map(|c| c.title.as_str()).collect()
}

fn refs(cards: &[Card]) -> Vec<&Card> {
    cards.iter().collect()
}

#[test]
fn a_project_view_targets_its_own_project() {
    let (a, b) = (project("a"), project("b"));
    let b_id = b.id;
    assert_eq!(
        new_card_target(SelectedView::Project(b_id), &vec![a, b]),
        Some(NewCardTarget::Project(b_id))
    );
}

#[test]
fn home_asks_only_when_there_is_a_choice() {
    let (a, b) = (project("a"), project("b"));
    assert_eq!(new_card_target(SelectedView::Global, &vec![]), None);
    let a_id = a.id;
    let one = vec![a];
    assert_eq!(
        new_card_target(SelectedView::Global, &one),
        Some(NewCardTarget::Project(a_id))
    );
    let mut two = one;
    two.push(b);
    assert_eq!(
        new_card_target(SelectedView::Global, &two),
        Some(NewCardTarget::Ask)
    );
}

#[test]
fn empty_lanes_are_left_out_but_the_starting_block_stays() {
    let cards = vec![card(
        "work",
        CardState::Implementing(RunSub::Running),
        false,
        1,
    )];
    let all = refs(&cards);
    let shown = visible_columns(&all, false);
    let cols: Vec<Column> = shown.iter().map(|(c, _)| *c).collect();
    assert_eq!(cols, [Column::StartingBlock, Column::Implementing]);
    assert_eq!(titles(&shown[1].1), ["work"]);
    assert!(shown[0].1.is_empty());

    let cols: Vec<Column> = visible_columns(&vec![], false)
        .iter()
        .map(|(c, _)| *c)
        .collect();
    assert_eq!(cols, [Column::StartingBlock]);
}

#[test]
fn a_filtered_board_keeps_every_lane() {
    let none: Vec<&Card> = vec![];
    let shown = visible_columns(&none, true);
    let cols: Vec<Column> = shown.iter().map(|(c, _)| *c).collect();
    assert_eq!(cols, Column::board().to_vec());
    assert!(shown.iter().all(|(_, c)| c.is_empty()));
}

#[test]
fn folding_a_lane_is_a_toggle_on_the_persisted_list() {
    let mut list = Vec::new();
    toggle_collapsed(&mut list, Column::Done);
    assert_eq!(list, [Column::Done]);
    toggle_collapsed(&mut list, Column::StartingBlock);
    assert_eq!(list, [Column::Done, Column::StartingBlock]);
    toggle_collapsed(&mut list, Column::Done);
    assert_eq!(list, [Column::StartingBlock]);
}

#[test]
fn blocked_cards_sink_in_a_working_column() {
    let cards = vec![
        card("a", CardState::StartingBlock, true, 1),
        card("b", CardState::StartingBlock, false, 2),
        card("c", CardState::StartingBlock, true, 3),
        card("d", CardState::StartingBlock, false, 4),
    ];
    let all = refs(&cards);
    let out = column_cards(&all, Column::StartingBlock);
    assert_eq!(titles(&out), ["b", "d", "a", "c"]);
}

#[test]
fn done_keeps_recency_within_each_group() {
    let cards = vec![
        card("old", CardState::Done, false, 1),
        card("blocked-old", CardState::Done, true, 2),
        card("new", CardState::Done, false, 3),
        card("blocked-new", CardState::Done, true, 4),
    ];
    let all = refs(&cards);
    let out = column_cards(&all, Column::Done);
    assert_eq!(titles(&out), ["new", "old", "blocked-new", "blocked-old"]);
}

#[test]
fn the_review_lane_floats_the_cards_waiting_on_the_user() {
    let cards = vec![
        card(
            "reviewing",
            CardState::AwaitingReview(ReviewSub::Reviewing),
            false,
            1,
        ),
        card(
            "ready-for-pr",
            CardState::AwaitingReview(ReviewSub::ReadyForPr),
            false,
            2,
        ),
        card(
            "applying",
            CardState::AwaitingReview(ReviewSub::ApplyingFixes),
            false,
            3,
        ),
        card(
            "pick-fixes",
            CardState::AwaitingReview(ReviewSub::SelectingFixes { verdicts: vec![] }),
            false,
            4,
        ),
    ];
    let all = refs(&cards);
    let out = column_cards(&all, Column::SelfReview);
    assert_eq!(
        titles(&out),
        ["ready-for-pr", "pick-fixes", "reviewing", "applying"]
    );

    let cards = vec![
        card(
            "blocked-ready",
            CardState::AwaitingReview(ReviewSub::ReadyForPr),
            true,
            1,
        ),
        card(
            "reviewing",
            CardState::AwaitingReview(ReviewSub::Reviewing),
            false,
            2,
        ),
    ];
    let all = refs(&cards);
    let out = column_cards(&all, Column::SelfReview);
    assert_eq!(titles(&out), ["reviewing", "blocked-ready"]);
}

#[test]
fn uniform_columns_keep_their_order() {
    for blocked in [false, true] {
        let cards = vec![
            card("a", CardState::StartingBlock, blocked, 1),
            card("b", CardState::StartingBlock, blocked, 2),
        ];
        let all = refs(&cards);
        let out = column_cards(&all, Column::StartingBlock);
        assert_eq!(titles(&out), ["a", "b"]);

        let done = vec![
            card("old", CardState::Done, blocked, 1),
            card("new", CardState::Done, blocked, 2),
        ];
        let all = refs(&done);
        let out = column_cards(&all, Column::Done);
        assert_eq!(titles(&out), ["new", "old"]);
    }
}

fn dated(project_id: u128, stamp: i64) -> Card {
    let mut c = card("t", CardState::StartingBlock, false, stamp);
    c.project_id = project_id;
    c
}

#[test]
fn newest_cards_project_wins() {
    let (a, b) = (project("a"), project("b"));
    let (a_id, b_id) = (a.id, b.id);
    let cards = vec![dated(a_id, 10), dated(b_id, 20), dated(a_id, 5)];
    assert_eq!(default_project(&vec![a, b], &cards), Some(b_id));
}

#[test]
fn falls_back_to_the_first_project() {
    let (a, b) = (project("a"), project("b"));
    let a_id = a.id;
    assert_eq!(default_project(&vec![a, b], &vec![]), Some(a_id));
    assert_eq!(default_project(&vec![], &vec![]), None);
}

#[test]
fn cards_of_removed_projects_are_ignored() {
    let (a, gone) = (project("a"), project("gone"));
    let a_id = a.id;
    let cards = vec![dated(a_id, 10), dated(gone.id, 99)];
    assert_eq!(default_project(&vec![a], &cards), Some(a_id));
}

#[test]
fn the_picker_starts_on_the_newest_project_and_reads_back() {
    let (a, b) = (project("a"), project("b"));
    let b_id = b.id;
    let projects = vec![a, b];
    let chosen = default_choice(&projects, &vec![dated(b_id, 3)]);
    assert_eq!(chosen.len(), 36);
    assert_eq!(picked_project(&chosen), Some(b_id));
    assert_eq!(picked_path(&projects, &chosen), Some(&"/tmp/b".to_string()));
    assert_eq!(picked_project(""), None);
    assert_eq!(picked_project("nonsense"), None);
    assert_eq!(picked_path(&projects, "nonsense"), None);
    assert_eq!(default_choice(&vec![], &vec![]), "");
    assert_eq!(
        picked_project("00000000-0000-0000-0000-0000000000ff"),
        Some(255)
    );
    assert_eq!(
        picked_project("00000000-0000-0000-0000-0000000000FF"),
        Some(255)
    );
    assert_ne!(
        picker_words(NewCardIntent::Blank),
        picker_words(NewCardIntent::Adopt)
    );
}

#[test]
fn folding_twice_changes_nothing() {
    for col in Column::board() {
        let mut list = vec![Column::PrReview, Column::Done];
        let before = list.clone();
        toggle_collapsed(&mut list, col);
        assert_ne!(list, before);
        toggle_collapsed(&mut list, col);
        let mut sorted: Vec<String> = list.iter().map(|c| format!("{c:?}")).collect();
        sorted.sort();
        assert_eq!(sorted, ["Done", "PrReview"]);
    }
    assert_eq!(column_class(true), "column collapsed");
    assert_eq!(column_class(false), "column");
}

#[test]
fn the_find_bar_filters_by_title_in_any_letter_case() {
    let cards = vec![
        card("Add OAuth", CardState::StartingBlock, false, 1),
        card("Fix the ÉCRAN", CardState::Done, false, 2),
    ];
    let hits = filtered_cards(refs(&cards), &query(&Some(" oauth ".into())));
    assert_eq!(titles(&hits), ["Add OAuth"]);
    let hits = filtered_cards(refs(&cards), &query(&Some("Écran".into())));
    assert_eq!(titles(&hits), ["Fix the ÉCRAN"]);
    assert_eq!(filtered_cards(refs(&cards), &query(&None)).len(), 2);
    assert_eq!(filtered_cards(refs(&cards), &query(&Some("  ".into()))).len(), 2);
    assert!(filtered_cards(refs(&cards), &query(&Some("zzz".into()))).is_empty());
}

#[test]
fn a_blank_query_filters_nothing() {
    assert_eq!(query(&Some("  OAuth ".into())), Some("  OAuth ".into()));
    assert_eq!(query(&Some("   ".into())), None);
    assert_eq!(query(&None), None);
    assert!(usine::search::matches("Add OAuth", "oauth"));
    assert!(usine::search::matches("Add OAuth", "  OAUTH "));
    assert!(!usine::search::matches("Add OAuth", "o auth"));
    assert!(contains_text("abc", ""));
    assert!(contains_text("abcabd", "abd"));
    assert!(!contains_text("ab", "abc"));
}

#[test]
fn the_find_bar_opens_and_closes() {
    let mut bar = None;
    assert!(!open(&mut bar));
    assert_eq!(bar, Some(String::new()));
    bar = Some("typed".into());
    assert!(open(&mut bar));
    assert_eq!(bar, Some("typed".into()));
    close(&mut bar);
    assert_eq!(bar, None);
}

fn pr(state: &str) -> PrInfo {
    PrInfo {
        number: 4,
        url: "https://example.com/4".into(),
        title: "T".into(),
        state: state.into(),
        reviewer: None,
        reviewer_recorded: false,
    }
}

fn merging(state: &str) -> Card {
    let mut c = card("m", CardState::ReadyToMerge, false, 1);
    c.pr = Some(pr(state));
    c
}

fn question() -> Intervention {
    Intervention {
        request_id: "r".into(),
        question: "Which?".into(),
        options: vec![],
    }
}

#[test]
fn a_merge_that_would_be_refused_is_not_offered() {
    let mut c = merging("open");
    assert_eq!(card_buttons(&c, false), [CardButton::Merge]);
    c.checks = CheckStatus::Pending;
    assert_eq!(card_buttons(&c, false), [CardButton::MergeWaiting]);
    c.checks = CheckStatus::Failing;
    assert_eq!(card_buttons(&c, false), [CardButton::FixChecks]);
    c.conflicting = true;
    assert_eq!(card_buttons(&c, false), [CardButton::ResolveConflicts]);
    c.pr = Some(pr("draft"));
    assert_eq!(card_buttons(&c, false), [CardButton::MarkReady]);
    c.unanswered_count = 1;
    assert_eq!(
        card_buttons(&c, false),
        [CardButton::ReReadReview, CardButton::MarkReady]
    );
}

#[test]
fn a_blocked_card_has_no_buttons_at_all() {
    let mut c = merging("open");
    c.blocked = true;
    assert_eq!(card_buttons(&c, false), []);
}

#[test]
fn each_state_has_its_buttons() {
    for (state, expected) in [
        (CardState::StartingBlock, vec![CardButton::Start]),
        (
            CardState::Designing(DesignSub::Intervention(question())),
            vec![CardButton::Answer],
        ),
        (
            CardState::Designing(DesignSub::AwaitingApproval { plan: "p".into() }),
            vec![CardButton::Approve, CardButton::ReadPlan],
        ),
        (
            CardState::Concluded {
                conclusion: "c".into(),
            },
            vec![CardButton::ReadConclusion],
        ),
        (
            CardState::AwaitingReview(ReviewSub::ReadyForReview),
            vec![CardButton::Review],
        ),
        (
            CardState::AwaitingReview(ReviewSub::ReadyForPr),
            vec![CardButton::CreatePr],
        ),
        (
            CardState::AwaitingReview(ReviewSub::ValidationFailed {
                attempt: 1,
                output: String::new(),
            }),
            vec![CardButton::ValidationFailed],
        ),
        (CardState::PrReview(PrReviewSub::Idle), vec![]),
        (CardState::Done, vec![]),
    ] {
        let c = card("x", state, false, 1);
        assert_eq!(card_buttons(&c, false), expected, "{:?}", c.state);
    }
    let mut asking = card(
        "x",
        CardState::Designing(DesignSub::AwaitingApproval { plan: "p".into() }),
        false,
        1,
    );
    asking.facts.plan_questions = 2;
    assert_eq!(card_buttons(&asking, false), [CardButton::ReadPlan]);
    let mut idle = card("x", CardState::PrReview(PrReviewSub::Idle), false, 1);
    idle.facts.triageable = true;
    assert_eq!(card_buttons(&idle, false), [CardButton::ReadReview]);
}

#[test]
fn a_running_card_can_be_stopped_unless_it_waits_in_line() {
    let mut c = card("x", CardState::Implementing(RunSub::Running), false, 1);
    c.facts.running = true;
    assert_eq!(card_buttons(&c, false), [CardButton::Stop]);
    assert_eq!(card_buttons(&c, true), []);
}

#[test]
fn a_question_keeps_the_buttons_of_the_state_beneath() {
    let bare = card("x", CardState::StartingBlock, false, 1);
    let asked = card(
        "x",
        CardState::Answering {
            question: "why?".into(),
            previous: Box::new(CardState::StartingBlock),
        },
        false,
        1,
    );
    assert_eq!(card_buttons(&bare, false), card_buttons(&asked, false));
}

#[test]
fn a_fault_is_retried_or_resumed() {
    let fault = |message: &str| {
        card(
            "x",
            CardState::Failed {
                message: message.into(),
                previous: Box::new(CardState::Implementing(RunSub::Running)),
            },
            false,
            1,
        )
    };
    assert_eq!(card_buttons(&fault("boom"), false), [CardButton::Retry]);
    assert_eq!(
        press(CardButton::Retry, 9),
        Gesture::Send(ExecutorCommand::Retry { card_id: 9 })
    );
    assert_eq!(button_label(CardButton::Resume), "Resume");
}

#[test]
fn pressing_a_button() {
    assert_eq!(
        press(CardButton::Start, 1),
        Gesture::Send(ExecutorCommand::Start { card_id: 1 })
    );
    assert_eq!(press(CardButton::CreatePr, 1), Gesture::OpenAt("pr-create"));
    assert_eq!(press(CardButton::MergeWaiting, 1), Gesture::Nothing);
    match press(CardButton::Merge, 1) {
        Gesture::Guard { label, cmd, .. } => {
            assert_eq!(label, "Merge");
            assert_eq!(
                cmd,
                ExecutorCommand::Merge {
                    card_id: 1,
                    delete_branch: true,
                    force: false
                }
            );
        }
        other => panic!("{other:?}"),
    }
    match press(CardButton::Stop, 1) {
        Gesture::Ask(req) => {
            assert!(req.danger);
            assert_eq!(req.title, "Stop the run?");
            assert_eq!(
                req.action,
                ConfirmAction::Send(ExecutorCommand::Cancel { card_id: 1 })
            );
        }
        other => panic!("{other:?}"),
    }
    assert_eq!(button_class(CardButton::Merge), "btn success");
    assert_eq!(button_class(CardButton::Stop), "btn subtle");
    assert_eq!(button_class(CardButton::Start), "btn primary");
    assert_eq!(button_title(CardButton::Start), "");
    assert_eq!(
        button_title(CardButton::Stop),
        "Stop the agent's current run"
    );
}

fn ctx() -> CardContext {
    CardContext {
        selected: false,
        busy: false,
        queued: false,
        run_configured: true,
    }
}

#[test]
fn a_card_shows_what_it_is_about() {
    let mut c = card("  ", CardState::PrReview(PrReviewSub::Idle), true, 1);
    c.pr = Some(pr("open"));
    c.facts.approved_by = vec!["ann".into(), "bob".into()];
    c.facts.pending_bodies = vec!["eve".into()];
    let mut around = ctx();
    around.selected = true;
    around.busy = true;
    let face = card_face(&c, around, None);
    assert_eq!(face.class, "card selected is-busy blocked");
    assert_eq!(face.title, "Untitled");
    assert_eq!(face.status, "working…");
    assert_eq!(face.status_title, "status");
    assert_eq!(face.approved_by, Some("ann, bob".into()));
    assert_eq!(face.commented_by, Some("eve".into()));
    assert_eq!(face.badge, StatusBadge::Plain);
    assert!(face.spinner);
    assert!(face.menu.can_reset && face.menu.can_done && face.menu.can_diff && face.menu.can_open);
    assert_eq!(face.preview, PreviewTools::Idle);

    let asking = card(
        "x",
        CardState::Implementing(RunSub::Intervention(question())),
        false,
        1,
    );
    let face = card_face(&asking, ctx(), None);
    assert_eq!(face.badge, StatusBadge::NeedsAnswer);
    assert_eq!(face.class, "card");
    assert!(!face.spinner);
    assert!(!is_reviewable(&CardState::StartingBlock));
    let done = card("x", CardState::Done, false, 1);
    let menu = card_face(&done, ctx(), None).menu;
    assert!(!menu.can_done && !menu.can_open);
}

#[test]
fn a_preview_is_idle_starting_or_running() {
    let url = PreviewUrl {
        label: "web".into(),
        url: "http://localhost:3000".into(),
    };
    assert_eq!(preview_tools(false, None), PreviewTools::Hidden);
    assert_eq!(preview_tools(true, None), PreviewTools::Idle);
    assert_eq!(
        preview_tools(true, Some(&(PreviewStatus::SettingUp, vec![]))),
        PreviewTools::Starting
    );
    assert_eq!(
        preview_tools(true, Some(&(PreviewStatus::Running, vec![url]))),
        PreviewTools::Running {
            url: Some("http://localhost:3000".into())
        }
    );
    assert_eq!(
        preview_tools(true, Some(&(PreviewStatus::Failed, vec![]))),
        PreviewTools::Idle
    );
}

#[test]
fn blocking_turns_into_unblocking() {
    let flags = card_face(&card("x", CardState::Done, false, 1), ctx(), None).menu;
    let kind = |blocked: bool, note: Option<&str>| MenuKind::Card {
        flags,
        blocked,
        blocked_note: note.map(|n| n.to_string()),
    };
    let free = menu_entries(&kind(false, None), None);
    let stuck = menu_entries(&kind(true, None), None);
    let noted = menu_entries(&kind(true, Some("why")), None);
    assert!(free.contains(&MenuEntry::Block) && !free.contains(&MenuEntry::Unblock));
    assert!(stuck.contains(&MenuEntry::Unblock) && !stuck.contains(&MenuEntry::Block));
    assert!(stuck.contains(&MenuEntry::AddNote));
    assert!(noted.contains(&MenuEntry::EditNote) && !noted.contains(&MenuEntry::AddNote));
    assert!(free.contains(&MenuEntry::Delete));
    assert!(!free.contains(&MenuEntry::Bump));
    assert!(menu_entries(&kind(false, None), Some(2)).contains(&MenuEntry::Bump));
}

#[test]
fn a_pledged_fix_is_discarded_and_not_dismissed() {
    let kind = |has_fix: bool| MenuKind::Review {
        pr_number: 3,
        has_checkout: true,
        has_fix,
    };
    let plain = menu_entries(&kind(false), None);
    let pledged = menu_entries(&kind(true), None);
    assert!(plain.contains(&MenuEntry::Dismiss) && !plain.contains(&MenuEntry::DiscardFix));
    assert!(pledged.contains(&MenuEntry::DiscardFix) && !pledged.contains(&MenuEntry::Dismiss));
}

#[test]
fn choosing_a_menu_entry() {
    assert_eq!(
        choose_for_card(MenuEntry::OpenEditor, 5, "T", &None),
        MenuOutcome::Send(ExecutorCommand::OpenWorktree {
            card_id: 5,
            target: OpenTarget::Editor
        })
    );
    match choose_for_card(MenuEntry::Delete, 5, "T", &None) {
        MenuOutcome::Ask(req) => {
            assert!(req.danger);
            assert_eq!(req.message, "Delete “T”? This can't be undone.");
            assert_eq!(req.action, ConfirmAction::DeleteCard(5));
        }
        other => panic!("{other:?}"),
    }
    match choose_for_card(MenuEntry::EditNote, 5, "T", &Some("waits".into())) {
        MenuOutcome::AskWithNote(req, note) => {
            assert_eq!(req.action, ConfirmAction::BlockCard(5));
            assert_eq!(note, "waits");
        }
        other => panic!("{other:?}"),
    }
    assert_eq!(
        choose_for_review(MenuEntry::ShowDiff, 6, 3),
        MenuOutcome::ShowDiff(DiffTarget::Review(6))
    );
    assert_eq!(
        choose_for_review(MenuEntry::Dismiss, 6, 3),
        MenuOutcome::DismissReview(6, 3)
    );
    assert_eq!(
        choose_for_review(MenuEntry::DiscardFix, 6, 3),
        MenuOutcome::DiscardFix(6)
    );
    assert_eq!(entry_class(MenuEntry::Delete), "menu-item danger");
    assert_eq!(entry_class(MenuEntry::Bump), "menu-item");
    assert_eq!(entry_label(MenuEntry::Bump), "Bump to front of queue");
}

#[test]
fn a_lane_keeps_every_card_of_its_own() {
    let cards = vec![
        card("a", CardState::Done, false, 1),
        card("b", CardState::StartingBlock, false, 2),
        card(
            "c",
            CardState::AwaitingReview(ReviewSub::SelectingFixes {
                verdicts: Vec::<FixVerdict>::new(),
            }),
            true,
            3,
        ),
    ];
    let all = refs(&cards);
    let shown = visible_columns(&all, false);
    let count: usize = shown.iter().map(|(_, c)| c.len()).sum();
    assert_eq!(count, 3);
    assert_eq!(shown.len(), 3);
}
