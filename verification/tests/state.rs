//! The state of the window and what changes it.

use std::collections::HashMap;
use usine::adoptdialog::listed_pr;
use usine::board::filtered_cards;
use usine::card::{pr_is_draft, seen_state};
use usine::command::{ExecutorCommand, ExecutorEvent, ExecutorEventKind};
use usine::confirm::{
    confirm_class, confirm_publish_review, confirm_then_send, confirmed, dismiss, perform,
    request, request_confirm, request_confirm_with_note, with_note, ConfirmAction, Gesture,
    Overlays,
};
use usine::drafts::{mirror_str, restore_str, same_texts, DraftKey};
use usine::edit::{edit_card, mode, mode_class, phase_fields, start_label, CardEdit, Mode};
use usine::model::{
    AppSettings, Card, CardConfig, CardFacts, CardKind, CardState, CheckStatus, Column,
    DraftComment, Effort, Handoff, ModelSpec, OpenPr, PreviewStatus, Project, ProjectConfig, Provider,
    ReviewColumn, ReviewEvent, ReviewFacts, ReviewStatus, ReviewTask, Severity, UsageSnapshot,
};
use usine::resize::{
    apply, clamp, current, dragged_panel, nudge, root_style, Panel, ResizeKey,
};
use usine::settings::{
    available_contributors, edit_project, edit_settings, terminal_command_example, Platform,
    ProjectEdit, SettingsEdit,
};
use usine::sidebar::{home_class, project_row, remove_project_dialog};
use usine::state::{
    app_display_name, badge_label, demo_mode, group_reviews, provider_notice, should_detach,
    store_failure, AppState, BoardMode, Records, SelectedView,
};
use usine::toast::{goes_away, severity_class, severity_icon, Toasts, MAX_TOASTS};

fn spec(model: &str) -> ModelSpec {
    ModelSpec {
        model: model.into(),
        effort: Effort::Medium,
    }
}

fn config() -> CardConfig {
    CardConfig {
        provider: Provider::Claude,
        kind: CardKind::Task,
        plan: spec("opus"),
        implement: spec("opus"),
        review: None,
    }
}

fn card(id: u128, project_id: u128, state: CardState) -> Card {
    Card {
        id,
        project_id,
        title: format!("card {id}"),
        description: String::new(),
        config: config(),
        state,
        branch: None,
        worktree_path: None,
        pr: None,
        checks: CheckStatus::Unreported,
        conflicting: false,
        unanswered_count: 0,
        reviews: vec![],
        blocked: false,
        blocked_note: None,
        created_at: id as i64,
        updated_at: id as i64,
        facts: CardFacts {
            column: Column::StartingBlock,
            running: false,
            needs_attention: false,
            needs_urgent_attention: false,
            status_label: "status".into(),
            approved_by: vec![],
            pending_bodies: vec![],
            triageable: false,
            checks_reportable: false,
            plan_questions: 0,
            worktree_present: false,
            cost: None,
        },
    }
}

fn project(id: u128) -> Project {
    Project {
        id,
        name: format!("project {id}"),
        path: format!("/tmp/{id}"),
        config: ProjectConfig {
            base_branch: "main".into(),
            pinned_base_branch: None,
            reviewer: None,
            review_contributors: vec![],
            run_script: None,
            validate_script: None,
            worktree_setup_script: None,
            worktree_teardown_script: None,
            preview_ports: vec![],
            auto_preview: false,
            notifications_muted: false,
            new_card: config(),
        },
    }
}

fn settings() -> AppSettings {
    AppSettings {
        default_provider: Provider::Claude,
        default_plan: spec("opus"),
        default_implement: spec("opus"),
        default_review: None,
        terminal_command: None,
        editor_command: None,
        max_concurrent_runs: 3,
        collapsed_columns: vec![],
        sidebar_width: 0,
        detail_width: 0,
    }
}

fn task(id: u128, project_id: u128, status: ReviewStatus) -> ReviewTask {
    ReviewTask {
        id,
        project_id,
        pr_number: 40 + id as u64,
        pr_title: "Teach it to sing".into(),
        author: "octocat".into(),
        url: "https://example.com".into(),
        head_ref: "sing".into(),
        base_ref: "main".into(),
        body: String::new(),
        guidance: String::new(),
        status,
        checks: CheckStatus::Unreported,
        conflicting: false,
        worktree_path: None,
        facts: ReviewFacts {
            column: ReviewColumn::ToReview,
            running: false,
            needs_attention: true,
            status_label: "to review".into(),
            checks_reportable: false,
            cost: None,
        },
    }
}

fn state(projects: Vec<Project>, cards: Vec<Card>, review_tasks: Vec<ReviewTask>) -> AppState {
    AppState::init(Records {
        projects,
        cards,
        settings: settings(),
        review_tasks,
        skip_plans: HashMap::new(),
        auto_reviews: HashMap::new(),
        attachments: HashMap::new(),
        review_recaps: HashMap::new(),
        answers: HashMap::new(),
        handoffs: HashMap::new(),
    })
}

fn happens(state: &mut AppState, card_id: u128, kind: ExecutorEventKind) {
    state.apply_event(ExecutorEvent { card_id, kind });
}

fn key(owner: u128, field: &'static str) -> DraftKey {
    DraftKey { owner, field }
}

#[test]
fn a_card_is_added_then_replaced_in_place() {
    let mut s = state(vec![], vec![card(1, 9, CardState::StartingBlock)], vec![]);
    happens(
        &mut s,
        2,
        ExecutorEventKind::CardUpdated(Box::new(card(2, 9, CardState::Done))),
    );
    assert_eq!(s.cards.len(), 2);
    happens(
        &mut s,
        1,
        ExecutorEventKind::CardUpdated(Box::new(card(1, 9, CardState::ReadyToMerge))),
    );
    assert_eq!(s.cards.len(), 2);
    assert_eq!(s.cards[0].state, CardState::ReadyToMerge);
    assert_eq!(s.find_card(2).map(|c| &c.state), Some(&CardState::Done));
    happens(
        &mut s,
        1,
        ExecutorEventKind::CardUpdated(Box::new(card(1, 9, CardState::ReadyToMerge))),
    );
    assert_eq!(s.cards.len(), 2);
}

#[test]
fn a_removed_card_leaves_nothing_behind() {
    let mut s = state(
        vec![],
        vec![
            card(1, 9, CardState::StartingBlock),
            card(2, 9, CardState::StartingBlock),
        ],
        vec![],
    );
    s.select_card(Some(1));
    mirror_str(&mut s.drafts, key(1, "chat"), "typed".into(), "");
    mirror_str(&mut s.drafts, key(2, "chat"), "kept".into(), "");
    happens(
        &mut s,
        1,
        ExecutorEventKind::Transcript {
            ts: 5,
            line: "hello".into(),
        },
    );
    happens(
        &mut s,
        1,
        ExecutorEventKind::AttachmentsChanged {
            paths: vec!["a.png".into()],
        },
    );
    happens(
        &mut s,
        1,
        ExecutorEventKind::AnswerUpdated {
            question: "q".into(),
            answer: "a".into(),
        },
    );
    assert_eq!(s.card_attachments(1), Some(&vec!["a.png".to_string()]));
    happens(&mut s, 1, ExecutorEventKind::CardRemoved);
    assert!(s.find_card(1).is_none());
    assert_eq!(s.selected_card, None);
    assert!(!s.transcripts.contains_key(&1));
    assert!(!s.attachments.contains_key(&1));
    assert!(!s.answers.contains_key(&1));
    assert_eq!(restore_str(&s.drafts, key(1, "chat")), None);
    assert_eq!(restore_str(&s.drafts, key(2, "chat")), Some("kept".into()));
    assert!(s.find_card(2).is_some());
}

#[test]
fn removing_another_card_keeps_the_selection() {
    let mut s = state(
        vec![],
        vec![
            card(1, 9, CardState::StartingBlock),
            card(2, 9, CardState::StartingBlock),
        ],
        vec![],
    );
    s.select_card(Some(2));
    happens(&mut s, 1, ExecutorEventKind::CardRemoved);
    assert_eq!(s.selected_card, Some(2));
}

#[test]
fn a_removed_project_takes_its_cards_and_reviews_along() {
    let mut s = state(
        vec![project(8), project(9)],
        vec![
            card(1, 8, CardState::StartingBlock),
            card(2, 9, CardState::StartingBlock),
        ],
        vec![
            task(3, 8, ReviewStatus::ToReview),
            task(4, 9, ReviewStatus::ToReview),
        ],
    );
    s.select_view(SelectedView::Project(8));
    s.select_card(Some(1));
    s.select_review(Some(3));
    mirror_str(&mut s.drafts, key(1, "chat"), "a".into(), "");
    mirror_str(&mut s.drafts, key(3, "review.guidance"), "b".into(), "");
    mirror_str(&mut s.drafts, key(4, "review.guidance"), "c".into(), "");
    happens(&mut s, 0, ExecutorEventKind::ProjectRemoved { project_id: 8 });
    assert!(s.find_project(8).is_none());
    assert!(s.find_project(9).is_some());
    assert!(s.find_card(1).is_none());
    assert!(s.review_task(3).is_none());
    assert!(s.review_task(4).is_some());
    assert_eq!(s.selected_view, SelectedView::Global);
    assert_eq!(s.selected_card, None);
    assert_eq!(s.selected_review, None);
    assert_eq!(s.drafts.len(), 1);
}

#[test]
fn a_rescan_drops_the_reviews_that_left() {
    let mut s = state(
        vec![project(9)],
        vec![],
        vec![
            task(3, 9, ReviewStatus::ToReview),
            task(4, 9, ReviewStatus::ToReview),
        ],
    );
    s.select_review(Some(3));
    mirror_str(&mut s.drafts, key(3, "review.guidance"), "b".into(), "");
    mirror_str(&mut s.drafts, key(4, "review.guidance"), "c".into(), "");
    happens(
        &mut s,
        0,
        ExecutorEventKind::ReviewTasksUpdated {
            project_id: 9,
            tasks: vec![task(4, 9, ReviewStatus::Reviewing)],
        },
    );
    assert_eq!(s.selected_review, None);
    assert_eq!(restore_str(&s.drafts, key(3, "review.guidance")), None);
    assert!(restore_str(&s.drafts, key(4, "review.guidance")).is_some());
    happens(
        &mut s,
        0,
        ExecutorEventKind::ReviewTaskUpdated(Box::new(task(4, 9, ReviewStatus::Reviewed))),
    );
    assert_eq!(
        s.review_task(4).map(|t| &t.status),
        Some(&ReviewStatus::Reviewed)
    );
    happens(
        &mut s,
        0,
        ExecutorEventKind::ReviewTaskUpdated(Box::new(task(5, 7, ReviewStatus::ToReview))),
    );
    assert_eq!(s.review_tasks_for(7).len(), 1);
}

#[test]
fn every_other_event_fills_its_own_slot() {
    let mut s = state(vec![project(9)], vec![], vec![]);
    happens(&mut s, 1, ExecutorEventKind::SkipPlanChanged { skip: true });
    happens(&mut s, 1, ExecutorEventKind::AutoReviewChanged { auto: true });
    happens(&mut s, 1, ExecutorEventKind::CardBusy { busy: true });
    assert!(s.card_skip_plan(1) && s.card_auto_review(1));
    assert!(s.busy.contains(&1));
    happens(&mut s, 1, ExecutorEventKind::CardBusy { busy: false });
    assert!(!s.busy.contains(&1));
    happens(
        &mut s,
        1,
        ExecutorEventKind::Transcript {
            ts: 1,
            line: "a".into(),
        },
    );
    happens(
        &mut s,
        1,
        ExecutorEventKind::Transcript {
            ts: 2,
            line: "b".into(),
        },
    );
    assert_eq!(
        s.transcripts[&1],
        vec![(1, "a".to_string()), (2, "b".to_string())]
    );
    happens(
        &mut s,
        1,
        ExecutorEventKind::AnswerUpdated {
            question: "q".into(),
            answer: "a".into(),
        },
    );
    assert_eq!(s.answers[&1], ("q".to_string(), "a".to_string()));
    happens(
        &mut s,
        1,
        ExecutorEventKind::AnswerUpdated {
            question: "q".into(),
            answer: String::new(),
        },
    );
    assert!(s.answers.is_empty());
    let note = Handoff {
        summary: "done".into(),
        questions: vec![],
        tests: vec![],
    };
    happens(
        &mut s,
        1,
        ExecutorEventKind::HandoffUpdated {
            handoff: note.clone(),
        },
    );
    assert_eq!(s.handoffs[&1], note);
    happens(
        &mut s,
        1,
        ExecutorEventKind::HandoffUpdated {
            handoff: Handoff {
                summary: String::new(),
                questions: vec![],
                tests: vec![],
            },
        },
    );
    assert!(s.handoffs.is_empty());
    happens(
        &mut s,
        1,
        ExecutorEventKind::PreviewUpdated {
            status: PreviewStatus::Running,
            urls: vec![],
        },
    );
    assert_eq!(s.preview(1), Some(&(PreviewStatus::Running, vec![])));
    happens(
        &mut s,
        1,
        ExecutorEventKind::RecapUpdated { recap: "r".into() },
    );
    assert_eq!(s.review_recaps[&1], "r");
    happens(
        &mut s,
        1,
        ExecutorEventKind::Reviewers {
            project_id: 9,
            logins: vec!["ann".into()],
        },
    );
    assert_eq!(s.reviewers[&9], vec!["ann".to_string()]);
    assert_eq!(s.reviewers_once(9), None);
    assert_eq!(
        s.reviewers_once(8),
        Some(ExecutorCommand::ListReviewers { project_id: 8 })
    );
    happens(
        &mut s,
        1,
        ExecutorEventKind::UsageUpdated(UsageSnapshot {
            claude: None,
            codex: None,
            refreshed_at: Some(4),
        }),
    );
    assert_eq!(s.usage.refreshed_at, Some(4));
}

#[test]
fn a_refused_merge_offers_help() {
    let mut s = state(vec![], vec![], vec![]);
    happens(
        &mut s,
        1,
        ExecutorEventKind::MergeConflict {
            pr_number: 12,
            base: "main".into(),
        },
    );
    let req = s.ui.confirm.clone().unwrap();
    assert_eq!(
        req.message,
        "PR #12 can't be merged — it conflicts with `main`.\n\nHave the agent merge `main` into the branch, resolve the conflicts, and push? You can review the result before merging again."
    );
    assert_eq!(
        confirmed(&mut s.ui),
        Some(ExecutorCommand::ResolveConflicts { card_id: 1 })
    );
    happens(
        &mut s,
        1,
        ExecutorEventKind::ChecksFailed {
            pr_number: 12,
            failed: vec!["lint".into(), "unit".into()],
        },
    );
    let req = s.ui.confirm.clone().unwrap();
    assert!(req.message.contains("\n\nFailing: lint, unit\n\n"), "{}", req.message);
    happens(
        &mut s,
        1,
        ExecutorEventKind::ChecksFailed {
            pr_number: 12,
            failed: vec![],
        },
    );
    assert!(!s.ui.confirm.clone().unwrap().message.contains("Failing: "));
}

#[test]
fn only_the_newest_notifications_stay() {
    let mut t = Toasts::new();
    for i in 0..7 {
        t.push_toast(Severity::Info, format!("{i}"));
    }
    assert_eq!(t.list.len(), MAX_TOASTS);
    assert_eq!(t.list[0].message, "2");
    assert_eq!(t.list[4].id, 7);
    t.dismiss_toast(5);
    assert!(t.list.iter().all(|n| n.id != 5));
    assert_eq!(t.list.iter().map(|n| n.id).collect::<Vec<_>>(), [3, 4, 6, 7]);
    assert_eq!(severity_class(Severity::Error), "toast error");
    assert_eq!(severity_icon(Severity::Success), "✓");
    assert!(goes_away(Severity::Info));
    assert!(!goes_away(Severity::Error));
}

#[test]
fn switching_boards_and_views() {
    let mut s = state(
        vec![project(8), project(9)],
        vec![
            card(2, 8, CardState::StartingBlock),
            card(1, 9, CardState::StartingBlock),
        ],
        vec![task(3, 9, ReviewStatus::ToReview)],
    );
    assert_eq!(s.visible_cards().iter().map(|c| c.id).collect::<Vec<_>>(), [1, 2]);
    assert_eq!(
        s.enter_review_mode(9),
        ExecutorCommand::ScanReviews { project_id: 9 }
    );
    assert_eq!(s.board_mode(), BoardMode::Review);
    assert_eq!(s.selected_view, SelectedView::Project(9));
    s.select_review(Some(3));
    s.exit_review_mode();
    assert_eq!(s.board_mode(), BoardMode::Normal);
    assert_eq!(s.selected_review, None);
    assert_eq!(s.visible_cards().iter().map(|c| c.id).collect::<Vec<_>>(), [1]);
    assert_eq!(s.review_attention_count(), 1);
    assert_eq!(s.project_review_count(9), 1);
    assert_eq!(s.project_review_count(8), 0);
    assert_eq!(s.project_name(9), "project 9");
    s.click_card(1);
    assert_eq!(s.selected_card, Some(1));
    assert!(s.escape(true));
    assert_eq!(s.selected_card, Some(1));
    assert!(!s.escape(false));
    assert_eq!(s.selected_card, None);
    assert_eq!(filtered_cards(s.visible_cards(), &None).len(), 1);
}

#[test]
fn a_new_card_needs_its_project() {
    let mut s = state(vec![project(9)], vec![], vec![]);
    assert_eq!(
        s.create_card(5, 9, "T".into(), "D".into()),
        Some(ExecutorCommand::CreateCard {
            card_id: 5,
            project_id: 9,
            title: "T".into(),
            description: "D".into(),
            config: config(),
        })
    );
    assert_eq!(s.selected_card, Some(5));
    assert_eq!(s.create_card(6, 1, "T".into(), "D".into()), None);
    assert_eq!(s.selected_card, Some(5));
    assert_eq!(s.toasts.list.len(), 1);
    assert_eq!(s.toasts.list[0].message, "unknown project");
}

#[test]
fn a_project_is_named_after_its_folder() {
    let mut s = state(vec![], vec![], vec![]);
    assert_eq!(
        s.add_project(7, Some("usine".into()), "/src/usine".into()),
        ExecutorCommand::AddProject {
            project_id: 7,
            name: "usine".into(),
            path: "/src/usine".into(),
        }
    );
    assert_eq!(s.selected_view, SelectedView::Project(7));
    assert_eq!(
        s.add_project(8, None, "/".into()),
        ExecutorCommand::AddProject {
            project_id: 8,
            name: "/".into(),
            path: "/".into(),
        }
    );
}

#[test]
fn confirming_sends_the_command_of_the_dialog() {
    let mut ui = Overlays::new();
    assert_eq!(confirmed(&mut ui), None);
    let send = ExecutorCommand::Retry { card_id: 1 };
    assert_eq!(
        confirm_then_send(&mut ui, true, "T", "M".into(), "L", send.clone()),
        Some(send.clone())
    );
    assert!(ui.confirm.is_none());
    assert_eq!(
        confirm_then_send(&mut ui, false, "T", "M".into(), "L", send.clone()),
        None
    );
    assert_eq!(ui.confirm.as_ref().unwrap().title, "T");
    assert_eq!(confirmed(&mut ui), Some(send.clone()));
    assert!(ui.confirm.is_none());
    request_confirm(
        &mut ui,
        request("T", "M".into(), "L", true, ConfirmAction::DeleteCard(4)),
    );
    assert_eq!(confirm_class(ui.confirm.as_ref().unwrap()), "btn danger");
    assert!(!with_note(ui.confirm.as_ref().unwrap()));
    dismiss(&mut ui);
    assert_eq!(confirmed(&mut ui), None);
    request_confirm_with_note(
        &mut ui,
        request("T", "M".into(), "L", false, ConfirmAction::BlockCard(4)),
        "waits for legal".into(),
    );
    assert!(with_note(ui.confirm.as_ref().unwrap()));
    assert_eq!(
        confirmed(&mut ui),
        Some(ExecutorCommand::SetBlocked {
            card_id: 4,
            blocked: true,
            note: Some("waits for legal".into()),
        })
    );
    let done = perform(&mut ui, false, Gesture::OpenAt("pr-create"));
    assert_eq!((done.send, done.open_at), (None, Some("pr-create")));
    let done = perform(&mut ui, false, Gesture::Send(send.clone()));
    assert_eq!((done.send, done.open_at), (Some(send), None));
    let done = perform(&mut ui, false, Gesture::Nothing);
    assert_eq!((done.send, done.open_at), (None, None));
}

#[test]
fn publishing_counts_what_is_posted() {
    let comment = |selected: bool| DraftComment {
        path: "a.rs".into(),
        line: Some(3),
        body: "b".into(),
        severity: "minor".into(),
        selected,
    };
    let mut ui = Overlays::new();
    let drafts = vec![comment(true), comment(false), comment(true)];
    assert_eq!(
        confirm_publish_review(
            &mut ui,
            false,
            3,
            drafts.clone(),
            ReviewEvent::Comment,
            "Comment",
            "S".into()
        ),
        None
    );
    let message = ui.confirm.clone().unwrap().message;
    assert_eq!(
        message,
        "Submit 2 inline comments to GitHub as “Comment”? This posts on the contributor's pull request under your account and can't be undone from here."
    );
    assert_eq!(
        confirmed(&mut ui),
        Some(ExecutorCommand::PublishReview {
            review_id: 3,
            drafts,
            event: ReviewEvent::Comment,
            body: "S".into(),
        })
    );
}

#[test]
fn widths_are_clamped_and_drawn() {
    let mut s = settings();
    assert_eq!(clamp(Panel::Sidebar, 10), 160);
    assert_eq!(clamp(Panel::Detail, 5000), 800);
    assert_eq!(apply(&mut s, Panel::Sidebar, 1000), 420);
    assert_eq!(current(&s, Panel::Sidebar), 420);
    assert!(nudge(&mut s, Panel::Sidebar, ResizeKey::Left, false));
    assert_eq!(s.sidebar_width, 404);
    assert!(nudge(&mut s, Panel::Sidebar, ResizeKey::Left, true));
    assert_eq!(s.sidebar_width, 340);
    assert!(nudge(&mut s, Panel::Sidebar, ResizeKey::Home, false));
    assert_eq!(s.sidebar_width, 200);
    assert!(!nudge(&mut s, Panel::Sidebar, ResizeKey::Other, false));
    assert_eq!(apply(&mut s, Panel::Detail, 380), 380);
    assert!(nudge(&mut s, Panel::Detail, ResizeKey::Left, false));
    assert_eq!(s.detail_width, 396);
    assert_eq!(s.sidebar_width, 200);
    assert_eq!(
        root_style(&s),
        ":root{--sidebar-w:200px;--detail-w:396px;}"
    );
    assert_eq!(dragged_panel("sidebar"), Panel::Sidebar);
    assert_eq!(dragged_panel("detail"), Panel::Detail);
}

#[test]
fn folding_a_lane_is_saved() {
    let s = state(vec![], vec![], vec![]);
    match s.fold_lane(Column::Done) {
        ExecutorCommand::SaveSettings { settings } => {
            assert_eq!(settings.collapsed_columns, [Column::Done])
        }
        other => panic!("{other:?}"),
    }
    let cmd = s.save_width(Panel::Detail, 10);
    match cmd {
        ExecutorCommand::SaveSettings { settings } => assert_eq!(settings.detail_width, 300),
        other => panic!("{other:?}"),
    }
}

#[test]
fn project_settings_are_edited_one_by_one() {
    let p = |e: ProjectEdit| edit_project(project(1), e).map(|p| p.config);
    let two = p(ProjectEdit::Contributors(" ann, ,bob,".into())).unwrap();
    assert_eq!(two.review_contributors, ["ann", "bob"]);
    assert_eq!(
        available_contributors(&vec!["ann".into(), "eve".into()], &two.review_contributors),
        ["eve"]
    );
    assert_eq!(
        p(ProjectEdit::AddContributor("ann".into()))
            .unwrap()
            .review_contributors,
        ["ann"]
    );
    assert!(p(ProjectEdit::AddContributor(String::new())).is_none());
    assert_eq!(
        p(ProjectEdit::Run(" cargo run ".into())).unwrap().run_script,
        Some("cargo run".into())
    );
    assert_eq!(p(ProjectEdit::Run("  ".into())).unwrap().run_script, None);
    assert!(p(ProjectEdit::ToggleAutoPreview).unwrap().auto_preview);
    assert!(p(ProjectEdit::RemovePort(0)).is_none());
    assert!(p(ProjectEdit::PortLabel(0, "web".into())).is_none());
    let ported = edit_project(project(1), ProjectEdit::AddPort).unwrap();
    assert_eq!(ported.config.preview_ports[0].base, 3000);
    let ported = edit_project(ported, ProjectEdit::PortBase(0, " 8080 ".into())).unwrap();
    assert_eq!(ported.config.preview_ports[0].base, 8080);
    let ported = edit_project(ported, ProjectEdit::PortLabel(0, " web ".into())).unwrap();
    assert_eq!(ported.config.preview_ports[0].label, "web");
    let bare = edit_project(ported, ProjectEdit::RemovePort(0)).unwrap();
    assert!(bare.config.preview_ports.is_empty());
    let again = edit_project(project(1), ProjectEdit::AddPort).unwrap();
    assert!(edit_project(again, ProjectEdit::PortBase(0, "65536".into())).is_none());
    let removed = edit_project(
        edit_project(project(1), ProjectEdit::Contributors("ann,bob".into())).unwrap(),
        ProjectEdit::RemoveContributor("ann".into()),
    )
    .unwrap();
    assert_eq!(removed.config.review_contributors, ["bob"]);
}

#[test]
fn settings_are_edited_one_by_one() {
    let e = |e: SettingsEdit| edit_settings(settings(), e);
    assert_eq!(
        e(SettingsEdit::MaxRuns(" 5 ".into()))
            .unwrap()
            .max_concurrent_runs,
        5
    );
    assert!(e(SettingsEdit::MaxRuns("many".into())).is_none());
    assert!(e(SettingsEdit::MaxRuns("4294967296".into())).is_none());
    assert_eq!(
        e(SettingsEdit::Editor(" zed ".into())).unwrap().editor_command,
        Some("zed".into())
    );
    let swapped = e(SettingsEdit::Provider(
        Provider::Codex,
        CardConfig {
            provider: Provider::Codex,
            kind: CardKind::Task,
            plan: spec("gpt-5.5"),
            implement: spec("gpt-5.4"),
            review: Some(spec("gpt-5.5")),
        },
    ))
    .unwrap();
    assert_eq!(swapped.default_provider, Provider::Codex);
    assert_eq!(swapped.default_implement, spec("gpt-5.4"));
    assert_eq!(swapped.default_review, Some(spec("gpt-5.5")));
    assert_eq!(
        terminal_command_example(Platform::MacOs),
        "open -a Terminal {path}"
    );
    let s = state(vec![project(9)], vec![], vec![]);
    assert!(s.update_project(1, ProjectEdit::AddPort).is_none());
    assert!(s.update_project(9, ProjectEdit::AddPort).is_some());
    assert!(s.update_settings(SettingsEdit::MaxRuns("x".into())).is_none());
}

#[test]
fn a_card_is_edited_field_by_field() {
    let c = edit_card(
        card(1, 9, CardState::StartingBlock),
        CardEdit::Title("New".into()),
    );
    assert_eq!(c.title, "New");
    let c = edit_card(c, CardEdit::Kind(CardKind::Investigation));
    let other = CardConfig {
        provider: Provider::Codex,
        ..config()
    };
    let c = edit_card(c, CardEdit::Provider(other));
    assert_eq!(c.config.provider, Provider::Codex);
    assert_eq!(c.config.kind, CardKind::Investigation);
    let s = state(vec![], vec![card(1, 9, CardState::StartingBlock)], vec![]);
    assert!(s.update_card(2, CardEdit::Title("x".into())).is_none());
    match s.update_card(1, CardEdit::Description("x".into())) {
        Some(ExecutorCommand::SaveCard { card }) => assert_eq!(card.description, "x"),
        other => panic!("{other:?}"),
    }
}

#[test]
fn the_mode_of_a_card() {
    assert_eq!(mode(CardKind::Investigation, true), Mode::Investigate);
    assert_eq!(mode(CardKind::Task, true), Mode::Direct);
    assert_eq!(mode(CardKind::Task, false), Mode::Design);
    assert_ne!(start_label(Mode::Design), start_label(Mode::Direct));
    assert_ne!(
        mode_class(Mode::Design, Mode::Design),
        mode_class(Mode::Design, Mode::Direct)
    );
    assert!(phase_fields(Mode::Design).plan);
    assert!(!phase_fields(Mode::Direct).plan);
    let s = state(vec![], vec![card(1, 9, CardState::StartingBlock)], vec![]);
    let (saved, skips) = s.choose_mode(1, Mode::Direct);
    assert_eq!(
        skips,
        Some(ExecutorCommand::SetSkipPlan {
            card_id: 1,
            skip: true
        })
    );
    drop(saved);
}

#[test]
fn a_pasted_picture_is_attached_as_png() {
    let s = state(vec![], vec![], vec![]);
    let rgba: Vec<u8> = vec![255, 0, 0, 255, 0, 255, 0, 255];
    match s.attach_pasted(4, 2, 1, rgba.clone()) {
        Some(ExecutorCommand::AttachImageBytes { card_id, data }) => {
            assert_eq!(card_id, 4);
            assert_eq!(&data[..8], b"\x89PNG\r\n\x1a\n");
            assert_ne!(data, rgba);
        }
        other => panic!("{other:?}"),
    }
    assert_eq!(s.attach_pasted(4, 3, 1, rgba), None);
    assert_eq!(
        s.attach_images(4, vec!["a".into(), "b".into()]).len(),
        2
    );
}

#[test]
fn a_row_of_the_sidebar() {
    let mut waiting = card(1, 9, CardState::ReadyToMerge);
    waiting.facts.needs_attention = true;
    let mut urgent = card(2, 9, CardState::ReadyToMerge);
    urgent.facts.needs_attention = true;
    urgent.facts.needs_urgent_attention = true;
    let mut s = state(
        vec![project(9)],
        vec![waiting, urgent],
        vec![task(3, 9, ReviewStatus::ToReview)],
    );
    let mut p = project(9);
    let row = project_row(&s, &p);
    assert_eq!(row.class, "nav-item");
    assert_eq!(row.dot_class, "proj-dot urgent");
    assert_eq!(row.attention, 2);
    assert_eq!(row.attention_title, "2 cards waiting on you");
    assert_eq!(row.reviews, 1);
    p.config.notifications_muted = true;
    s.select_view(SelectedView::Project(9));
    let row = project_row(&s, &p);
    assert_eq!(row.class, "nav-item active muted");
    assert_eq!(row.dot_class, "proj-dot idle");
    assert_eq!((row.attention, row.reviews), (0, 0));
    assert_eq!(row.attention_title, "0 cards waiting on you");
    assert_eq!(home_class(SelectedView::Global), "nav-item home active");
    let req = remove_project_dialog(9, "usine");
    assert_eq!(
        req.message,
        "Remove “usine” and its cards from Usine? Your files and git history are not touched."
    );
    assert_eq!(req.action, ConfirmAction::DeleteProject(9));
}

#[test]
fn a_launch_says_what_it_found() {
    let say = |seeded, first, second| provider_notice(seeded, first, second, "Alpha", "alpha");
    assert_eq!(
        say(Some(Provider::Codex), false, true),
        Some((
            Severity::Info,
            "Alpha CLI not found — defaulting to Codex".into()
        ))
    );
    assert_eq!(
        say(Some(Provider::Claude), false, false),
        Some((
            Severity::Warning,
            "No agent CLI found on PATH — install alpha or codex".into()
        ))
    );
    assert_eq!(say(Some(Provider::Claude), true, false), None);
    assert_eq!(say(None, false, false), None);
    assert!(demo_mode(Some("1")));
    assert!(demo_mode(Some("True")));
    assert!(!demo_mode(Some("0")));
    assert!(!demo_mode(None));
    assert_eq!(app_display_name(true), "Usine (test)");
    assert_eq!(app_display_name(false), "Usine");
    assert_eq!(badge_label(0, 0), None);
    assert_eq!(badge_label(2, 3), Some("5".into()));
    assert!(should_detach(false, false, false));
    assert!(!should_detach(true, false, false));
    assert!(!should_detach(false, true, false));
    assert!(!should_detach(false, false, true));
    assert_eq!(
        store_failure("locked", true),
        "could not open database (locked). Quit any other Usine instance — the database allows only one writer. Falling back to a temporary in-memory store — the board starts empty and changes will NOT be saved"
    );
}

#[test]
fn reviews_are_kept_by_project_in_their_order() {
    let all = vec![
        task(3, 1, ReviewStatus::ToReview),
        task(2, 7, ReviewStatus::ToReview),
        task(1, 1, ReviewStatus::ToReview),
    ];
    let by = group_reviews(all);
    assert_eq!(by.len(), 2);
    assert_eq!(by[&1].iter().map(|t| t.id).collect::<Vec<_>>(), [3, 1]);
    assert_eq!(by[&7].iter().map(|t| t.id).collect::<Vec<_>>(), [2]);
    assert!(group_reviews(vec![]).is_empty());
}

#[test]
fn a_project_counts_its_own_waiting_cards() {
    let waiting = |id, project_id, urgent| {
        let mut c = card(id, project_id, CardState::StartingBlock);
        c.facts.needs_attention = true;
        c.facts.needs_urgent_attention = urgent;
        c
    };
    let s = state(
        vec![project(1), project(2)],
        vec![
            waiting(10, 1, true),
            waiting(11, 1, false),
            waiting(12, 2, true),
            card(13, 1, CardState::StartingBlock),
        ],
        vec![],
    );
    assert_eq!(s.attention_count(), 3);
    assert_eq!(s.project_attention_counts(1), (2, 1));
    assert_eq!(s.project_attention_counts(2), (1, 1));
    assert_eq!(s.project_attention_counts(3), (0, 0));
    let first = s.cards[0].clone();
    let context = s.card_context(&first, true);
    assert!(context.queued && !context.selected && !context.busy);
    assert_eq!(
        s.save_card(first.clone()),
        ExecutorCommand::SaveCard {
            card: Box::new(first)
        }
    );
    assert_eq!(
        s.save_project(project(1)),
        ExecutorCommand::SaveProject {
            project: Box::new(project(1))
        }
    );
}

#[test]
fn a_fault_shows_but_a_question_is_looked_through() {
    let failed = CardState::Failed {
        message: "no".into(),
        previous: Box::new(CardState::StartingBlock),
    };
    let asked = CardState::Answering {
        question: "why?".into(),
        previous: Box::new(failed.clone()),
    };
    assert!(failed.is_failed() && !asked.is_failed());
    assert_eq!(asked.effective(), &CardState::StartingBlock);
    assert_eq!(seen_state(&failed), &failed);
    assert_eq!(seen_state(&asked), &CardState::StartingBlock);
    assert!(!pr_is_draft(&card(1, 1, failed)));
}

#[test]
fn lists_of_text_are_the_same_item_by_item() {
    let list = |items: &[&str]| items.iter().map(|s| s.to_string()).collect::<Vec<_>>();
    assert!(same_texts(&list(&["a", "b"]), &list(&["a", "b"])));
    assert!(!same_texts(&list(&["a", "b"]), &list(&["b", "a"])));
    assert!(!same_texts(&list(&["a"]), &list(&["a", "a"])));
    let pr = |number, title: &str| OpenPr {
        number,
        title: title.into(),
        body: String::new(),
        head_ref: "x".into(),
        author: "me".into(),
        draft: false,
        mine: true,
    };
    let prs = vec![pr(4, "four"), pr(5, "five"), pr(5, "again")];
    assert_eq!(listed_pr(&prs, 5).unwrap().title, "five");
    assert_eq!(listed_pr(&prs, 6), None);
}
