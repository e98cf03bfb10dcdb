//! What each action sends, and the small tools under all of it.

use std::collections::HashMap;
use usine::command::ExecutorCommand;
use usine::confirm::{
    confirm_approve_review, confirm_discard_review, confirm_discard_review_fix,
    confirm_dismiss_review, confirm_push_review_fix, confirmed, count_selected,
    finish_review_validation, ConfirmAction, Overlays,
};
use usine::detail::retired_hint;
use usine::diffdialog::{open_review_diff, DiffTarget};
use usine::markdown::{
    bullet_item, heading_level, is_path_ref, join_text, ordered_item, split_line_suffix,
};
use usine::model::{
    AppSettings, DirtyAction, DraftComment, Effort, ModelSpec, Provider, ReviewEvent,
};
use usine::plan::{all_answered, any_answered, combine, PlanQuestion};
use usine::resize::{Panel, ResizeKey};
use usine::reviewboard::{review_button_title, ReviewButton};
use usine::state::{AppState, Records};
use usine::text::{
    decimal_text, find_last_slice, find_slice, is_alphanumeric, is_blank, is_digit, is_white,
    parse_number, split_parts, starts_with, string_of, trim,
};

fn spec(model: &str) -> ModelSpec {
    ModelSpec {
        model: model.into(),
        effort: Effort::High,
    }
}

fn settings() -> AppSettings {
    AppSettings {
        default_provider: Provider::Codex,
        default_plan: spec("a"),
        default_implement: spec("b"),
        default_review: None,
        terminal_command: None,
        editor_command: None,
        max_concurrent_runs: 5,
        collapsed_columns: vec![],
        sidebar_width: 250,
        detail_width: 500,
    }
}

fn state() -> AppState {
    AppState::init(Records {
        projects: vec![],
        cards: vec![],
        settings: settings(),
        review_tasks: vec![],
        skip_plans: HashMap::new(),
        auto_reviews: HashMap::new(),
        attachments: HashMap::new(),
        review_recaps: HashMap::new(),
        answers: HashMap::new(),
        handoffs: HashMap::new(),
    })
}

fn chars(s: &str) -> Vec<char> {
    s.chars().collect()
}

#[test]
fn a_project_asks_for_what_it_lacks() {
    let s = state();
    assert_eq!(s.ui.note, "");
    assert_eq!(
        s.fetch_reviewers(7),
        ExecutorCommand::ListReviewers { project_id: 7 }
    );
    assert_eq!(
        s.fetch_adopt_sources(7),
        ExecutorCommand::ListAdoptSources { project_id: 7 }
    );
    assert_eq!(
        s.probe_adopt_source(7, "feat/x".into()),
        ExecutorCommand::ProbeAdoptSource {
            project_id: 7,
            source_ref: "feat/x".into()
        }
    );
    assert_eq!(
        s.adopt_branch(
            7,
            "feat/x".into(),
            "X".into(),
            "do x".into(),
            true,
            DirtyAction::Ignore
        ),
        ExecutorCommand::AdoptBranch {
            project_id: 7,
            source_ref: "feat/x".into(),
            title: "X".into(),
            description: "do x".into(),
            retire_original: true,
            dirty_action: DirtyAction::Ignore
        }
    );
    assert_eq!(
        s.scan_reviews(7),
        ExecutorCommand::ScanReviews { project_id: 7 }
    );
    assert_eq!(
        s.delete_project(7),
        ExecutorCommand::DeleteProject { project_id: 7 }
    );
    assert_eq!(s.refresh_usage(), ExecutorCommand::RefreshUsage);
}

#[test]
fn a_card_and_a_review_send_their_own_commands() {
    let s = state();
    assert_eq!(
        s.fetch_reviews(3),
        ExecutorCommand::RefreshReviews { card_id: 3 }
    );
    assert_eq!(
        s.start_review(4, "the rollback".into()),
        ExecutorCommand::StartReview {
            review_id: 4,
            guidance: "the rollback".into()
        }
    );
    assert_eq!(
        s.start_review_preview(4),
        ExecutorCommand::StartReviewPreview { review_id: 4 }
    );
    assert_eq!(
        s.stop_review_preview(4),
        ExecutorCommand::StopReviewPreview { review_id: 4 }
    );
    assert_eq!(
        s.set_card_skip_plan(3, true),
        ExecutorCommand::SetSkipPlan {
            card_id: 3,
            skip: true
        }
    );
    assert_eq!(
        s.set_card_auto_review(3, false),
        ExecutorCommand::SetAutoReview {
            card_id: 3,
            auto: false
        }
    );
    assert_eq!(
        s.attach_image_bytes(3, vec![1, 2]),
        ExecutorCommand::AttachImageBytes {
            card_id: 3,
            data: vec![1, 2]
        }
    );
    assert_eq!(
        s.detach_image(3, "/a.png".into()),
        ExecutorCommand::DetachImage {
            card_id: 3,
            path: "/a.png".into()
        }
    );
    assert_eq!(s.delete_card(3), ExecutorCommand::DeleteCard { card_id: 3 });
    assert_eq!(
        s.save_settings(settings()),
        ExecutorCommand::SaveSettings {
            settings: Box::new(settings())
        }
    );
}

#[test]
fn a_key_widens_a_panel_and_saves_it() {
    let s = state();
    match s.nudge_panel(Panel::Sidebar, ResizeKey::Right, false) {
        Some((ExecutorCommand::SaveSettings { settings }, width)) => {
            assert_eq!(width, 266);
            assert_eq!(settings.sidebar_width, 266);
            assert_eq!(settings.detail_width, 500);
        }
        other => panic!("{other:?}"),
    }
    assert_eq!(s.nudge_panel(Panel::Sidebar, ResizeKey::Other, true), None);
}

#[test]
fn leaving_the_review_board_asks_first() {
    let mut ui = Overlays::new();
    confirm_dismiss_review(&mut ui, 9, 17);
    let req = ui.confirm.clone().unwrap();
    assert_eq!(req.title, "Dismiss pull request");
    assert!(req.message.starts_with("Remove PR #17 from the review board?"));
    assert!(req.danger);
    assert_eq!(
        confirmed(&mut ui),
        Some(ExecutorCommand::DismissReview { review_id: 9 })
    );
    confirm_discard_review(&mut ui, 9);
    assert_eq!(
        ui.confirm.clone().unwrap().action,
        ConfirmAction::Send(ExecutorCommand::DismissReview { review_id: 9 })
    );
    assert_eq!(ui.confirm.unwrap().confirm_label, "Discard");
}

#[test]
fn a_bare_approval_asks_unless_it_is_a_demo() {
    let approval = ExecutorCommand::PublishReview {
        review_id: 9,
        drafts: vec![],
        event: ReviewEvent::Approve,
        body: String::new(),
    };
    let mut ui = Overlays::new();
    assert_eq!(
        confirm_approve_review(&mut ui, true, 9, 17),
        Some(approval.clone())
    );
    assert_eq!(ui.confirm, None);
    assert_eq!(confirm_approve_review(&mut ui, false, 9, 17), None);
    assert_eq!(confirmed(&mut ui), Some(approval));
}

#[test]
fn a_fix_is_settled_behind_a_dialog() {
    let push = ExecutorCommand::PushReviewFix { review_id: 9 };
    let mut ui = Overlays::new();
    assert_eq!(
        confirm_push_review_fix(&mut ui, true, 9, "sing"),
        Some(push.clone())
    );
    assert_eq!(ui.confirm, None);
    assert_eq!(confirm_push_review_fix(&mut ui, false, 9, "sing"), None);
    assert_eq!(
        ui.confirm.clone().unwrap().message,
        "Push the fix to “sing”?"
    );
    assert_eq!(confirmed(&mut ui), Some(push));
    confirm_discard_review_fix(&mut ui, 9);
    assert!(ui.confirm.clone().unwrap().danger);
    assert_eq!(
        confirmed(&mut ui),
        Some(ExecutorCommand::DiscardReviewFix { review_id: 9 })
    );
}

#[test]
fn submitting_closes_both_places_of_validation() {
    let mut ui = Overlays::new();
    open_review_diff(&mut ui.diff, 9, 1);
    finish_review_validation(&mut ui);
    assert_eq!(ui.diff, None);
    assert_eq!(ui.edits, None);
    let draft = |selected| DraftComment {
        path: "a.rs".into(),
        line: None,
        body: "b".into(),
        severity: String::new(),
        selected,
    };
    assert_eq!(
        count_selected(&vec![draft(true), draft(false), draft(true)]),
        2
    );
    assert_eq!(
        DiffTarget::Review(9).compute(),
        ExecutorCommand::ComputeReviewDiff { review_id: 9 }
    );
    assert_eq!(
        DiffTarget::Card(9).compute(),
        ExecutorCommand::ComputeDiff { card_id: 9 }
    );
}

#[test]
fn answers_and_words_go_back_together() {
    let questions = vec![PlanQuestion {
        question: "Which?".into(),
        options: vec![],
    }];
    let given = vec![" this ".to_string()];
    let open = vec![String::new(), "x".to_string()];
    assert!(all_answered(&given) && any_answered(&given));
    assert!(!all_answered(&open) && any_answered(&open));
    assert!(all_answered(&vec![]) && !any_answered(&vec![]));
    assert_eq!(
        combine(&questions, &given, true, "And fast.".into()),
        "Here are my answers to your questions:\n1. Which? → this\n\nPlease update the plan to reflect these decisions.\n\nAnd fast."
    );
    assert_eq!(
        combine(&questions, &given, false, "And fast.".into()),
        "And fast."
    );
}

#[test]
fn lines_are_told_apart_by_their_first_characters() {
    assert_eq!(heading_level(&chars("### Third")), Some(3));
    assert_eq!(heading_level(&chars("####### seven")), None);
    assert_eq!(heading_level(&chars("#tag")), None);
    assert_eq!(bullet_item(&chars("- one ")), Some("one".into()));
    assert_eq!(bullet_item(&chars("-one")), None);
    assert_eq!(ordered_item(&chars("12. twelve")), Some("twelve".into()));
    assert_eq!(ordered_item(&chars("12) twelve")), None);
    assert_eq!(join_text(&vec!["a".into(), "b".into()], ", "), "a, b");
    assert_eq!(join_text(&vec![], ", "), "");
}

#[test]
fn a_reference_is_a_path_with_or_without_a_line() {
    let at = chars("src/cache.rs:42");
    let (path, numbered) = split_line_suffix(&at);
    assert_eq!(string_of(path), "src/cache.rs");
    assert!(numbered);
    let plain = chars("src/cache.rs");
    assert!(!split_line_suffix(&plain).1);
    assert!(is_path_ref(&at));
    assert!(is_path_ref(&plain));
    assert!(!is_path_ref(&chars("and/or")));
    assert!(!is_path_ref(&chars("a/b/")));
}

#[test]
fn text_is_cut_and_counted_as_written() {
    assert_eq!(trim("\u{2003} a b \n"), "a b");
    assert!(is_blank("\t\u{a0}") && !is_blank(" x"));
    assert!(is_white('\u{2029}') && !is_white('\u{200b}'));
    assert!(is_digit('7') && !is_digit('x'));
    assert!(is_alphanumeric('z') && !is_alphanumeric('-'));
    assert!(starts_with("origin/x", "origin/") && !starts_with("orig", "origin/"));
    assert_eq!(find_slice(&chars("aXbXc"), &chars("X")), Some(1));
    assert_eq!(find_slice(&chars("abc"), &chars("X")), None);
    assert_eq!(find_last_slice(&chars("aXbXc"), 'X'), Some(3));
    assert_eq!(split_parts("a/b c/", '/', ' '), ["a", "b", "c", ""]);
    assert_eq!(decimal_text(0), "0");
    assert_eq!(decimal_text(18446744073709551615), "18446744073709551615");
    assert_eq!(parse_number(&chars("+80"), 65535), Some(80));
    assert_eq!(parse_number(&chars("65536"), 65535), None);
    assert_eq!(parse_number(&chars(""), 65535), None);
    assert_eq!(parse_number(&chars("-1"), 65535), None);
}

#[test]
fn small_words_read_as_they_should() {
    assert_eq!(
        retired_hint(true),
        "Merged on GitHub before its review finished here."
    );
    assert_eq!(retired_hint(false), "Closed on GitHub without merging.");
    assert_eq!(
        review_button_title(ReviewButton::ReadFix),
        "Read the committed fix before it's pushed"
    );
}
