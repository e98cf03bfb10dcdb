//! The review board, the diff dialog and the drafted review.

use std::collections::{HashMap, HashSet};
use usine::card::PreviewTools;
use usine::cardmenu::MenuKind;
use usine::command::ExecutorCommand;
use usine::confirm::confirmed;
use usine::diffdialog::{
    compute_once, dialog_face, dismiss_dialog, escape_filter, open_diff_dialog,
    open_diff_dialog_at, open_review_diff_at, seed_validation, DialogBody, DiffTarget,
};
use usine::diffview::{
    comment_class, comment_location, event_value, fallback_rows, file_anchor, file_name,
    file_path, gutter, hunk_height, line_class, listed_files, parse_event, publish_label,
    reveal_file, scroll_anchor, sign, status_class, status_glyph, toggle_file, totals,
};
use usine::model::{
    AppSettings, Card, CardConfig, CardFacts, CardKind, CardState, CheckStatus, Column,
    DiffFile, DiffLineKind, DiffState, DraftComment, Effort, FileStatus, ModelSpec, Project,
    ProjectConfig, Provider, ReviewColumn, ReviewEvent, ReviewFacts, ReviewStatus, ReviewTask,
};
use usine::reviewboard::{
    buttons_of, filtered_tasks, fix_faulted, fix_gate_ready, lane_tasks, review_button_class,
    review_button_label, review_face, ReviewButton,
};
use usine::reviewdraft::{
    anchor_id, clear, edits_for, ensure_seeded, set_body, set_severity, set_summary,
    set_verdict, toggle, DraftEdits,
};
use usine::reviewpanel::{
    left_hint, panel_buttons, panel_class, panel_label, panel_section, panel_title, review_panel,
    selected_badge, status_discriminant, PanelButton,
};
use usine::state::{AppState, Records};

fn spec(model: &str) -> ModelSpec {
    ModelSpec {
        model: model.into(),
        effort: Effort::Medium,
    }
}

fn config() -> CardConfig {
    CardConfig {
        provider: Provider::Claude,
        kind: CardKind::Task,
        plan: spec("opus"),
        implement: spec("opus"),
        review: None,
    }
}

fn card(id: u128, project_id: u128, state: CardState) -> Card {
    Card {
        id,
        project_id,
        title: format!("card {id}"),
        description: String::new(),
        config: config(),
        state,
        branch: None,
        worktree_path: None,
        pr: None,
        checks: CheckStatus::Unreported,
        conflicting: false,
        unanswered_count: 0,
        reviews: vec![],
        blocked: false,
        blocked_note: None,
        created_at: id as i64,
        updated_at: id as i64,
        facts: CardFacts {
            column: Column::StartingBlock,
            running: false,
            needs_attention: false,
            needs_urgent_attention: false,
            status_label: "status".into(),
            approved_by: vec![],
            pending_bodies: vec![],
            triageable: false,
            checks_reportable: false,
            plan_questions: 0,
            worktree_present: false,
            cost: None,
        },
    }
}

fn project(id: u128) -> Project {
    Project {
        id,
        name: format!("project {id}"),
        path: format!("/tmp/{id}"),
        config: ProjectConfig {
            base_branch: "main".into(),
            pinned_base_branch: None,
            reviewer: None,
            review_contributors: vec![],
            run_script: None,
            validate_script: None,
            worktree_setup_script: None,
            worktree_teardown_script: None,
            preview_ports: vec![],
            auto_preview: false,
            notifications_muted: false,
            new_card: config(),
        },
    }
}

fn settings() -> AppSettings {
    AppSettings {
        default_provider: Provider::Claude,
        default_plan: spec("opus"),
        default_implement: spec("opus"),
        default_review: None,
        terminal_command: None,
        editor_command: None,
        max_concurrent_runs: 3,
        collapsed_columns: vec![],
        sidebar_width: 0,
        detail_width: 0,
    }
}

fn task(id: u128, project_id: u128, status: ReviewStatus) -> ReviewTask {
    ReviewTask {
        id,
        project_id,
        pr_number: 40 + id as u64,
        pr_title: "Teach it to sing".into(),
        author: "octocat".into(),
        url: "https://example.com".into(),
        head_ref: "sing".into(),
        base_ref: "main".into(),
        body: String::new(),
        guidance: String::new(),
        status,
        checks: CheckStatus::Unreported,
        conflicting: false,
        worktree_path: None,
        facts: ReviewFacts {
            column: ReviewColumn::ToReview,
            running: false,
            needs_attention: true,
            status_label: "to review".into(),
            checks_reportable: false,
            cost: None,
        },
    }
}

fn state(projects: Vec<Project>, cards: Vec<Card>, review_tasks: Vec<ReviewTask>) -> AppState {
    AppState::init(Records {
        projects,
        cards,
        settings: settings(),
        review_tasks,
        skip_plans: HashMap::new(),
        auto_reviews: HashMap::new(),
        attachments: HashMap::new(),
        review_recaps: HashMap::new(),
        answers: HashMap::new(),
        handoffs: HashMap::new(),
    })
}

fn comment(body: &str) -> DraftComment {
    DraftComment {
        path: "src/a.rs".into(),
        line: Some(3),
        body: body.into(),
        severity: "minor".into(),
        selected: true,
    }
}

fn drafted() -> ReviewStatus {
    ReviewStatus::AwaitingValidation {
        drafts: vec![comment("one"), comment("two")],
        summary: "S".into(),
        event: ReviewEvent::Comment,
    }
}

fn faulted(previous: ReviewStatus) -> ReviewStatus {
    ReviewStatus::Failed {
        message: "boom".into(),
        previous: Box::new(previous),
    }
}

#[test]
fn edits_survive_coming_back_and_start_over_on_a_new_draft() {
    let mut buffer: Option<DraftEdits> = None;
    let first = vec![comment("one"), comment("two")];
    ensure_seeded(&mut buffer, 3, &first, "S", ReviewEvent::Comment);
    set_body(&mut buffer, 0, "mine".into());
    toggle(&mut buffer, 1);
    set_severity(&mut buffer, 1, "major".into());
    set_summary(&mut buffer, "mine too".into());
    set_verdict(&mut buffer, ReviewEvent::Approve);
    set_body(&mut buffer, 9, "lost".into());
    ensure_seeded(&mut buffer, 3, &first, "S", ReviewEvent::Comment);
    let kept = edits_for(&buffer, 3).unwrap();
    assert_eq!(kept.comments[0].body, "mine");
    assert!(!kept.comments[1].selected);
    assert_eq!(kept.comments[1].severity, "major");
    assert_eq!(kept.summary, "mine too");
    assert_eq!(kept.verdict, ReviewEvent::Approve);
    assert_eq!(kept.origin, first);
    assert!(edits_for(&buffer, 4).is_none());
    ensure_seeded(&mut buffer, 3, &vec![comment("new")], "S", ReviewEvent::Comment);
    assert_eq!(edits_for(&buffer, 3).unwrap().comments, [comment("new")]);
    clear(&mut buffer);
    assert!(buffer.is_none());
    assert!(anchor_id(4).ends_with('4'));
}

#[test]
fn verdicts_read_back() {
    for e in [
        ReviewEvent::Comment,
        ReviewEvent::RequestChanges,
        ReviewEvent::Approve,
    ] {
        assert_eq!(parse_event(event_value(e)), e);
    }
    assert_eq!(parse_event("unknown"), ReviewEvent::Comment);
}

#[test]
fn each_review_has_its_buttons() {
    for (status, expected) in [
        (
            ReviewStatus::ToReview,
            vec![
                ReviewButton::Review,
                ReviewButton::Approve,
                ReviewButton::Dismiss,
            ],
        ),
        (ReviewStatus::Reviewing, vec![]),
        (drafted(), vec![ReviewButton::Validate]),
        (ReviewStatus::Reviewed, vec![]),
        (ReviewStatus::Fixing, vec![]),
        (ReviewStatus::FixReady, vec![ReviewButton::ReadFix]),
        (
            ReviewStatus::MergedWithoutReview { merged: true },
            vec![ReviewButton::Dismiss],
        ),
        (faulted(ReviewStatus::Reviewing), vec![ReviewButton::Retry]),
        (faulted(ReviewStatus::Fixing), vec![]),
        (faulted(ReviewStatus::FixReady), vec![ReviewButton::ReadFix]),
    ] {
        assert_eq!(buttons_of(&status), expected, "{status:?}");
    }
    assert!(fix_gate_ready(&faulted(faulted(ReviewStatus::FixReady))));
    assert!(fix_faulted(&faulted(ReviewStatus::Fixing)));
    assert!(!fix_faulted(&ReviewStatus::Reviewed));
    assert_eq!(review_button_label(ReviewButton::ReadFix), "Review the fix");
    assert_eq!(review_button_class(ReviewButton::Dismiss), "btn subtle");
}

#[test]
fn pressing_a_review_button() {
    let mut s = state(
        vec![project(9)],
        vec![card(1, 9, CardState::StartingBlock)],
        vec![task(3, 9, drafted())],
    );
    assert_eq!(
        s.press_review(false, ReviewButton::Review, 3, 43, "look".into(), 7),
        Some(ExecutorCommand::StartReview {
            review_id: 3,
            guidance: "look".into()
        })
    );
    assert_eq!(
        s.press_review(false, ReviewButton::Validate, 3, 43, String::new(), 7),
        None
    );
    assert_eq!(s.selected_review, Some(3));
    let req = s.ui.diff.clone().unwrap();
    assert_eq!((req.target, req.token), (DiffTarget::Review(3), 7));
    s.press_review(false, ReviewButton::Dismiss, 3, 43, String::new(), 7);
    assert_eq!(
        s.ui.confirm.as_ref().unwrap().message,
        "Remove PR #43 from the review board? It won't come back on a later scan, and any checkout made for it is torn down."
    );
    assert_eq!(
        confirmed(&mut s.ui),
        Some(ExecutorCommand::DismissReview { review_id: 3 })
    );
    assert_eq!(
        s.press_review(true, ReviewButton::Approve, 3, 43, String::new(), 7),
        Some(ExecutorCommand::PublishReview {
            review_id: 3,
            drafts: vec![],
            event: ReviewEvent::Approve,
            body: String::new(),
        })
    );
}

#[test]
fn a_drafted_review_is_published_as_edited() {
    let mut s = state(vec![project(9)], vec![], vec![task(3, 9, drafted())]);
    assert_eq!(s.publish_drafts(true, 3, "Comment"), None);
    let found = s.review_task(3).cloned();
    seed_validation(&mut s.ui.edits, DiffTarget::Review(3), found.as_ref());
    toggle(&mut s.ui.edits, 0);
    let face = dialog_face(
        DiffTarget::Review(3),
        None,
        found.as_ref(),
        None,
        &s.ui.edits,
    );
    assert!(face.validating);
    assert_eq!(face.body, DialogBody::Computing);
    assert_eq!(face.title, "PR #43 — Teach it to sing");
    match s.publish_drafts(true, 3, "Comment") {
        Some(ExecutorCommand::PublishReview { drafts, body, .. }) => {
            assert!(!drafts[0].selected && drafts[1].selected);
            assert_eq!(body, "S");
        }
        other => panic!("{other:?}"),
    }
    assert!(s.ui.edits.is_none());
    assert_eq!(
        s.begin_review(3, "look".into()),
        ExecutorCommand::StartReview {
            review_id: 3,
            guidance: "look".into()
        }
    );
    assert_eq!(
        selected_badge(&vec![comment("a"), comment("b")]),
        "2/2"
    );
}

#[test]
fn the_dialog_says_when_the_diff_is_the_fix() {
    let mut t = task(3, 9, ReviewStatus::FixReady);
    t.worktree_path = Some("/tmp/w".into());
    let ready = DiffState::Ready(vec![file(Some("a.rs"), Some("a.rs"), 2, 1)]);
    let face = dialog_face(DiffTarget::Review(3), None, Some(&t), Some(&ready), &None);
    assert_eq!(face.title, "Fix for PR #43 — Teach it to sing");
    assert_eq!(
        face.hint,
        Some("The fix as committed in the review checkout — not pushed yet.")
    );
    assert_eq!(face.gate, Some("sing".into()));
    assert_eq!(face.totals, Some((2, 1)));
    assert!(!face.validating);
    let c = card(1, 9, CardState::ReadyToMerge);
    let face = dialog_face(
        DiffTarget::Card(1),
        Some(&c),
        None,
        Some(&DiffState::Failed("no".into())),
        &None,
    );
    assert_eq!(face.title, "Diff — card 1");
    assert_eq!(face.body, DialogBody::Failed("no".into()));
    assert_eq!(face.hint, None);
    let face = dialog_face(
        DiffTarget::Card(1),
        None,
        None,
        Some(&DiffState::Empty),
        &None,
    );
    assert_eq!(face.title, "Diff");
    assert_eq!(face.body, DialogBody::Empty);
}

#[test]
fn a_diff_is_computed_once_per_opening() {
    let mut diff = None;
    let mut computed = None;
    assert_eq!(compute_once(&diff, &mut computed), None);
    open_diff_dialog(&mut diff, 1, 100);
    assert_eq!(
        compute_once(&diff, &mut computed),
        Some(ExecutorCommand::ComputeDiff { card_id: 1 })
    );
    assert_eq!(compute_once(&diff, &mut computed), None);
    open_diff_dialog_at(&mut diff, 1, "a.rs".into(), 101);
    assert_eq!(
        diff.as_ref().unwrap().scroll_to_path,
        Some("a.rs".to_string())
    );
    assert!(compute_once(&diff, &mut computed).is_some());
    open_review_diff_at(&mut diff, 3, 2, 102);
    assert_eq!(diff.as_ref().unwrap().scroll_to, Some(anchor_id(2)));
    assert_eq!(
        compute_once(&diff, &mut computed),
        Some(ExecutorCommand::ComputeReviewDiff { review_id: 3 })
    );
    dismiss_dialog(&mut diff);
    assert!(diff.is_none());
    let mut filter = "x".to_string();
    assert!(escape_filter(&mut filter));
    assert_eq!(filter, "");
    assert!(!escape_filter(&mut filter));
}

fn file(old: Option<&str>, new: Option<&str>, added: u32, removed: u32) -> DiffFile {
    DiffFile {
        old_path: old.map(|p| p.to_string()),
        new_path: new.map(|p| p.to_string()),
        status: FileStatus::Modified,
        added,
        removed,
        binary: false,
        highlighted: true,
        hunks: vec![],
    }
}

#[test]
fn files_are_named_filtered_and_found() {
    let files = vec![
        file(Some("src/a.rs"), Some("src/a.rs"), u32::MAX, 1),
        file(Some("src/b.rs"), Some("src/C.rs"), u32::MAX, 2),
        file(Some("d.md"), None, 0, 3),
        file(None, None, 0, 0),
    ];
    assert_eq!(file_name(&files[0]), "a.rs");
    assert_eq!(file_path(&files[1]), "src/b.rs → src/C.rs");
    assert_eq!(file_name(&files[2]), "d.md");
    assert_eq!(file_path(&files[3]), "(unknown)");
    assert_eq!(listed_files(&files, ""), [0, 1, 2, 3]);
    assert_eq!(listed_files(&files, "c.RS"), [1]);
    assert_eq!(listed_files(&files, "src/"), [0, 1]);
    assert!(listed_files(&files, "zzz").is_empty());
    assert_eq!(
        totals(&files),
        Some((2 * u128::from(u32::MAX), 6))
    );
    assert_eq!(totals(&vec![]), None);
    assert_eq!(
        scroll_anchor(&files, &None, &Some("src/a.rs:12".into())),
        Some(file_anchor(0))
    );
    assert_eq!(
        scroll_anchor(&files, &Some("there".into()), &Some("src/a.rs".into())),
        Some("there".into())
    );
    assert_eq!(scroll_anchor(&files, &None, &Some("zzz.rs".into())), None);
    assert_eq!(file_anchor(12), "difffile-12");
}

#[test]
fn files_fold_and_come_back() {
    let mut folded = HashSet::new();
    toggle_file(&mut folded, 2);
    assert!(folded.contains(&2));
    toggle_file(&mut folded, 2);
    assert!(folded.is_empty());
    toggle_file(&mut folded, 2);
    reveal_file(&mut folded, 2);
    reveal_file(&mut folded, 3);
    assert!(folded.is_empty());
}

#[test]
fn lines_have_classes_and_signs() {
    assert_eq!(status_glyph(FileStatus::Renamed), "R");
    assert_eq!(status_class(FileStatus::Copied), "mod");
    assert_eq!(line_class(DiffLineKind::Removed), "del");
    assert_eq!(sign(DiffLineKind::Removed), "−");
    assert_eq!(gutter(Some(12)), "12");
    assert_eq!(gutter(None), "");
    assert_eq!(hunk_height(10), 204);
    assert_eq!(hunk_height(0), 24);
    // Two rows at least, twenty-four at most, and one more for every 72 characters.
    assert_eq!(fallback_rows("one line"), 2);
    assert_eq!(fallback_rows(""), 2);
    assert_eq!(fallback_rows("a\nb\nc\nd\ne\nf"), 6);
    assert_eq!(fallback_rows(&"x".repeat(71)), 2);
    assert_eq!(fallback_rows(&"x".repeat(216)), 4);
    assert_eq!(fallback_rows(&"é".repeat(72)), 2);
    assert_eq!(fallback_rows(&"é".repeat(216)), 4);
    assert_eq!(fallback_rows(&"x".repeat(30 * 72)), 24);
    assert_eq!(comment_class(&comment("x")), "inline-comment");
    assert_eq!(comment_location("a.rs", Some(3)), "a.rs:3");
    assert_eq!(comment_location("a.rs", None), "a.rs");
    assert_eq!(publish_label(0), "Publish summary only");
    assert_eq!(publish_label(1), "Publish 1 comment");
    assert_eq!(publish_label(2), "Publish 2 comments");
}

#[test]
fn the_review_board_lists_by_lane_and_title() {
    let mut done = task(4, 9, ReviewStatus::Reviewed);
    done.facts.column = ReviewColumn::Reviewed;
    done.pr_title = "Other".into();
    let s = state(
        vec![project(9)],
        vec![],
        vec![task(3, 9, ReviewStatus::ToReview), done],
    );
    let all = s.review_tasks_for(9);
    assert_eq!(lane_tasks(&all, ReviewColumn::ToReview)[0].id, 3);
    assert_eq!(lane_tasks(&all, ReviewColumn::Reviewed)[0].id, 4);
    assert!(lane_tasks(&all, ReviewColumn::Reviewing).is_empty());
    let hits = filtered_tasks(all, &Some("SING".into()));
    assert_eq!(hits.len(), 1);
    assert_eq!(ReviewColumn::board().len(), 4);
}

#[test]
fn a_review_shows_what_it_is_about() {
    let mut s = state(vec![project(9)], vec![], vec![]);
    s.selected_review = Some(3);
    let mut t = task(3, 9, ReviewStatus::FixReady);
    t.conflicting = true;
    t.body = "words".into();
    t.checks = CheckStatus::Failing;
    let face = review_face(&t, s.review_context(&t, false), None);
    assert_eq!(face.class, "card review-card selected");
    assert!(face.conflicts && !face.published);
    assert_eq!(face.preview, PreviewTools::Hidden);
    assert_eq!(
        face.menu,
        MenuKind::Review {
            pr_number: 43,
            has_checkout: true,
            has_fix: true
        }
    );
    let panel = review_panel(&t);
    assert_eq!(panel.refs, "sing → main");
    assert_eq!(panel.conflict, Some("This PR conflicts with main.".into()));
    assert!(panel.checks_failing && panel.description && !panel.steering);
    assert_eq!(status_discriminant(&drafted()), "validate");
    assert_eq!(
        status_discriminant(&ReviewStatus::MergedWithoutReview { merged: false }),
        "ext-closed"
    );
    assert_ne!(left_hint(true), left_hint(false));
    assert_eq!(
        s.redo_fix(3, "again".into()),
        ExecutorCommand::ReviseReviewFix {
            review_id: 3,
            note: "again".into()
        }
    );
}

fn failed_review(previous: ReviewStatus) -> ReviewStatus {
    ReviewStatus::Failed {
        message: "no agent".into(),
        previous: Box::new(previous),
    }
}

#[test]
fn the_panel_offers_what_the_status_allows() {
    assert_eq!(
        panel_buttons(&ReviewStatus::ToReview),
        [
            PanelButton::Review,
            PanelButton::Approve,
            PanelButton::ShowDiff,
            PanelButton::Dismiss
        ]
    );
    assert_eq!(
        panel_buttons(&drafted()),
        [
            PanelButton::ReadDrafts,
            PanelButton::Publish,
            PanelButton::Discard
        ]
    );
    assert_eq!(
        panel_buttons(&failed_review(ReviewStatus::Reviewing)),
        [PanelButton::Retry, PanelButton::Dismiss]
    );
    assert_eq!(
        panel_buttons(&ReviewStatus::MergedWithoutReview { merged: true }),
        [PanelButton::Dismiss]
    );
    for quiet in [
        ReviewStatus::Reviewing,
        ReviewStatus::Reviewed,
        ReviewStatus::Fixing,
        ReviewStatus::FixReady,
    ] {
        assert_eq!(panel_buttons(&quiet), []);
    }
    assert_eq!(panel_label(PanelButton::Review, 0), "Review this PR");
    assert_eq!(panel_label(PanelButton::Publish, 2), "Publish 2 comments");
    assert_eq!(panel_class(PanelButton::Retry), "btn");
    assert_eq!(panel_class(PanelButton::Discard), "btn subtle");
    assert_eq!(
        panel_title(PanelButton::Dismiss, false),
        "Dismiss this PR from the review board"
    );
    assert_eq!(panel_title(PanelButton::Dismiss, true), "");
}

#[test]
fn the_panel_says_where_the_review_stands() {
    let of = |status| panel_section(&task(3, 9, status));
    let fresh = of(ReviewStatus::ToReview);
    assert_eq!(fresh.heading, Some("Review"));
    assert!(fresh.steer && !fresh.published && !fresh.drafts);
    let running = of(ReviewStatus::Reviewing);
    assert_eq!(running.heading, None);
    assert_eq!(
        running.hint.as_deref(),
        Some("Reading the diff and drafting comments…")
    );
    let validating = of(drafted());
    assert_eq!(validating.heading, Some("Drafted comments"));
    assert!(validating.drafts && !validating.steer);
    let done = of(ReviewStatus::Reviewed);
    assert_eq!(
        done.hint.as_deref(),
        Some("This review was submitted to GitHub.")
    );
    assert!(done.published);
    let fixing = task(3, 9, ReviewStatus::Fixing);
    assert_eq!(
        panel_section(&fixing).hint,
        Some(fixing.facts.status_label.clone())
    );
    let gone = of(ReviewStatus::MergedWithoutReview { merged: false });
    assert_eq!(gone.hint.as_deref(), Some(left_hint(false)));
    let failed = of(failed_review(ReviewStatus::Reviewing));
    assert_eq!(failed.fault.as_deref(), Some("Review failed: no agent"));
    assert!(failed.steer && failed.hint.is_none() && failed.heading.is_none());
}

#[test]
fn the_panel_does_what_its_buttons_say() {
    let mut s = state(vec![project(9)], vec![], vec![task(3, 9, drafted())]);
    let press = |s: &mut AppState, demo, b| {
        s.press_panel(demo, b, 3, 43, "look".into(), "Comment", 5)
    };
    assert_eq!(
        press(&mut s, false, PanelButton::Retry),
        Some(ExecutorCommand::StartReview {
            review_id: 3,
            guidance: "look".into()
        })
    );
    assert_eq!(press(&mut s, false, PanelButton::ShowDiff), None);
    assert_eq!(s.ui.diff.clone().unwrap().target, DiffTarget::Review(3));
    assert_eq!(s.selected_review, None);
    assert_eq!(press(&mut s, false, PanelButton::Discard), None);
    assert_eq!(s.ui.confirm.clone().unwrap().title, "Discard review");
    assert_eq!(press(&mut s, false, PanelButton::Dismiss), None);
    assert_eq!(s.ui.confirm.clone().unwrap().title, "Dismiss pull request");
    assert!(press(&mut s, true, PanelButton::Approve).is_some());
    // Nothing to publish before the drafts are opened for validation.
    assert_eq!(press(&mut s, true, PanelButton::Publish), None);
    let found = s.review_task(3).cloned();
    seed_validation(&mut s.ui.edits, DiffTarget::Review(3), found.as_ref());
    s.ui.note = "typed".into();
    assert_eq!(press(&mut s, false, PanelButton::Publish), None);
    assert_eq!(s.ui.note, "");
    assert_eq!(s.ui.confirm.clone().unwrap().title, "Publish review");
    s.ui.note = "kept".into();
    assert!(press(&mut s, true, PanelButton::Publish).is_some());
    assert_eq!(s.ui.note, "kept");
}
