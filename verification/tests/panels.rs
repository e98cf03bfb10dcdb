//! The detail panel, section by section.

use std::collections::HashMap;
use usine::chat::{
    attachments_on_top, exchange_open, renders_chat, request_label, request_title, summary_line,
};
use usine::command::ExecutorCommand;
use usine::conclusion::{
    can_follow_up, evidence_label, open_evidence, showing_findings, Evidence, Finding, Findings,
};
use usine::confirm::{ConfirmAction, Gesture};
use usine::detail::{
    can_mark_read, can_send, detail_header, feedback_hint, handoff_parts, merge_button_label,
    merge_class, merge_gate, merge_title, outcome_badge, panel_sections, press_merge,
    question_class, retired_note, retired_title, running_phase, state_discriminant, stop_conflict, stop_phase, task_line, toggle_option,
    MergeButton, Section,
};
use usine::drafts::{mirror_str, DraftKey};
use usine::fixes::{
    edit_row, fix_panel, fix_row, row_texts, rows_with, selected_fixes, RowEdit,
};
use usine::model::{
    AppSettings, Card, CardConfig, CardFacts, CardKind, CardState, CheckStatus, Column,
    DesignSub, Effort, FixVerdict, Handoff, Intervention, ModelSpec, PrInfo, PrReviewSub,
    Project, ProjectConfig, Provider, ReviewColumn, ReviewComment, ReviewFacts, ReviewStatus,
    ReviewSub, ReviewTask, RunSub, SubmittedReview,
};
use usine::plan::{
    blank_answers, build_answers_feedback, plan_face, set_answer, shown_tab, visible_tabs,
    PlanOutline, PlanQuestion, PlanTab,
};
use usine::pr_create::{
    branch_hint, create_pr, pr_create_buttons, pr_create_class, pr_create_heading,
    pr_create_hint, pr_create_label, pr_create_sections, pr_create_title, press_pr_create,
    send_back_title,
    validation_hint, PrCreateButton, PrCreateSection, PrForm,
};
use usine::pr_review::{
    last_resort_buttons, last_resort_hint, pr_review_class, pr_review_label,
    pr_review_sections, press_pr_review, review_words, running_hint, summary_awaits, PrReviewButton, PrReviewSection,
};
use usine::state::{AppState, Records};

fn spec(model: &str) -> ModelSpec {
    ModelSpec {
        model: model.into(),
        effort: Effort::Medium,
    }
}

fn config() -> CardConfig {
    CardConfig {
        provider: Provider::Claude,
        kind: CardKind::Task,
        plan: spec("opus"),
        implement: spec("opus"),
        review: None,
    }
}

fn card(id: u128, project_id: u128, state: CardState) -> Card {
    Card {
        id,
        project_id,
        title: format!("card {id}"),
        description: String::new(),
        config: config(),
        state,
        branch: None,
        worktree_path: None,
        pr: None,
        checks: CheckStatus::Unreported,
        conflicting: false,
        unanswered_count: 0,
        reviews: vec![],
        blocked: false,
        blocked_note: None,
        created_at: id as i64,
        updated_at: id as i64,
        facts: CardFacts {
            column: Column::StartingBlock,
            running: false,
            needs_attention: false,
            needs_urgent_attention: false,
            status_label: "status".into(),
            approved_by: vec![],
            pending_bodies: vec![],
            triageable: false,
            checks_reportable: false,
            plan_questions: 0,
            worktree_present: false,
            cost: None,
        },
    }
}

fn project(id: u128) -> Project {
    Project {
        id,
        name: format!("project {id}"),
        path: format!("/tmp/{id}"),
        config: ProjectConfig {
            base_branch: "main".into(),
            pinned_base_branch: None,
            reviewer: None,
            review_contributors: vec![],
            run_script: None,
            validate_script: None,
            worktree_setup_script: None,
            worktree_teardown_script: None,
            preview_ports: vec![],
            auto_preview: false,
            notifications_muted: false,
            new_card: config(),
        },
    }
}

fn settings() -> AppSettings {
    AppSettings {
        default_provider: Provider::Claude,
        default_plan: spec("opus"),
        default_implement: spec("opus"),
        default_review: None,
        terminal_command: None,
        editor_command: None,
        max_concurrent_runs: 3,
        collapsed_columns: vec![],
        sidebar_width: 0,
        detail_width: 0,
    }
}

fn task(id: u128, project_id: u128, status: ReviewStatus) -> ReviewTask {
    ReviewTask {
        id,
        project_id,
        pr_number: 40 + id as u64,
        pr_title: "Teach it to sing".into(),
        author: "octocat".into(),
        url: "https://example.com".into(),
        head_ref: "sing".into(),
        base_ref: "main".into(),
        body: String::new(),
        guidance: String::new(),
        status,
        checks: CheckStatus::Unreported,
        conflicting: false,
        worktree_path: None,
        facts: ReviewFacts {
            column: ReviewColumn::ToReview,
            running: false,
            needs_attention: true,
            status_label: "to review".into(),
            checks_reportable: false,
            cost: None,
        },
    }
}

fn state(projects: Vec<Project>, cards: Vec<Card>, review_tasks: Vec<ReviewTask>) -> AppState {
    AppState::init(Records {
        projects,
        cards,
        settings: settings(),
        review_tasks,
        skip_plans: HashMap::new(),
        auto_reviews: HashMap::new(),
        attachments: HashMap::new(),
        review_recaps: HashMap::new(),
        answers: HashMap::new(),
        handoffs: HashMap::new(),
    })
}

fn plain() -> AppState {
    state(
        vec![project(9)],
        vec![card(1, 9, CardState::StartingBlock)],
        vec![task(3, 9, ReviewStatus::ToReview)],
    )
}

fn asked(request_id: &str) -> Intervention {
    Intervention {
        request_id: request_id.into(),
        question: "Which?".into(),
        options: vec!["left".into(), "right".into()],
    }
}

fn failed(message: &str, previous: CardState) -> CardState {
    CardState::Failed {
        message: message.into(),
        previous: Box::new(previous),
    }
}

#[test]
fn the_panel_shows_the_sections_of_the_state() {
    let sections = |state| panel_sections(&card(1, 9, state), "conflict");
    assert_eq!(
        sections(CardState::StartingBlock),
        [Section::TaskForm, Section::Attachments, Section::Activity]
    );
    assert_eq!(
        sections(CardState::Implementing(RunSub::Running)),
        [Section::Attachments, Section::Running, Section::Activity]
    );
    assert_eq!(
        sections(CardState::Implementing(RunSub::Intervention(asked("q")))),
        [Section::Attachments, Section::Question, Section::Activity]
    );
    assert_eq!(
        sections(CardState::PrReview(PrReviewSub::AwaitingAnswer(asked(
            "conflict"
        )))),
        [
            Section::Attachments,
            Section::ConflictDecision,
            Section::Question,
            Section::PrReview,
            Section::Activity
        ]
    );
    assert_eq!(
        sections(CardState::ReadyToMerge),
        [Section::Merge, Section::Activity]
    );
    assert_eq!(
        sections(CardState::Done),
        [Section::Outcome, Section::Activity]
    );
    let mut late = card(1, 9, CardState::ReadyToMerge);
    late.unanswered_count = 2;
    late.description = "Do it".into();
    assert_eq!(
        panel_sections(&late, "conflict"),
        [
            Section::Task,
            Section::NewComments,
            Section::Merge,
            Section::Activity
        ]
    );
    assert_eq!(task_line(&late), "Task — Do it");
    assert_eq!(
        running_phase(&CardState::Implementing(RunSub::Running)),
        Some("implementing")
    );
    assert_eq!(running_phase(&CardState::Done), None);
}

#[test]
fn a_fault_keeps_the_body_of_the_state_beneath() {
    let bare = CardState::AwaitingReview(ReviewSub::ReadyForPr);
    assert_eq!(state_discriminant(&bare), "await-review");
    assert_eq!(
        state_discriminant(&failed("boom", CardState::ReadyToMerge)),
        "ready"
    );
    let mut c = card(1, 9, failed("boom", CardState::ReadyToMerge));
    let header = detail_header(&c, false);
    assert_eq!(header.fault, Some("Run failed: boom".into()));
    assert_eq!(header.recover_label, "Retry");
    assert_eq!(header.body_class, "detail-body is-busy");
    c.state = failed("Interrupted by a restart", CardState::ReadyToMerge);
    let header = detail_header(&c, false);
    assert_eq!(header.fault, Some("Interrupted by a restart".into()));
    assert_eq!(header.recover_label, "Resume");
    c.state = CardState::ReadyToMerge;
    assert_eq!(detail_header(&c, false).body_class, "detail-body");
    assert_eq!(detail_header(&c, false).fault, None);
}

#[test]
fn the_merge_panel_says_what_stands_in_the_way() {
    let mut c = card(1, 9, CardState::ReadyToMerge);
    c.facts.approved_by = vec!["ann".into(), "bob".into()];
    let g = merge_gate(&c);
    assert_eq!(g.hint, None);
    assert_eq!(g.buttons, [MergeButton::Merge]);
    assert_eq!(g.approved_by, Some("ann, bob".into()));
    assert!(g.branch_option);
    c.checks = CheckStatus::Pending;
    assert_eq!(
        merge_gate(&c).buttons,
        [MergeButton::Refresh, MergeButton::ForceOverPending]
    );
    c.checks = CheckStatus::Failing;
    assert_eq!(
        merge_gate(&c).hint,
        Some("The PR's CI checks are failing.")
    );
    c.conflicting = true;
    assert_eq!(
        merge_gate(&c).buttons,
        [MergeButton::ResolveConflicts, MergeButton::Refresh]
    );
    c.pr = Some(PrInfo {
        number: 1,
        url: String::new(),
        title: String::new(),
        state: "draft".into(),
        reviewer: None,
        reviewer_recorded: false,
    });
    let g = merge_gate(&c);
    assert_eq!(g.buttons, [MergeButton::MarkReady]);
    assert!(!g.branch_option);
    assert_eq!(merge_button_label(MergeButton::Merge), "Merge PR");
    match press_merge(MergeButton::ForceOverFailing, 1, true) {
        Gesture::Ask(req) => {
            assert!(req.danger);
            assert_eq!(
                req.action,
                ConfirmAction::Send(ExecutorCommand::Merge {
                    card_id: 1,
                    delete_branch: true,
                    force: true
                })
            );
        }
        other => panic!("{other:?}"),
    }
    match press_merge(MergeButton::Merge, 1, false) {
        Gesture::Guard { cmd, .. } => assert_eq!(
            cmd,
            ExecutorCommand::Merge {
                card_id: 1,
                delete_branch: false,
                force: false
            }
        ),
        other => panic!("{other:?}"),
    }
}

#[test]
fn late_feedback_is_counted() {
    assert_eq!(
        feedback_hint(0),
        "A review's summary text hasn't been read yet."
    );
    assert_eq!(feedback_hint(1), "1 review comment has no answer yet.");
    assert_eq!(feedback_hint(3), "3 review threads have no answer yet.");
    assert!(!can_mark_read(&card(1, 9, CardState::ReadyToMerge)));
    assert_eq!(retired_title(true), "Merged without review");
    assert_eq!(retired_title(false), "PR closed");
    assert_eq!(
        outcome_badge("merged"),
        ("badge merged", "✓ Merged".to_string())
    );
    assert_eq!(
        outcome_badge("closed"),
        ("badge status", "closed".to_string())
    );
    let parts = handoff_parts(&Handoff {
        summary: "s".into(),
        questions: vec![],
        tests: vec!["t".into()],
    });
    assert!(parts.summary && !parts.questions && parts.tests);
}

#[test]
fn stopping_asks_first() {
    for gesture in [stop_phase(1), stop_conflict(1)] {
        match gesture {
            Gesture::Ask(req) => {
                assert!(req.danger);
                assert_eq!(
                    req.action,
                    ConfirmAction::Send(ExecutorCommand::Cancel { card_id: 1 })
                );
            }
            other => panic!("{other:?}"),
        }
    }
}

#[test]
fn an_answer_is_an_option_a_text_or_both() {
    assert_eq!(toggle_option(&None, "left"), Some("left".into()));
    assert_eq!(toggle_option(&Some("left".into()), "left"), None);
    assert_eq!(
        toggle_option(&Some("left".into()), "right"),
        Some("right".into())
    );
    assert!(!can_send(&None, "  "));
    assert_eq!(question_class(true), "question answered");
    let mut s = plain();
    mirror_str(
        &mut s.drafts,
        DraftKey {
            owner: 1,
            field: "intervention.answer",
        },
        "typed".into(),
        "",
    );
    assert_eq!(s.send_answer(1, &None, " "), None);
    assert_eq!(s.drafts.len(), 1);
    assert_eq!(
        s.send_answer(1, &Some("left".into()), " because "),
        Some(ExecutorCommand::Answer {
            card_id: 1,
            text: "left\n\nbecause".into()
        })
    );
    assert!(s.drafts.is_empty());
    assert_eq!(
        s.send_answer(1, &None, " because "),
        Some(ExecutorCommand::Answer {
            card_id: 1,
            text: "because".into()
        })
    );
    assert_eq!(
        s.send_answer(1, &Some("left".into()), ""),
        Some(ExecutorCommand::Answer {
            card_id: 1,
            text: "left".into()
        })
    );
}

#[test]
fn a_question_reads_as_one_short_line() {
    assert_eq!(summary_line("  why\n is   it "), "why is it");
    assert_eq!(summary_line(" \n "), "Answer");
    let long = summary_line(&"five ".repeat(40));
    assert_eq!(summary_line(&long), long);
    assert_eq!(summary_line("Answer"), "Answer");
    let long = "é".repeat(91);
    let line = summary_line(&long);
    assert_eq!(line.chars().count(), 90);
    assert!(line.ends_with('…'));
    assert_eq!(summary_line(&"é".repeat(90)), "é".repeat(90));
}

#[test]
fn attaching_has_one_place() {
    for s in [
        CardState::StartingBlock,
        CardState::ReadyToMerge,
        CardState::Implementing(RunSub::Running),
        CardState::AwaitingReview(ReviewSub::ReadyForPr),
        CardState::PrReview(PrReviewSub::Idle),
    ] {
        assert_ne!(renders_chat(&s), attachments_on_top(&s), "{s:?}");
    }
    assert!(!renders_chat(&CardState::Done) && !attachments_on_top(&CardState::Done));
    assert!(renders_chat(&failed("x", CardState::ReadyToMerge)));
}

#[test]
fn the_chat_sends_requests_and_questions() {
    assert_eq!(request_label(true, None, None), "Request changes");
    assert_eq!(request_label(true, Some("A"), Some("B")), "A");
    assert_eq!(request_label(false, Some("A"), Some("B")), "B");
    assert_eq!(
        request_title(None),
        "Sends the work back to the agent with this text"
    );
    assert!(exchange_open(0, false) && !exchange_open(1, false) && !exchange_open(0, true));
    let mut s = plain();
    assert_eq!(s.send_request(1, "  ", false), None);
    assert_eq!(s.send_request(1, "  ", true), Some(String::new()));
    assert_eq!(s.send_request(1, " again ", false), Some("again".into()));
    assert_eq!(s.ask_question(1, " "), None);
    assert_eq!(
        s.ask_question(1, " why? "),
        Some(ExecutorCommand::AskQuestion {
            card_id: 1,
            question: "why?".into()
        })
    );
}

fn question(text: &str) -> PlanQuestion {
    PlanQuestion {
        question: text.into(),
        options: vec![],
    }
}

#[test]
fn answers_to_a_plan_are_listed() {
    let questions = vec![question("Which?"), question("When?")];
    let mut answers = blank_answers(2);
    set_answer(&mut answers, 0, " left ".into());
    set_answer(&mut answers, 7, "lost".into());
    assert_eq!(
        build_answers_feedback(&questions, &answers),
        "Here are my answers to your questions:\n1. Which? → left\n2. When? → (no preference — you decide)\n\nPlease update the plan to reflect these decisions."
    );
    let face = plan_face(&questions, &answers);
    assert!(!face.can_approve && !face.when_blank);
    assert_eq!(face.request_label, "Request changes");
    set_answer(&mut answers, 1, "now".into());
    let face = plan_face(&questions, &answers);
    assert!(face.when_blank);
    assert_eq!(face.request_label, "Send answers");
    assert_eq!(face.request_label_nonblank, Some("Send answers & feedback"));
    assert!(plan_face(&vec![], &vec![]).can_approve);
    let mut s = plain();
    let feedback = build_answers_feedback(&questions, &answers);
    assert_eq!(
        s.send_plan_back(1, "", &questions, &answers),
        Some(ExecutorCommand::RejectPlan {
            card_id: 1,
            feedback: feedback.clone()
        })
    );
    assert_eq!(
        s.send_plan_back(1, " more ", &questions, &answers),
        Some(ExecutorCommand::RejectPlan {
            card_id: 1,
            feedback: format!("{feedback}\n\nmore")
        })
    );
    assert_eq!(s.send_plan_back(1, " ", &vec![], &vec![]), None);
    assert_eq!(
        s.send_plan_back(1, "more", &vec![], &vec![]),
        Some(ExecutorCommand::RejectPlan {
            card_id: 1,
            feedback: "more".into()
        })
    );
}

#[test]
fn only_the_tabs_with_something_in_them_show() {
    let outline = Some(PlanOutline {
        tldr: vec![],
        steps: vec![],
        files: vec!["a.rs".into()],
        verification: vec![],
        risks: vec!["r".into()],
    });
    assert_eq!(
        visible_tabs(&outline),
        [PlanTab::Plan, PlanTab::Files, PlanTab::Verify]
    );
    assert_eq!(visible_tabs(&None), [PlanTab::Plan]);
    assert_eq!(shown_tab(&outline, PlanTab::Steps), PlanTab::Plan);
    assert_eq!(shown_tab(&outline, PlanTab::Files), PlanTab::Files);
}

#[test]
fn an_investigation_can_be_followed_up() {
    assert!(!can_follow_up(" ", &vec![" ".into()]));
    assert!(can_follow_up("x", &vec![]));
    let e = Evidence {
        path: "a.rs".into(),
        line: Some(4),
    };
    assert_eq!(evidence_label(&e), "a.rs:4");
    assert_eq!(
        open_evidence(1, "a.rs".into()),
        ExecutorCommand::OpenPath {
            card_id: 1,
            path: "a.rs".into()
        }
    );
    let findings = Some(Findings {
        verdict: "v".into(),
        findings: vec![Finding {
            claim: "c".into(),
            confidence: "high".into(),
            evidence: vec![e],
        }],
        open_questions: vec![],
    });
    assert!(showing_findings(&findings, true));
    assert!(!showing_findings(&findings, false));
    assert!(!showing_findings(&None, true));
    let mut s = plain();
    assert_eq!(s.follow_up(1, " ", &vec![], &vec![]), None);
    assert_eq!(
        s.follow_up(1, " dig ", &vec![], &vec![]),
        Some(ExecutorCommand::FollowUpInvestigation {
            card_id: 1,
            feedback: "dig".into()
        })
    );
    assert_eq!(
        s.convert_to_implementation(1),
        ExecutorCommand::ConvertToImplementation { card_id: 1 }
    );
}

fn verdict(id: u64, selected: bool) -> FixVerdict {
    FixVerdict {
        comment: ReviewComment {
            id,
            path: "a.rs".into(),
            line: Some(7),
            body: "b".into(),
            review_body_of: None,
        },
        worth_fixing: true,
        selected,
        severity: "minor".into(),
        rationale: String::new(),
        reply: String::new(),
        instruction: String::new(),
    }
}

#[test]
fn fixes_are_picked_and_steered() {
    let mut rows = vec![verdict(1, true), verdict(2, false)];
    assert_eq!(selected_fixes(&rows).len(), 1);
    edit_row(&mut rows, 1, RowEdit::Toggle);
    assert_eq!(selected_fixes(&rows).len(), 2);
    edit_row(&mut rows, 1, RowEdit::Toggle);
    assert!(!rows[1].selected);
    edit_row(&mut rows, 0, RowEdit::Instruction("gently".into()));
    assert_eq!(rows[0].instruction, "gently");
    edit_row(&mut rows, 9, RowEdit::Toggle);
    let row = fix_row(&rows[0], false);
    assert_eq!(row.location, "a.rs:7");
    assert_eq!(row.severity_class, "sev sev-minor");
    assert!(row.steer && !row.reply && !row.editable);
    let row = fix_row(&rows[1], false);
    assert!(!row.steer && row.reply);
    let mut summary = verdict(3, false);
    summary.comment.review_body_of = Some(5);
    summary.severity = String::new();
    summary.worth_fixing = false;
    let row = fix_row(&summary, false);
    assert_eq!(row.location, "PR review summary");
    assert_eq!(row.severity_label, "—");
    assert_eq!(row.verdict_label, "skip");
    assert!(!row.reply);
}

#[test]
fn the_task_of_the_fixes_is_the_users_own_wording_first() {
    let rows = vec![verdict(1, true)];
    let p = fix_panel(true, &rows, "", &None, "composed");
    assert_eq!(p.task, "composed");
    assert_eq!(p.apply_label, "Apply selected fixes");
    assert_eq!(p.skip_title, Some("Apply nothing and open the PR"));
    let p = fix_panel(false, &rows, "note", &None, "composed");
    assert_eq!(p.apply_label, "Apply selected fixes & note");
    assert_eq!(p.skip_title, None);
    let p = fix_panel(true, &rows, "", &Some("mine".into()), "composed");
    assert_eq!(p.task, "mine");
    assert!(p.edited);
    assert_eq!(p.apply_label, "Apply your edited task");
    let p = fix_panel(false, &vec![], "", &None, " ");
    assert_eq!(p.apply_label, "Ignore comments and continue");
    let p = fix_panel(true, &vec![], "note", &None, "note");
    assert_eq!(p.apply_label, "Apply your note");
    let mut s = plain();
    assert_eq!(
        s.rerun_analysis(1, true),
        ExecutorCommand::SelfReview { card_id: 1 }
    );
    assert_eq!(
        s.rerun_analysis(1, false),
        ExecutorCommand::FetchComments { card_id: 1 }
    );
    assert_eq!(s.skip_to_pr(1), ExecutorCommand::SkipToPr { card_id: 1 });
    match s.apply_fixes(1, true, vec![verdict(1, true)], " n ", None) {
        ExecutorCommand::ApplySelfFixes {
            card_id, verdicts, ..
        } => {
            assert_eq!(card_id, 1);
            assert_eq!(verdicts, [verdict(1, true)]);
        }
        other => panic!("{other:?}"),
    }
}

#[test]
fn the_way_to_a_pull_request() {
    let mut c = card(1, 9, CardState::AwaitingReview(ReviewSub::ReadyForReview));
    assert_eq!(
        pr_create_sections(&c, None),
        [PrCreateSection::ReviewGate, PrCreateSection::Chat]
    );
    c.branch = Some("usine/x".into());
    c.state = CardState::AwaitingReview(ReviewSub::ReadyForPr);
    let note = Handoff {
        summary: "s".into(),
        questions: vec![],
        tests: vec![],
    };
    assert_eq!(
        pr_create_sections(&c, Some(&note)),
        [
            PrCreateSection::Handoff,
            PrCreateSection::Branch,
            PrCreateSection::Form,
            PrCreateSection::Chat
        ]
    );
    let ready = send_back_title(&c);
    c.state = CardState::AwaitingReview(ReviewSub::Reviewing);
    assert_eq!(
        pr_create_sections(&c, None),
        [PrCreateSection::Branch, PrCreateSection::Reviewing]
    );
    assert_ne!(send_back_title(&c), ready);
    assert_eq!(
        press_pr_create(PrCreateButton::FixAgain, 1),
        ExecutorCommand::FixValidation { card_id: 1 }
    );
    assert_eq!(
        press_pr_create(PrCreateButton::CreateAnyway, 1),
        ExecutorCommand::SkipValidation { card_id: 1 }
    );
}

#[test]
fn a_section_ends_with_its_own_buttons() {
    assert_eq!(
        pr_create_buttons(PrCreateSection::ReviewGate),
        [PrCreateButton::SelfReview, PrCreateButton::SkipReview]
    );
    assert_eq!(
        pr_create_buttons(PrCreateSection::ValidationFailed),
        [
            PrCreateButton::ValidateAgain,
            PrCreateButton::FixAgain,
            PrCreateButton::CreateAnyway
        ]
    );
    assert_eq!(pr_create_buttons(PrCreateSection::Chat), []);
    for running in [
        PrCreateSection::Reviewing,
        PrCreateSection::Validating,
        PrCreateSection::FixingValidation,
    ] {
        let buttons = pr_create_buttons(running);
        assert_eq!(buttons.len(), 1);
        assert_eq!(
            press_pr_create(buttons[0], 4),
            ExecutorCommand::Cancel { card_id: 4 }
        );
    }
    assert_eq!(pr_create_label(PrCreateButton::FixAgain), "Send to agent again");
    assert_eq!(pr_create_label(PrCreateButton::CancelReview), "Cancel");
    assert_eq!(pr_create_class(PrCreateButton::ValidateAgain), "btn primary");
    assert_eq!(pr_create_class(PrCreateButton::CreateAnyway), "btn");
    assert_eq!(
        pr_create_title(PrCreateButton::SkipReview),
        "Goes straight to the create-PR form with no review pass"
    );
    assert_eq!(pr_create_title(PrCreateButton::FixAgain), "");
    assert_eq!(pr_create_heading(PrCreateSection::FixingValidation), "Validation");
    assert_eq!(pr_create_heading(PrCreateSection::Reviewing), "");
    assert_eq!(pr_create_hint(PrCreateSection::Reviewing), "Self-review in progress…");
    assert_eq!(pr_create_hint(PrCreateSection::Form), "");
}

#[test]
fn buttons_at_the_gates_say_what_they_do() {
    assert_eq!(merge_class(MergeButton::Merge), "btn success");
    assert_eq!(merge_class(MergeButton::ForceOverPending), "btn subtle");
    assert_eq!(merge_class(MergeButton::Refresh), "btn");
    assert_eq!(merge_class(MergeButton::FixChecks), "btn primary");
    assert_eq!(
        merge_title(MergeButton::FixChecks),
        "The agent reads the failing run's logs, fixes the cause in the card's worktree and pushes"
    );
    assert_eq!(merge_title(MergeButton::Merge), "");
    assert_eq!(pr_review_label(PrReviewButton::Evaluate), "Evaluate the review");
    assert_eq!(pr_review_label(PrReviewButton::Refresh), "Refresh checks");
    assert_eq!(pr_review_class(PrReviewButton::MergeWithoutReview), "btn subtle");
    assert_eq!(pr_review_class(PrReviewButton::MarkReady), "btn primary");
    assert_eq!(pr_review_class(PrReviewButton::Cancel), "btn");
    assert!(retired_note(true).starts_with("The work is on the base branch;"));
    assert!(retired_note(false).starts_with("The branch was left alone"));
}

#[test]
fn an_attempt_past_the_last_one_reads_as_the_last() {
    assert_eq!(
        validation_hint(&ReviewSub::Validating { attempt: 2 }, 3),
        Some("Running the project's validate command (attempt 2/3)…".into())
    );
    assert_eq!(
        validation_hint(&ReviewSub::FixingValidation { attempt: 4 }, 3),
        Some("Validation failed — the agent is fixing it (attempt 3/3)…".into())
    );
    assert_eq!(
        validation_hint(
            &ReviewSub::ValidationFailed {
                attempt: 4,
                output: String::new()
            },
            3
        ),
        Some("The validate command still fails after 4 attempt(s). The output ends with:".into())
    );
    assert_eq!(validation_hint(&ReviewSub::Reviewing, 3), None);
}

#[test]
fn a_branch_name_is_cleaned_up_before_the_pull_request() {
    assert_eq!(
        branch_hint("my branch", "my-branch"),
        ("Will be created as my-branch".into(), false)
    );
    assert_eq!(
        branch_hint(" ok ", "ok"),
        ("Choose the branch name the PR opens from.".into(), false)
    );
    assert_eq!(
        branch_hint("???", ""),
        ("Not a usable branch name.".into(), true)
    );
    assert_eq!(
        branch_hint(" ", ""),
        ("Choose the branch name the PR opens from.".into(), false)
    );
    let form = |branch: &str, who: &str| PrForm {
        branch: branch.into(),
        title: "T".into(),
        body: "B".into(),
        reviewer: who.into(),
    };
    assert_eq!(create_pr(1, form("", ""), true), Gesture::Nothing);
    match create_pr(1, form("x", " ann "), true) {
        Gesture::Guard { label, cmd, .. } => {
            assert_eq!(label, "Create draft PR");
            assert_eq!(
                cmd,
                ExecutorCommand::CreatePr {
                    card_id: 1,
                    branch: "x".into(),
                    title: "T".into(),
                    body: "B".into(),
                    reviewer: Some("ann".into()),
                    draft: true,
                }
            );
        }
        other => panic!("{other:?}"),
    }
    match create_pr(1, form("x", " "), false) {
        Gesture::Guard { cmd, .. } => {
            assert!(matches!(
                cmd,
                ExecutorCommand::CreatePr {
                    reviewer: None,
                    draft: false,
                    ..
                }
            ));
        }
        other => panic!("{other:?}"),
    }
    assert_eq!(plain().default_reviewer(9), "");
}

#[test]
fn an_open_pull_request_waits_for_its_review() {
    let mut c = card(1, 9, CardState::PrReview(PrReviewSub::Idle));
    assert_eq!(
        pr_review_sections(&c),
        [
            PrReviewSection::PullRequest,
            PrReviewSection::Reviews,
            PrReviewSection::Chat,
            PrReviewSection::LastResort
        ]
    );
    assert_eq!(
        last_resort_buttons(&c),
        [PrReviewButton::MergeWithoutReview]
    );
    assert!(last_resort_hint(&c).starts_with("Nobody is coming"));
    c.conflicting = true;
    assert!(last_resort_hint(&c).starts_with("The PR conflicts"));
    c.facts.triageable = true;
    assert!(pr_review_sections(&c).contains(&PrReviewSection::Triage));
    assert_eq!(
        last_resort_buttons(&c),
        [PrReviewButton::ResolveConflicts, PrReviewButton::Refresh]
    );
    c.state = CardState::PrReview(PrReviewSub::FetchingComments);
    assert_eq!(
        pr_review_sections(&c),
        [
            PrReviewSection::PullRequest,
            PrReviewSection::Reviews,
            PrReviewSection::Fetching
        ]
    );
    assert_eq!(
        running_hint(PrReviewSection::Fetching),
        Some("Triaging review comments…")
    );
    assert_eq!(running_hint(PrReviewSection::Chat), None);
    match press_pr_review(PrReviewButton::MergeWithoutReview, 1, true) {
        Gesture::Ask(req) => assert_eq!(
            req.action,
            ConfirmAction::Send(ExecutorCommand::Merge {
                card_id: 1,
                delete_branch: true,
                force: false
            })
        ),
        other => panic!("{other:?}"),
    }
    assert_eq!(
        press_pr_review(PrReviewButton::MarkRead, 1, true),
        Gesture::Send(ExecutorCommand::MarkReviewBodiesRead { card_id: 1 })
    );
    let review = |body: &str| SubmittedReview {
        author: "ann".into(),
        state: "commented".into(),
        body: body.into(),
    };
    assert_eq!(review_words(&review(" fine \n")), Some("fine".into()));
    assert_eq!(review_words(&review(" \n")), None);
    assert!(!summary_awaits(&c));
    c.reviews = vec![review("x")];
    c.facts.pending_bodies = vec!["ann".into()];
    assert!(summary_awaits(&c));
    assert!(renders_chat(&CardState::Designing(
        DesignSub::AwaitingApproval { plan: "p".into() }
    )));
}

#[test]
fn rows_kept_as_texts_come_back_as_edited() {
    let found = vec![verdict(1, true), verdict(2, false)];
    assert_eq!(
        row_texts(&found),
        ["true", "b", "", "", "false", "b", "", ""]
    );
    assert_eq!(rows_with(&found, &row_texts(&found)), found);
    let mut edited = found.clone();
    edit_row(&mut edited, 0, RowEdit::Toggle);
    edit_row(&mut edited, 1, RowEdit::Instruction("gently".into()));
    edit_row(&mut edited, 1, RowEdit::Reply("later".into()));
    assert_eq!(rows_with(&found, &row_texts(&edited)), edited);
    // Texts that are too few leave the rows behind them alone.
    let few = row_texts(&edited)[..6].to_vec();
    assert_eq!(rows_with(&found, &few), [edited[0].clone(), found[1].clone()]);
}
