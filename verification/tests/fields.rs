//! Text fields, drafts and pickers.

use usine::adoptdialog::{
    can_submit, commits_hint, open_pr_hint, parse_pick, pr_hints, pr_label, pr_value, submit,
    submit_label, title_from_ref, AdoptForm, Pick,
};
use usine::command::ExecutorCommand;
use usine::drafts::{
    forget, forget_owner_in, forget_owners, mirror_str, mirror_typed, origin_of, restore_str,
    restore_typed, use_draft, use_draft_of, DraftKey, DraftMap,
};
use usine::edit::{data_url, image_mime, preview_src, Draft};
use usine::model::{AdoptProbe, DirtyAction, Effort, ModelSpec, OpenPr, Provider};
use usine::textfield::PushBack;
use usine::widgets::{
    carried_effort, model_label, models_for, parse_effort, parse_provider, picked_model,
    provider_value, severity_pill_class, tab_class, with_effort,
};

fn key(owner: u128, field: &'static str) -> DraftKey {
    DraftKey { owner, field }
}

#[test]
fn restore_miss_returns_none() {
    let map = DraftMap::new();
    assert_eq!(restore_str(&map, key(1, "chat")), None);
}

#[test]
fn mirror_then_restore_round_trips() {
    let mut map = DraftMap::new();
    let k = key(1, "chat");
    mirror_str(&mut map, k, "hello".into(), "");
    assert_eq!(restore_str(&map, k), Some("hello".into()));
}

#[test]
fn mirror_back_to_seed_removes_the_entry() {
    let mut map = DraftMap::new();
    let k = key(1, "pr.title");
    mirror_str(&mut map, k, "edited".into(), "seeded");
    assert_eq!(map.len(), 1);
    mirror_str(&mut map, k, "seeded".into(), "seeded");
    assert!(map.is_empty());
}

#[test]
fn typed_restore_honors_the_origin() {
    let mut map = DraftMap::new();
    let k = key(1, "plan.answers");
    let answers = vec!["a".to_string(), String::new()];
    let seed = vec![String::new(), String::new()];
    mirror_typed(&mut map, k, "plan-v1", &answers, &seed);
    assert_eq!(restore_typed(&map, k, "plan-v1"), Some(answers));
    assert_eq!(restore_typed(&map, k, "plan-v2"), None);
}

#[test]
fn typed_mirror_back_to_seed_removes_the_entry() {
    let mut map = DraftMap::new();
    let k = key(1, "fixes.verdicts");
    let seed = vec!["as-drafted".to_string()];
    mirror_typed(&mut map, k, "run-1", &vec!["edited".to_string()], &seed);
    assert_eq!(map.len(), 1);
    mirror_typed(&mut map, k, "run-1", &seed.clone(), &seed);
    assert!(map.is_empty());
}

#[test]
fn forget_owner_clears_only_that_owner() {
    let mut map = DraftMap::new();
    let mine = 7;
    let theirs = 8;
    mirror_str(&mut map, key(mine, "chat"), "a".into(), "");
    mirror_str(&mut map, key(mine, "pr.body"), "b".into(), "");
    mirror_str(&mut map, key(theirs, "chat"), "c".into(), "");
    forget_owner_in(&mut map, mine);
    assert_eq!(map.len(), 1);
    assert_eq!(restore_str(&map, key(theirs, "chat")), Some("c".into()));
}

#[test]
fn several_owners_are_forgotten_at_once() {
    let mut map = DraftMap::new();
    for owner in [1, 2, 3] {
        mirror_str(&mut map, key(owner, "chat"), "x".into(), "");
    }
    forget_owners(&mut map, &vec![1, 3]);
    assert_eq!(map.len(), 1);
    assert_eq!(restore_str(&map, key(2, "chat")), Some("x".into()));
    forget(&mut map, 2, "chat");
    assert!(map.is_empty());
}

#[test]
fn a_field_opens_with_its_draft_or_its_seed() {
    let mut map = DraftMap::new();
    assert_eq!(use_draft(&map, 1, "pr.title", "seed".into()), "seed");
    mirror_str(&mut map, key(1, "pr.title"), "mine".into(), "seed");
    assert_eq!(use_draft(&map, 1, "pr.title", "seed".into()), "mine");
    assert_eq!(use_draft(&map, 2, "pr.title", "seed".into()), "seed");
    assert_eq!(use_draft(&map, 1, "pr.body", "seed".into()), "seed");
}

#[test]
fn a_working_copy_opens_with_its_draft_while_the_output_is_the_same() {
    let mut map = DraftMap::new();
    let first = origin_of("the \"first\" plan");
    let second = origin_of("the second plan");
    assert_eq!(first, "\"the \\\"first\\\" plan\"");
    let seed = vec![String::new()];
    let typed = vec!["yes".to_string()];
    mirror_typed(&mut map, key(1, "plan.answers"), &first, &typed, &seed);
    assert_eq!(
        use_draft_of(&map, 1, "plan.answers", &first, seed.clone()),
        typed
    );
    assert_eq!(
        use_draft_of(&map, 1, "plan.answers", &second, seed.clone()),
        seed
    );
}

#[test]
fn a_draft_that_is_no_working_copy_is_ignored() {
    let mut map = DraftMap::new();
    mirror_str(&mut map, key(1, "plan.answers"), "not json".into(), "");
    assert_eq!(restore_typed(&map, key(1, "plan.answers"), "x"), None);
}

#[test]
fn typing_never_remounts() {
    let mut field = PushBack::new(String::new());
    for v in ["h", "he", "hey"] {
        field.typed(v);
        field.step(v);
    }
    assert_eq!(field.key(), 0);
}

#[test]
fn an_external_write_remounts_once() {
    let mut field = PushBack::new("hey".to_string());
    field.step("");
    assert_eq!(field.key(), 1);
    field.step("");
    assert_eq!(field.key(), 1);
}

/// The command of a provider: its name in lower case.
fn binary(provider: Provider) -> String {
    format!("{provider:?}").to_lowercase()
}

#[test]
fn codex_picker_lists_the_gpt_5_6_family() {
    let models = models_for(Provider::Codex, &binary(Provider::Claude));
    assert!(models.contains(&"gpt-5.6-sol".to_string()));
    assert!(models.contains(&"gpt-5.6-terra".to_string()));
    assert!(models.contains(&"gpt-5.6-luna".to_string()));
}

#[test]
fn claude_picker_pins_fable_5_1_while_keeping_the_alias() {
    let name = binary(Provider::Claude);
    let models = models_for(Provider::Claude, &name);
    assert!(models.contains(&format!("{name}-fable-5-1")));
    assert!(models.contains(&"fable".to_string()));
}

#[test]
fn only_the_pinned_ids_get_a_friendlier_label() {
    let name = binary(Provider::Claude);
    assert_eq!(
        model_label(&format!("{name}-fable-5-1"), &name),
        "fable 5.1"
    );
    assert_eq!(model_label("opus", &name), "opus");
    assert_eq!(model_label("gpt-5.6-sol", &name), "gpt-5.6-sol");
}

#[test]
fn ultra_effort_is_parsed() {
    assert_eq!(parse_effort("ultra"), Effort::Ultra);
}

#[test]
fn every_effort_is_parsed_and_the_rest_is_medium() {
    for (text, effort) in [
        ("low", Effort::Low),
        ("medium", Effort::Medium),
        ("high", Effort::High),
        ("xhigh", Effort::XHigh),
        ("max", Effort::Max),
        ("whatever", Effort::Medium),
        ("", Effort::Medium),
    ] {
        assert_eq!(parse_effort(text), effort, "{text}");
    }
}

#[test]
fn providers_read_back() {
    for p in [Provider::Claude, Provider::Codex] {
        assert_eq!(parse_provider(provider_value(p, &binary(Provider::Claude))), p);
    }
    assert_eq!(parse_provider("unknown"), Provider::Claude);
}

#[test]
fn picking_a_model_carries_the_effort() {
    let spec = ModelSpec {
        model: "opus".into(),
        effort: Effort::High,
    };
    assert_eq!(carried_effort(&None), Effort::Medium);
    assert_eq!(carried_effort(&Some(spec.clone())), Effort::High);
    assert_eq!(picked_model(String::new(), Effort::High), None);
    assert_eq!(
        picked_model("haiku".into(), Effort::Low),
        Some(ModelSpec {
            model: "haiku".into(),
            effort: Effort::Low
        })
    );
    assert_eq!(
        with_effort(&spec, "max"),
        ModelSpec {
            model: "opus".into(),
            effort: Effort::Max
        }
    );
    assert_eq!(severity_pill_class(""), "sev");
    assert_eq!(severity_pill_class("high"), "sev sev-high");
    assert_eq!(tab_class(1, 1), "settings-tab active");
    assert_eq!(tab_class(0, 1), "settings-tab");
}

#[test]
fn picks_tell_prs_from_branches() {
    assert_eq!(parse_pick(""), Pick::Nothing);
    assert_eq!(parse_pick("pr:42"), Pick::Pr(42));
    assert_eq!(parse_pick("feat/x"), Pick::Branch("feat/x".into()));
    assert_eq!(
        parse_pick("origin/pr-7"),
        Pick::Branch("origin/pr-7".into())
    );
    assert_eq!(parse_pick("pr:x"), Pick::Branch("pr:x".into()));
}

#[test]
fn a_pull_request_too_many_is_read_as_a_branch() {
    assert_eq!(parse_pick(&pr_value(u64::MAX)), Pick::Pr(u64::MAX));
    assert_eq!(
        parse_pick("pr:18446744073709551616"),
        Pick::Branch("pr:18446744073709551616".into())
    );
    assert_eq!(parse_pick("pr:"), Pick::Branch("pr:".into()));
    assert_eq!(parse_pick("pr:+7"), Pick::Pr(7));
}

fn pr(number: u64, body: &str, mine: bool) -> OpenPr {
    OpenPr {
        number,
        title: "Add OAuth".into(),
        body: body.into(),
        head_ref: "feat/oauth".into(),
        author: "octocat".into(),
        draft: false,
        mine,
    }
}

fn probe(source: &str, commits: u64) -> AdoptProbe {
    AdoptProbe {
        source_ref: source.into(),
        commits_ahead: commits,
        subjects: vec!["first".into(), "second".into()],
        refusal: None,
        dirty_checkout: None,
        open_pr: None,
    }
}

#[test]
fn titles_come_from_the_leaf_of_a_branch() {
    assert_eq!(title_from_ref("feat/add-oauth"), "add oauth");
    assert_eq!(title_from_ref("fix_the-thing"), "fix the thing");
    assert_eq!(title_from_ref("a/b/"), "");
}

#[test]
fn a_pull_request_reads_as_one_line() {
    assert_eq!(
        pr_label(&pr(5, "", true)),
        "#5 Add OAuth — feat/oauth (octocat)"
    );
    let mut draft = pr(5, "", true);
    draft.draft = true;
    assert_eq!(
        pr_label(&draft),
        "#5 Add OAuth — feat/oauth (octocat), draft"
    );
}

#[test]
fn picking_prefills_until_the_user_types() {
    let prs = vec![pr(5, "Body.", true), pr(6, "  ", true)];
    let mut form = AdoptForm::new();
    assert_eq!(
        form.choose_source("feat/add-oauth".into(), &prs),
        Some("feat/add-oauth".into())
    );
    assert_eq!(form.title, "add oauth");
    assert_eq!(form.description, "");
    form.describe(&Some(probe("feat/add-oauth", 2)));
    assert_eq!(form.description, "- first\n- second");
    assert_eq!(form.choose_source("pr:5".into(), &prs), None);
    assert_eq!(form.title, "Add OAuth");
    assert_eq!(form.description, "Body.");
    form.choose_source("pr:6".into(), &prs);
    assert_eq!(form.description, "Add OAuth");
    form.type_title("Mine".into());
    form.type_description("My own words".into());
    form.choose_source("feat/add-oauth".into(), &prs);
    form.describe(&Some(probe("feat/add-oauth", 2)));
    assert_eq!(form.title, "Mine");
    assert_eq!(form.description, "My own words");
}

#[test]
fn a_late_probe_changes_nothing() {
    let mut form = AdoptForm::new();
    form.choose_source("feat/x".into(), &vec![]);
    form.describe(&Some(probe("feat/y", 2)));
    assert_eq!(form.description, "");
    form.describe(&None);
    assert_eq!(form.description, "");
}

#[test]
fn submitting_needs_words_and_something_to_adopt() {
    let prs = vec![pr(5, "Body.", true)];
    let mut form = AdoptForm::new();
    assert!(!can_submit(&form, &prs, &None));
    form.choose_source("feat/x".into(), &prs);
    form.type_description("what it does".into());
    assert!(can_submit(&form, &prs, &None));
    assert!(can_submit(&form, &prs, &Some(probe("feat/x", 1))));
    let empty = probe("feat/x", 0);
    assert!(!can_submit(&form, &prs, &Some(empty.clone())));
    let mut dirty = empty;
    dirty.dirty_checkout = Some("/tmp/x".into());
    assert!(can_submit(&form, &prs, &Some(dirty.clone())));
    form.include_dirty = false;
    assert!(!can_submit(&form, &prs, &Some(dirty)));
    let mut refused = probe("feat/x", 1);
    refused.refusal = Some("checked out elsewhere".into());
    assert!(!can_submit(&form, &prs, &Some(refused)));
    form.choose_source("pr:9".into(), &prs);
    assert!(!can_submit(&form, &prs, &None));
    form.choose_source("pr:5".into(), &prs);
    assert!(can_submit(&form, &prs, &None));
    form.type_title("   ".into());
    assert!(!can_submit(&form, &prs, &None));
}

#[test]
fn submitting_a_branch_or_a_pull_request() {
    let mut form = AdoptForm::new();
    form.choose_source("origin/feat/x".into(), &vec![]);
    form.type_title("  T ".into());
    form.type_description(" D ".into());
    assert_eq!(submit_label("origin/feat/x"), "Adopt into self-review");
    assert_eq!(
        submit(form.clone(), 3),
        ExecutorCommand::AdoptBranch {
            project_id: 3,
            source_ref: "origin/feat/x".into(),
            title: "T".into(),
            description: "D".into(),
            retire_original: false,
            dirty_action: DirtyAction::Include,
        }
    );
    form.choose_source("feat/x".into(), &vec![]);
    form.include_dirty = false;
    assert_eq!(
        submit(form.clone(), 3),
        ExecutorCommand::AdoptBranch {
            project_id: 3,
            source_ref: "feat/x".into(),
            title: "T".into(),
            description: "D".into(),
            retire_original: true,
            dirty_action: DirtyAction::Ignore,
        }
    );
    form.choose_source("pr:12".into(), &vec![]);
    assert_eq!(submit_label("pr:12"), "Adopt PR #12");
    assert_eq!(
        submit(form, 3),
        ExecutorCommand::AdoptPr {
            project_id: 3,
            pr_number: 12,
            title: "T".into(),
            description: "D".into(),
        }
    );
}

#[test]
fn adopting_says_what_it_will_do() {
    let (hint, warning) = pr_hints(&pr(5, "", false));
    assert_eq!(
        hint,
        "The card takes over PR #5 at the PR-review stage (no self-review); fixes are pushed to `feat/oauth`."
    );
    assert_eq!(
        warning,
        Some("This PR was opened by octocat, not you — the card will push its fixes to their branch.".into())
    );
    assert_eq!(pr_hints(&pr(5, "", true)).1, None);
    assert_eq!(
        commits_hint(3),
        ("3 commit(s) ahead of the base branch.".into(), false)
    );
    assert_eq!(
        commits_hint(0),
        (
            "This branch has no commits beyond the base branch.".into(),
            true
        )
    );
    assert_eq!(
        open_pr_hint(8),
        "PR #8 is open on this branch — pick it under Pull requests to adopt the PR itself."
    );
}

#[test]
fn an_edited_text_is_saved_once() {
    let mut d = Draft::new("old".into());
    assert_eq!(d.unsaved(), None);
    d.typed("new".into());
    assert_eq!(d.unsaved(), Some("new".into()));
    assert_eq!(d.commit("new".into()), "new");
    assert_eq!(d.unsaved(), None);
    d.typed("newer".into());
    d.revert();
    assert_eq!(d.buf, "new");
    assert_eq!(d.generation, 1);
    assert_eq!(d.unsaved(), None);
}

#[test]
fn pictures_are_told_by_their_extension() {
    assert_eq!(image_mime("png"), Some("image/png"));
    assert_eq!(image_mime("JPG"), Some("image/jpeg"));
    assert_eq!(image_mime("JpEg"), Some("image/jpeg"));
    assert_eq!(image_mime("gif"), Some("image/gif"));
    assert_eq!(image_mime("webp"), Some("image/webp"));
    assert_eq!(image_mime("bmp"), Some("image/bmp"));
    assert_eq!(image_mime("rs"), None);
    assert_eq!(image_mime(""), None);
}

#[test]
fn a_preview_holds_the_bytes() {
    assert_eq!(
        data_url("image/png", &b"hi!?".to_vec()),
        "data:image/png;base64,aGkhPw=="
    );
    assert_eq!(
        data_url("image/svg+xml", &vec![]),
        "data:image/svg+xml;base64,"
    );
    assert_eq!(
        preview_src("gif", Some(vec![0, 255, 16])),
        Some("data:image/gif;base64,AP8Q".into())
    );
    assert_eq!(preview_src("gif", None), None);
    assert_eq!(preview_src("txt", Some(vec![1])), None);
}

#[test]
fn only_an_answer_about_the_pick_counts() {
    let mut form = AdoptForm::new();
    assert!(!form.counts(&probe("", 2)) && !form.is_remote());
    form.choose_source("origin/feat/x".into(), &vec![]);
    assert!(form.is_remote());
    assert!(form.counts(&probe("origin/feat/x", 2)));
    assert!(!form.counts(&probe("feat/x", 2)));
}
