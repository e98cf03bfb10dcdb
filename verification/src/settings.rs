//! The settings dialogs: what each field changes, and when it is saved.

use vstd::prelude::*;

use crate::card::opt_text;
use crate::command::ExecutorCommand;
use crate::copies::{ports_view, ConfigView, ProjectView, SettingsView};
use crate::lists::{a_filter_keeps_what_passes, first_where};
use crate::markdown::texts;
use crate::model::{AppSettings, CardConfig, Id, ModelSpec, PreviewPort, Project, Provider};
use crate::state::AppState;
use crate::text::{
    blank, blank_is_empty_trim, chars_of, ends, is_blank, numbers_read_back, parse_number, parsed,
    same_text, separators_part_the_text, split_parts, starts, text_parts, trim, trim_slice, trimmed,
    white,
};

verus! {

// ---- Texts in fields -----------------------------------------------------

/// A field left blank clears what it sets.
pub open spec fn typed_option(s: Seq<char>) -> Option<Seq<char>> {
    if blank(s) {
        None
    } else {
        Some(trimmed(s))
    }
}

fn option_of(s: &str) -> (r: Option<String>)
    ensures
        opt_text(r) == typed_option(s@),
{
    if is_blank(s) {
        None
    } else {
        Some(trim(s))
    }
}

/// The names in a comma-separated list, without the blank ones.
pub open spec fn names_in(s: Seq<char>) -> Seq<Seq<char>> {
    text_parts(s, ',', ',').map_values(|p: Seq<char>| trimmed(p)).filter(|p: Seq<char>| p.len() > 0)
}

fn parse_names(s: &str) -> (r: Vec<String>)
    ensures
        texts(r@) == names_in(s@),
{
    let parts = split_parts(s, ',', ',');
    let ghost all = texts(parts@).map_values(|p: Seq<char>| trimmed(p));
    let ghost keep = |p: Seq<char>| p.len() > 0;
    let mut out: Vec<String> = Vec::new();
    let mut i: usize = 0;
    proof {
        reveal(Seq::filter);
        assert(all.take(0) =~= Seq::empty());
        assert(texts(out@) =~= all.take(0).filter(keep));
    }
    while i < parts.len()
        invariant
            i <= parts.len(),
            all == texts(parts@).map_values(|p: Seq<char>| trimmed(p)),
            keep == (|p: Seq<char>| p.len() > 0),
            texts(out@) == all.take(i as int).filter(keep),
        decreases parts.len() - i,
    {
        let ghost before = out@;
        let name = trim(parts[i].as_str());
        proof {
            reveal(Seq::filter);
            assert(all.take(i + 1).drop_last() =~= all.take(i as int));
            assert(all[i as int] == name@);
        }
        if !name.as_str().is_empty() {
            out.push(name);
            assert(texts(out@) =~= texts(before).push(name@));
        }
        i += 1;
    }
    assert(all.take(i as int) =~= all);
    out
}

fn without_text(v: &Vec<String>, x: &str) -> (r: Vec<String>)
    ensures
        texts(r@) == texts(v@).filter(|t: Seq<char>| t != x@),
{
    let ghost all = texts(v@);
    let ghost keep = |t: Seq<char>| t != x@;
    let mut out: Vec<String> = Vec::new();
    let mut i: usize = 0;
    proof {
        reveal(Seq::filter);
        assert(all.take(0) =~= Seq::empty());
        assert(texts(out@) =~= all.take(0).filter(keep));
    }
    while i < v.len()
        invariant
            i <= v.len(),
            all == texts(v@),
            keep == (|t: Seq<char>| t != x@),
            texts(out@) == all.take(i as int).filter(keep),
        decreases v.len() - i,
    {
        let ghost before = out@;
        proof {
            reveal(Seq::filter);
            assert(all.take(i + 1).drop_last() =~= all.take(i as int));
        }
        if !same_text(v[i].as_str(), x) {
            out.push(v[i].clone());
            assert(texts(out@) =~= texts(before).push(all[i as int]));
        }
        i += 1;
    }
    assert(all.take(i as int) =~= all);
    out
}

fn has_text(v: &Vec<String>, x: &str) -> (r: bool)
    ensures
        r == texts(v@).contains(x@),
{
    let mut i: usize = 0;
    while i < v.len()
        invariant
            i <= v.len(),
            forall|j: int| 0 <= j < i ==> (#[trigger] texts(v@)[j]) != x@,
        decreases v.len() - i,
    {
        if same_text(v[i].as_str(), x) {
            assert(texts(v@)[i as int] == x@);
            return true;
        }
        i += 1;
    }
    false
}

/// The collaborators that can still be added, in their order.
pub open spec fn addable(people: Seq<Seq<char>>, chosen: Seq<Seq<char>>) -> Seq<Seq<char>> {
    people.filter(|p: Seq<char>| !chosen.contains(p))
}

pub fn available_contributors(people: &Vec<String>, chosen: &Vec<String>) -> (r: Vec<String>)
    ensures
        texts(r@) == addable(texts(people@), texts(chosen@)),
{
    let ghost all = texts(people@);
    let ghost keep = |p: Seq<char>| !texts(chosen@).contains(p);
    let mut out: Vec<String> = Vec::new();
    let mut i: usize = 0;
    proof {
        reveal(Seq::filter);
        assert(all.take(0) =~= Seq::empty());
        assert(texts(out@) =~= all.take(0).filter(keep));
    }
    while i < people.len()
        invariant
            i <= people.len(),
            all == texts(people@),
            keep == (|p: Seq<char>| !texts(chosen@).contains(p)),
            texts(out@) == all.take(i as int).filter(keep),
        decreases people.len() - i,
    {
        let ghost before = out@;
        proof {
            reveal(Seq::filter);
            assert(all.take(i + 1).drop_last() =~= all.take(i as int));
        }
        if !has_text(chosen, people[i].as_str()) {
            out.push(people[i].clone());
            assert(texts(out@) =~= texts(before).push(all[i as int]));
        }
        i += 1;
    }
    assert(all.take(i as int) =~= all);
    out
}

// ---- A project's settings ------------------------------------------------

/// One change in a project's settings.
#[derive(Debug, Clone, PartialEq, Eq)]
pub enum ProjectEdit {
    RemoveContributor(String),
    /// The whole list, separated by commas.
    Contributors(String),
    /// One picked from the collaborators.
    AddContributor(String),
    /// Whom a new pull request asks, typed.
    Reviewer(String),
    /// Whom a new pull request asks, picked.
    PickReviewer(String),
    PinnedBase(String),
    Setup(String),
    Validate(String),
    Run(String),
    Teardown(String),
    ToggleAutoPreview,
    PortLabel(usize, String),
    PortBase(usize, String),
    RemovePort(usize),
    AddPort,
}

/// A picked value; the empty one is none.
pub open spec fn picked_option(s: Seq<char>) -> Option<Seq<char>> {
    if s.len() == 0 {
        None
    } else {
        Some(s)
    }
}

/// The configuration after a change, or nothing where there is nothing to save:
/// a contributor already there, a number that is none, a port that is gone.
pub open spec fn configured(c: ConfigView, e: ProjectEdit) -> Option<ConfigView> {
    match e {
        ProjectEdit::RemoveContributor(who) => Some(
            ConfigView {
                review_contributors: c.review_contributors.filter(|t: Seq<char>| t != who@),
                ..c
            },
        ),
        ProjectEdit::Contributors(list) => Some(
            ConfigView { review_contributors: names_in(list@), ..c },
        ),
        ProjectEdit::AddContributor(who) => if who@.len() == 0 || c.review_contributors.contains(
            who@,
        ) {
            None
        } else {
            Some(
                ConfigView { review_contributors: c.review_contributors.push(who@), ..c },
            )
        },
        ProjectEdit::Reviewer(who) => Some(ConfigView { reviewer: typed_option(who@), ..c }),
        ProjectEdit::PickReviewer(who) => Some(ConfigView { reviewer: picked_option(who@), ..c }),
        ProjectEdit::PinnedBase(b) => Some(
            ConfigView { pinned_base_branch: typed_option(b@), ..c },
        ),
        ProjectEdit::Setup(s) => Some(
            ConfigView { worktree_setup_script: typed_option(s@), ..c },
        ),
        ProjectEdit::Validate(s) => Some(ConfigView { validate_script: typed_option(s@), ..c }),
        ProjectEdit::Run(s) => Some(ConfigView { run_script: typed_option(s@), ..c }),
        ProjectEdit::Teardown(s) => Some(
            ConfigView { worktree_teardown_script: typed_option(s@), ..c },
        ),
        ProjectEdit::ToggleAutoPreview => Some(ConfigView { auto_preview: !c.auto_preview, ..c }),
        ProjectEdit::PortLabel(i, label) => if i < c.preview_ports.len() {
            Some(
                ConfigView {
                    preview_ports: c.preview_ports.update(
                        i as int,
                        (trimmed(label@), c.preview_ports[i as int].1),
                    ),
                    ..c
                },
            )
        } else {
            None
        },
        ProjectEdit::PortBase(i, n) => match parsed(trimmed(n@), u16::MAX as nat) {
            Some(base) if i < c.preview_ports.len() => Some(
                ConfigView {
                    preview_ports: c.preview_ports.update(
                        i as int,
                        (c.preview_ports[i as int].0, base as u16),
                    ),
                    ..c
                },
            ),
            _ => None,
        },
        ProjectEdit::RemovePort(i) => if i < c.preview_ports.len() {
            Some(ConfigView { preview_ports: c.preview_ports.remove(i as int), ..c })
        } else {
            None
        },
        ProjectEdit::AddPort => Some(
            ConfigView { preview_ports: c.preview_ports.push((Seq::empty(), 3000u16)), ..c },
        ),
    }
}

fn parse_trimmed(s: &str, max: u64) -> (r: Option<u64>)
    ensures
        match r {
            Some(n) => parsed(trimmed(s@), max as nat) == Some(n as nat) && n <= max,
            None => parsed(trimmed(s@), max as nat) is None,
        },
{
    let cs = chars_of(s);
    parse_number(trim_slice(cs.as_slice()), max)
}

/// Make one change in a project's settings: the project to save, if any.
pub fn edit_project(project: Project, e: ProjectEdit) -> (r: Option<Project>)
    ensures
        match configured(project@.config, e) {
            Some(c) => r is Some && r->0@ == (ProjectView { config: c, ..project@ }),
            None => r is None,
        },
{
    let ghost before = project@;
    let mut p = project;
    match e {
        ProjectEdit::RemoveContributor(who) => {
            p.config.review_contributors = without_text(
                &p.config.review_contributors,
                who.as_str(),
            );
        },
        ProjectEdit::Contributors(list) => {
            p.config.review_contributors = parse_names(list.as_str());
        },
        ProjectEdit::AddContributor(who) => {
            if who.as_str().is_empty() || has_text(&p.config.review_contributors, who.as_str()) {
                return None;
            }
            let ghost had = p.config.review_contributors@;
            p.config.review_contributors.push(who);
            assert(texts(p.config.review_contributors@) =~= texts(had).push(who@));
        },
        ProjectEdit::Reviewer(who) => {
            p.config.reviewer = option_of(who.as_str());
        },
        ProjectEdit::PickReviewer(who) => {
            p.config.reviewer = if who.as_str().is_empty() {
                None
            } else {
                Some(who)
            };
        },
        ProjectEdit::PinnedBase(b) => {
            p.config.pinned_base_branch = option_of(b.as_str());
        },
        ProjectEdit::Setup(s) => {
            p.config.worktree_setup_script = option_of(s.as_str());
        },
        ProjectEdit::Validate(s) => {
            p.config.validate_script = option_of(s.as_str());
        },
        ProjectEdit::Run(s) => {
            p.config.run_script = option_of(s.as_str());
        },
        ProjectEdit::Teardown(s) => {
            p.config.worktree_teardown_script = option_of(s.as_str());
        },
        ProjectEdit::ToggleAutoPreview => {
            p.config.auto_preview = !p.config.auto_preview;
        },
        ProjectEdit::PortLabel(i, label) => {
            if i >= p.config.preview_ports.len() {
                return None;
            }
            let base = p.config.preview_ports[i].base;
            p.config.preview_ports.set(i, PreviewPort { label: trim(label.as_str()), base });
            assert(p@.config.preview_ports =~= before.config.preview_ports.update(
                i as int,
                (trimmed(label@), base),
            ));
        },
        ProjectEdit::PortBase(i, n) => {
            match parse_trimmed(n.as_str(), u16::MAX as u64) {
                Some(base) if i < p.config.preview_ports.len() => {
                    let label = p.config.preview_ports[i].label.clone();
                    p.config.preview_ports.set(i, PreviewPort { label, base: base as u16 });
                    assert(p@.config.preview_ports =~= before.config.preview_ports.update(
                        i as int,
                        (label@, base as u16),
                    ));
                },
                _ => {
                    return None;
                },
            }
        },
        ProjectEdit::RemovePort(i) => {
            if i >= p.config.preview_ports.len() {
                return None;
            }
            p.config.preview_ports.remove(i);
            assert(p@.config.preview_ports =~= before.config.preview_ports.remove(i as int));
        },
        ProjectEdit::AddPort => {
            let none = String::new();
            assert(none@ =~= Seq::<char>::empty());
            p.config.preview_ports.push(PreviewPort { label: none, base: 3000 });
            assert(p@.config.preview_ports =~= before.config.preview_ports.push(
                (Seq::empty(), 3000u16),
            ));
        },
    }
    Some(p)
}

impl AppState {
    /// Make one change in a project's settings and have it saved. Nothing is
    /// sent for a project that is gone, or a change that changes nothing.
    pub fn update_project(&self, id: Id, e: ProjectEdit) -> (r: Option<ExecutorCommand>)
        ensures
            match first_where(self@.projects, |p: Project| p.id == id) {
                Some(i) => match configured(self@.projects[i]@.config, e) {
                    Some(c) => r matches Some(ExecutorCommand::SaveProject { project })
                        && project@ == (ProjectView { config: c, ..self@.projects[i]@ }),
                    None => r is None,
                },
                None => r is None,
            },
    {
        match self.find_project(id) {
            Some(p) => match edit_project(p.clone(), e) {
                Some(edited) => Some(self.save_project(edited)),
                None => None,
            },
            None => None,
        }
    }
}

// ---- The global settings -------------------------------------------------

/// One change in the global settings.
#[derive(Debug, PartialEq, Eq)]
pub enum SettingsEdit {
    /// Another provider, with what a card of its runs with by default.
    Provider(Provider, CardConfig),
    Plan(ModelSpec),
    Implement(ModelSpec),
    Review(Option<ModelSpec>),
    Terminal(String),
    Editor(String),
    MaxRuns(String),
}

/// The settings after a change, or nothing for a number that is none.
pub open spec fn resettled(s: SettingsView, e: SettingsEdit) -> Option<SettingsView> {
    match e {
        SettingsEdit::Provider(p, defaults) => Some(
            SettingsView {
                default_provider: p,
                default_plan: defaults.plan,
                default_implement: defaults.implement,
                default_review: defaults.review,
                ..s
            },
        ),
        SettingsEdit::Plan(spec) => Some(SettingsView { default_plan: spec, ..s }),
        SettingsEdit::Implement(spec) => Some(SettingsView { default_implement: spec, ..s }),
        SettingsEdit::Review(spec) => Some(SettingsView { default_review: spec, ..s }),
        SettingsEdit::Terminal(c) => Some(
            SettingsView { terminal_command: typed_option(c@), ..s },
        ),
        SettingsEdit::Editor(c) => Some(SettingsView { editor_command: typed_option(c@), ..s }),
        SettingsEdit::MaxRuns(n) => match parsed(trimmed(n@), u32::MAX as nat) {
            Some(v) => Some(SettingsView { max_concurrent_runs: v as u32, ..s }),
            None => None,
        },
    }
}

/// Make one change in the global settings: the settings to save, if any.
pub fn edit_settings(settings: AppSettings, e: SettingsEdit) -> (r: Option<AppSettings>)
    ensures
        match resettled(settings@, e) {
            Some(s) => r is Some && r->0@ == s,
            None => r is None,
        },
{
    let mut s = settings;
    match e {
        SettingsEdit::Provider(p, defaults) => {
            s.default_provider = p;
            s.default_plan = defaults.plan;
            s.default_implement = defaults.implement;
            s.default_review = defaults.review;
        },
        SettingsEdit::Plan(spec) => {
            s.default_plan = spec;
        },
        SettingsEdit::Implement(spec) => {
            s.default_implement = spec;
        },
        SettingsEdit::Review(spec) => {
            s.default_review = spec;
        },
        SettingsEdit::Terminal(c) => {
            s.terminal_command = option_of(c.as_str());
        },
        SettingsEdit::Editor(c) => {
            s.editor_command = option_of(c.as_str());
        },
        SettingsEdit::MaxRuns(n) => {
            match parse_trimmed(n.as_str(), u32::MAX as u64) {
                Some(v) => {
                    s.max_concurrent_runs = v as u32;
                },
                None => {
                    return None;
                },
            }
        },
    }
    Some(s)
}

impl AppState {
    /// Make one change in the global settings and have it saved.
    pub fn update_settings(&self, e: SettingsEdit) -> (r: Option<ExecutorCommand>)
        ensures
            match resettled(self@.settings@, e) {
                Some(s) => r matches Some(ExecutorCommand::SaveSettings { settings }) && settings@
                    == s,
                None => r is None,
            },
    {
        match edit_settings(self.settings.clone(), e) {
            Some(edited) => Some(self.save_settings(edited)),
            None => None,
        }
    }
}

/// The system the window runs on.
#[derive(Debug, Clone, Copy, PartialEq, Eq, Structural)]
pub enum Platform {
    MacOs,
    Windows,
    Other,
}

/// A command that opens a terminal in a directory, as an example to type.
pub fn terminal_command_example(platform: Platform) -> (r: &'static str)
    ensures
        r@ == (match platform {
            Platform::MacOs => "open -a Terminal {path}"@,
            Platform::Windows => "wt -d {path}"@,
            Platform::Other => "gnome-terminal --working-directory={path}"@,
        }),
{
    match platform {
        Platform::MacOs => "open -a Terminal {path}",
        Platform::Windows => "wt -d {path}",
        Platform::Other => "gnome-terminal --working-directory={path}",
    }
}

// ---- Laws ----------------------------------------------------------------

/// A contributor is never listed twice by adding.
pub proof fn adding_keeps_contributors_distinct(c: ConfigView, who: String)
    requires
        c.review_contributors.no_duplicates(),
    ensures
        configured(c, ProjectEdit::AddContributor(who)) matches Some(d)
            ==> d.review_contributors.no_duplicates() && d.review_contributors.contains(who@),
{
    if configured(c, ProjectEdit::AddContributor(who)) is Some {
        let d = c.review_contributors.push(who@);
        assert(d[d.len() - 1] == who@);
        assert forall|i: int, j: int| 0 <= i < d.len() && 0 <= j < d.len() && i != j implies d[i]
            != d[j] by {
            if i < c.review_contributors.len() {
                assert(c.review_contributors.contains(c.review_contributors[i]));
            }
            if j < c.review_contributors.len() {
                assert(c.review_contributors.contains(c.review_contributors[j]));
            }
        }
    }
}

/// A removed contributor is gone.
pub proof fn removed_contributor_is_gone(c: ConfigView, who: String)
    ensures
        configured(c, ProjectEdit::RemoveContributor(who)) matches Some(d)
            && !d.review_contributors.contains(who@),
{
    broadcast use vstd::seq_lib::group_filter_ensures;

    let d = c.review_contributors.filter(|t: Seq<char>| t != who@);
    if d.contains(who@) {
        let i = choose|i: int| 0 <= i < d.len() && d[i] == who@;
        assert(d[i] == who@);
    }
}

/// A port added and removed again leaves the ports as they were.
pub proof fn added_port_can_be_removed(c: ConfigView)
    ensures
        configured(c, ProjectEdit::AddPort) matches Some(d) && (c.preview_ports.len() < usize::MAX
            ==> configured(d, ProjectEdit::RemovePort(c.preview_ports.len() as usize)) == Some(c)),
{
    let d = configured(c, ProjectEdit::AddPort)->0;
    assert(d.preview_ports.remove(c.preview_ports.len() as int) =~= c.preview_ports);
    if c.preview_ports.len() < usize::MAX {
        let back = configured(d, ProjectEdit::RemovePort(c.preview_ports.len() as usize))->0;
        assert(back =~= c);
    }
}

/// The parts of a project's configuration.
pub enum ConfigField {
    BaseBranch,
    PinnedBase,
    Reviewer,
    Contributors,
    Run,
    Validate,
    Setup,
    Teardown,
    Ports,
    AutoPreview,
    Muted,
    NewCard,
}

/// The part of the configuration an edit is about.
pub open spec fn field_of(e: ProjectEdit) -> ConfigField {
    match e {
        ProjectEdit::RemoveContributor(_) => ConfigField::Contributors,
        ProjectEdit::Contributors(_) => ConfigField::Contributors,
        ProjectEdit::AddContributor(_) => ConfigField::Contributors,
        ProjectEdit::Reviewer(_) => ConfigField::Reviewer,
        ProjectEdit::PickReviewer(_) => ConfigField::Reviewer,
        ProjectEdit::PinnedBase(_) => ConfigField::PinnedBase,
        ProjectEdit::Setup(_) => ConfigField::Setup,
        ProjectEdit::Validate(_) => ConfigField::Validate,
        ProjectEdit::Run(_) => ConfigField::Run,
        ProjectEdit::Teardown(_) => ConfigField::Teardown,
        ProjectEdit::ToggleAutoPreview => ConfigField::AutoPreview,
        ProjectEdit::PortLabel(_, _) => ConfigField::Ports,
        ProjectEdit::PortBase(_, _) => ConfigField::Ports,
        ProjectEdit::RemovePort(_) => ConfigField::Ports,
        ProjectEdit::AddPort => ConfigField::Ports,
    }
}

/// Two projects hold the same but for one part of their configuration.
pub open spec fn same_but(p: Project, q: Project, f: ConfigField) -> bool {
    &&& q.id == p.id
    &&& q.name == p.name
    &&& q.path == p.path
    &&& f is BaseBranch || q.config.base_branch == p.config.base_branch
    &&& f is PinnedBase || opt_text(q.config.pinned_base_branch) == opt_text(
        p.config.pinned_base_branch,
    )
    &&& f is Reviewer || opt_text(q.config.reviewer) == opt_text(p.config.reviewer)
    &&& f is Contributors || texts(q.config.review_contributors@) == texts(
        p.config.review_contributors@,
    )
    &&& f is Run || opt_text(q.config.run_script) == opt_text(p.config.run_script)
    &&& f is Validate || opt_text(q.config.validate_script) == opt_text(p.config.validate_script)
    &&& f is Setup || opt_text(q.config.worktree_setup_script) == opt_text(
        p.config.worktree_setup_script,
    )
    &&& f is Teardown || opt_text(q.config.worktree_teardown_script) == opt_text(
        p.config.worktree_teardown_script,
    )
    &&& f is Ports || ports_view(q.config.preview_ports@) == ports_view(p.config.preview_ports@)
    &&& f is AutoPreview || q.config.auto_preview == p.config.auto_preview
    &&& f is Muted || q.config.notifications_muted == p.config.notifications_muted
    &&& f is NewCard || q.config.new_card == p.config.new_card
}

/// A field holds a typed text: nothing where the text is all white space, else the
/// text without the white space around it.
pub open spec fn holds_typed(field: Option<String>, typed: Seq<char>) -> bool {
    match field {
        None => forall|i: int| 0 <= i < typed.len() ==> white(#[trigger] typed[i]),
        Some(t) => t@ == trimmed(typed) && t@.len() > 0,
    }
}

/// An edit changes the part it is about and no other.
#[verifier::rlimit(40)]
pub proof fn an_edit_touches_one_field(p: Project, e: ProjectEdit, q: Project)
    requires
        call_ensures(edit_project, (p, e), Some(q)),
    ensures
        same_but(p, q, field_of(e)),
{
}

/// Every text edit is taken, and the field it names then holds what was typed.
#[verifier::rlimit(40)]
pub proof fn typed_fields_read_back(p: Project, s: String, r: Option<Project>)
    ensures
        call_ensures(edit_project, (p, ProjectEdit::Setup(s)), r) ==> r is Some && holds_typed(
            r->0.config.worktree_setup_script,
            s@,
        ),
        call_ensures(edit_project, (p, ProjectEdit::Validate(s)), r) ==> r is Some && holds_typed(
            r->0.config.validate_script,
            s@,
        ),
        call_ensures(edit_project, (p, ProjectEdit::Run(s)), r) ==> r is Some && holds_typed(
            r->0.config.run_script,
            s@,
        ),
        call_ensures(edit_project, (p, ProjectEdit::Teardown(s)), r) ==> r is Some && holds_typed(
            r->0.config.worktree_teardown_script,
            s@,
        ),
        call_ensures(edit_project, (p, ProjectEdit::Reviewer(s)), r) ==> r is Some && holds_typed(
            r->0.config.reviewer,
            s@,
        ),
        call_ensures(edit_project, (p, ProjectEdit::PinnedBase(s)), r) ==> r is Some && holds_typed(
            r->0.config.pinned_base_branch,
            s@,
        ),
        call_ensures(edit_project, (p, ProjectEdit::PickReviewer(s)), r) ==> r is Some && (
        r->0.config.reviewer is None <==> s@.len() == 0) && (r->0.config.reviewer is Some
            ==> r->0.config.reviewer->0@ == s@),
        call_ensures(edit_project, (p, ProjectEdit::ToggleAutoPreview), r) ==> r is Some
            && r->0.config.auto_preview != p.config.auto_preview,
{
    blank_is_empty_trim(s@);
}

/// Edits of two different parts commute, and neither decides whether the other is
/// taken.
#[verifier::rlimit(40)]
pub proof fn edits_of_two_fields_commute(c: ConfigView, a: ProjectEdit, b: ProjectEdit)
    requires
        field_of(a) != field_of(b),
    ensures
        configured(c, a) matches Some(x) ==> (configured(x, b) is Some <==> configured(c, b) is Some),
        configured(c, a) matches Some(x) ==> configured(c, b) matches Some(y) ==> configured(x, b)
            == configured(y, a),
{
    an_edit_is_local(c, c, a);
    an_edit_is_local(c, c, b);
    if let Some(x) = configured(c, a) {
        an_edit_is_local(c, x, b);
        if let Some(y) = configured(c, b) {
            an_edit_is_local(c, y, a);
            assert(with_field(x, y, field_of(b)) =~= with_field(y, x, field_of(a)));
        }
    }
}

/// A configuration with one part taken from another.
spec fn with_field(c: ConfigView, d: ConfigView, f: ConfigField) -> ConfigView {
    match f {
        ConfigField::BaseBranch => ConfigView { base_branch: d.base_branch, ..c },
        ConfigField::PinnedBase => ConfigView { pinned_base_branch: d.pinned_base_branch, ..c },
        ConfigField::Reviewer => ConfigView { reviewer: d.reviewer, ..c },
        ConfigField::Contributors => ConfigView { review_contributors: d.review_contributors, ..c },
        ConfigField::Run => ConfigView { run_script: d.run_script, ..c },
        ConfigField::Validate => ConfigView { validate_script: d.validate_script, ..c },
        ConfigField::Setup => ConfigView { worktree_setup_script: d.worktree_setup_script, ..c },
        ConfigField::Teardown => ConfigView {
            worktree_teardown_script: d.worktree_teardown_script,
            ..c
        },
        ConfigField::Ports => ConfigView { preview_ports: d.preview_ports, ..c },
        ConfigField::AutoPreview => ConfigView { auto_preview: d.auto_preview, ..c },
        ConfigField::Muted => ConfigView { notifications_muted: d.notifications_muted, ..c },
        ConfigField::NewCard => ConfigView { new_card: d.new_card, ..c },
    }
}

/// An edit reads and writes the part it is about and nothing else.
proof fn an_edit_is_local(c: ConfigView, x: ConfigView, e: ProjectEdit)
    requires
        with_field(x, c, field_of(e)) == x,
    ensures
        configured(x, e) is Some <==> configured(c, e) is Some,
        configured(x, e) matches Some(d) ==> d == with_field(
            x,
            configured(c, e)->0,
            field_of(e),
        ),
{
}

/// The ports one by one: a label and a base read back where they were typed, a
/// removed port closes the gap, an added one comes last, and no other port changes.
pub proof fn port_edits_touch_one_port(c: ConfigView, i: usize, s: String, j: int)
    requires
        0 <= j < c.preview_ports.len(),
    ensures
        configured(c, ProjectEdit::PortLabel(i, s)) is Some <==> i < c.preview_ports.len(),
        configured(c, ProjectEdit::PortLabel(i, s)) matches Some(d) ==> {
            &&& d.preview_ports.len() == c.preview_ports.len()
            &&& d.preview_ports[j].1 == c.preview_ports[j].1
            &&& d.preview_ports[j].0 == (if j == i {
                trimmed(s@)
            } else {
                c.preview_ports[j].0
            })
        },
        configured(c, ProjectEdit::PortBase(i, s)) matches Some(d) ==> {
            &&& i < c.preview_ports.len()
            &&& d.preview_ports.len() == c.preview_ports.len()
            &&& d.preview_ports[j].0 == c.preview_ports[j].0
            &&& j != i ==> d.preview_ports[j].1 == c.preview_ports[j].1
            &&& parsed(trimmed(s@), u16::MAX as nat) == Some(d.preview_ports[i as int].1 as nat)
        },
        i < c.preview_ports.len() && parsed(trimmed(s@), u16::MAX as nat) is Some ==> configured(
            c,
            ProjectEdit::PortBase(i, s),
        ) is Some,
        configured(c, ProjectEdit::RemovePort(i)) is Some <==> i < c.preview_ports.len(),
        configured(c, ProjectEdit::RemovePort(i)) matches Some(d) ==> {
            &&& d.preview_ports.len() == c.preview_ports.len() - 1
            &&& j < i ==> d.preview_ports[j] == c.preview_ports[j]
            &&& j > i ==> d.preview_ports[j - 1] == c.preview_ports[j]
        },
        configured(c, ProjectEdit::AddPort) matches Some(d) && d.preview_ports.len()
            == c.preview_ports.len() + 1 && d.preview_ports[j] == c.preview_ports[j]
            && d.preview_ports.last().0.len() == 0,
{
    numbers_read_back(0, u16::MAX as nat, trimmed(s@));
}

/// The contributors one by one: one removed leaves the others in their order, one
/// added comes last, one already there or blank is not taken.
pub proof fn contributor_edits_keep_the_others(c: ConfigView, who: String, other: Seq<char>)
    requires
        other != who@,
    ensures
        configured(c, ProjectEdit::RemoveContributor(who)) matches Some(d)
            && d.review_contributors.contains(other) == c.review_contributors.contains(other),
        !c.review_contributors.contains(who@) ==> configured(
            c,
            ProjectEdit::RemoveContributor(who),
        ) == Some(c),
        configured(c, ProjectEdit::AddContributor(who)) is Some <==> who@.len() > 0
            && !c.review_contributors.contains(who@),
        configured(c, ProjectEdit::AddContributor(who)) matches Some(d)
            ==> d.review_contributors.last() == who@ && d.review_contributors.drop_last()
            == c.review_contributors && configured(d, ProjectEdit::RemoveContributor(who)) == Some(
            c,
        ),
{
    let keep = |t: Seq<char>| t != who@;
    a_filter_keeps_what_passes(c.review_contributors, keep, other);
    if !c.review_contributors.contains(who@) {
        assert forall|i: int| 0 <= i < c.review_contributors.len() implies keep(
            #[trigger] c.review_contributors[i],
        ) by {
            assert(c.review_contributors.contains(c.review_contributors[i]));
        }
        assert(c.review_contributors.push(who@).drop_last() =~= c.review_contributors);
        reveal(Seq::filter);
        assert(c.review_contributors.push(who@).filter(keep) =~= c.review_contributors);
    }
}


/// A list of names reads name by name: a comma parts it, and a text without a comma
/// is one name, or none where it is blank.
pub proof fn names_read_one_by_one(s: Seq<char>, t: Seq<char>)
    ensures
        names_in(s.push(',') + t) == names_in(s) + names_in(t),
        !s.contains(',') && blank(s) ==> names_in(s) == Seq::<Seq<char>>::empty(),
        !s.contains(',') && !blank(s) ==> names_in(s) == seq![trimmed(s)],
{
    let keep = |p: Seq<char>| p.len() > 0;
    let cut = |p: Seq<char>| trimmed(p);
    let a = text_parts(s, ',', ',');
    let b = text_parts(t, ',', ',');
    separators_part_the_text(s, ',', t, ',', ',');
    assert((a + b).map_values(cut) =~= a.map_values(cut) + b.map_values(cut));
    Seq::filter_distributes_over_add(a.map_values(cut), b.map_values(cut), keep);
    if !s.contains(',') {
        blank_is_empty_trim(s);
        let one = a.map_values(cut);
        assert(one =~= seq![trimmed(s)]);
        reveal(Seq::filter);
        assert(one.drop_last() =~= Seq::empty());
        assert(one.drop_last().filter(keep) =~= Seq::empty());
        assert(names_in(s) == one.filter(keep));
        assert(Seq::<Seq<char>>::empty().push(trimmed(s)) =~= seq![trimmed(s)]);
    }
}

/// A saved project is the one that was edited, and it is its edit that is saved.
pub proof fn the_edited_project_is_saved(
    s: AppState,
    id: Id,
    e: ProjectEdit,
    r: Option<ExecutorCommand>,
)
    requires
        call_ensures(AppState::update_project, (&s, id, e), r),
    ensures
        r matches Some(cmd) ==> cmd is SaveProject && exists|i: int|
            0 <= i < s@.projects.len() && #[trigger] s@.projects[i].id == id && same_but(
                s@.projects[i],
                *cmd->project,
                field_of(e),
            ),
{
    crate::lists::first_where_is_first(s@.projects, |p: Project| p.id == id);
}

/// The parts of the settings.
pub enum SettingsField {
    Models,
    Plan,
    Implement,
    Review,
    Terminal,
    Editor,
    MaxRuns,
}

/// The part of the settings an edit is about: a provider comes with its models.
pub open spec fn setting_of(e: SettingsEdit) -> SettingsField {
    match e {
        SettingsEdit::Provider(_, _) => SettingsField::Models,
        SettingsEdit::Plan(_) => SettingsField::Plan,
        SettingsEdit::Implement(_) => SettingsField::Implement,
        SettingsEdit::Review(_) => SettingsField::Review,
        SettingsEdit::Terminal(_) => SettingsField::Terminal,
        SettingsEdit::Editor(_) => SettingsField::Editor,
        SettingsEdit::MaxRuns(_) => SettingsField::MaxRuns,
    }
}

/// Two settings hold the same but for one part.
pub open spec fn same_settings_but(s: AppSettings, t: AppSettings, f: SettingsField) -> bool {
    &&& f is Models || t.default_provider == s.default_provider
    &&& f is Models || f is Plan || t.default_plan == s.default_plan
    &&& f is Models || f is Implement || t.default_implement == s.default_implement
    &&& f is Models || f is Review || t.default_review == s.default_review
    &&& f is Terminal || opt_text(t.terminal_command) == opt_text(s.terminal_command)
    &&& f is Editor || opt_text(t.editor_command) == opt_text(s.editor_command)
    &&& f is MaxRuns || t.max_concurrent_runs == s.max_concurrent_runs
    &&& t.collapsed_columns@ == s.collapsed_columns@
    &&& t.sidebar_width == s.sidebar_width
    &&& t.detail_width == s.detail_width
}

/// An edit of the settings changes the part it is about and no other.
pub proof fn a_settings_edit_touches_one_field(s: AppSettings, e: SettingsEdit, t: AppSettings)
    requires
        call_ensures(edit_settings, (s, e), Some(t)),
    ensures
        same_settings_but(s, t, setting_of(e)),
{
}

/// What an edit of the settings sets reads back. The number of runs is taken where
/// it reads as one, white space around it aside.
pub proof fn settings_read_back(
    s: AppSettings,
    p: Provider,
    defaults: CardConfig,
    spec: ModelSpec,
    review: Option<ModelSpec>,
    c: String,
    r: Option<AppSettings>,
)
    ensures
        call_ensures(edit_settings, (s, SettingsEdit::Provider(p, defaults)), r) ==> r is Some
            && r->0.default_provider == p && r->0.default_plan == defaults.plan
            && r->0.default_implement == defaults.implement && r->0.default_review
            == defaults.review,
        call_ensures(edit_settings, (s, SettingsEdit::Plan(spec)), r) ==> r is Some
            && r->0.default_plan == spec,
        call_ensures(edit_settings, (s, SettingsEdit::Implement(spec)), r) ==> r is Some
            && r->0.default_implement == spec,
        call_ensures(edit_settings, (s, SettingsEdit::Review(review)), r) ==> r is Some
            && r->0.default_review == review,
        call_ensures(edit_settings, (s, SettingsEdit::Terminal(c)), r) ==> r is Some
            && holds_typed(r->0.terminal_command, c@),
        call_ensures(edit_settings, (s, SettingsEdit::Editor(c)), r) ==> r is Some && holds_typed(
            r->0.editor_command,
            c@,
        ),
        call_ensures(edit_settings, (s, SettingsEdit::MaxRuns(c)), r) ==> match r {
            Some(t) => parsed(trimmed(c@), u32::MAX as nat) == Some(t.max_concurrent_runs as nat),
            None => parsed(trimmed(c@), u32::MAX as nat) is None,
        },
{
    blank_is_empty_trim(c@);
    numbers_read_back(0, u32::MAX as nat, trimmed(c@));
}

/// Those who can be added are those not added yet.
pub proof fn who_can_be_added(people: Seq<Seq<char>>, chosen: Seq<Seq<char>>, who: Seq<char>)
    ensures
        addable(people, chosen).contains(who) <==> people.contains(who) && !chosen.contains(who),
{
    a_filter_keeps_what_passes(people, |p: Seq<char>| !chosen.contains(p), who);
}

/// What is saved are the edited settings.
pub proof fn the_edited_settings_are_saved(
    s: AppState,
    e: SettingsEdit,
    r: Option<ExecutorCommand>,
)
    requires
        call_ensures(AppState::update_settings, (&s, e), r),
    ensures
        r matches Some(cmd) ==> cmd is SaveSettings && same_settings_but(
            s@.settings,
            *cmd->settings,
            setting_of(e),
        ),
        !(e is MaxRuns) ==> r is Some,
        e matches SettingsEdit::Plan(spec) ==> r->0->settings.default_plan == spec,
        e matches SettingsEdit::Implement(spec) ==> r->0->settings.default_implement == spec,
        e matches SettingsEdit::Review(spec) ==> r->0->settings.default_review == spec,
        e matches SettingsEdit::Terminal(c) ==> holds_typed(r->0->settings.terminal_command, c@),
        e matches SettingsEdit::Editor(c) ==> holds_typed(r->0->settings.editor_command, c@),
{
    if let SettingsEdit::Terminal(c) = e {
        blank_is_empty_trim(c@);
    }
    if let SettingsEdit::Editor(c) = e {
        blank_is_empty_trim(c@);
    }
}

/// Every example opens a terminal at the path it is given.
pub proof fn examples_name_the_path(platform: Platform, r: &'static str)
    requires
        call_ensures(terminal_command_example, (platform,), r),
    ensures
        ends(r@, "{path}"@),
        platform is MacOs <==> starts(r@, "open"@),
        platform is Windows <==> starts(r@, "wt"@),
{
    reveal_strlit("open -a Terminal {path}");
    reveal_strlit("wt -d {path}");
    reveal_strlit("gnome-terminal --working-directory={path}");
    reveal_strlit("{path}");
    reveal_strlit("open");
    reveal_strlit("wt");
    let p = "{path}"@;
    assert("open -a Terminal {path}"@.skip(17) =~= p);
    assert("wt -d {path}"@.skip(6) =~= p);
    assert("gnome-terminal --working-directory={path}"@.skip(35) =~= p);
    assert("open -a Terminal {path}"@.take(4) =~= "open"@);
    assert("wt -d {path}"@.take(2) =~= "wt"@);
    assert(r@.take(4)[0] == r@[0] && r@.take(2)[0] == r@[0]);
    assert("open"@[0] == 'o' && "wt"@[0] == 'w');
    assert("gnome-terminal --working-directory={path}"@[0] == 'g');
    assert("open -a Terminal {path}"@[0] == 'o' && "wt -d {path}"@[0] == 'w');
}

} // verus!
