//! Adopting work that already exists: a branch made by hand, or an open pull
//! request, taken over by a card.

use vstd::prelude::*;

use crate::card::opt_text;
use crate::command::ExecutorCommand;
use crate::diffview::base_name;
use crate::lists::{first_where, position};
use crate::markdown::{join, join_text, texts};
use crate::model::{AdoptProbe, DirtyAction, Id, OpenPr};
use crate::text::{
    blank, cat2, cat3, cat4, cat5, chars_of, decimal, decimal_reads_back, decimal_text, digit,
    ends, find_last_is_last, find_last_slice, is_blank, parse_number, parsed, parts_are_found,
    same_text, starts, starts_with, string_of, trim, trimmed, within,
};

verus! {

// ---- What the picker's value names ---------------------------------------

/// What is picked. A pull request is valued `pr:` and its number; no branch name
/// has a colon in it.
#[derive(Debug, Clone, PartialEq, Eq)]
pub enum Pick {
    Nothing,
    Branch(String),
    Pr(u64),
}

/// A pick as a mathematical value.
pub enum PickView {
    Nothing,
    Branch(Seq<char>),
    Pr(nat),
}

impl View for Pick {
    type V = PickView;

    open spec fn view(&self) -> PickView {
        match *self {
            Pick::Nothing => PickView::Nothing,
            Pick::Branch(b) => PickView::Branch(b@),
            Pick::Pr(n) => PickView::Pr(n as nat),
        }
    }
}

/// What a value names. One that starts like a pull request but goes on with no
/// number is a branch.
pub open spec fn pick_of(value: Seq<char>) -> PickView {
    if value.len() == 0 {
        PickView::Nothing
    } else if starts(value, seq!['p', 'r', ':']) {
        match parsed(value.skip(3), u64::MAX as nat) {
            Some(n) => PickView::Pr(n),
            None => PickView::Branch(value),
        }
    } else {
        PickView::Branch(value)
    }
}

pub fn parse_pick(value: &str) -> (r: Pick)
    ensures
        r@ == pick_of(value@),
{
    if value.is_empty() {
        return Pick::Nothing;
    }
    let cs = chars_of(value);
    let is_pr = cs.len() >= 3 && cs[0] == 'p' && cs[1] == 'r' && cs[2] == ':';
    proof {
        let pre = seq!['p', 'r', ':'];
        if is_pr {
            assert(value@.take(3) =~= pre);
        } else if starts(value@, pre) {
            assert(value@.take(3)[0] == pre[0]);
            assert(value@.take(3)[1] == pre[1]);
            assert(value@.take(3)[2] == pre[2]);
        }
    }
    if is_pr {
        let rest = vstd::slice::slice_subrange(cs.as_slice(), 3, cs.len());
        assert(rest@ =~= value@.skip(3));
        if let Some(n) = parse_number(rest, u64::MAX) {
            return Pick::Pr(n);
        }
    }
    Pick::Branch(value.to_owned())
}

/// The value of a pull request in the picker.
pub open spec fn pr_value_text(n: nat) -> Seq<char> {
    seq!['p', 'r', ':'] + decimal(n)
}

pub fn pr_value(n: u64) -> (r: String)
    ensures
        r@ == pr_value_text(n as nat),
{
    proof {
        reveal_strlit("pr:");
        assert("pr:"@ =~= seq!['p', 'r', ':']);
    }
    let d = decimal_text(n);
    cat2("pr:", d.as_str())
}

/// The value of a pull request reads back as that pull request, and no branch
/// name is taken for one.
pub proof fn picks_round_trip(n: nat, branch: Seq<char>)
    requires
        n <= u64::MAX,
    ensures
        pick_of(pr_value_text(n)) == PickView::Pr(n),
        branch.len() > 0 && !branch.contains(':') ==> pick_of(branch) == PickView::Branch(branch),
{
    decimal_reads_back(n);
    let v = pr_value_text(n);
    assert(v.take(3) =~= seq!['p', 'r', ':']);
    assert(v.skip(3) =~= decimal(n));
    assert(digit(decimal(n)[0]));
    if starts(branch, seq!['p', 'r', ':']) {
        assert(branch.take(3)[2] == ':');
        assert(branch[2] == ':');
        assert(branch.contains(':'));
    }
}

// ---- Prefills ------------------------------------------------------------

pub open spec fn spaced(c: char) -> char {
    if c == '-' || c == '_' {
        ' '
    } else {
        c
    }
}

/// A title for a branch: the last part of its name, with its separators spaced
/// out.
pub open spec fn branch_title(source_ref: Seq<char>) -> Seq<char> {
    base_name(source_ref).map_values(|c: char| spaced(c))
}

pub fn title_from_ref(source_ref: &str) -> (r: String)
    ensures
        r@ == branch_title(source_ref@),
{
    let cs = chars_of(source_ref);
    let from = match find_last_slice(cs.as_slice(), '/') {
        Some(i) => {
            proof {
                find_last_is_last(source_ref@, '/');
            }
            i + 1
        },
        None => 0,
    };
    let ghost leaf = base_name(source_ref@);
    assert(leaf =~= cs@.skip(from as int));
    let mut out: Vec<char> = Vec::new();
    let mut i: usize = from;
    while i < cs.len()
        invariant
            from <= i <= cs.len(),
            leaf == cs@.skip(from as int),
            out@ == leaf.map_values(|c: char| spaced(c)).take(i - from),
        decreases cs.len() - i,
    {
        let c = cs[i];
        out.push(
            if c == '-' || c == '_' {
                ' '
            } else {
                c
            },
        );
        assert(out@ =~= leaf.map_values(|c: char| spaced(c)).take(i + 1 - from));
        i += 1;
    }
    assert(out@ =~= branch_title(source_ref@));
    string_of(out.as_slice())
}

/// A pull request in one line.
pub open spec fn pr_words(pr: OpenPr) -> Seq<char> {
    "#"@ + decimal(pr.number as nat) + " "@ + pr.title@ + (" — "@ + pr.head_ref@ + " ("@ + pr.author@
        + ")"@) + (if pr.draft {
        ", draft"@
    } else {
        ""@
    })
}

pub fn pr_label(pr: &OpenPr) -> (r: String)
    ensures
        r@ == pr_words(*pr),
{
    let n = decimal_text(pr.number);
    let head = cat4("#", n.as_str(), " ", pr.title.as_str());
    let tail = cat5(" — ", pr.head_ref.as_str(), " (", pr.author.as_str(), ")");
    let draft = if pr.draft {
        ", draft"
    } else {
        ""
    };
    cat3(head.as_str(), tail.as_str(), draft)
}

pub open spec fn numbered(prs: Seq<OpenPr>, n: nat) -> Option<OpenPr> {
    match first_where(prs, |p: OpenPr| p.number == n) {
        Some(i) => Some(prs[i]),
        None => None,
    }
}

/// The pull request picked, if it is listed.
pub fn listed_pr<'a>(prs: &'a Vec<OpenPr>, n: u64) -> (r: Option<&'a OpenPr>)
    ensures
        match r {
            Some(p) => numbered(prs@, n as nat) == Some(*p),
            None => numbered(prs@, n as nat) is None,
        },
{
    let same = |p: &OpenPr| -> (b: bool)
        ensures
            b == (p.number == n),
    {
        p.number == n
    };
    let ghost by_number = |p: OpenPr| p.number == n as nat;
    proof {
        assert(by_number =~= (|p: OpenPr| p.number == n));
    }
    match position(prs, same, Ghost(by_number)) {
        Some(i) => Some(&prs[i]),
        None => None,
    }
}

// ---- The form ------------------------------------------------------------

/// The dialog as filled in. A field the user typed in is theirs: picking
/// something else no longer prefills it.
#[derive(Debug, Clone, PartialEq, Eq)]
pub struct AdoptForm {
    pub source: String,
    pub title: String,
    pub description: String,
    pub title_edited: bool,
    pub desc_edited: bool,
    pub retire: bool,
    pub include_dirty: bool,
}

/// The form as a mathematical value.
pub struct AdoptView {
    pub source: Seq<char>,
    pub title: Seq<char>,
    pub description: Seq<char>,
    pub title_edited: bool,
    pub desc_edited: bool,
    pub retire: bool,
    pub include_dirty: bool,
}

impl View for AdoptForm {
    type V = AdoptView;

    open spec fn view(&self) -> AdoptView {
        AdoptView {
            source: self.source@,
            title: self.title@,
            description: self.description@,
            title_edited: self.title_edited,
            desc_edited: self.desc_edited,
            retire: self.retire,
            include_dirty: self.include_dirty,
        }
    }
}

/// What a pick would fill in: the title and the description. A pull request's
/// own description is its statement of intent, and its title where it has none.
pub open spec fn prefill(pick: PickView, prs: Seq<OpenPr>) -> (Seq<char>, Seq<char>) {
    match pick {
        PickView::Pr(n) => match numbered(prs, n) {
            Some(p) => (
                p.title@,
                if blank(p.body@) {
                    p.title@
                } else {
                    p.body@
                },
            ),
            None => (Seq::empty(), Seq::empty()),
        },
        PickView::Branch(b) => (branch_title(b), Seq::empty()),
        PickView::Nothing => (Seq::empty(), Seq::empty()),
    }
}

/// The form after a pick.
pub open spec fn repicked(f: AdoptView, value: Seq<char>, prs: Seq<OpenPr>) -> AdoptView {
    let pick = pick_of(value);
    let (title, description) = prefill(pick, prs);
    AdoptView {
        source: value,
        title: if f.title_edited || pick is Nothing {
            f.title
        } else {
            title
        },
        description: if f.desc_edited || pick is Nothing {
            f.description
        } else {
            description
        },
        ..f
    }
}

/// Only an answer about what is picked now counts: one about an earlier pick
/// comes too late.
pub open spec fn answers(f: AdoptView, probe: Option<AdoptProbe>) -> Option<AdoptProbe> {
    match probe {
        Some(p) if f.source.len() > 0 && p.source_ref@ == f.source => Some(p),
        _ => None,
    }
}

/// The commits of a branch as a list.
pub open spec fn bulleted(subjects: Seq<Seq<char>>) -> Seq<Seq<char>> {
    subjects.map_values(|s: Seq<char>| "- "@ + s)
}

/// The form once a branch's commits are known.
pub open spec fn described(f: AdoptView, probe: Option<AdoptProbe>) -> AdoptView {
    match answers(f, probe) {
        Some(p) if !f.desc_edited && p.subjects@.len() > 0 => AdoptView {
            description: join(bulleted(texts(p.subjects@)), "\n"@),
            ..f
        },
        _ => f,
    }
}

fn bullets(subjects: &Vec<String>) -> (r: Vec<String>)
    ensures
        texts(r@) == bulleted(texts(subjects@)),
{
    let mut out: Vec<String> = Vec::new();
    let mut i: usize = 0;
    while i < subjects.len()
        invariant
            i <= subjects.len(),
            texts(out@) == bulleted(texts(subjects@)).take(i as int),
        decreases subjects.len() - i,
    {
        let ghost before = out@;
        let line = cat2("- ", subjects[i].as_str());
        out.push(line);
        assert(texts(out@) =~= texts(before).push(line@));
        assert(texts(out@) =~= bulleted(texts(subjects@)).take(i + 1));
        i += 1;
    }
    assert(texts(out@) =~= bulleted(texts(subjects@)));
    out
}

/// The form with a title typed, which is kept from then on.
pub open spec fn titled(f: AdoptView, text: Seq<char>) -> AdoptView {
    AdoptView { title: text, title_edited: true, ..f }
}

/// The form with a description typed, which is kept from then on.
pub open spec fn worded(f: AdoptView, text: Seq<char>) -> AdoptView {
    AdoptView { description: text, desc_edited: true, ..f }
}

impl AdoptForm {
    pub fn new() -> (r: AdoptForm)
        ensures
            r@ == (AdoptView {
                source: Seq::empty(),
                title: Seq::empty(),
                description: Seq::empty(),
                title_edited: false,
                desc_edited: false,
                retire: true,
                include_dirty: true,
            }),
    {
        let r = AdoptForm {
            source: String::new(),
            title: String::new(),
            description: String::new(),
            title_edited: false,
            desc_edited: false,
            retire: true,
            include_dirty: true,
        };
        assert(r.source@ =~= Seq::<char>::empty());
        r
    }

    /// Pick something: the branch to ask about, where it is one.
    pub fn choose_source(&mut self, value: String, prs: &Vec<OpenPr>) -> (r: Option<String>)
        ensures
            final(self)@ == repicked(old(self)@, value@, prs@),
            opt_text(r) == (match pick_of(value@) {
                PickView::Branch(b) => Some(b),
                _ => None,
            }),
    {
        let mut probe: Option<String> = None;
        match parse_pick(value.as_str()) {
            Pick::Pr(n) => {
                let (title, desc) = match listed_pr(prs, n) {
                    Some(p) => (
                        p.title.clone(),
                        if is_blank(p.body.as_str()) {
                            p.title.clone()
                        } else {
                            p.body.clone()
                        },
                    ),
                    None => (String::new(), String::new()),
                };
                assert((title@, desc@) == prefill(pick_of(value@), prs@));
                if !self.title_edited {
                    self.title = title;
                }
                if !self.desc_edited {
                    self.description = desc;
                }
            },
            Pick::Branch(b) => {
                if !self.title_edited {
                    self.title = title_from_ref(b.as_str());
                }
                if !self.desc_edited {
                    self.description = String::new();
                }
                probe = Some(b);
            },
            Pick::Nothing => {},
        }
        self.source = value;
        probe
    }

    /// An answer is about what is picked now.
    pub fn counts(&self, probe: &AdoptProbe) -> (r: bool)
        ensures
            r == (answers(self@, Some(*probe)) is Some),
    {
        !self.source.as_str().is_empty() && same_text(
            probe.source_ref.as_str(),
            self.source.as_str(),
        )
    }

    /// What is picked is a branch that is only on the remote.
    pub fn is_remote(&self) -> (r: bool)
        ensures
            r == remote_only(self@.source),
    {
        starts_with(self.source.as_str(), "origin/")
    }

    /// An answer about a branch arrived: its commits describe the work, unless
    /// the user wrote their own description.
    pub fn describe(&mut self, probe: &Option<AdoptProbe>)
        ensures
            final(self)@ == described(old(self)@, *probe),
    {
        if let Some(p) = probe {
            if self.counts(p) && !self.desc_edited && p.subjects.len() > 0 {
                let lines = bullets(&p.subjects);
                self.description = join_text(&lines, "\n");
            }
        }
    }

    pub fn type_title(&mut self, text: String)
        ensures
            final(self)@ == titled(old(self)@, text@),
    {
        self.title_edited = true;
        self.title = text;
    }

    pub fn type_description(&mut self, text: String)
        ensures
            final(self)@ == worded(old(self)@, text@),
    {
        self.desc_edited = true;
        self.description = text;
    }
}

// ---- Submitting ----------------------------------------------------------

/// A branch with nothing on it can be adopted only for the uncommitted changes
/// in its checkout.
pub open spec fn nothing_to_adopt(f: AdoptView, p: AdoptProbe) -> bool {
    p.commits_ahead == 0 && !(p.dirty_checkout is Some && f.include_dirty)
}

/// The form can be submitted: a title, a description, and something that can be
/// adopted.
pub open spec fn submittable(f: AdoptView, prs: Seq<OpenPr>, probe: Option<AdoptProbe>) -> bool {
    let filled = !blank(f.title) && !blank(f.description);
    match pick_of(f.source) {
        PickView::Nothing => false,
        PickView::Branch(_) => filled && match answers(f, probe) {
            Some(p) => p.refusal is None && !nothing_to_adopt(f, p),
            None => true,
        },
        PickView::Pr(n) => filled && numbered(prs, n) is Some,
    }
}

pub fn can_submit(form: &AdoptForm, prs: &Vec<OpenPr>, probe: &Option<AdoptProbe>) -> (r: bool)
    ensures
        r == submittable(form@, prs@, *probe),
{
    let filled = !is_blank(form.title.as_str()) && !is_blank(form.description.as_str());
    match parse_pick(form.source.as_str()) {
        Pick::Nothing => false,
        Pick::Branch(_) => {
            let allowed = match probe {
                Some(p) => {
                    !form.counts(p) || (p.refusal.is_none() && !(p.commits_ahead == 0 && !(
                    p.dirty_checkout.is_some() && form.include_dirty)))
                },
                None => true,
            };
            filled && allowed
        },
        Pick::Pr(n) => filled && listed_pr(prs, n).is_some(),
    }
}

/// A branch that is only on the remote.
pub open spec fn remote_only(source: Seq<char>) -> bool {
    starts(source, "origin/"@)
}

/// What submitting the form asks for. There is no local branch to retire for
/// one that is only on the remote.
pub open spec fn adopts(cmd: ExecutorCommand, project: Id, f: AdoptView) -> bool {
    match pick_of(f.source) {
        PickView::Pr(n) => cmd matches ExecutorCommand::AdoptPr {
            project_id,
            pr_number,
            title,
            description,
        } && project_id == project && pr_number == n && title@ == trimmed(f.title) && description@
            == trimmed(f.description),
        _ => cmd matches ExecutorCommand::AdoptBranch {
            project_id,
            source_ref,
            title,
            description,
            retire_original,
            dirty_action,
        } && project_id == project && source_ref@ == f.source && title@ == trimmed(f.title)
            && description@ == trimmed(f.description) && retire_original == (f.retire
            && !remote_only(f.source)) && dirty_action == (if f.include_dirty {
            DirtyAction::Include
        } else {
            DirtyAction::Ignore
        }),
    }
}

pub fn submit(form: AdoptForm, project_id: Id) -> (r: ExecutorCommand)
    ensures
        adopts(r, project_id, form@),
{
    let title = trim(form.title.as_str());
    let description = trim(form.description.as_str());
    match parse_pick(form.source.as_str()) {
        Pick::Pr(n) => ExecutorCommand::AdoptPr { project_id, pr_number: n, title, description },
        _ => {
            let local = !starts_with(form.source.as_str(), "origin/");
            ExecutorCommand::AdoptBranch {
                project_id,
                source_ref: form.source,
                title,
                description,
                retire_original: form.retire && local,
                dirty_action: if form.include_dirty {
                    DirtyAction::Include
                } else {
                    DirtyAction::Ignore
                },
            }
        },
    }
}

pub open spec fn submit_words(source: Seq<char>) -> Seq<char> {
    match pick_of(source) {
        PickView::Pr(n) => "Adopt PR #"@ + decimal(n),
        _ => "Adopt into self-review"@,
    }
}

pub fn submit_label(source: &str) -> (r: String)
    ensures
        r@ == submit_words(source@),
{
    match parse_pick(source) {
        Pick::Pr(n) => {
            let d = decimal_text(n);
            cat2("Adopt PR #", d.as_str())
        },
        _ => "Adopt into self-review".to_owned(),
    }
}

// ---- Hints ---------------------------------------------------------------

/// What the dialog says of a pull request that is picked, and the warning where
/// it is someone else's.
pub fn pr_hints(pr: &OpenPr) -> (r: (String, Option<String>))
    ensures
        r.0@ == "The card takes over PR #"@ + decimal(pr.number as nat)
            + " at the PR-review stage (no self-review); fixes are pushed to `"@ + pr.head_ref@
            + "`."@,
        opt_text(r.1) == (if pr.mine {
            None
        } else {
            Some(
                "This PR was opened by "@ + pr.author@
                    + ", not you — the card will push its fixes to their branch."@,
            )
        }),
{
    let n = decimal_text(pr.number);
    let hint = crate::text::cat5(
        "The card takes over PR #",
        n.as_str(),
        " at the PR-review stage (no self-review); fixes are pushed to `",
        pr.head_ref.as_str(),
        "`.",
    );
    let warning = if pr.mine {
        None
    } else {
        Some(
            cat3(
                "This PR was opened by ",
                pr.author.as_str(),
                ", not you — the card will push its fixes to their branch.",
            ),
        )
    };
    (hint, warning)
}

/// What the dialog says of the commits on a branch, and whether it is a
/// warning.
pub fn commits_hint(commits_ahead: u64) -> (r: (String, bool))
    ensures
        r.0@ == (if commits_ahead > 0 {
            decimal(commits_ahead as nat) + " commit(s) ahead of the base branch."@
        } else {
            "This branch has no commits beyond the base branch."@
        }),
        r.1 == (commits_ahead == 0),
{
    if commits_ahead > 0 {
        let n = decimal_text(commits_ahead);
        (cat2(n.as_str(), " commit(s) ahead of the base branch."), false)
    } else {
        ("This branch has no commits beyond the base branch.".to_owned(), true)
    }
}

/// The warning for a branch with a pull request open on it.
pub fn open_pr_hint(number: u64) -> (r: String)
    ensures
        r@ == "PR #"@ + decimal(number as nat)
            + " is open on this branch — pick it under Pull requests to adopt the PR itself."@,
{
    let n = decimal_text(number);
    cat3(
        "PR #",
        n.as_str(),
        " is open on this branch — pick it under Pull requests to adopt the PR itself.",
    )
}

// ---- Laws ----------------------------------------------------------------

/// What the user typed is never overwritten, by a pick or by an answer.
pub proof fn typed_fields_are_kept(
    f: AdoptView,
    value: Seq<char>,
    prs: Seq<OpenPr>,
    probe: Option<AdoptProbe>,
)
    ensures
        f.title_edited ==> repicked(f, value, prs).title == f.title && described(f, probe).title
            == f.title,
        f.desc_edited ==> repicked(f, value, prs).description == f.description && described(
            f,
            probe,
        ).description == f.description,
{
}

/// An answer about an earlier pick changes nothing.
pub proof fn late_answers_change_nothing(f: AdoptView, probe: AdoptProbe)
    requires
        probe.source_ref@ != f.source,
    ensures
        described(f, Some(probe)) == f,
{
}

/// Whatever is submitted has a title and a description.
pub proof fn nothing_blank_is_adopted(
    f: AdoptView,
    prs: Seq<OpenPr>,
    probe: Option<AdoptProbe>,
    cmd: ExecutorCommand,
    project: Id,
)
    requires
        submittable(f, prs, probe),
        adopts(cmd, project, f),
    ensures
        cmd matches ExecutorCommand::AdoptPr { title, description, .. } ==> title@.len() > 0
            && description@.len() > 0,
        cmd matches ExecutorCommand::AdoptBranch { title, description, .. } ==> title@.len() > 0
            && description@.len() > 0,
{
    crate::text::blank_is_empty_trim(f.title);
    crate::text::blank_is_empty_trim(f.description);
}

/// A title for a branch keeps every letter of its last part, with a space for every dash
/// and underscore.
pub proof fn a_branch_title_spaces_out(source: Seq<char>, i: int)
    requires
        0 <= i < branch_title(source).len(),
    ensures
        branch_title(source).len() == base_name(source).len(),
        branch_title(source)[i] != '-' && branch_title(source)[i] != '_',
        base_name(source)[i] != '-' && base_name(source)[i] != '_' ==> branch_title(source)[i]
            == base_name(source)[i],
        base_name(source)[i] == '-' || base_name(source)[i] == '_' ==> branch_title(source)[i]
            == ' ',
{
}

/// An open pull request is listed by its number, its title, its branch and its author,
/// and says last that it is a draft where it is one.
pub proof fn a_pull_request_is_listed_by_its_facts(pr: OpenPr)
    ensures
        within(pr_words(pr), decimal(pr.number as nat)),
        within(pr_words(pr), pr.title@),
        within(pr_words(pr), pr.head_ref@),
        within(pr_words(pr), pr.author@),
        pr.draft ==> ends(pr_words(pr), ", draft"@),
        !pr.draft ==> ends(pr_words(pr), ")"@),
{
    let n = decimal(pr.number as nat);
    let tail = if pr.draft {
        ", draft"@
    } else {
        ""@
    };
    let w = pr_words(pr);
    let a = "#"@ + n + " "@;
    let b = a + pr.title@ + " — "@;
    let c = b + pr.head_ref@ + " ("@;
    let d = c + pr.author@ + ")"@;
    reveal_strlit("");
    assert(w =~= d + tail);
    assert(w =~= "#"@ + n + (" "@ + pr.title@ + " — "@ + pr.head_ref@ + " ("@ + pr.author@ + ")"@
        + tail));
    parts_are_found(
        "#"@,
        n,
        " "@ + pr.title@ + " — "@ + pr.head_ref@ + " ("@ + pr.author@ + ")"@ + tail,
    );
    assert(w =~= a + pr.title@ + (" — "@ + pr.head_ref@ + " ("@ + pr.author@ + ")"@ + tail));
    parts_are_found(a, pr.title@, " — "@ + pr.head_ref@ + " ("@ + pr.author@ + ")"@ + tail);
    assert(w =~= b + pr.head_ref@ + (" ("@ + pr.author@ + ")"@ + tail));
    parts_are_found(b, pr.head_ref@, " ("@ + pr.author@ + ")"@ + tail);
    assert(w =~= c + pr.author@ + (")"@ + tail));
    parts_are_found(c, pr.author@, ")"@ + tail);
    parts_are_found(d, ", draft"@, Seq::empty());
    parts_are_found(c + pr.author@, ")"@, Seq::empty());
    assert(!pr.draft ==> w =~= c + pr.author@ + ")"@);
}

/// Picking a source takes it and fills in what was not typed: a pull request's title and
/// words, a branch's title. The boxes stay as they are, and so does everything else.
pub proof fn picking_fills_in_the_form(f: AdoptView, value: Seq<char>, prs: Seq<OpenPr>, i: int)
    ensures
        ({
            let r = repicked(f, value, prs);
            &&& r.source == value
            &&& r == (AdoptView {
                source: r.source,
                title: r.title,
                description: r.description,
                ..f
            })
            &&& value.len() == 0 ==> r.title == f.title && r.description == f.description
            &&& pick_of(value) is Branch && !f.title_edited ==> r.title == branch_title(value)
            &&& pick_of(value) is Branch && !f.desc_edited ==> r.description.len() == 0
            &&& pick_of(value) is Pr && first_where(
                prs,
                |p: OpenPr| p.number == pick_of(value)->Pr_0,
            ) == Some(i) ==> (!f.title_edited ==> r.title == prs[i].title@) && (!f.desc_edited
                ==> r.description == (if blank(prs[i].body@) {
                prs[i].title@
            } else {
                prs[i].body@
            }))
        }),
{
    if value.len() > 0 && starts(value, seq!['p', 'r', ':']) {
        assert(pick_of(value) matches PickView::Branch(b) ==> b == value);
    }
}

/// A typed title or description reads back, is marked as typed, and touches nothing
/// else.
pub proof fn typing_marks_what_was_typed(f: AdoptView, text: Seq<char>)
    ensures
        ({
            let r = titled(f, text);
            r.title == text && r.title_edited && r == (AdoptView {
                title: r.title,
                title_edited: r.title_edited,
                ..f
            })
        }),
        ({
            let r = worded(f, text);
            r.description == text && r.desc_edited && r == (AdoptView {
                description: r.description,
                desc_edited: r.desc_edited,
                ..f
            })
        }),
{
}

/// An answer about the picked branch fills in its commits, one to a line, where nothing
/// was typed; nothing else of the form changes.
pub proof fn an_answer_fills_in_the_commits(f: AdoptView, probe: AdoptProbe)
    ensures
        ({
            let r = described(f, Some(probe));
            &&& r == (AdoptView { description: r.description, ..f })
            &&& f.source.len() > 0 && probe.source_ref@ == f.source && !f.desc_edited
                && probe.subjects@.len() == 1 ==> r.description == "- "@ + probe.subjects@[0]@
            &&& probe.subjects@.len() == 0 ==> r == f
        }),
{
    let subjects = texts(probe.subjects@);
    if probe.subjects@.len() == 1 {
        assert(bulleted(subjects) =~= seq!["- "@ + probe.subjects@[0]@]);
    }
}

/// What can be adopted: something picked, with a title and a description; a branch
/// that was not refused and has something to adopt, a pull request that is listed.
pub proof fn what_can_be_adopted(f: AdoptView, prs: Seq<OpenPr>, probe: Option<AdoptProbe>)
    ensures
        submittable(f, prs, probe) ==> f.source.len() > 0 && !blank(f.title) && !blank(
            f.description,
        ),
        submittable(f, prs, probe) && pick_of(f.source) is Pr ==> exists|i: int|
            0 <= i < prs.len() && (#[trigger] prs[i]).number == pick_of(f.source)->Pr_0,
        f.source.len() > 0 && !(pick_of(f.source) is Pr) && !blank(f.title) && !blank(f.description)
            ==> (submittable(f, prs, probe) <==> !(probe matches Some(p) && p.source_ref@ == f.source
            && (p.refusal is Some || (p.commits_ahead == 0 && (p.dirty_checkout is None
            || !f.include_dirty))))),
{
    if let PickView::Pr(n) = pick_of(f.source) {
        let p = |p: OpenPr| p.number == n;
        crate::lists::first_where_is_first(prs, p);
        if let Some(i) = first_where(prs, p) {
            assert(prs[i].number == n);
        }
    }
}

/// What is sent is what the form says, trimmed: the picked pull request by its number,
/// or the picked branch, retired only where it is asked for and is a local one, with
/// what is not committed where that is asked for.
pub proof fn what_is_adopted_is_what_the_form_says(
    form: AdoptForm,
    project: Id,
    r: ExecutorCommand,
)
    requires
        call_ensures(submit, (form, project), r),
    ensures
        pick_of(form.source@) is Pr <==> r is AdoptPr,
        !(pick_of(form.source@) is Pr) <==> r is AdoptBranch,
        r matches ExecutorCommand::AdoptPr { project_id, pr_number, title, description }
            ==> project_id == project && PickView::Pr(pr_number as nat) == pick_of(form.source@)
            && title@ == trimmed(form.title@) && description@ == trimmed(form.description@),
        r matches ExecutorCommand::AdoptBranch {
            project_id,
            source_ref,
            title,
            description,
            retire_original,
            dirty_action,
        } ==> project_id == project && source_ref@ == form.source@ && title@ == trimmed(form.title@)
            && description@ == trimmed(form.description@) && (retire_original ==> form.retire
            && !starts(form.source@, "origin/"@)) && (form.retire && !starts(
            form.source@,
            "origin/"@,
        ) ==> retire_original) && (dirty_action is Include <==> form.include_dirty),
{
}

/// The button says which pull request is adopted, where one is.
pub proof fn the_adopt_button_says_what_is_adopted(source: Seq<char>)
    ensures
        pick_of(source) matches PickView::Pr(n) ==> ends(submit_words(source), "#"@ + decimal(n)),
        !(pick_of(source) is Pr) ==> submit_words(source) == "Adopt into self-review"@,
{
    if let PickView::Pr(n) = pick_of(source) {
        reveal_strlit("Adopt PR #");
        reveal_strlit("#");
        let head = "Adopt PR #"@.take(9);
        assert("Adopt PR #"@ =~= head + "#"@);
        assert(submit_words(source) =~= head + ("#"@ + decimal(n)));
        parts_are_found(head, "#"@ + decimal(n), Seq::empty());
    }
}

/// What is told of a pull request or a branch names it, warns of work that is not the
/// user's own, and of a branch with nothing on it.
pub proof fn hints_name_what_they_are_about(
    pr: OpenPr,
    n: u64,
    r: (String, Option<String>),
    c: (String, bool),
    o: String,
)
    requires
        call_ensures(pr_hints, (&pr,), r),
        call_ensures(commits_hint, (n,), c),
        call_ensures(open_pr_hint, (n,), o),
    ensures
        within(r.0@, decimal(pr.number as nat)),
        within(r.0@, pr.head_ref@),
        r.1 is None <==> pr.mine,
        !pr.mine ==> within(r.1->0@, pr.author@),
        c.1 <==> n == 0,
        n > 0 ==> starts(c.0@, decimal(n as nat)),
        within(o@, decimal(n as nat)),
{
    let k = decimal(pr.number as nat);
    let m = " at the PR-review stage (no self-review); fixes are pushed to `"@;
    assert(r.0@ =~= "The card takes over PR #"@ + k + (m + pr.head_ref@ + "`."@));
    parts_are_found("The card takes over PR #"@, k, m + pr.head_ref@ + "`."@);
    parts_are_found("The card takes over PR #"@ + k + m, pr.head_ref@, "`."@);
    parts_are_found(
        "This PR was opened by "@,
        pr.author@,
        ", not you — the card will push its fixes to their branch."@,
    );
    parts_are_found(Seq::empty(), decimal(n as nat), " commit(s) ahead of the base branch."@);
    parts_are_found(
        "PR #"@,
        decimal(n as nat),
        " is open on this branch — pick it under Pull requests to adopt the PR itself."@,
    );
}

} // verus!
