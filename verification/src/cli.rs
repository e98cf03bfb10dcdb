//! The command-line harness: what its arguments ask for, how it picks a card,
//! and how it drives a card through the pipeline.

use vstd::prelude::*;

use crate::card::{is_draft, opt_text};
use crate::command::{card_of, ExecutorCommand};
use crate::copies::{copy_verdicts, CardStateView, CardView};
use crate::lists::{a_filter_keeps_what_passes, derefs, select};
use crate::markdown::{join, join_text, texts};
use crate::model::{Card, CardState, DesignSub, FixVerdict, Id, PrReviewSub, ReviewSub};
use crate::outside::{lower, lowercase, uuid_form, uuid_text};
use crate::search::contains_text;
use crate::text::{
    cat3, chars_of, decimal, decimal_text, parts_are_found, same_text, starts, starts_with,
    string_of, within,
};

verus! {

// ---- Arguments -----------------------------------------------------------

/// What the harness is asked to do.
#[derive(Debug, Clone, PartialEq, Eq)]
pub enum Mode {
    Github,
    RealE2e,
    InspectDb(String),
    RecoverDb(String, String),
    RebuildDb(String),
    ResetToPrOpen(String, String),
    /// A plan over a directory, or over the current one.
    RealPlan(Option<String>, String),
    Simulate,
}

/// A mode as a mathematical value.
pub enum ModeView {
    Github,
    RealE2e,
    InspectDb(Seq<char>),
    RecoverDb(Seq<char>, Seq<char>),
    RebuildDb(Seq<char>),
    ResetToPrOpen(Seq<char>, Seq<char>),
    RealPlan(Option<Seq<char>>, Seq<char>),
    Simulate,
}

impl View for Mode {
    type V = ModeView;

    open spec fn view(&self) -> ModeView {
        match *self {
            Mode::Github => ModeView::Github,
            Mode::RealE2e => ModeView::RealE2e,
            Mode::InspectDb(p) => ModeView::InspectDb(p@),
            Mode::RecoverDb(c, b) => ModeView::RecoverDb(c@, b@),
            Mode::RebuildDb(p) => ModeView::RebuildDb(p@),
            Mode::ResetToPrOpen(p, n) => ModeView::ResetToPrOpen(p@, n@),
            Mode::RealPlan(dir, task) => ModeView::RealPlan(opt_text(dir), task@),
            Mode::Simulate => ModeView::Simulate,
        }
    }
}

/// What the arguments ask for, or how they should have been given.
pub open spec fn asked_for(args: Seq<Seq<char>>) -> Result<ModeView, Seq<char>> {
    if args.len() == 0 {
        Ok(ModeView::Simulate)
    } else if args[0] == "github"@ {
        Ok(ModeView::Github)
    } else if args[0] == "real-e2e"@ {
        Ok(ModeView::RealE2e)
    } else if args[0] == "inspect-db"@ {
        if args.len() > 1 {
            Ok(ModeView::InspectDb(args[1]))
        } else {
            Err("usage: usine-cli inspect-db <path>"@)
        }
    } else if args[0] == "recover-db"@ {
        if args.len() > 2 {
            Ok(ModeView::RecoverDb(args[1], args[2]))
        } else {
            Err("usage: usine-cli recover-db <current.db> <backup.db>"@)
        }
    } else if args[0] == "rebuild-db"@ {
        if args.len() > 1 {
            Ok(ModeView::RebuildDb(args[1]))
        } else {
            Err("usage: usine-cli rebuild-db <db>  (run with Usine closed)"@)
        }
    } else if args[0] == "reset-to-pr-open"@ {
        if args.len() > 2 {
            Ok(ModeView::ResetToPrOpen(args[1], args[2]))
        } else {
            Err("usage: usine-cli reset-to-pr-open <db> <card-id-prefix-or-title>"@)
        }
    } else if args[0] == "real-plan"@ {
        Ok(
            ModeView::RealPlan(
                if args.len() > 1 {
                    Some(args[1])
                } else {
                    None
                },
                if args.len() > 2 {
                    join(args.skip(2), " "@)
                } else {
                    "Summarize what this project does and propose one improvement."@
                },
            ),
        )
    } else {
        Ok(ModeView::Simulate)
    }
}

fn copied(args: &Vec<String>, from: usize) -> (r: Vec<String>)
    requires
        from <= args.len(),
    ensures
        texts(r@) == texts(args@).skip(from as int),
{
    let mut out: Vec<String> = Vec::new();
    let mut i: usize = from;
    while i < args.len()
        invariant
            from <= i <= args.len(),
            texts(out@) == texts(args@).subrange(from as int, i as int),
        decreases args.len() - i,
    {
        let ghost before = texts(out@);
        out.push(args[i].clone());
        assert(texts(out@) =~= before.push(args@[i as int]@));
        assert(texts(out@) =~= texts(args@).subrange(from as int, i + 1));
        i += 1;
    }
    assert(texts(out@) =~= texts(args@).skip(from as int));
    out
}

/// Read the arguments. An argument that is missing is answered with the usage.
pub fn parse_args(args: &Vec<String>) -> (r: Result<Mode, &'static str>)
    ensures
        match asked_for(texts(args@)) {
            Ok(m) => r matches Ok(mode) && mode@ == m,
            Err(u) => r matches Err(usage) && usage@ == u,
        },
{
    let n = args.len();
    assert(texts(args@).len() == n);
    if n == 0 {
        return Ok(Mode::Simulate);
    }
    assert(texts(args@)[0] == args@[0]@);
    assert(n > 1 ==> texts(args@)[1] == args@[1]@);
    assert(n > 2 ==> texts(args@)[2] == args@[2]@);
    let first = args[0].as_str();
    if same_text(first, "github") {
        Ok(Mode::Github)
    } else if same_text(first, "real-e2e") {
        Ok(Mode::RealE2e)
    } else if same_text(first, "inspect-db") {
        if n > 1 {
            Ok(Mode::InspectDb(args[1].clone()))
        } else {
            Err("usage: usine-cli inspect-db <path>")
        }
    } else if same_text(first, "recover-db") {
        if n > 2 {
            Ok(Mode::RecoverDb(args[1].clone(), args[2].clone()))
        } else {
            Err("usage: usine-cli recover-db <current.db> <backup.db>")
        }
    } else if same_text(first, "rebuild-db") {
        if n > 1 {
            Ok(Mode::RebuildDb(args[1].clone()))
        } else {
            Err("usage: usine-cli rebuild-db <db>  (run with Usine closed)")
        }
    } else if same_text(first, "reset-to-pr-open") {
        if n > 2 {
            Ok(Mode::ResetToPrOpen(args[1].clone(), args[2].clone()))
        } else {
            Err("usage: usine-cli reset-to-pr-open <db> <card-id-prefix-or-title>")
        }
    } else if same_text(first, "real-plan") {
        let dir = if n > 1 {
            Some(args[1].clone())
        } else {
            None
        };
        let task = if n > 2 {
            let rest = copied(args, 2);
            join_text(&rest, " ")
        } else {
            "Summarize what this project does and propose one improvement.".to_owned()
        };
        Ok(Mode::RealPlan(dir, task))
    } else {
        Ok(Mode::Simulate)
    }
}

// ---- Records -------------------------------------------------------------

/// An id as it is listed: the first eight digits of it.
pub fn short_id(id: Id) -> (r: String)
    ensures
        r@ == uuid_form(id).take(8),
{
    let t = uuid_text(id);
    let cs = chars_of(t.as_str());
    assert(uuid_form(id).len() == 36) by {
        hex_len(id as nat, 32);
    }
    let head = vstd::slice::slice_subrange(cs.as_slice(), 0, 8);
    assert(head@ =~= uuid_form(id).take(8));
    string_of(head)
}

proof fn hex_len(n: nat, len: nat)
    ensures
        crate::outside::hex(n, len).len() == len,
    decreases len,
{
    if len > 0 {
        hex_len(n / 16, (len - 1) as nat);
    }
}

/// A card answers to a prefix of its id, and to a part of its title in any
/// letter case.
pub open spec fn answers_to(c: Card, needle: Seq<char>) -> bool {
    starts(uuid_form(c.id), needle) || within(lower(c.title@), lower(needle))
}

/// What was found for a needle.
pub enum Found<'a> {
    Nothing(String),
    One(&'a Card),
    /// More than one: nothing is done to any.
    Several(Vec<&'a Card>),
}

/// The cards that answer to a needle: nothing is done unless it is exactly one.
pub fn find_one<'a>(cards: &'a Vec<Card>, needle: &str) -> (r: Found<'a>)
    ensures
        ({
            let hits = cards@.filter(|c: Card| answers_to(c, needle@));
            match r {
                Found::Nothing(m) => hits.len() == 0 && m@ == "no card matches “"@ + needle@ + "”"@,
                Found::One(c) => hits.len() == 1 && *c == hits[0],
                Found::Several(v) => hits.len() > 1 && derefs(v@) == hits,
            }
        }),
{
    let low = lowercase(needle);
    let hit = |c: &Card| -> (b: bool)
        ensures
            b == answers_to(*c, needle@),
    {
        let id = uuid_text(c.id);
        let title = lowercase(c.title.as_str());
        starts_with(id.as_str(), needle) || contains_text(title.as_str(), low.as_str())
    };
    let found = select(cards, hit, Ghost(|c: Card| answers_to(c, needle@)));
    let ghost hits = cards@.filter(|c: Card| answers_to(c, needle@));
    assert(derefs(found@) == hits);
    assert(derefs(found@).len() == found@.len());
    if found.len() == 0 {
        Found::Nothing(cat3("no card matches “", needle, "”"))
    } else if found.len() == 1 {
        assert(derefs(found@)[0] == *found@[0]);
        Found::One(found[0])
    } else {
        Found::Several(found)
    }
}

/// A card back at its open pull request, without the checkout it had.
pub fn reset_card(card: Card, now: i64) -> (r: Card)
    ensures
        r@ == (CardView {
            state: CardStateView::PrIdle,
            worktree_path: None,
            updated_at: now,
            ..card@
        }),
{
    let mut c = card;
    c.state = CardState::PrReview(PrReviewSub::Idle);
    c.worktree_path = None;
    c.updated_at = now;
    c
}

pub open spec fn among(cards: Seq<Card>, id: Id) -> bool {
    exists|i: int| 0 <= i < cards.len() && (#[trigger] cards[i]).id == id
}

fn has_id(cards: &Vec<Card>, id: Id) -> (r: bool)
    ensures
        r == among(cards@, id),
{
    let mut i: usize = 0;
    while i < cards.len()
        invariant
            i <= cards.len(),
            forall|j: int| 0 <= j < i ==> (#[trigger] cards@[j]).id != id,
        decreases cards.len() - i,
    {
        if cards[i].id == id {
            return true;
        }
        i += 1;
    }
    false
}

/// The cards of a backup that are missing, in their order.
pub fn missing_cards<'a>(current: &Vec<Card>, backup: &'a Vec<Card>) -> (r: Vec<&'a Card>)
    ensures
        derefs(r@) == backup@.filter(|c: Card| !among(current@, c.id)),
{
    let gone = |c: &Card| -> (b: bool)
        ensures
            b == !among(current@, c.id),
    {
        !has_id(current, c.id)
    };
    select(backup, gone, Ghost(|c: Card| !among(current@, c.id)))
}

/// A missing card under a fresh id: its own may still stand for a record that
/// cannot be read.
pub fn recovered_card(card: &Card, fresh: Id) -> (r: Card)
    ensures
        r@ == (CardView { id: fresh, ..card@ }),
{
    let mut c = card.clone();
    c.id = fresh;
    c
}

/// Where a rebuilt database's original is kept, and where it is rebuilt.
pub fn rebuild_paths(path: &str, secs: u64) -> (r: (String, String))
    ensures
        r.0@ == path@ + ".bak-before-rebuild-"@ + decimal(secs as nat),
        r.1@ == path@ + ".rebuilt-"@ + decimal(secs as nat),
{
    let n = decimal_text(secs);
    (cat3(path, ".bak-before-rebuild-", n.as_str()), cat3(path, ".rebuilt-", n.as_str()))
}

/// What is said of the records a rebuild could not read.
pub fn skipped_note(skipped: u64) -> (r: String)
    ensures
        r@ == (if skipped > 0 {
            "  ("@ + decimal(skipped as nat) + " undecodable skipped)"@
        } else {
            Seq::empty()
        }),
{
    if skipped > 0 {
        let n = decimal_text(skipped);
        cat3("  (", n.as_str(), " undecodable skipped)")
    } else {
        String::new()
    }
}

// ---- Driving a card ------------------------------------------------------

/// What the harness does about a card.
#[derive(Debug, Clone, PartialEq, Eq)]
pub enum Step {
    /// The status reads as before: nothing.
    Same,
    /// Another status that asks for nothing.
    Seen,
    Send(ExecutorCommand),
    Finished,
    Failed(String),
}

/// The findings with every one of them chosen.
pub open spec fn all_chosen(v: Seq<FixVerdict>) -> Seq<FixVerdict> {
    v.map_values(|f: FixVerdict| FixVerdict { selected: true, ..f })
}

fn choose_all(v: &Vec<FixVerdict>) -> (r: Vec<FixVerdict>)
    ensures
        r@ == all_chosen(v@),
{
    let mut out: Vec<FixVerdict> = Vec::new();
    let mut i: usize = 0;
    while i < v.len()
        invariant
            i <= v.len(),
            out@ == all_chosen(v@).take(i as int),
        decreases v.len() - i,
    {
        let mut f = v[i].clone();
        f.selected = true;
        out.push(f);
        assert(out@ =~= all_chosen(v@).take(i + 1));
        i += 1;
    }
    assert(out@ =~= all_chosen(v@));
    out
}

/// The simulated run of one card: the status it was last seen with, and whether
/// its comments were triaged.
#[derive(Debug, Clone, PartialEq, Eq)]
pub struct Drive {
    pub last_label: String,
    pub comments_fetched: bool,
}

/// What a simulated run does about a state, as a relation: findings are all
/// fixed, comments as they were triaged.
pub open spec fn sim_steps(step: Step, id: Id, s: CardState) -> bool {
    match s {
        CardState::Designing(DesignSub::Intervention(_)) => step matches Step::Send(
            ExecutorCommand::Answer { card_id, text },
        ) && card_id == id && text@ == "Simplicity"@,
        CardState::Designing(DesignSub::AwaitingApproval { .. }) => step == Step::Send(
            ExecutorCommand::ApprovePlan { card_id: id },
        ),
        CardState::AwaitingReview(
            ReviewSub::SelectingFixes { verdicts },
        ) => step matches Step::Send(
            ExecutorCommand::ApplySelfFixes { card_id, verdicts: v, note, prompt },
        ) && card_id == id && v@ == all_chosen(verdicts@) && note@.len() == 0 && prompt is None,
        CardState::AwaitingReview(ReviewSub::ReadyForPr) => step matches Step::Send(
            ExecutorCommand::CreatePr { card_id, branch, title, body, reviewer, draft },
        ) && card_id == id && branch@ == "usine/smoke-test"@ && title@ == "Smoke test card"@
            && body@ == "Automated smoke test."@ && reviewer is None && draft,
        CardState::PrReview(PrReviewSub::SelectingFixes { verdicts }) => step matches Step::Send(
            ExecutorCommand::ApplyFixes { card_id, verdicts: v, note, prompt },
        ) && card_id == id && v@ == verdicts@ && note@.len() == 0 && prompt is None,
        CardState::ReadyToMerge => step == Step::Send(
            ExecutorCommand::Merge { card_id: id, delete_branch: true, force: false },
        ),
        CardState::Done => step is Finished,
        CardState::Failed { message, .. } => step matches Step::Failed(m) && m@ == message@,
        _ => step is Seen,
    }
}

fn sim_step(id: Id, s: &CardState) -> (r: Step)
    ensures
        sim_steps(r, id, *s),
{
    match s {
        CardState::Designing(DesignSub::Intervention(_)) => Step::Send(
            ExecutorCommand::Answer { card_id: id, text: "Simplicity".to_owned() },
        ),
        CardState::Designing(DesignSub::AwaitingApproval { .. }) => Step::Send(
            ExecutorCommand::ApprovePlan { card_id: id },
        ),
        CardState::AwaitingReview(ReviewSub::SelectingFixes { verdicts }) => Step::Send(
            ExecutorCommand::ApplySelfFixes {
                card_id: id,
                verdicts: choose_all(verdicts),
                note: String::new(),
                prompt: None,
            },
        ),
        CardState::AwaitingReview(ReviewSub::ReadyForPr) => Step::Send(
            ExecutorCommand::CreatePr {
                card_id: id,
                branch: "usine/smoke-test".to_owned(),
                title: "Smoke test card".to_owned(),
                body: "Automated smoke test.".to_owned(),
                reviewer: None,
                draft: true,
            },
        ),
        CardState::PrReview(PrReviewSub::SelectingFixes { verdicts }) => Step::Send(
            ExecutorCommand::ApplyFixes {
                card_id: id,
                verdicts: copy_verdicts(verdicts),
                note: String::new(),
                prompt: None,
            },
        ),
        CardState::ReadyToMerge => Step::Send(
            ExecutorCommand::Merge { card_id: id, delete_branch: true, force: false },
        ),
        CardState::Done => Step::Finished,
        CardState::Failed { message, .. } => Step::Failed(message.clone()),
        _ => Step::Seen,
    }
}

/// What an end-to-end run against the real thing does about a state: the review
/// is skipped, and the run ends with the pull request open.
pub open spec fn e2e_steps(step: Step, id: Id, s: CardState) -> bool {
    match s {
        CardState::Designing(DesignSub::AwaitingApproval { .. }) => step == Step::Send(
            ExecutorCommand::ApprovePlan { card_id: id },
        ),
        CardState::AwaitingReview(ReviewSub::ReadyForReview) => step == Step::Send(
            ExecutorCommand::SkipReview { card_id: id },
        ),
        CardState::AwaitingReview(ReviewSub::Reviewing) => step == Step::Send(
            ExecutorCommand::Cancel { card_id: id },
        ),
        CardState::AwaitingReview(ReviewSub::ReadyForPr) => step matches Step::Send(
            ExecutorCommand::CreatePr { card_id, branch, title, body, reviewer, draft },
        ) && card_id == id && branch@ == "usine/greeting"@ && title@ == "Add a greeting file"@
            && body@ == "Opened by the usine end-to-end test."@ && reviewer is None && draft,
        CardState::PrReview(PrReviewSub::Idle) => step is Finished,
        CardState::Failed { message, .. } => step matches Step::Failed(m) && m@ == message@,
        _ => step is Seen,
    }
}

fn e2e_step(id: Id, s: &CardState) -> (r: Step)
    ensures
        e2e_steps(r, id, *s),
{
    match s {
        CardState::Designing(DesignSub::AwaitingApproval { .. }) => Step::Send(
            ExecutorCommand::ApprovePlan { card_id: id },
        ),
        CardState::AwaitingReview(ReviewSub::ReadyForReview) => Step::Send(
            ExecutorCommand::SkipReview { card_id: id },
        ),
        CardState::AwaitingReview(ReviewSub::Reviewing) => Step::Send(
            ExecutorCommand::Cancel { card_id: id },
        ),
        CardState::AwaitingReview(ReviewSub::ReadyForPr) => Step::Send(
            ExecutorCommand::CreatePr {
                card_id: id,
                branch: "usine/greeting".to_owned(),
                title: "Add a greeting file".to_owned(),
                body: "Opened by the usine end-to-end test.".to_owned(),
                reviewer: None,
                draft: true,
            },
        ),
        CardState::PrReview(PrReviewSub::Idle) => Step::Finished,
        CardState::Failed { message, .. } => Step::Failed(message.clone()),
        _ => Step::Seen,
    }
}

/// What a released command leaves to do at the pull-request gate: mark the
/// draft ready, then triage the comments once, one command at a time.
pub open spec fn released(
    fetched: bool,
    id: Id,
    card: Option<Card>,
) -> (Option<ExecutorCommand>, bool) {
    match card {
        Some(c) if c.state == CardState::PrReview(PrReviewSub::Idle) => match c.pr {
            Some(p) => if p.state@ == "draft"@ {
                (Some(ExecutorCommand::MarkPrReady { card_id: id }), fetched)
            } else if !fetched {
                (Some(ExecutorCommand::FetchComments { card_id: id }), true)
            } else {
                (None, fetched)
            },
            None => (None, fetched),
        },
        _ => (None, fetched),
    }
}

impl Drive {
    pub fn new() -> (r: Drive)
        ensures
            r.last_label@ == Seq::<char>::empty(),
            !r.comments_fetched,
    {
        Drive { last_label: String::new(), comments_fetched: false }
    }

    fn note(&mut self, label: &str) -> (changed: bool)
        ensures
            changed == (label@ != old(self).last_label@),
            final(self).last_label@ == label@,
            final(self).comments_fetched == old(self).comments_fetched,
    {
        if same_text(label, self.last_label.as_str()) {
            false
        } else {
            self.last_label = label.to_owned();
            true
        }
    }

    /// A card was reported. The run acts on a change of status only: other
    /// changes are reported too, and would send the same command twice.
    pub fn simulate(&mut self, id: Id, card: &Card) -> (r: Step)
        ensures
            final(self).last_label@ == card.facts.status_label@,
            final(self).comments_fetched == old(self).comments_fetched,
            card.facts.status_label@ == old(self).last_label@ ==> r is Same,
            card.facts.status_label@ != old(self).last_label@ ==> sim_steps(r, id, card.state),
    {
        if self.note(card.facts.status_label.as_str()) {
            sim_step(id, &card.state)
        } else {
            Step::Same
        }
    }

    /// The same for a run against the real thing.
    pub fn run_e2e(&mut self, id: Id, card: &Card) -> (r: Step)
        ensures
            final(self).last_label@ == card.facts.status_label@,
            final(self).comments_fetched == old(self).comments_fetched,
            card.facts.status_label@ == old(self).last_label@ ==> r is Same,
            card.facts.status_label@ != old(self).last_label@ ==> e2e_steps(r, id, card.state),
    {
        if self.note(card.facts.status_label.as_str()) {
            e2e_step(id, &card.state)
        } else {
            Step::Same
        }
    }

    /// A command was released: what is sent next, if the card waits at the
    /// pull-request gate.
    pub fn on_release(&mut self, id: Id, card: Option<&Card>) -> (r: Option<ExecutorCommand>)
        ensures
            (r, final(self).comments_fetched) == released(
                old(self).comments_fetched,
                id,
                match card {
                    Some(c) => Some(*c),
                    None => None,
                },
            ),
            final(self).last_label == old(self).last_label,
    {
        match card {
            Some(c) => {
                if !matches!(c.state, CardState::PrReview(PrReviewSub::Idle)) {
                    return None;
                }
                match &c.pr {
                    Some(p) => if same_text(p.state.as_str(), "draft") {
                        Some(ExecutorCommand::MarkPrReady { card_id: id })
                    } else if !self.comments_fetched {
                        self.comments_fetched = true;
                        Some(ExecutorCommand::FetchComments { card_id: id })
                    } else {
                        None
                    },
                    None => None,
                }
            },
            None => None,
        }
    }
}

/// The comments are triaged at most once in a run.
pub proof fn comments_are_triaged_once(id: Id, card: Option<Card>)
    ensures
        released(true, id, card).0 matches Some(cmd) ==> !(cmd is FetchComments),
        released(true, id, card).1,
{
}

// ---- Laws ----------------------------------------------------------------

/// Each word asks for its mode, whatever follows it; what a mode needs has to follow,
/// in its order. Anything else asks for the simulation.
#[verifier::rlimit(40)]
pub proof fn words_ask_for_their_mode(
    a: Seq<char>,
    b: Seq<char>,
    rest: Seq<Seq<char>>,
)
    ensures
        asked_for(seq!["github"@] + rest) == Ok::<ModeView, Seq<char>>(ModeView::Github),
        asked_for(seq!["real-e2e"@] + rest) == Ok::<ModeView, Seq<char>>(ModeView::RealE2e),
        asked_for(seq!["inspect-db"@]) is Err,
        asked_for(seq!["inspect-db"@, a] + rest) == Ok::<ModeView, Seq<char>>(
            ModeView::InspectDb(a),
        ),
        asked_for(seq!["recover-db"@]) is Err,
        asked_for(seq!["recover-db"@, a]) is Err,
        asked_for(seq!["recover-db"@, a, b] + rest) == Ok::<ModeView, Seq<char>>(
            ModeView::RecoverDb(a, b),
        ),
        asked_for(seq!["rebuild-db"@]) is Err,
        asked_for(seq!["rebuild-db"@, a] + rest) == Ok::<ModeView, Seq<char>>(
            ModeView::RebuildDb(a),
        ),
        asked_for(seq!["reset-to-pr-open"@]) is Err,
        asked_for(seq!["reset-to-pr-open"@, a]) is Err,
        asked_for(seq!["reset-to-pr-open"@, a, b] + rest) == Ok::<ModeView, Seq<char>>(
            ModeView::ResetToPrOpen(a, b),
        ),
        asked_for(seq!["real-plan"@]) matches Ok(ModeView::RealPlan(dir, _)) && dir is None,
        asked_for(seq!["real-plan"@, a]) matches Ok(ModeView::RealPlan(dir, _)) && dir == Some(a),
        asked_for(seq!["real-plan"@, a, b] + rest) == Ok::<ModeView, Seq<char>>(
            ModeView::RealPlan(Some(a), join(seq![b] + rest, " "@)),
        ),
        asked_for(Seq::empty()) == Ok::<ModeView, Seq<char>>(ModeView::Simulate),
{
    words_differ();
    assert((seq!["github"@] + rest)[0] == "github"@);
    assert((seq!["real-e2e"@] + rest)[0] == "real-e2e"@);
    let i = seq!["inspect-db"@, a] + rest;
    assert(i[0] == "inspect-db"@ && i[1] == a);
    let r = seq!["recover-db"@, a, b] + rest;
    assert(r[0] == "recover-db"@ && r[1] == a && r[2] == b);
    let u = seq!["rebuild-db"@, a] + rest;
    assert(u[0] == "rebuild-db"@ && u[1] == a);
    let o = seq!["reset-to-pr-open"@, a, b] + rest;
    assert(o[0] == "reset-to-pr-open"@ && o[1] == a && o[2] == b);
    let p = seq!["real-plan"@, a, b] + rest;
    assert(p[0] == "real-plan"@ && p[1] == a);
    assert(p.skip(2) =~= seq![b] + rest);
}

proof fn words_differ()
    ensures
        "github"@.len() == 6,
        "real-e2e"@.len() == 8,
        "real-plan"@.len() == 9,
        "inspect-db"@.len() == 10 && "inspect-db"@[0] == 'i',
        "recover-db"@.len() == 10 && "recover-db"@[0] == 'r' && "recover-db"@[2] == 'c',
        "rebuild-db"@.len() == 10 && "rebuild-db"@[0] == 'r' && "rebuild-db"@[2] == 'b',
        "reset-to-pr-open"@.len() == 16,
{
    reveal_strlit("github");
    reveal_strlit("real-e2e");
    reveal_strlit("real-plan");
    reveal_strlit("inspect-db");
    reveal_strlit("recover-db");
    reveal_strlit("rebuild-db");
    reveal_strlit("reset-to-pr-open");
}

/// A step of the simulation is about its card and goes on with it: the question is
/// answered, the plan approved, every finding fixed, the pull request opened as a draft,
/// merged without force. It is done where the card is, and fails with its words.
pub proof fn a_simulated_step_goes_on(step: Step, id: Id, s: CardState)
    requires
        sim_steps(step, id, s),
    ensures
        step matches Step::Send(cmd) ==> card_of(cmd) == Some(id),
        step is Finished <==> s is Done,
        step is Failed <==> s is Failed,
        (s matches CardState::Designing(sub) && sub is AwaitingApproval) <==> (
        step matches Step::Send(cmd) && cmd is ApprovePlan),
        (s matches CardState::Designing(sub) && sub is Intervention) <==> (step matches Step::Send(
            cmd,
        ) && cmd is Answer),
        (s == CardState::AwaitingReview(ReviewSub::ReadyForPr)) <==> (step matches Step::Send(cmd)
            && cmd is CreatePr),
        step matches Step::Send(ExecutorCommand::CreatePr { draft, .. }) ==> draft,
        s is ReadyToMerge <==> (step matches Step::Send(cmd) && cmd is Merge),
        step matches Step::Send(ExecutorCommand::Merge { force, .. }) ==> !force,
        (s matches CardState::AwaitingReview(sub) && sub is SelectingFixes) <==> (
        step matches Step::Send(cmd) && cmd is ApplySelfFixes),
        (s matches CardState::PrReview(sub) && sub is SelectingFixes) <==> (
        step matches Step::Send(cmd) && cmd is ApplyFixes),
{
}

/// Choosing every finding checks each and changes nothing else of it.
pub proof fn choosing_all_checks_each(v: Seq<FixVerdict>, i: int)
    requires
        0 <= i < v.len(),
    ensures
        all_chosen(v).len() == v.len(),
        all_chosen(v)[i].selected,
        all_chosen(v)[i] == (FixVerdict { selected: all_chosen(v)[i].selected, ..v[i] }),
{
}

/// A step of the end-to-end run is about its card. It approves the plan, passes over the
/// self-review, opens the pull request as a draft and is done there: it never merges.
pub proof fn an_e2e_step_goes_on(step: Step, id: Id, s: CardState)
    requires
        e2e_steps(step, id, s),
    ensures
        step matches Step::Send(cmd) ==> card_of(cmd) == Some(id) && !(cmd is Merge),
        step is Finished <==> s == CardState::PrReview(PrReviewSub::Idle),
        step is Failed <==> s is Failed,
        (s matches CardState::Designing(sub) && sub is AwaitingApproval) <==> (
        step matches Step::Send(cmd) && cmd is ApprovePlan),
        s == CardState::AwaitingReview(ReviewSub::ReadyForReview) <==> (step matches Step::Send(cmd)
            && cmd is SkipReview),
        s == CardState::AwaitingReview(ReviewSub::Reviewing) <==> (step matches Step::Send(cmd)
            && cmd is Cancel),
        s == CardState::AwaitingReview(ReviewSub::ReadyForPr) <==> (step matches Step::Send(cmd)
            && cmd is CreatePr),
        step matches Step::Send(ExecutorCommand::CreatePr { draft, .. }) ==> draft,
{
}

/// At the idle pull request a draft is marked ready and a ready one is read, once.
pub proof fn a_released_card_is_moved_on(fetched: bool, id: Id, c: Card)
    ensures
        released(fetched, id, None) == (None::<ExecutorCommand>, fetched),
        released(fetched, id, Some(c)).0 matches Some(cmd) ==> card_of(cmd) == Some(id) && c.state
            == CardState::PrReview(PrReviewSub::Idle) && (cmd is MarkPrReady || cmd is FetchComments),
        c.state == CardState::PrReview(PrReviewSub::Idle) && is_draft(c) ==> (released(
            fetched,
            id,
            Some(c),
        ).0 matches Some(cmd) && cmd is MarkPrReady),
        c.state == CardState::PrReview(PrReviewSub::Idle) && c.pr is Some && !is_draft(c)
            && !fetched ==> (released(fetched, id, Some(c)).0 matches Some(cmd)
            && cmd is FetchComments) && released(fetched, id, Some(c)).1,
{
}

/// A reset card is back at its idle pull request, without a worktree, and is else as it
/// was; a recovered card is the same under another id.
pub proof fn mended_cards_are_the_same(card: Card, now: i64, fresh: Id, r: Card, c: Card)
    requires
        call_ensures(reset_card, (card, now), r),
        call_ensures(recovered_card, (&card, fresh), c),
    ensures
        r.worktree_path is None,
        r.updated_at == now,
        r.state == CardState::PrReview(PrReviewSub::Idle),
        r@ == (CardView {
            state: r@.state,
            worktree_path: r@.worktree_path,
            updated_at: r@.updated_at,
            ..card@
        }),
        c.id == fresh,
        c@ == (CardView { id: c.id, ..card@ }),
{
}

/// What a rebuild sets aside and what it writes stand beside the file, under two
/// different names.
pub proof fn a_rebuild_overwrites_nothing(path: &str, secs: u64, r: (String, String))
    requires
        call_ensures(rebuild_paths, (path, secs), r),
    ensures
        starts(r.0@, path@),
        starts(r.1@, path@),
        r.0@ != path@,
        r.1@ != path@,
        r.0@ != r.1@,
{
    let n = decimal(secs as nat);
    reveal_strlit(".bak-before-rebuild-");
    reveal_strlit(".rebuilt-");
    parts_are_found(Seq::empty(), path@, ".bak-before-rebuild-"@ + n);
    parts_are_found(Seq::empty(), path@, ".rebuilt-"@ + n);
    assert(r.0@ =~= path@ + (".bak-before-rebuild-"@ + n));
    assert(r.1@ =~= path@ + (".rebuilt-"@ + n));
    let k = path@.len() as int;
    assert(r.0@[k + 1] == 'b');
    assert(r.1@[k + 1] == 'r');
}

/// A card answers to the start of its id and to a part of its title, in capitals or not.
pub proof fn a_card_answers_to_its_name(c: Card, a: Seq<char>, n: Seq<char>, b: Seq<char>)
    ensures
        uuid_form(c.id) == n + b ==> answers_to(c, n),
        lower(c.title@) == a + lower(n) + b ==> answers_to(c, n),
        answers_to(c, uuid_form(c.id)),
        answers_to(c, c.title@),
{
    let e = Seq::<char>::empty();
    parts_are_found(e, n, b);
    parts_are_found(a, lower(n), b);
    parts_are_found(e, uuid_form(c.id), e);
    assert(uuid_form(c.id) + e =~= uuid_form(c.id));
    parts_are_found(e, lower(c.title@), e);
    assert(e + lower(c.title@) + e =~= lower(c.title@));
}

/// What is found answers to what was asked; the cards missing are those of the backup
/// whose id is not there.
pub proof fn what_is_found_answers(
    cards: Vec<Card>,
    needle: &str,
    backup: Vec<Card>,
    missing: Vec<&Card>,
    c: Card,
    one: &Card,
)
    ensures
        call_ensures(find_one, (&cards, needle), Found::One(one)) ==> cards@.contains(*one)
            && answers_to(*one, needle@),
        call_ensures(missing_cards, (&cards, &backup), missing) ==> (derefs(missing@).contains(c)
            <==> backup@.contains(c) && forall|i: int|
            0 <= i < cards@.len() ==> (#[trigger] cards@[i]).id != c.id),
{
    let p = |c: Card| answers_to(c, needle@);
    let hits = cards@.filter(p);
    if hits.len() == 1 {
        a_filter_keeps_what_passes(cards@, p, hits[0]);
        assert(hits.contains(hits[0]));
    }
    a_filter_keeps_what_passes(backup@, |c: Card| !among(cards@, c.id), c);
}

} // verus!
