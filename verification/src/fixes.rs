//! Choosing which findings or review comments to fix, and how.

use vstd::prelude::*;

use crate::card::opt_text;
use crate::command::{card_of, ExecutorCommand};
use crate::diffview::{comment_location, location};
use crate::drafts::forget;
use crate::lists::a_filter_keeps_what_passes;
use crate::model::{FixVerdict, Id};
use crate::state::{AppState, StateView};
use crate::text::{blank, blank_is_empty_trim, is_blank, same_text, starts, trim, trimmed};
use crate::widgets::severity_pill_class;

verus! {

// ---- The user's working copy ---------------------------------------------

/// The findings to fix, in their order.
pub open spec fn chosen_fixes(edits: Seq<FixVerdict>) -> Seq<FixVerdict> {
    edits.filter(|v: FixVerdict| v.selected)
}

pub fn selected_fixes(edits: &Vec<FixVerdict>) -> (r: Vec<FixVerdict>)
    ensures
        r@ == chosen_fixes(edits@),
{
    let mut out: Vec<FixVerdict> = Vec::new();
    let mut i: usize = 0;
    proof {
        reveal(Seq::filter);
        assert(edits@.take(0) =~= Seq::empty());
        assert(out@ =~= chosen_fixes(edits@.take(0)));
    }
    while i < edits.len()
        invariant
            i <= edits.len(),
            out@ == chosen_fixes(edits@.take(i as int)),
        decreases edits.len() - i,
    {
        proof {
            reveal(Seq::filter);
            assert(edits@.take(i + 1).drop_last() =~= edits@.take(i as int));
        }
        if edits[i].selected {
            out.push(edits[i].clone());
        }
        i += 1;
    }
    assert(edits@.take(i as int) =~= edits@);
    out
}

/// A change to one row of the list.
#[derive(Debug, Clone, PartialEq, Eq)]
pub enum RowEdit {
    Toggle,
    /// Reword the finding; its text is what the agent receives.
    Body(String),
    /// Say how it should be fixed.
    Instruction(String),
    /// The reply posted where it is not fixed.
    Reply(String),
}

/// A row after a change.
pub open spec fn row_edited(v: FixVerdict, e: RowEdit) -> FixVerdict {
    match e {
        RowEdit::Toggle => FixVerdict { selected: !v.selected, ..v },
        RowEdit::Body(body) => FixVerdict {
            comment: crate::model::ReviewComment { body, ..v.comment },
            ..v
        },
        RowEdit::Instruction(instruction) => FixVerdict { instruction, ..v },
        RowEdit::Reply(reply) => FixVerdict { reply, ..v },
    }
}

/// Change one row. Nothing happens for a row that is not there.
pub fn edit_row(edits: &mut Vec<FixVerdict>, i: usize, e: RowEdit)
    ensures
        i < old(edits)@.len() ==> final(edits)@ == old(edits)@.update(
            i as int,
            row_edited(old(edits)@[i as int], e),
        ),
        i >= old(edits)@.len() ==> final(edits)@ == old(edits)@,
{
    if i < edits.len() {
        let mut v = edits[i].clone();
        match e {
            RowEdit::Toggle => {
                v.selected = !v.selected;
            },
            RowEdit::Body(body) => {
                v.comment.body = body;
            },
            RowEdit::Instruction(text) => {
                v.instruction = text;
            },
            RowEdit::Reply(text) => {
                v.reply = text;
            },
        }
        edits.set(i, v);
    }
}

// ---- The working copy as a draft ------------------------------------------

/// The editable parts of a row, as the four texts from `at` on: whether it is to
/// be fixed, the finding, how to fix it, and the reply.
pub open spec fn holds_row(v: FixVerdict, t: Seq<String>, at: int) -> bool {
    &&& t[at]@ == (if v.selected {
        "true"@
    } else {
        "false"@
    })
    &&& t[at + 1] == v.comment.body
    &&& t[at + 2] == v.instruction
    &&& t[at + 3] == v.reply
}

/// Four texts for each row, in order.
pub open spec fn holds_rows(rows: Seq<FixVerdict>, t: Seq<String>) -> bool {
    &&& t.len() == 4 * rows.len()
    &&& forall|i: int| 0 <= i < rows.len() ==> holds_row(#[trigger] rows[i], t, 4 * i)
}

/// The rows as the texts a draft keeps.
pub fn row_texts(rows: &Vec<FixVerdict>) -> (r: Vec<String>)
    ensures
        holds_rows(rows@, r@),
{
    let mut out: Vec<String> = Vec::new();
    let mut i: usize = 0;
    while i < rows.len()
        invariant
            i <= rows.len(),
            out@.len() == 4 * i,
            forall|j: int| 0 <= j < i ==> holds_row(#[trigger] rows@[j], out@, 4 * j),
        decreases rows.len() - i,
    {
        let v = &rows[i];
        if v.selected {
            out.push("true".to_owned());
        } else {
            out.push("false".to_owned());
        }
        out.push(v.comment.body.clone());
        out.push(v.instruction.clone());
        out.push(v.reply.clone());
        i += 1;
    }
    out
}

/// A row with the four texts from `at` on in its editable parts.
pub open spec fn row_with(v: FixVerdict, t: Seq<String>, at: int) -> FixVerdict {
    FixVerdict {
        selected: t[at]@ == "true"@,
        comment: crate::model::ReviewComment { body: t[at + 1], ..v.comment },
        instruction: t[at + 2],
        reply: t[at + 3],
        ..v
    }
}

/// The rows with the texts of a draft in them. A row there are no four texts for
/// stays as it is.
pub open spec fn with_texts(rows: Seq<FixVerdict>, t: Seq<String>) -> Seq<FixVerdict> {
    Seq::new(
        rows.len(),
        |i: int|
            if 4 * i + 4 <= t.len() {
                row_with(rows[i], t, 4 * i)
            } else {
                rows[i]
            },
    )
}

pub fn rows_with(rows: &Vec<FixVerdict>, texts: &Vec<String>) -> (r: Vec<FixVerdict>)
    ensures
        r@ == with_texts(rows@, texts@),
{
    let mut out: Vec<FixVerdict> = Vec::new();
    let mut i: usize = 0;
    let mut at: usize = 0;
    while i < rows.len()
        invariant
            i <= rows.len(),
            at <= texts.len(),
            at == 4 * i || (at < 4 * i && texts.len() - at < 4),
            out@ == with_texts(rows@, texts@).take(i as int),
        decreases rows.len() - i,
    {
        let mut v = rows[i].clone();
        if texts.len() - at >= 4 {
            v.selected = same_text(texts[at].as_str(), "true");
            v.comment.body = texts[at + 1].clone();
            v.instruction = texts[at + 2].clone();
            v.reply = texts[at + 3].clone();
            at += 4;
        }
        out.push(v);
        assert(out@ =~= with_texts(rows@, texts@).take(i + 1));
        i += 1;
    }
    assert(out@ =~= with_texts(rows@, texts@));
    out
}

// ---- A row ---------------------------------------------------------------

/// What a row shows.
#[derive(Debug, Clone, PartialEq, Eq)]
pub struct FixRow {
    pub location: String,
    pub severity_label: String,
    pub severity_class: String,
    pub verdict_label: &'static str,
    pub verdict_class: &'static str,
    /// The finding's text can be reworded: someone else's comment is not ours to
    /// edit.
    pub editable: bool,
    /// The box that says how to fix it.
    pub steer: bool,
    /// The box with the reply posted where it is not fixed.
    pub reply: bool,
}

/// Where a comment stands. One that stands for a review's summary has no line.
pub open spec fn row_location(v: FixVerdict) -> Seq<char> {
    if v.comment.review_body_of is Some {
        "PR review summary"@
    } else {
        location(v.comment.path@, v.comment.line)
    }
}

/// The box that says how to fix it shows where it is to be fixed.
pub open spec fn steers(v: FixVerdict) -> bool {
    v.selected
}

/// The box with the reply shows where someone else's comment is not to be fixed.
pub open spec fn replies(v: FixVerdict, self_review: bool) -> bool {
    !self_review && !v.selected && v.comment.review_body_of is None
}

/// A row of the list. A review's summary takes no reply: there is nowhere to
/// post one.
pub fn fix_row(v: &FixVerdict, self_review: bool) -> (r: FixRow)
    ensures
        r.location@ == row_location(*v),
        r.severity_label@ == (if v.severity@.len() == 0 {
            "—"@
        } else {
            v.severity@
        }),
        r.severity_class@ == (if v.severity@.len() == 0 {
            "sev"@
        } else {
            "sev sev-"@ + v.severity@
        }),
        r.verdict_label@ == (if v.worth_fixing {
            "fix"@
        } else {
            "skip"@
        }),
        r.verdict_class@ == (if v.worth_fixing {
            "verdict-yes"@
        } else {
            "verdict-no"@
        }),
        r.editable == self_review,
        r.steer == steers(*v),
        r.reply == replies(*v, self_review),
{
    let is_body = v.comment.review_body_of.is_some();
    FixRow {
        location: if is_body {
            "PR review summary".to_owned()
        } else {
            comment_location(v.comment.path.as_str(), v.comment.line)
        },
        severity_label: if v.severity.as_str().is_empty() {
            "—".to_owned()
        } else {
            v.severity.clone()
        },
        severity_class: severity_pill_class(v.severity.as_str()),
        verdict_label: if v.worth_fixing {
            "fix"
        } else {
            "skip"
        },
        verdict_class: if v.worth_fixing {
            "verdict-yes"
        } else {
            "verdict-no"
        },
        editable: self_review,
        steer: v.selected,
        reply: !self_review && !v.selected && !is_body,
    }
}

// ---- The task sent -------------------------------------------------------

/// The task as the agent will get it: the user's own wording, or else what was
/// composed from the rows and the note.
pub open spec fn task_text(edited: Option<Seq<char>>, generated: Seq<char>) -> Seq<char> {
    match edited {
        Some(t) => t,
        None => generated,
    }
}

pub open spec fn any_chosen(edits: Seq<FixVerdict>) -> bool {
    exists|i: int| 0 <= i < edits.len() && (#[trigger] edits[i]).selected
}

/// What the primary button says, which is what it does: with nothing to do it
/// only goes on.
pub open spec fn apply_words(
    self_review: bool,
    edited: Option<Seq<char>>,
    generated: Seq<char>,
    any_selected: bool,
    has_note: bool,
) -> Seq<char> {
    if blank(task_text(edited, generated)) {
        if self_review {
            "Continue without fixes"@
        } else {
            "Ignore comments and continue"@
        }
    } else if edited is Some {
        "Apply your edited task"@
    } else if any_selected && has_note {
        "Apply selected fixes & note"@
    } else if any_selected {
        "Apply selected fixes"@
    } else {
        "Apply your note"@
    }
}

/// The panel around the rows.
#[derive(Debug, Clone, PartialEq, Eq)]
pub struct FixPanel {
    pub heading: &'static str,
    pub note_hint: &'static str,
    /// The task as it will be sent.
    pub task: String,
    /// The task was reworded, and no longer follows the rows.
    pub edited: bool,
    pub apply_label: &'static str,
    pub rerun_title: &'static str,
    /// The way to the pull request past the fixes, and what it says.
    pub skip_title: Option<&'static str>,
}

fn any_selected(edits: &Vec<FixVerdict>) -> (r: bool)
    ensures
        r == any_chosen(edits@),
{
    let mut i: usize = 0;
    while i < edits.len()
        invariant
            i <= edits.len(),
            forall|j: int| 0 <= j < i ==> !(#[trigger] edits@[j]).selected,
        decreases edits.len() - i,
    {
        if edits[i].selected {
            return true;
        }
        i += 1;
    }
    false
}

/// The panel, given the task `generated` from the chosen rows and the note.
pub fn fix_panel(
    self_review: bool,
    edits: &Vec<FixVerdict>,
    note: &str,
    edited: &Option<String>,
    generated: &str,
) -> (r: FixPanel)
    ensures
        r.heading@ == (if self_review {
            "Self-review findings"@
        } else {
            "Review comments"@
        }),
        r.note_hint@ == (if self_review {
            "Anything the review missed? It's applied with the fixes you checked."@
        } else {
            "Anything to change beyond these comments? It's applied with the fixes you checked."@
        }),
        r.task@ == task_text(opt_text(*edited), generated@),
        r.edited == (*edited is Some),
        r.apply_label@ == apply_words(
            self_review,
            opt_text(*edited),
            generated@,
            any_chosen(edits@),
            !blank(note@),
        ),
        r.rerun_title@ == (if self_review {
            "Re-review the committed diff"@
        } else {
            "Re-fetch the PR comments and re-run the analysis"@
        }),
        !self_review ==> r.skip_title is None,
        self_review ==> r.skip_title is Some && r.skip_title->0@ == (if !blank(note@) {
            "Opens the PR without applying anything — your note is discarded"@
        } else {
            "Apply nothing and open the PR"@
        }),
{
    let has_note = !is_blank(note);
    let any = any_selected(edits);
    let task = match edited {
        Some(t) => t.clone(),
        None => generated.to_owned(),
    };
    let apply_label = if is_blank(task.as_str()) {
        if self_review {
            "Continue without fixes"
        } else {
            "Ignore comments and continue"
        }
    } else if edited.is_some() {
        "Apply your edited task"
    } else if any && has_note {
        "Apply selected fixes & note"
    } else if any {
        "Apply selected fixes"
    } else {
        "Apply your note"
    };
    FixPanel {
        heading: if self_review {
            "Self-review findings"
        } else {
            "Review comments"
        },
        note_hint: if self_review {
            "Anything the review missed? It's applied with the fixes you checked."
        } else {
            "Anything to change beyond these comments? It's applied with the fixes you checked."
        },
        task,
        edited: edited.is_some(),
        apply_label,
        rerun_title: if self_review {
            "Re-review the committed diff"
        } else {
            "Re-fetch the PR comments and re-run the analysis"
        },
        skip_title: if !self_review {
            None
        } else if has_note {
            Some("Opens the PR without applying anything — your note is discarded")
        } else {
            Some("Apply nothing and open the PR")
        },
    }
}

// ---- Sending -------------------------------------------------------------

/// What applying the fixes sends, and what it does to the state.
pub open spec fn fixes_applied(
    before: StateView,
    after: StateView,
    cmd: ExecutorCommand,
    card_id: Id,
    self_review: bool,
    verdicts: Vec<FixVerdict>,
    note: Seq<char>,
    prompt: Option<String>,
) -> bool {
    &&& self_review ==> (cmd matches ExecutorCommand::ApplySelfFixes {
        card_id: id,
        verdicts: v,
        note: n,
        prompt: p,
    } && id == card_id && v == verdicts && n@ == trimmed(note) && p == prompt)
    &&& !self_review ==> (cmd matches ExecutorCommand::ApplyFixes {
        card_id: id,
        verdicts: v,
        note: n,
        prompt: p,
    } && id == card_id && v == verdicts && n@ == trimmed(note) && p == prompt)
    &&& after == (StateView {
        drafts: before.drafts.remove((card_id, "fixes.verdicts"@)).remove(
            (card_id, "fixes.task"@),
        ).remove((card_id, "fixes.note"@)),
        ..before
    })
}

/// What going on without fixes sends, and what it does to the state.
pub open spec fn fixes_skipped(
    before: StateView,
    after: StateView,
    cmd: ExecutorCommand,
    card_id: Id,
) -> bool {
    &&& cmd == (ExecutorCommand::SkipToPr { card_id })
    &&& after == (StateView {
        drafts: before.drafts.remove((card_id, "fixes.note"@)).remove((card_id, "fixes.task"@)),
        ..before
    })
}

impl AppState {
    /// Apply the fixes: the rows as edited, the note, and the task where it was
    /// reworded. Their drafts are done with.
    pub fn apply_fixes(
        &mut self,
        card_id: Id,
        self_review: bool,
        verdicts: Vec<FixVerdict>,
        note: &str,
        prompt: Option<String>,
    ) -> (r: ExecutorCommand)
        ensures
            fixes_applied(
                old(self)@,
                final(self)@,
                r,
                card_id,
                self_review,
                verdicts,
                note@,
                prompt,
            ),
    {
        forget(&mut self.drafts, card_id, "fixes.verdicts");
        forget(&mut self.drafts, card_id, "fixes.task");
        forget(&mut self.drafts, card_id, "fixes.note");
        let text = trim(note);
        if self_review {
            ExecutorCommand::ApplySelfFixes { card_id, verdicts, note: text, prompt }
        } else {
            ExecutorCommand::ApplyFixes { card_id, verdicts, note: text, prompt }
        }
    }

    /// Look again: at the diff, or at the review's comments.
    pub fn rerun_analysis(&self, card_id: Id, self_review: bool) -> (r: ExecutorCommand)
        ensures
            r == (if self_review {
                ExecutorCommand::SelfReview { card_id }
            } else {
                ExecutorCommand::FetchComments { card_id }
            }),
    {
        if self_review {
            ExecutorCommand::SelfReview { card_id }
        } else {
            ExecutorCommand::FetchComments { card_id }
        }
    }

    /// Go to the pull request without any fix. The note and the task are thrown
    /// away; the rows are kept.
    pub fn skip_to_pr(&mut self, card_id: Id) -> (r: ExecutorCommand)
        ensures
            fixes_skipped(old(self)@, final(self)@, r, card_id),
    {
        forget(&mut self.drafts, card_id, "fixes.note");
        forget(&mut self.drafts, card_id, "fixes.task");
        ExecutorCommand::SkipToPr { card_id }
    }
}

// ---- Laws ----------------------------------------------------------------

/// A reworded task is what is sent, whatever the rows and the note say.
pub proof fn own_wording_wins(text: Seq<char>, a: Seq<char>, b: Seq<char>)
    ensures
        task_text(Some(text), a) == task_text(Some(text), b),
        task_text(Some(text), a) == text,
{
}

/// A row shows at most one of the two boxes: how to fix it, or what to answer.
pub proof fn steer_or_reply(v: FixVerdict, self_review: bool)
    ensures
        !(steers(v) && replies(v, self_review)),
{
}

/// Two rows are of the same finding: they differ at most in what can be edited.
pub open spec fn same_finding(a: FixVerdict, b: FixVerdict) -> bool {
    a == (FixVerdict {
        selected: a.selected,
        comment: crate::model::ReviewComment { body: a.comment.body, ..b.comment },
        instruction: a.instruction,
        reply: a.reply,
        ..b
    })
}

/// Rows kept as texts come back as they were edited, put over the findings they
/// were made from.
pub proof fn edited_rows_come_back(
    found: Seq<FixVerdict>,
    edited: Seq<FixVerdict>,
    t: Seq<String>,
)
    requires
        holds_rows(edited, t),
        found.len() == edited.len(),
        forall|i: int| 0 <= i < found.len() ==> same_finding(#[trigger] edited[i], found[i]),
    ensures
        with_texts(found, t) == edited,
{
    reveal_strlit("true");
    reveal_strlit("false");
    assert("true"@.len() != "false"@.len());
    assert forall|i: int| 0 <= i < edited.len() implies with_texts(found, t)[i]
        == #[trigger] edited[i] by {
        assert(holds_row(edited[i], t, 4 * i));
        assert(same_finding(edited[i], found[i]));
    }
    assert(with_texts(found, t) =~= edited);
}

/// Rows kept as texts and put back over themselves are the same rows.
pub proof fn rows_come_back(rows: Seq<FixVerdict>, t: Seq<String>)
    requires
        holds_rows(rows, t),
    ensures
        with_texts(rows, t) == rows,
{
    edited_rows_come_back(rows, rows, t);
}

/// Changing a row keeps its finding.
pub proof fn an_edited_row_is_the_same_finding(v: FixVerdict, e: RowEdit)
    ensures
        same_finding(row_edited(v, e), v),
{
}

/// Toggling a row twice changes nothing.
pub proof fn rows_toggle(v: FixVerdict)
    ensures
        row_edited(row_edited(v, RowEdit::Toggle), RowEdit::Toggle) == v,
{
}

/// An edit of a row reads back, and nothing else of the row changes.
pub proof fn a_row_edit_touches_one_part(v: FixVerdict, e: RowEdit)
    ensures
        ({
            let r = row_edited(v, e);
            &&& e is Toggle <==> r.selected != v.selected
            &&& e is Body || r.comment == v.comment
            &&& e is Instruction || r.instruction == v.instruction
            &&& e is Reply || r.reply == v.reply
            &&& e matches RowEdit::Body(t) ==> r.comment.body == t
            &&& e matches RowEdit::Instruction(t) ==> r.instruction == t
            &&& e matches RowEdit::Reply(t) ==> r.reply == t
        }),
{
}

/// What is sent are the rows that are checked, and only those.
pub proof fn checked_rows_are_chosen(edits: Seq<FixVerdict>, v: FixVerdict)
    ensures
        chosen_fixes(edits).contains(v) <==> edits.contains(v) && v.selected,
        any_chosen(edits) <==> chosen_fixes(edits).len() > 0,
{
    let p = |v: FixVerdict| v.selected;
    a_filter_keeps_what_passes(edits, p, v);
    if any_chosen(edits) {
        let i = choose|i: int| 0 <= i < edits.len() && (#[trigger] edits[i]).selected;
        a_filter_keeps_what_passes(edits, p, edits[i]);
        assert(edits.contains(edits[i]));
        assert(chosen_fixes(edits).contains(edits[i]));
    }
    if chosen_fixes(edits).len() > 0 {
        let x = chosen_fixes(edits)[0];
        assert(chosen_fixes(edits).contains(x));
        a_filter_keeps_what_passes(edits, p, x);
        let i = edits.index_of(x);
        assert(edits[i].selected);
    }
}

/// A reply goes to a comment of the pull request that is not fixed; a row that is to be
/// fixed is steered instead.
pub proof fn replies_have_their_place(v: FixVerdict, self_review: bool)
    ensures
        replies(v, self_review) <==> !self_review && !v.selected && v.comment.review_body_of is None,
        steers(v) <==> v.selected,
{
}

/// Applying fixes sends the rows, the trimmed note and the reworded task of that card,
/// to the self-review or to the pull request's review as asked, and its drafts are done
/// with: those and no other.
pub proof fn applying_sends_the_rows(
    before: StateView,
    after: StateView,
    cmd: ExecutorCommand,
    id: Id,
    self_review: bool,
    verdicts: Vec<FixVerdict>,
    note: Seq<char>,
    prompt: Option<String>,
    key: (Id, Seq<char>),
)
    requires
        fixes_applied(before, after, cmd, id, self_review, verdicts, note, prompt),
    ensures
        card_of(cmd) == Some(id),
        self_review <==> cmd is ApplySelfFixes,
        !self_review <==> cmd is ApplyFixes,
        cmd is ApplyFixes ==> cmd->ApplyFixes_verdicts == verdicts && cmd->ApplyFixes_note@
            == trimmed(note) && cmd->ApplyFixes_prompt == prompt,
        cmd is ApplySelfFixes ==> cmd->ApplySelfFixes_verdicts == verdicts
            && cmd->ApplySelfFixes_note@ == trimmed(note) && cmd->ApplySelfFixes_prompt == prompt,
        after == (StateView { drafts: after.drafts, ..before }),
        key.0 != id ==> after.drafts.contains_key(key) == before.drafts.contains_key(key)
            && after.drafts[key] == before.drafts[key],
        !after.drafts.contains_key((id, "fixes.verdicts"@)),
        !after.drafts.contains_key((id, "fixes.task"@)),
        !after.drafts.contains_key((id, "fixes.note"@)),
{
}

/// Going on without fixes keeps the rows and throws the note and the task away.
pub proof fn skipping_keeps_the_rows(
    before: StateView,
    after: StateView,
    cmd: ExecutorCommand,
    id: Id,
    key: (Id, Seq<char>),
)
    requires
        fixes_skipped(before, after, cmd, id),
        key != (id, "fixes.note"@),
        key != (id, "fixes.task"@),
    ensures
        cmd is SkipToPr,
        card_of(cmd) == Some(id),
        after == (StateView { drafts: after.drafts, ..before }),
        after.drafts.contains_key(key) == before.drafts.contains_key(key),
        after.drafts[key] == before.drafts[key],
        !after.drafts.contains_key((id, "fixes.task"@)),
        !after.drafts.contains_key((id, "fixes.note"@)),
{
}

/// Looking again looks at the diff for a self-review and at the comments otherwise.
pub proof fn looking_again(s: AppState, id: Id, self_review: bool, r: ExecutorCommand)
    requires
        call_ensures(AppState::rerun_analysis, (&s, id, self_review), r),
    ensures
        card_of(r) == Some(id),
        self_review <==> r is SelfReview,
        !self_review <==> r is FetchComments,
{
}

/// The button says that nothing is applied exactly where the task is blank.
pub proof fn the_button_says_what_is_applied(
    self_review: bool,
    edited: Option<Seq<char>>,
    generated: Seq<char>,
    any: bool,
    note: bool,
)
    ensures
        ({
            let w = apply_words(self_review, edited, generated, any, note);
            let nothing = trimmed(task_text(edited, generated)).len() == 0;
            &&& nothing && self_review ==> w == "Continue without fixes"@
            &&& nothing && !self_review ==> w == "Ignore comments and continue"@
            &&& !nothing && edited is Some ==> w == "Apply your edited task"@
            &&& !nothing && edited is None && any && note ==> w == "Apply selected fixes & note"@
            &&& !nothing && edited is None && any && !note ==> w == "Apply selected fixes"@
            &&& !nothing && edited is None && !any ==> w == "Apply your note"@
        }),
{
    blank_is_empty_trim(task_text(edited, generated));
}

/// A finding stands at its place in a file; a review's own words stand at none.
pub proof fn a_row_stands_at_its_place(v: FixVerdict)
    ensures
        v.comment.review_body_of is None ==> starts(row_location(v), v.comment.path@),
        v.comment.review_body_of is None && v.comment.line is None ==> row_location(v)
            == v.comment.path@,
        v.comment.review_body_of is Some ==> row_location(v) == "PR review summary"@,
{
    if let Some(line) = v.comment.line {
        crate::diffview::a_place_is_a_path_and_a_line(v.comment.path@, line);
    } else {
        crate::text::parts_are_found(Seq::empty(), v.comment.path@, Seq::empty());
        assert(v.comment.path@ + Seq::<char>::empty() =~= v.comment.path@);
    }
}

} // verus!
