//! The conclusion of an investigation, and the ways on from it.

use vstd::prelude::*;

use crate::command::{card_of, ExecutorCommand};
use crate::diffview::{comment_location, location};
use crate::drafts::forget;
use crate::model::Id;
use crate::plan::{any_answered, combine, combined, some_answered, PlanQuestion};
use crate::state::{AppState, StateView};
use crate::text::{blank, blank_is_empty_trim, is_blank, trim, trimmed};

verus! {

/// Where a finding rests.
#[derive(Debug, Clone, PartialEq, Eq)]
pub struct Evidence {
    pub path: String,
    pub line: Option<u32>,
}

#[derive(Debug, Clone, PartialEq, Eq)]
pub struct Finding {
    pub claim: String,
    pub confidence: String,
    pub evidence: Vec<Evidence>,
}

/// What an investigation found, claim by claim.
#[derive(Debug, Clone, PartialEq, Eq)]
pub struct Findings {
    pub verdict: String,
    pub findings: Vec<Finding>,
    pub open_questions: Vec<String>,
}

/// There are findings to show beside the prose.
pub open spec fn claims(f: Option<Findings>) -> bool {
    f matches Some(f) && f.findings@.len() > 0
}

/// Whether the findings are shown: chosen, and there are any.
pub fn showing_findings(f: &Option<Findings>, chosen: bool) -> (r: bool)
    ensures
        r == (claims(*f) && chosen),
{
    match f {
        Some(f) => f.findings.len() > 0 && chosen,
        None => false,
    }
}

/// A piece of evidence as `path:line`, or its path alone.
pub fn evidence_label(e: &Evidence) -> (r: String)
    ensures
        r@ == location(e.path@, e.line),
{
    comment_location(e.path.as_str(), e.line)
}

/// An investigation has no diff, so a reference opens the file itself.
pub fn open_evidence(card_id: Id, path: String) -> (r: ExecutorCommand)
    ensures
        r == (ExecutorCommand::OpenPath { card_id, path }),
{
    ExecutorCommand::OpenPath { card_id, path }
}

/// There is something to look into: text, or an answer.
pub open spec fn asks_more(text: Seq<char>, answers: Seq<String>) -> bool {
    !blank(text) || some_answered(answers)
}

pub fn can_follow_up(text: &str, answers: &Vec<String>) -> (r: bool)
    ensures
        r == asks_more(text@, answers@),
{
    !is_blank(text) || any_answered(answers)
}

/// What following up sends, and what it does to the state.
pub open spec fn followed_up(
    before: StateView,
    after: StateView,
    sent: Option<ExecutorCommand>,
    card_id: Id,
    text: Seq<char>,
    questions: Seq<PlanQuestion>,
    answers: Seq<String>,
) -> bool {
    &&& asks_more(text, answers) ==> {
        &&& sent matches Some(ExecutorCommand::FollowUpInvestigation { card_id: id, feedback })
        &&& id == card_id
        &&& feedback@ == combined(questions, answers, some_answered(answers), trimmed(text))
        &&& after == (StateView {
            drafts: before.drafts.remove((card_id, "investigate.followup"@)).remove(
                (card_id, "investigate.answers"@),
            ),
            ..before
        })
    }
    &&& !asks_more(text, answers) ==> sent is None && after == before
}

impl AppState {
    /// Have the agent look further, with the answers and the text. Nothing is
    /// sent where there is nothing to send; otherwise both empty.
    pub fn follow_up(
        &mut self,
        card_id: Id,
        text: &str,
        questions: &Vec<PlanQuestion>,
        answers: &Vec<String>,
    ) -> (r: Option<ExecutorCommand>)
        ensures
            followed_up(old(self)@, final(self)@, r, card_id, text@, questions@, answers@),
    {
        if !can_follow_up(text, answers) {
            return None;
        }
        let feedback = combine(questions, answers, any_answered(answers), trim(text));
        forget(&mut self.drafts, card_id, "investigate.followup");
        forget(&mut self.drafts, card_id, "investigate.answers");
        Some(ExecutorCommand::FollowUpInvestigation { card_id, feedback })
    }

    /// Continue the card as an implementation that carries the findings.
    pub fn convert_to_implementation(&self, card_id: Id) -> (r: ExecutorCommand)
        ensures
            r == (ExecutorCommand::ConvertToImplementation { card_id }),
    {
        ExecutorCommand::ConvertToImplementation { card_id }
    }
}

// ---- Laws ----------------------------------------------------------------

/// There is something to follow up with where anything is typed or answered.
pub proof fn something_said_can_be_followed_up(text: Seq<char>, answers: Seq<String>)
    ensures
        asks_more(text, answers) <==> trimmed(text).len() > 0 || exists|i: int|
            0 <= i < answers.len() && trimmed((#[trigger] answers[i])@).len() > 0,
{
    blank_is_empty_trim(text);
    assert forall|i: int| 0 <= i < answers.len() implies (blank((#[trigger] answers[i])@) <==> trimmed(
        answers[i]@,
    ).len() == 0) by {
        blank_is_empty_trim(answers[i]@);
    }
}

/// Findings are shown where there are any and they were chosen; opening evidence and
/// going on to an implementation are about their card.
pub proof fn conclusions_do_their_own(
    f: Option<Findings>,
    chosen: bool,
    shown: bool,
    s: AppState,
    id: Id,
    path: String,
    opened: ExecutorCommand,
    converted: ExecutorCommand,
)
    requires
        call_ensures(showing_findings, (&f, chosen), shown),
        call_ensures(open_evidence, (id, path), opened),
        call_ensures(AppState::convert_to_implementation, (&s, id), converted),
    ensures
        shown <==> chosen && f is Some && f->0.findings@.len() > 0,
        card_of(opened) == Some(id) && (opened matches ExecutorCommand::OpenPath { path: p, .. }
            && p == path),
        card_of(converted) == Some(id) && converted is ConvertToImplementation,
{
}

/// A follow-up goes to its card once there is something to say: the answers where any was
/// given, then what was typed. What was typed for it is then forgotten, and nothing else.
pub proof fn a_follow_up_is_sent_and_forgotten(
    before: StateView,
    after: StateView,
    sent: Option<ExecutorCommand>,
    id: Id,
    text: Seq<char>,
    questions: Seq<PlanQuestion>,
    answers: Seq<String>,
    key: (Id, Seq<char>),
)
    requires
        followed_up(before, after, sent, id, text, questions, answers),
    ensures
        sent is Some <==> asks_more(text, answers),
        sent matches Some(cmd) ==> cmd is FollowUpInvestigation && card_of(cmd) == Some(id),
        sent is None ==> after == before,
        sent is Some && (forall|i: int|
            0 <= i < answers.len() ==> blank((#[trigger] answers[i])@))
            ==> sent->0->FollowUpInvestigation_feedback@ == trimmed(text),
        sent is Some ==> !after.drafts.contains_key((id, "investigate.followup"@))
            && !after.drafts.contains_key((id, "investigate.answers"@)),
        after == (StateView { drafts: after.drafts, ..before }),
        key != (id, "investigate.followup"@) && key != (id, "investigate.answers"@)
            ==> after.drafts.contains_key(key) == before.drafts.contains_key(key)
            && after.drafts[key] == before.drafts[key],
{
}

} // verus!
