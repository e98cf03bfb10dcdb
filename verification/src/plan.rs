//! The plan up for approval, and the questions an agent asks along with it.

use vstd::prelude::*;

use crate::chat::chat_sent;
use crate::command::ExecutorCommand;
use crate::drafts::forget;
use crate::lists::joined_contains;
use crate::model::Id;
use crate::state::{AppState, StateView};
use crate::text::{
    blank, blank_is_empty_trim, cat3, decimal, decimal_text, ends, is_blank, parts_are_found,
    starts, trim, trimmed, within,
};

verus! {

// ---- Questions and answers -----------------------------------------------

/// A question with the answers it offers.
#[derive(Debug, Clone, PartialEq, Eq)]
pub struct PlanQuestion {
    pub question: String,
    pub options: Vec<String>,
}

/// The answer to the `i`th question, or nothing where there is none.
pub open spec fn answer_at(answers: Seq<String>, i: int) -> Seq<char> {
    if 0 <= i < answers.len() {
        trimmed(answers[i]@)
    } else {
        Seq::empty()
    }
}

/// One answered question. A question left open is left to the agent.
pub open spec fn answer_line(i: int, question: Seq<char>, answer: Seq<char>) -> Seq<char> {
    decimal((i + 1) as nat) + ". "@ + question + " → "@ + (if answer.len() == 0 {
        "(no preference — you decide)"@
    } else {
        answer
    }) + "\n"@
}

/// The answers to the first `n` questions.
pub open spec fn answer_lines(
    questions: Seq<PlanQuestion>,
    answers: Seq<String>,
    n: int,
) -> Seq<char>
    decreases n,
{
    if n <= 0 {
        Seq::empty()
    } else {
        answer_lines(questions, answers, n - 1) + answer_line(
            n - 1,
            questions[n - 1].question@,
            answer_at(answers, n - 1),
        )
    }
}

/// The answers as feedback to plan, or look, again with.
pub open spec fn answers_feedback(questions: Seq<PlanQuestion>, answers: Seq<String>) -> Seq<char> {
    "Here are my answers to your questions:\n"@ + answer_lines(
        questions,
        answers,
        questions.len() as int,
    ) + "\nPlease update the plan to reflect these decisions."@
}

pub fn build_answers_feedback(questions: &Vec<PlanQuestion>, answers: &Vec<String>) -> (r: String)
    ensures
        r@ == answers_feedback(questions@, answers@),
{
    let mut s = "Here are my answers to your questions:\n".to_owned();
    let ghost head = s@;
    let mut i: usize = 0;
    assert(head + answer_lines(questions@, answers@, 0) =~= head);
    while i < questions.len()
        invariant
            i <= questions.len(),
            s@ == head + answer_lines(questions@, answers@, i as int),
        decreases questions.len() - i,
    {
        let own = if i < answers.len() {
            trim(answers[i].as_str())
        } else {
            let none = String::new();
            assert(none@ =~= answer_at(answers@, i as int));
            none
        };
        let n = decimal_text(i as u64 + 1);
        let ghost before = s@;
        s.append(n.as_str());
        s.append(". ");
        s.append(questions[i].question.as_str());
        s.append(" → ");
        if own.as_str().is_empty() {
            s.append("(no preference — you decide)");
        } else {
            s.append(own.as_str());
        }
        s.append("\n");
        assert(s@ =~= before + answer_line(
            i as int,
            questions@[i as int].question@,
            answer_at(answers@, i as int),
        ));
        i += 1;
        assert(s@ =~= head + answer_lines(questions@, answers@, i as int));
    }
    s.append("\nPlease update the plan to reflect these decisions.");
    assert(s@ =~= answers_feedback(questions@, answers@));
    s
}

pub open spec fn every_answered(answers: Seq<String>) -> bool {
    forall|i: int| 0 <= i < answers.len() ==> !blank((#[trigger] answers[i])@)
}

pub open spec fn some_answered(answers: Seq<String>) -> bool {
    exists|i: int| 0 <= i < answers.len() && !blank((#[trigger] answers[i])@)
}

pub fn all_answered(answers: &Vec<String>) -> (r: bool)
    ensures
        r == every_answered(answers@),
{
    let mut i: usize = 0;
    while i < answers.len()
        invariant
            i <= answers.len(),
            forall|j: int| 0 <= j < i ==> !blank((#[trigger] answers@[j])@),
        decreases answers.len() - i,
    {
        if is_blank(answers[i].as_str()) {
            assert(!every_answered(answers@));
            return false;
        }
        i += 1;
    }
    true
}

pub fn any_answered(answers: &Vec<String>) -> (r: bool)
    ensures
        r == some_answered(answers@),
{
    let mut i: usize = 0;
    while i < answers.len()
        invariant
            i <= answers.len(),
            forall|j: int| 0 <= j < i ==> blank((#[trigger] answers@[j])@),
        decreases answers.len() - i,
    {
        if !is_blank(answers[i].as_str()) {
            return true;
        }
        i += 1;
    }
    false
}

/// The answers a list of questions starts with: none.
pub fn blank_answers(n: usize) -> (r: Vec<String>)
    ensures
        r@.len() == n,
        forall|i: int| 0 <= i < n ==> (#[trigger] r@[i])@ == Seq::<char>::empty(),
{
    let mut v: Vec<String> = Vec::new();
    let mut i: usize = 0;
    while i < n
        invariant
            i <= n,
            v@.len() == i,
            forall|j: int| 0 <= j < i ==> (#[trigger] v@[j])@ == Seq::<char>::empty(),
        decreases n - i,
    {
        v.push(String::new());
        i += 1;
    }
    v
}

/// Pick an option, or type an answer, for one question. Nothing happens for a
/// question that is not there.
pub fn set_answer(answers: &mut Vec<String>, i: usize, text: String)
    ensures
        i < old(answers)@.len() ==> final(answers)@ == old(answers)@.update(i as int, text),
        i >= old(answers)@.len() ==> final(answers)@ == old(answers)@,
{
    if i < answers.len() {
        answers.set(i, text);
    }
}

/// The answers, where any is given, and the text in one: neither is lost.
pub open spec fn combined(
    questions: Seq<PlanQuestion>,
    answers: Seq<String>,
    answered: bool,
    text: Seq<char>,
) -> Seq<char> {
    if answered {
        if text.len() == 0 {
            answers_feedback(questions, answers)
        } else {
            answers_feedback(questions, answers) + "\n\n"@ + text
        }
    } else {
        text
    }
}

pub fn combine(
    questions: &Vec<PlanQuestion>,
    answers: &Vec<String>,
    answered: bool,
    text: String,
) -> (r: String)
    ensures
        r@ == combined(questions@, answers@, answered, text@),
{
    if answered {
        let fb = build_answers_feedback(questions, answers);
        if text.as_str().is_empty() {
            fb
        } else {
            cat3(fb.as_str(), "\n\n", text.as_str())
        }
    } else {
        text
    }
}

/// What goes back with a plan: the answers to its questions, and the text.
pub open spec fn sent_back(
    questions: Seq<PlanQuestion>,
    answers: Seq<String>,
    text: Seq<char>,
) -> Seq<char> {
    combined(questions, answers, questions.len() > 0 && some_answered(answers), trimmed(text))
}

// ---- Approval ------------------------------------------------------------

/// What the approval panel says.
#[derive(Debug, Clone, Copy, PartialEq, Eq)]
pub struct PlanFace {
    /// A plan is approved only once the agent asks nothing more.
    pub can_approve: bool,
    pub request_label: &'static str,
    pub request_label_nonblank: Option<&'static str>,
    /// The answers alone can be sent.
    pub when_blank: bool,
    pub chat_hint: &'static str,
}

pub fn plan_face(questions: &Vec<PlanQuestion>, answers: &Vec<String>) -> (r: PlanFace)
    ensures
        ({
            let complete = questions@.len() > 0 && every_answered(answers@);
            &&& r.can_approve == (questions@.len() == 0)
            &&& r.when_blank == complete
            &&& r.request_label@ == (if complete {
                "Send answers"@
            } else {
                "Request changes"@
            })
            &&& complete ==> r.request_label_nonblank is Some && r.request_label_nonblank->0@
                == "Send answers & feedback"@
            &&& !complete ==> r.request_label_nonblank is None
            &&& r.chat_hint@ == (if questions@.len() > 0 {
                "Answer the questions above and/or type below, then request changes to send the plan back — or ask the agent a question about its plan without re-planning."@
            } else {
                "Request changes to send the plan back to design, or ask the agent a question about its plan without re-planning."@
            })
        }),
{
    let has_questions = questions.len() > 0;
    let complete = has_questions && all_answered(answers);
    PlanFace {
        can_approve: !has_questions,
        request_label: if complete {
            "Send answers"
        } else {
            "Request changes"
        },
        request_label_nonblank: if complete {
            Some("Send answers & feedback")
        } else {
            None
        },
        when_blank: complete,
        chat_hint: if has_questions {
            "Answer the questions above and/or type below, then request changes to send the plan back — or ask the agent a question about its plan without re-planning."
        } else {
            "Request changes to send the plan back to design, or ask the agent a question about its plan without re-planning."
        },
    }
}

impl AppState {
    /// Send the plan back with the answers and the text of the chat box. Nothing
    /// is sent while there is neither text nor an answer to every question;
    /// otherwise the box and the answers empty.
    pub fn send_plan_back(
        &mut self,
        card_id: Id,
        text: &str,
        questions: &Vec<PlanQuestion>,
        answers: &Vec<String>,
    ) -> (r: Option<ExecutorCommand>)
        ensures
            ({
                let complete = questions@.len() > 0 && every_answered(answers@);
                let passes = !blank(text@) || complete;
                let sends = passes && sent_back(questions@, answers@, text@).len() > 0;
                &&& sends ==> {
                    &&& r matches Some(ExecutorCommand::RejectPlan { card_id: id, feedback })
                    &&& id == card_id
                    &&& feedback@ == sent_back(questions@, answers@, text@)
                    &&& final(self)@ == (StateView {
                        drafts: chat_sent(old(self)@, card_id).drafts.remove(
                            (card_id, "plan.answers"@),
                        ),
                        ..old(self)@
                    })
                }
                &&& !sends ==> r is None
                &&& !passes ==> final(self)@ == old(self)@
                &&& passes && !sends ==> final(self)@ == chat_sent(old(self)@, card_id)
            }),
    {
        let complete = questions.len() > 0 && all_answered(answers);
        match self.send_request(card_id, text, complete) {
            None => None,
            Some(t) => {
                let answered = questions.len() > 0 && any_answered(answers);
                let feedback = combine(questions, answers, answered, t);
                if feedback.as_str().is_empty() {
                    None
                } else {
                    forget(&mut self.drafts, card_id, "plan.answers");
                    Some(ExecutorCommand::RejectPlan { card_id, feedback })
                }
            },
        }
    }
}

/// Whatever the panel lets through is sent: text, or an answer to every one of
/// a list of questions.
pub proof fn a_request_is_never_empty(
    questions: Seq<PlanQuestion>,
    answers: Seq<String>,
    text: Seq<char>,
)
    requires
        answers.len() == questions.len(),
        !blank(text) || (questions.len() > 0 && every_answered(answers)),
    ensures
        sent_back(questions, answers, text).len() > 0,
{
    crate::text::blank_is_empty_trim(text);
    reveal_strlit("Here are my answers to your questions:\n");
    if questions.len() > 0 && every_answered(answers) {
        assert(!blank(answers[0]@));
        assert(some_answered(answers));
    }
}

// ---- The outline ---------------------------------------------------------

#[derive(Debug, Clone, PartialEq, Eq)]
pub struct PlanStep {
    pub title: String,
    pub detail: String,
    pub files: Vec<String>,
}

/// The agent's own outline of its plan.
#[derive(Debug, Clone, PartialEq, Eq)]
pub struct PlanOutline {
    pub tldr: Vec<String>,
    pub steps: Vec<PlanStep>,
    pub files: Vec<String>,
    pub verification: Vec<String>,
    pub risks: Vec<String>,
}

/// The panel's sections, in reading order.
#[derive(Debug, Clone, Copy, PartialEq, Eq, Structural)]
pub enum PlanTab {
    Plan,
    Steps,
    Files,
    Verify,
}

/// The prose plan is always there; the rest only where the outline has it.
pub open spec fn holds(tab: PlanTab, outline: Option<PlanOutline>) -> bool {
    match (tab, outline) {
        (PlanTab::Plan, _) => true,
        (_, None) => false,
        (PlanTab::Steps, Some(o)) => o.steps@.len() > 0,
        (PlanTab::Files, Some(o)) => o.files@.len() > 0,
        (PlanTab::Verify, Some(o)) => o.verification@.len() > 0 || o.risks@.len() > 0,
    }
}

pub open spec fn tab_when(c: bool, t: PlanTab) -> Seq<PlanTab> {
    if c {
        seq![t]
    } else {
        Seq::empty()
    }
}

/// The tabs that have something to show.
pub open spec fn plan_tabs(outline: Option<PlanOutline>) -> Seq<PlanTab> {
    seq![PlanTab::Plan] + tab_when(holds(PlanTab::Steps, outline), PlanTab::Steps) + tab_when(
        holds(PlanTab::Files, outline),
        PlanTab::Files,
    ) + tab_when(holds(PlanTab::Verify, outline), PlanTab::Verify)
}

impl PlanTab {
    pub fn label(self) -> (r: &'static str)
        ensures
            r@ == (match self {
                PlanTab::Plan => "Plan"@,
                PlanTab::Steps => "Steps"@,
                PlanTab::Files => "Files"@,
                PlanTab::Verify => "Verify"@,
            }),
    {
        match self {
            PlanTab::Plan => "Plan",
            PlanTab::Steps => "Steps",
            PlanTab::Files => "Files",
            PlanTab::Verify => "Verify",
        }
    }

    pub fn has_content(self, outline: &Option<PlanOutline>) -> (r: bool)
        ensures
            r == holds(self, *outline),
    {
        match (self, outline) {
            (PlanTab::Plan, _) => true,
            (_, None) => false,
            (PlanTab::Steps, Some(o)) => o.steps.len() > 0,
            (PlanTab::Files, Some(o)) => o.files.len() > 0,
            (PlanTab::Verify, Some(o)) => o.verification.len() > 0 || o.risks.len() > 0,
        }
    }
}

fn push_tab(v: &mut Vec<PlanTab>, c: bool, t: PlanTab)
    ensures
        final(v)@ == old(v)@ + tab_when(c, t),
{
    if c {
        v.push(t);
        assert(v@ =~= old(v)@ + tab_when(c, t));
    } else {
        assert(v@ =~= old(v)@ + tab_when(c, t));
    }
}

pub fn visible_tabs(outline: &Option<PlanOutline>) -> (r: Vec<PlanTab>)
    ensures
        r@ == plan_tabs(*outline),
{
    let mut v: Vec<PlanTab> = Vec::new();
    v.push(PlanTab::Plan);
    assert(v@ =~= seq![PlanTab::Plan]);
    push_tab(&mut v, PlanTab::Steps.has_content(outline), PlanTab::Steps);
    push_tab(&mut v, PlanTab::Files.has_content(outline), PlanTab::Files);
    push_tab(&mut v, PlanTab::Verify.has_content(outline), PlanTab::Verify);
    v
}

/// The tab shown: the one chosen while it has something to show, the plan
/// otherwise.
pub fn shown_tab(outline: &Option<PlanOutline>, active: PlanTab) -> (r: PlanTab)
    ensures
        r == (if holds(active, *outline) {
            active
        } else {
            PlanTab::Plan
        }),
{
    if active.has_content(outline) {
        active
    } else {
        PlanTab::Plan
    }
}

// ---- Laws ----------------------------------------------------------------

/// Every question is sent with its number and its answer, or the word that there is no
/// preference where the answer was left blank.
pub proof fn every_answer_is_sent(questions: Seq<PlanQuestion>, answers: Seq<String>, i: int)
    requires
        0 <= i < questions.len(),
    ensures
        i < answers.len() && !blank(answers[i]@) ==> within(
            answers_feedback(questions, answers),
            decimal((i + 1) as nat) + ". "@ + questions[i].question@ + " → "@ + trimmed(
                answers[i]@,
            ) + "\n"@,
        ),
        i >= answers.len() || blank(answers[i]@) ==> within(
            answers_feedback(questions, answers),
            decimal((i + 1) as nat) + ". "@ + questions[i].question@
                + " → "@ + "(no preference — you decide)"@ + "\n"@,
        ),
{
    if i < answers.len() {
        blank_is_empty_trim(answers[i]@);
    }
    let line = answer_line(i, questions[i].question@, answer_at(answers, i));
    let (before, after) = lines_hold(questions, answers, i, questions.len() as int);
    let head = "Here are my answers to your questions:\n"@;
    let tail = "\nPlease update the plan to reflect these decisions."@;
    parts_are_found(head + before, line, after + tail);
    assert(head + before + line + (after + tail) =~= head + (before + line + after) + tail);
}

proof fn lines_hold(questions: Seq<PlanQuestion>, answers: Seq<String>, i: int, n: int) -> (r: (
    Seq<char>,
    Seq<char>,
))
    requires
        0 <= i < n,
    ensures
        answer_lines(questions, answers, n) == r.0 + answer_line(
            i,
            questions[i].question@,
            answer_at(answers, i),
        ) + r.1,
    decreases n,
{
    let line = answer_line(i, questions[i].question@, answer_at(answers, i));
    let before = answer_lines(questions, answers, n - 1);
    if i == n - 1 {
        assert(before + line =~= before + line + Seq::<char>::empty());
        (before, Seq::empty())
    } else {
        let (a, b) = lines_hold(questions, answers, i, n - 1);
        let last = answer_line(
            n - 1,
            questions[n - 1].question@,
            answer_at(answers, n - 1),
        );
        assert(a + line + b + last =~= a + line + (b + last));
        (a, b + last)
    }
}

/// What is sent back holds the answers where any was given, then what was typed; without
/// answers it is what was typed.
pub proof fn what_is_sent_back(questions: Seq<PlanQuestion>, answers: Seq<String>, text: Seq<char>)
    ensures
        ({
            let back = sent_back(questions, answers, text);
            let given = questions.len() > 0 && exists|i: int|
                0 <= i < answers.len() && !blank((#[trigger] answers[i])@);
            &&& !given ==> back == trimmed(text)
            &&& given ==> starts(back, answers_feedback(questions, answers))
            &&& given && !blank(text) ==> ends(back, trimmed(text)) && back.len()
                == answers_feedback(questions, answers).len() + 2 + trimmed(text).len()
            &&& given && blank(text) ==> back == answers_feedback(questions, answers)
        }),
{
    blank_is_empty_trim(text);
    let said = answers_feedback(questions, answers);
    reveal_strlit("\n\n");
    assert(said + "\n\n"@ + trimmed(text) =~= said + ("\n\n"@ + trimmed(text)));
    parts_are_found(Seq::empty(), said, "\n\n"@ + trimmed(text));
    parts_are_found(said + "\n\n"@, trimmed(text), Seq::empty());
    parts_are_found(Seq::empty(), said, Seq::empty());
    assert(said + Seq::<char>::empty() =~= said);
}

/// A tab is there exactly where it holds something; the plan itself always is. The tab
/// shown is one that is there, the chosen one if it can be.
pub proof fn a_tab_has_its_place(
    outline: Option<PlanOutline>,
    t: PlanTab,
    active: PlanTab,
    shown: PlanTab,
)
    requires
        call_ensures(shown_tab, (&outline, active), shown),
    ensures
        plan_tabs(outline).contains(t) <==> (match t {
            PlanTab::Plan => true,
            PlanTab::Steps => outline is Some && outline->0.steps@.len() > 0,
            PlanTab::Files => outline is Some && outline->0.files@.len() > 0,
            PlanTab::Verify => outline is Some && (outline->0.verification@.len() > 0
                || outline->0.risks@.len() > 0),
        }),
        plan_tabs(outline).contains(shown),
        plan_tabs(outline).contains(active) ==> shown == active,
{
    tab_in(outline, t);
    tab_in(outline, active);
    tab_in(outline, shown);
}

proof fn tab_in(outline: Option<PlanOutline>, t: PlanTab)
    ensures
        plan_tabs(outline).contains(t) == holds(t, outline),
{
    let t0 = seq![PlanTab::Plan];
    let t1 = t0 + tab_when(holds(PlanTab::Steps, outline), PlanTab::Steps);
    let t2 = t1 + tab_when(holds(PlanTab::Files, outline), PlanTab::Files);
    one_tab(t2, holds(PlanTab::Verify, outline), PlanTab::Verify, t);
    one_tab(t1, holds(PlanTab::Files, outline), PlanTab::Files, t);
    one_tab(t0, holds(PlanTab::Steps, outline), PlanTab::Steps, t);
    assert(t0[0] == PlanTab::Plan);
}

proof fn one_tab(s: Seq<PlanTab>, c: bool, t: PlanTab, x: PlanTab)
    ensures
        (s + tab_when(c, t)).contains(x) == (s.contains(x) || (c && t == x)),
{
    joined_contains(s, tab_when(c, t), x);
    if c {
        assert(tab_when(c, t)[0] == t);
    }
}

/// A plan can be approved exactly where it asks nothing.
pub proof fn open_questions_hold_the_plan(
    questions: Vec<PlanQuestion>,
    answers: Vec<String>,
    r: PlanFace,
)
    requires
        call_ensures(plan_face, (&questions, &answers), r),
    ensures
        r.can_approve <==> questions@.len() == 0,
        r.when_blank ==> questions@.len() > 0 && forall|i: int|
            0 <= i < answers@.len() ==> trimmed((#[trigger] answers@[i])@).len() > 0,
        r.request_label_nonblank is Some <==> r.when_blank,
{
    assert forall|i: int| r.when_blank && 0 <= i < answers@.len() implies trimmed(
        (#[trigger] answers@[i])@,
    ).len() > 0 by {
        blank_is_empty_trim(answers@[i]@);
    }
}

} // verus!
