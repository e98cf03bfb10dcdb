//! The agent chat: one text box, two ways to send it.

use vstd::prelude::*;

use crate::command::ExecutorCommand;
use crate::drafts::forget;
use crate::markdown::{join, join_text, texts};
use crate::model::{beneath, CardState, DesignSub, Id, PrReviewSub, ReviewSub};
use crate::state::{AppState, StateView};
use crate::text::{
    blank, cat2, chars_of, is_blank, is_white, string_of, trim, trimmed, white,
};

verus! {

// ---- One line for a text -------------------------------------------------

/// The runs of a text between its white space.
pub open spec fn words(s: Seq<char>) -> Seq<Seq<char>>
    decreases s.len(),
{
    if s.len() == 0 {
        Seq::empty()
    } else {
        let before = words(s.drop_last());
        let c = s.last();
        if white(c) {
            before
        } else if s.len() > 1 && !white(s[s.len() - 2]) {
            before.drop_last().push(before.last().push(c))
        } else {
            before.push(seq![c])
        }
    }
}

/// A text on one line: its words, one blank apart.
pub open spec fn flat(s: Seq<char>) -> Seq<char> {
    join(words(s), " "@)
}

/// The label of a folded text: its one line, cut where it runs long. A text of
/// nothing has a neutral label.
pub open spec fn summary(s: Seq<char>) -> Seq<char> {
    let f = flat(s);
    if f.len() == 0 {
        "Answer"@
    } else if f.len() > 90 {
        f.take(89) + "…"@
    } else {
        f
    }
}

fn split_words(s: &str) -> (r: Vec<String>)
    ensures
        texts(r@) == words(s@),
{
    let cs = chars_of(s);
    let mut out: Vec<String> = Vec::new();
    let mut i: usize = 0;
    assert(texts(out@) =~= words(cs@.take(0)));
    while i < cs.len()
        invariant
            i <= cs.len(),
            texts(out@) == words(cs@.take(i as int)),
            i > 0 && !white(cs@[i - 1]) ==> out@.len() > 0,
        decreases cs.len() - i,
    {
        let c = cs[i];
        let ghost before = out@;
        assert(cs@.take(i + 1).drop_last() =~= cs@.take(i as int));
        if !is_white(c) {
            if i > 0 && !is_white(cs[i - 1]) {
                let mut last = out.pop().unwrap();
                last.push(c);
                out.push(last);
                assert(texts(out@) =~= texts(before).drop_last().push(texts(before).last().push(c)));
            } else {
                let mut word = String::new();
                word.push(c);
                out.push(word);
                assert(word@ =~= seq![c]);
                assert(texts(out@) =~= texts(before).push(seq![c]));
            }
        }
        i += 1;
    }
    assert(cs@.take(i as int) =~= cs@);
    out
}

pub fn summary_line(question: &str) -> (r: String)
    ensures
        r@ == summary(question@),
{
    let ws = split_words(question);
    let one = join_text(&ws, " ");
    if one.as_str().is_empty() {
        return "Answer".to_owned();
    }
    let cs = chars_of(one.as_str());
    if cs.len() > 90 {
        let head = vstd::slice::slice_subrange(cs.as_slice(), 0, 89);
        assert(head@ =~= one@.take(89));
        let start = string_of(head);
        cat2(start.as_str(), "…")
    } else {
        one
    }
}

/// A text with no white space but blanks.
pub open spec fn on_one_line(s: Seq<char>) -> bool {
    forall|i: int| 0 <= i < s.len() ==> (#[trigger] s[i] == ' ' || !white(s[i]))
}

/// A label is one line of at most ninety characters, whatever the text is, and
/// never empty.
pub proof fn labels_are_short_lines(s: Seq<char>)
    ensures
        on_one_line(summary(s)),
        0 < summary(s).len() <= 90,
{
    reveal_strlit("Answer");
    reveal_strlit("…");
    words_are_solid(s);
    join_is_tidy(words(s));
}

/// A text of one line as [`flat`] leaves it: no white space but single blanks, and
/// none at the start.
spec fn tidy(s: Seq<char>) -> bool {
    &&& on_one_line(s)
    &&& s.len() > 0 ==> !white(s[0])
    &&& forall|i: int| 0 < i < s.len() && white(#[trigger] s[i]) ==> !white(s[i - 1])
}

/// A word: not empty, and without white space.
spec fn solid(w: Seq<char>) -> bool {
    w.len() > 0 && forall|i: int| 0 <= i < w.len() ==> !white(#[trigger] w[i])
}

proof fn words_are_solid(s: Seq<char>)
    ensures
        forall|k: int| 0 <= k < words(s).len() ==> solid(#[trigger] words(s)[k]),
        s.len() > 0 && !white(s.last()) ==> words(s).len() > 0,
    decreases s.len(),
{
    if s.len() > 0 {
        let before = words(s.drop_last());
        let c = s.last();
        let all = words(s);
        words_are_solid(s.drop_last());
        assert forall|k: int| 0 <= k < all.len() implies solid(#[trigger] all[k]) by {
            if white(c) {
            } else if s.len() > 1 && !white(s[s.len() - 2]) {
                assert(s.drop_last().last() == s[s.len() - 2]);
                if k < before.len() - 1 {
                    assert(all[k] == before[k]);
                } else {
                    assert(solid(before[before.len() - 1]));
                    assert(all[k] == before.last().push(c));
                }
            } else if k < before.len() {
                assert(all[k] == before[k]);
            } else {
                assert(all[k] == seq![c]);
            }
        }
    }
}

proof fn join_is_tidy(lines: Seq<Seq<char>>)
    requires
        forall|k: int| 0 <= k < lines.len() ==> solid(#[trigger] lines[k]),
    ensures
        tidy(join(lines, " "@)),
        lines.len() > 0 ==> join(lines, " "@).len() > 0 && !white(join(lines, " "@).last()),
    decreases lines.len(),
{
    reveal_strlit(" ");
    if lines.len() > 1 {
        assert forall|k: int| 0 <= k < lines.drop_last().len() implies solid(
            #[trigger] lines.drop_last()[k],
        ) by {
            assert(solid(lines[k]));
        }
        join_is_tidy(lines.drop_last());
        let head = join(lines.drop_last(), " "@);
        let word = lines.last();
        let all = join(lines, " "@);
        assert(solid(lines[lines.len() - 1]));
        assert forall|i: int| 0 <= i < all.len() implies (#[trigger] all[i] == ' ' || !white(
            all[i],
        )) && (i > 0 && white(all[i]) ==> !white(all[i - 1])) by {
            if i < head.len() {
                assert(all[i] == head[i]);
                if i > 0 {
                    assert(all[i - 1] == head[i - 1]);
                }
            } else if i == head.len() {
                assert(all[i - 1] == head[i - 1]);
            } else {
                assert(all[i] == word[i - head.len() - 1]);
            }
        }
        assert(all.last() == word[word.len() - 1]);
        assert(all[0] == head[0]);
    } else if lines.len() == 1 {
        assert(solid(lines[0]));
    }
}

/// The words of a tidy line, put together again.
proof fn tidy_words(s: Seq<char>)
    requires
        tidy(s),
    ensures
        flat(s) == (if s.len() > 0 && white(s.last()) {
            s.drop_last()
        } else {
            s
        }),
    decreases s.len(),
{
    reveal_strlit(" ");
    if s.len() > 0 {
        let head = s.drop_last();
        let c = s.last();
        let before = words(head);
        assert(tidy(head)) by {
            assert forall|i: int| 0 <= i < head.len() implies (#[trigger] head[i] == ' '
                || !white(head[i])) && (i > 0 && white(head[i]) ==> !white(head[i - 1])) by {
                assert(head[i] == s[i]);
                if i > 0 {
                    assert(head[i - 1] == s[i - 1]);
                }
            }
        }
        tidy_words(head);
        words_are_solid(head);
        if white(c) {
            assert(s[s.len() - 1] == c);
            assert(head.last() == s[s.len() - 2]);
        } else if s.len() > 1 && !white(s[s.len() - 2]) {
            assert(head.last() == s[s.len() - 2]);
            let all = before.drop_last().push(before.last().push(c));
            assert(all.drop_last() =~= before.drop_last());
            assert(join(all, " "@) =~= join(before, " "@).push(c));
            assert(head.push(c) =~= s);
        } else if s.len() > 1 {
            assert(head.last() == s[s.len() - 2]);
            assert(head.last() == ' ');
            assert(head.drop_last().len() > 0) by {
                if s.len() == 2 {
                    assert(s[0] == head.last());
                }
            }
            assert(before.len() > 0);
            assert(before.push(seq![c]).drop_last() =~= before);
            assert(flat(s) =~= s);
        } else {
            assert(before.push(seq![c]) =~= seq![seq![c]]);
            assert(s =~= seq![c]);
        }
    }
}

/// A label is its own label: reading one again changes nothing.
pub proof fn labels_are_stable(s: Seq<char>)
    ensures
        summary(summary(s)) == summary(s),
{
    let f = flat(s);
    let label = summary(s);
    reveal_strlit("Answer");
    reveal_strlit("…");
    labels_are_short_lines(s);
    words_are_solid(s);
    join_is_tidy(words(s));
    assert(tidy(label)) by {
        assert forall|i: int| 0 < i < label.len() && white(#[trigger] label[i]) implies !white(
            label[i - 1],
        ) by {
            if f.len() > 0 {
                assert(label[i] == f[i]);
                assert(label[i - 1] == f[i - 1]);
            }
        }
        if f.len() > 0 {
            assert(label[0] == f[0]);
        }
    }
    assert(!white(label.last()));
    tidy_words(label);
}

// ---- Where the chat shows ------------------------------------------------

/// The states whose panel has a chat box: those where the agent waits for the
/// user's word, whatever wraps them.
pub open spec fn chats(s: CardState) -> bool {
    match beneath(s) {
        CardState::Designing(DesignSub::AwaitingApproval { .. }) => true,
        CardState::AwaitingReview(ReviewSub::ReadyForReview) => true,
        CardState::AwaitingReview(ReviewSub::SelectingFixes { .. }) => true,
        CardState::AwaitingReview(ReviewSub::ValidationFailed { .. }) => true,
        CardState::AwaitingReview(ReviewSub::ReadyForPr) => true,
        CardState::PrReview(PrReviewSub::Idle) => true,
        CardState::ReadyToMerge => true,
        _ => false,
    }
}

pub fn renders_chat(state: &CardState) -> (r: bool)
    ensures
        r == chats(*state),
{
    match state.effective() {
        CardState::Designing(DesignSub::AwaitingApproval { .. }) => true,
        CardState::AwaitingReview(ReviewSub::ReadyForReview) => true,
        CardState::AwaitingReview(ReviewSub::SelectingFixes { .. }) => true,
        CardState::AwaitingReview(ReviewSub::ValidationFailed { .. }) => true,
        CardState::AwaitingReview(ReviewSub::ReadyForPr) => true,
        CardState::PrReview(PrReviewSub::Idle) => true,
        CardState::ReadyToMerge => true,
        _ => false,
    }
}

/// A terminal state: nothing there can ever read an attachment.
pub open spec fn terminal(s: CardState) -> bool {
    beneath(s) is Done || beneath(s) is MergedWithoutReview
}

/// Whether the panel has its own attachments section: not where the chat box
/// carries it, and not where nothing reads it.
pub open spec fn attaches_on_top(s: CardState) -> bool {
    !chats(s) && !terminal(s)
}

pub fn attachments_on_top(state: &CardState) -> (r: bool)
    ensures
        r == attaches_on_top(*state),
{
    !renders_chat(state) && !matches!(
        state.effective(),
        CardState::Done | CardState::MergedWithoutReview { .. }
    )
}

/// A fault or a question leaves the chat box where it was.
pub proof fn wrappers_keep_the_chat(s: CardState, text: String)
    ensures
        chats(CardState::Failed { message: text, previous: Box::new(s) }) == chats(s),
        chats(CardState::Answering { question: text, previous: Box::new(s) }) == chats(s),
{
}

/// A card that is not finished can always be given an attachment, in exactly
/// one place.
pub proof fn one_place_to_attach(s: CardState)
    ensures
        !terminal(s) ==> chats(s) != attaches_on_top(s),
        terminal(s) ==> !chats(s) && !attaches_on_top(s),
{
}

// ---- Sending -------------------------------------------------------------

/// The label of the request button: its own while the box is blank, and one for
/// text where there is one.
pub open spec fn request_words(
    is_blank: bool,
    label: Option<Seq<char>>,
    label_nonblank: Option<Seq<char>>,
) -> Seq<char> {
    match (is_blank, label_nonblank) {
        (false, Some(l)) => l,
        _ => match label {
            Some(l) => l,
            None => "Request changes"@,
        },
    }
}

pub fn request_label(
    is_blank: bool,
    label: Option<&'static str>,
    label_nonblank: Option<&'static str>,
) -> (r: &'static str)
    ensures
        r@ == request_words(
            is_blank,
            match label {
                Some(l) => Some(l@),
                None => None,
            },
            match label_nonblank {
                Some(l) => Some(l@),
                None => None,
            },
        ),
{
    if !is_blank {
        if let Some(l) = label_nonblank {
            return l;
        }
    }
    match label {
        Some(l) => l,
        None => "Request changes",
    }
}

pub fn request_title(title: Option<&'static str>) -> (r: &'static str)
    ensures
        r@ == (match title {
            Some(t) => t@,
            None => "Sends the work back to the agent with this text"@,
        }),
{
    match title {
        Some(t) => t,
        None => "Sends the work back to the agent with this text",
    }
}

/// Only the newest exchange is open, and not once a later run went past it.
pub fn exchange_open(age: usize, superseded: bool) -> (r: bool)
    ensures
        r == (age == 0 && !superseded),
{
    age == 0 && !superseded
}

/// The state with the chat box emptied.
pub open spec fn chat_sent(s: StateView, card_id: Id) -> StateView {
    StateView { drafts: s.drafts.remove((card_id, "chat"@)), ..s }
}

impl AppState {
    /// Send the box as a request: the text to act on. A blank box is not sent,
    /// unless the panel has something else to send with it. The box empties.
    pub fn send_request(&mut self, card_id: Id, text: &str, when_blank: bool) -> (r: Option<String>)
        ensures
            !blank(text@) || when_blank ==> r is Some && r->0@ == trimmed(text@) && final(self)@
                == chat_sent(old(self)@, card_id),
            blank(text@) && !when_blank ==> r is None && final(self)@ == old(self)@,
    {
        if is_blank(text) && !when_blank {
            return None;
        }
        forget(&mut self.drafts, card_id, "chat");
        Some(trim(text))
    }

    /// Send the box as a question, which changes nothing but the answer shown.
    /// A blank box is not sent. The box empties.
    pub fn ask_question(&mut self, card_id: Id, text: &str) -> (r: Option<ExecutorCommand>)
        ensures
            blank(text@) ==> r is None && final(self)@ == old(self)@,
            !blank(text@) ==> final(self)@ == chat_sent(old(self)@, card_id) && (
            r matches Some(ExecutorCommand::AskQuestion { card_id: id, question }) && id == card_id
                && question@ == trimmed(text@)),
    {
        if is_blank(text) {
            return None;
        }
        forget(&mut self.drafts, card_id, "chat");
        Some(ExecutorCommand::AskQuestion { card_id, question: trim(text) })
    }
}

// ---- Laws ----------------------------------------------------------------

/// The words of a text are those of its parts: white space between two texts parts
/// their words, and a text without white space is one word.
pub proof fn white_space_parts_words(a: Seq<char>, c: char, b: Seq<char>)
    ensures
        white(c) ==> words(a.push(c) + b) == words(a) + words(b),
        a.len() > 0 && (forall|i: int| 0 <= i < a.len() ==> !white(#[trigger] a[i])) ==> words(a)
            == seq![a],
{
    if white(c) {
        words_parted(a, c, b);
    }
    if a.len() > 0 && (forall|i: int| 0 <= i < a.len() ==> !white(#[trigger] a[i])) {
        one_word(a);
    }
}

proof fn one_word(a: Seq<char>)
    requires
        a.len() > 0,
        forall|i: int| 0 <= i < a.len() ==> !white(#[trigger] a[i]),
    ensures
        words(a) == seq![a],
    decreases a.len(),
{
    let t = a.drop_last();
    assert(!white(a[a.len() - 1]));
    assert(a =~= t.push(a.last()));
    if t.len() == 0 {
        assert(words(t) =~= Seq::empty());
        assert(words(a) =~= seq![seq![a.last()]]);
        assert(seq![a.last()] =~= a);
    } else {
        assert forall|i: int| 0 <= i < t.len() implies !white(#[trigger] t[i]) by {
            assert(t[i] == a[i]);
        }
        one_word(t);
        assert(!white(a[a.len() - 2]));
        assert(words(a) =~= seq![a]);
    }
}

proof fn words_parted(a: Seq<char>, c: char, b: Seq<char>)
    requires
        white(c),
    ensures
        words(a.push(c) + b) == words(a) + words(b),
    decreases b.len(),
{
    let s = a.push(c) + b;
    if b.len() == 0 {
        assert(s =~= a.push(c));
        assert(s.drop_last() =~= a);
        assert(words(s) =~= words(a) + words(b));
    } else {
        let t = b.drop_last();
        words_parted(a, c, t);
        assert(s.drop_last() =~= a.push(c) + t);
        assert(s.last() == b.last());
        if !white(b.last()) {
            words_are_solid(t);
            if b.len() > 1 {
                assert(s[s.len() - 2] == b[b.len() - 2]);
                if !white(b[b.len() - 2]) {
                    assert(t.last() == b[b.len() - 2]);
                    assert(words(t).len() > 0);
                }
            } else {
                assert(s[s.len() - 2] == c);
            }
        }
        assert(words(s) =~= words(a) + words(b));
    }
}

/// A label is the text's words on one line, cut where it is too long, with a mark that
/// it was cut.
pub proof fn labels_keep_the_words(s: Seq<char>)
    ensures
        0 < flat(s).len() <= 90 ==> summary(s) == flat(s),
        flat(s).len() > 90 ==> summary(s).take(89) == flat(s).take(89) && summary(s).len() == 90
            && summary(s).last() == '…',
{
    reveal_strlit("…");
    if flat(s).len() > 90 {
        assert(summary(s).take(89) =~= flat(s).take(89));
    }
}

/// The chat shows exactly where the agent waits for a word: at the plan, before the pull
/// request while nothing runs, at the idle pull request and before the merge.
pub proof fn the_chat_has_its_place(s: CardState)
    ensures
        ({
            let st = beneath(s);
            chats(s) <==> {
                ||| st matches CardState::Designing(sub) && sub is AwaitingApproval
                ||| st matches CardState::AwaitingReview(sub) && !(sub is Reviewing)
                    && !(sub is ApplyingFixes) && !(sub is Validating) && !(sub is FixingValidation)
                ||| st matches CardState::PrReview(sub) && sub is Idle
                ||| st is ReadyToMerge
            }
        }),
        attaches_on_top(s) <==> !chats(s) && !(beneath(s) is Done) && !(
        beneath(s) is MergedWithoutReview),
{
}

/// A label for a typed text is used where there is one and something is typed.
pub proof fn the_request_button_says_what_it_sends(
    is_blank: bool,
    label: Option<Seq<char>>,
    nonblank: Option<Seq<char>>,
)
    ensures
        !is_blank && nonblank is Some ==> request_words(is_blank, label, nonblank) == nonblank->0,
        (is_blank || nonblank is None) && label is Some ==> request_words(is_blank, label, nonblank)
            == label->0,
{
}

/// Of the exchanges the newest is open, unless something later replaced it.
pub proof fn the_newest_exchange_is_open(age: usize, superseded: bool, r: bool)
    requires
        call_ensures(exchange_open, (age, superseded), r),
    ensures
        r ==> age == 0 && !superseded,
        age == 0 && !superseded ==> r,
{
}

/// A message sent is forgotten, and nothing else is: no other draft of the card, none of
/// another, nothing beside the drafts.
pub proof fn a_sent_message_is_forgotten(s: StateView, id: Id, key: (Id, Seq<char>))
    ensures
        !chat_sent(s, id).drafts.contains_key((id, "chat"@)),
        chat_sent(s, id) == (StateView { drafts: chat_sent(s, id).drafts, ..s }),
        key != (id, "chat"@) ==> chat_sent(s, id).drafts.contains_key(key) == s.drafts.contains_key(
            key,
        ) && chat_sent(s, id).drafts[key] == s.drafts[key],
{
}

} // verus!
