//! The actions menu of a card or of a pull request under review.

use vstd::prelude::*;

use crate::card::MenuFlags;
use crate::command::{card_of, irrevocable, review_of, ExecutorCommand, OpenTarget};
use crate::confirm::{
    leads_to, request, sent, ConfirmAction, ConfirmRequest, GestureView, RequestView,
};
use crate::diffdialog::DiffTarget;
use crate::model::Id;
use crate::text::{cat3, parts_are_found, within};

verus! {

/// What the menu was opened on.
#[derive(Debug, Clone, PartialEq, Eq)]
pub enum MenuKind {
    Card { flags: MenuFlags, blocked: bool, blocked_note: Option<String> },
    Review {
        pr_number: u64,
        /// A checkout exists, or can be made.
        has_checkout: bool,
        /// The published review promised a fix that is still owed.
        has_fix: bool,
    },
}

/// An open menu.
#[derive(Debug, Clone, PartialEq, Eq)]
pub struct CardMenuRequest {
    pub kind: MenuKind,
    /// The card or the review.
    pub target_id: Id,
    pub title: String,
}

#[derive(Debug, Clone, Copy, PartialEq, Eq, Structural)]
pub enum MenuEntry {
    Bump,
    ShowDiff,
    OpenTerminal,
    OpenEditor,
    Reset,
    MarkDone,
    Block,
    Unblock,
    AddNote,
    EditNote,
    Delete,
    DiscardFix,
    Dismiss,
}

pub open spec fn entry_when(c: bool, e: MenuEntry) -> Seq<MenuEntry> {
    if c {
        seq![e]
    } else {
        Seq::empty()
    }
}

/// The entries of a menu, in order. Going to the front of the queue is offered
/// to whoever stands in it, but for the first.
pub open spec fn entries(kind: MenuKind, queue_position: Option<u64>) -> Seq<MenuEntry> {
    let bump = entry_when(queue_position matches Some(n) && n > 1, MenuEntry::Bump);
    match kind {
        MenuKind::Card { flags, blocked, blocked_note } => bump + entry_when(
            flags.can_diff,
            MenuEntry::ShowDiff,
        ) + entry_when(flags.can_open, MenuEntry::OpenTerminal) + entry_when(
            flags.can_open,
            MenuEntry::OpenEditor,
        ) + entry_when(flags.can_reset, MenuEntry::Reset) + entry_when(
            flags.can_done,
            MenuEntry::MarkDone,
        ) + entry_when(!blocked, MenuEntry::Block) + entry_when(blocked, MenuEntry::Unblock)
            + entry_when(blocked && blocked_note is Some, MenuEntry::EditNote) + entry_when(
            blocked && blocked_note is None,
            MenuEntry::AddNote,
        ) + entry_when(true, MenuEntry::Delete),
        MenuKind::Review { pr_number: _, has_checkout, has_fix } => bump + entry_when(
            true,
            MenuEntry::ShowDiff,
        ) + entry_when(has_checkout, MenuEntry::OpenTerminal) + entry_when(
            has_checkout,
            MenuEntry::OpenEditor,
        ) + entry_when(has_fix, MenuEntry::DiscardFix) + entry_when(!has_fix, MenuEntry::Dismiss),
    }
}

fn push_entry(v: &mut Vec<MenuEntry>, c: bool, e: MenuEntry)
    ensures
        final(v)@ == old(v)@ + entry_when(c, e),
{
    if c {
        v.push(e);
        assert(v@ =~= old(v)@ + entry_when(c, e));
    } else {
        assert(v@ =~= old(v)@ + entry_when(c, e));
    }
}

pub fn menu_entries(kind: &MenuKind, queue_position: Option<u64>) -> (r: Vec<MenuEntry>)
    ensures
        r@ == entries(*kind, queue_position),
{
    let mut v: Vec<MenuEntry> = Vec::new();
    let queued = match queue_position {
        Some(n) => n > 1,
        None => false,
    };
    if queued {
        v.push(MenuEntry::Bump);
    }
    assert(v@ =~= entry_when(queued, MenuEntry::Bump));
    match kind {
        MenuKind::Card { flags, blocked, blocked_note } => {
            push_entry(&mut v, flags.can_diff, MenuEntry::ShowDiff);
            push_entry(&mut v, flags.can_open, MenuEntry::OpenTerminal);
            push_entry(&mut v, flags.can_open, MenuEntry::OpenEditor);
            push_entry(&mut v, flags.can_reset, MenuEntry::Reset);
            push_entry(&mut v, flags.can_done, MenuEntry::MarkDone);
            push_entry(&mut v, !*blocked, MenuEntry::Block);
            push_entry(&mut v, *blocked, MenuEntry::Unblock);
            push_entry(&mut v, *blocked && blocked_note.is_some(), MenuEntry::EditNote);
            push_entry(&mut v, *blocked && blocked_note.is_none(), MenuEntry::AddNote);
            push_entry(&mut v, true, MenuEntry::Delete);
        },
        MenuKind::Review { pr_number: _, has_checkout, has_fix } => {
            push_entry(&mut v, true, MenuEntry::ShowDiff);
            push_entry(&mut v, *has_checkout, MenuEntry::OpenTerminal);
            push_entry(&mut v, *has_checkout, MenuEntry::OpenEditor);
            push_entry(&mut v, *has_fix, MenuEntry::DiscardFix);
            push_entry(&mut v, !*has_fix, MenuEntry::Dismiss);
        },
    }
    v
}

pub open spec fn entry_words(e: MenuEntry) -> Seq<char> {
    match e {
        MenuEntry::Bump => "Bump to front of queue"@,
        MenuEntry::ShowDiff => "Show diff"@,
        MenuEntry::OpenTerminal => "Open in terminal"@,
        MenuEntry::OpenEditor => "Open in editor"@,
        MenuEntry::Reset => "Back to starting block"@,
        MenuEntry::MarkDone => "Mark as done"@,
        MenuEntry::Block => "Mark blocked"@,
        MenuEntry::Unblock => "Mark unblocked"@,
        MenuEntry::AddNote => "Add blocked message"@,
        MenuEntry::EditNote => "Edit blocked message"@,
        MenuEntry::Delete => "Delete"@,
        MenuEntry::DiscardFix => "Discard the fix"@,
        MenuEntry::Dismiss => "Dismiss"@,
    }
}

pub fn entry_label(e: MenuEntry) -> (r: &'static str)
    ensures
        r@ == entry_words(e),
{
    match e {
        MenuEntry::Bump => "Bump to front of queue",
        MenuEntry::ShowDiff => "Show diff",
        MenuEntry::OpenTerminal => "Open in terminal",
        MenuEntry::OpenEditor => "Open in editor",
        MenuEntry::Reset => "Back to starting block",
        MenuEntry::MarkDone => "Mark as done",
        MenuEntry::Block => "Mark blocked",
        MenuEntry::Unblock => "Mark unblocked",
        MenuEntry::AddNote => "Add blocked message",
        MenuEntry::EditNote => "Edit blocked message",
        MenuEntry::Delete => "Delete",
        MenuEntry::DiscardFix => "Discard the fix",
        MenuEntry::Dismiss => "Dismiss",
    }
}

pub fn entry_class(e: MenuEntry) -> (r: &'static str)
    ensures
        r@ == (match e {
            MenuEntry::Delete | MenuEntry::DiscardFix | MenuEntry::Dismiss =>
                "menu-item danger"@,
            _ => "menu-item"@,
        }),
{
    match e {
        MenuEntry::Delete | MenuEntry::DiscardFix | MenuEntry::Dismiss => "menu-item danger",
        _ => "menu-item",
    }
}

/// What choosing an entry does.
#[derive(Debug, Clone, PartialEq, Eq)]
pub enum MenuOutcome {
    Send(ExecutorCommand),
    Ask(ConfirmRequest),
    /// A dialog whose message field starts from a text.
    AskWithNote(ConfirmRequest, String),
    ShowDiff(DiffTarget),
    /// Take back the promise of a fix.
    DiscardFix(Id),
    /// Dismiss a pull request, by its number.
    DismissReview(Id, u64),
}

/// An outcome as a mathematical value.
pub enum OutcomeView {
    Send(ExecutorCommand),
    Ask(RequestView),
    AskWithNote(RequestView, Seq<char>),
    ShowDiff(DiffTarget),
    DiscardFix(Id),
    DismissReview(Id, u64),
}

impl View for MenuOutcome {
    type V = OutcomeView;

    open spec fn view(&self) -> OutcomeView {
        match *self {
            MenuOutcome::Send(cmd) => OutcomeView::Send(cmd),
            MenuOutcome::Ask(req) => OutcomeView::Ask(req@),
            MenuOutcome::AskWithNote(req, note) => OutcomeView::AskWithNote(req@, note@),
            MenuOutcome::ShowDiff(t) => OutcomeView::ShowDiff(t),
            MenuOutcome::DiscardFix(id) => OutcomeView::DiscardFix(id),
            MenuOutcome::DismissReview(id, n) => OutcomeView::DismissReview(id, n),
        }
    }
}

/// A question about a card by its title.
pub open spec fn about(before: Seq<char>, title: Seq<char>, after: Seq<char>) -> Seq<char> {
    before + title + after
}

pub open spec fn note_dialog(id: Id, title: Seq<char>, heading: Seq<char>) -> RequestView {
    RequestView {
        title: heading,
        message: about(
            "Message shown on “"@,
            title,
            "” while it stays blocked. Leave it empty to drop the message."@,
        ),
        confirm_label: "Save"@,
        danger: false,
        action: ConfirmAction::BlockCard(id),
    }
}

/// What choosing an entry of a card's menu does.
pub open spec fn card_choice(e: MenuEntry, id: Id, title: Seq<char>, note: Seq<char>) -> OutcomeView {
    match e {
        MenuEntry::Bump => OutcomeView::Send(ExecutorCommand::BumpQueued { id }),
        MenuEntry::ShowDiff => OutcomeView::ShowDiff(DiffTarget::Card(id)),
        MenuEntry::OpenTerminal => OutcomeView::Send(
            ExecutorCommand::OpenWorktree { card_id: id, target: OpenTarget::Terminal },
        ),
        MenuEntry::OpenEditor => OutcomeView::Send(
            ExecutorCommand::OpenWorktree { card_id: id, target: OpenTarget::Editor },
        ),
        MenuEntry::Reset => OutcomeView::Ask(
            RequestView {
                title: "Back to starting block"@,
                message: about(
                    "Send “"@,
                    title,
                    "” back to the starting block? This discards its current progress; any questions and answers so far are appended to the prompt."@,
                ),
                confirm_label: "Send back"@,
                danger: false,
                action: ConfirmAction::Send(ExecutorCommand::BackToStart { card_id: id }),
            },
        ),
        MenuEntry::MarkDone => OutcomeView::Ask(
            RequestView {
                title: "Mark as done"@,
                message: about(
                    "Mark “"@,
                    title,
                    "” as done? This stops any active run and preview."@,
                ),
                confirm_label: "Mark done"@,
                danger: false,
                action: ConfirmAction::Send(ExecutorCommand::MarkDone { card_id: id }),
            },
        ),
        MenuEntry::Block => OutcomeView::Ask(
            RequestView {
                title: "Mark blocked"@,
                message: about(
                    "Mark “"@,
                    title,
                    "” as blocked? It stops counting toward the attention badges and its board buttons are hidden until you unmark it."@,
                ),
                confirm_label: "Mark blocked"@,
                danger: false,
                action: ConfirmAction::BlockCard(id),
            },
        ),
        MenuEntry::Unblock => OutcomeView::Send(
            ExecutorCommand::SetBlocked { card_id: id, blocked: false, note: None },
        ),
        MenuEntry::AddNote => OutcomeView::AskWithNote(
            note_dialog(id, title, "Add blocked message"@),
            note,
        ),
        MenuEntry::EditNote => OutcomeView::AskWithNote(
            note_dialog(id, title, "Edit blocked message"@),
            note,
        ),
        _ => OutcomeView::Ask(
            RequestView {
                title: "Delete card"@,
                message: about("Delete “"@, title, "”? This can't be undone."@),
                confirm_label: "Delete"@,
                danger: true,
                action: ConfirmAction::DeleteCard(id),
            },
        ),
    }
}

/// What choosing an entry of a review's menu does.
pub open spec fn review_choice(e: MenuEntry, id: Id, pr_number: u64) -> OutcomeView {
    match e {
        MenuEntry::Bump => OutcomeView::Send(ExecutorCommand::BumpQueued { id }),
        MenuEntry::ShowDiff => OutcomeView::ShowDiff(DiffTarget::Review(id)),
        MenuEntry::OpenTerminal => OutcomeView::Send(
            ExecutorCommand::OpenReviewWorktree { review_id: id, target: OpenTarget::Terminal },
        ),
        MenuEntry::OpenEditor => OutcomeView::Send(
            ExecutorCommand::OpenReviewWorktree { review_id: id, target: OpenTarget::Editor },
        ),
        MenuEntry::DiscardFix => OutcomeView::DiscardFix(id),
        _ => OutcomeView::DismissReview(id, pr_number),
    }
}

fn ask_about(
    heading: &str,
    before: &str,
    title: &str,
    after: &str,
    label: &str,
    danger: bool,
    action: ConfirmAction,
) -> (r: ConfirmRequest)
    ensures
        r@ == (RequestView {
            title: heading@,
            message: about(before@, title@, after@),
            confirm_label: label@,
            danger,
            action,
        }),
{
    request(heading, cat3(before, title, after), label, danger, action)
}

/// Choose an entry of a card's menu. `note` is the message already on the card.
pub fn choose_for_card(e: MenuEntry, id: Id, title: &str, note: &Option<String>) -> (r: MenuOutcome)
    ensures
        r@ == card_choice(
            e,
            id,
            title@,
            match note {
                Some(n) => n@,
                None => Seq::empty(),
            },
        ),
{
    let text = match note {
        Some(n) => n.clone(),
        None => String::new(),
    };
    match e {
        MenuEntry::Bump => MenuOutcome::Send(ExecutorCommand::BumpQueued { id }),
        MenuEntry::ShowDiff => MenuOutcome::ShowDiff(DiffTarget::Card(id)),
        MenuEntry::OpenTerminal => MenuOutcome::Send(
            ExecutorCommand::OpenWorktree { card_id: id, target: OpenTarget::Terminal },
        ),
        MenuEntry::OpenEditor => MenuOutcome::Send(
            ExecutorCommand::OpenWorktree { card_id: id, target: OpenTarget::Editor },
        ),
        MenuEntry::Reset => MenuOutcome::Ask(
            ask_about(
                "Back to starting block",
                "Send “",
                title,
                "” back to the starting block? This discards its current progress; any questions and answers so far are appended to the prompt.",
                "Send back",
                false,
                ConfirmAction::Send(ExecutorCommand::BackToStart { card_id: id }),
            ),
        ),
        MenuEntry::MarkDone => MenuOutcome::Ask(
            ask_about(
                "Mark as done",
                "Mark “",
                title,
                "” as done? This stops any active run and preview.",
                "Mark done",
                false,
                ConfirmAction::Send(ExecutorCommand::MarkDone { card_id: id }),
            ),
        ),
        MenuEntry::Block => MenuOutcome::Ask(
            ask_about(
                "Mark blocked",
                "Mark “",
                title,
                "” as blocked? It stops counting toward the attention badges and its board buttons are hidden until you unmark it.",
                "Mark blocked",
                false,
                ConfirmAction::BlockCard(id),
            ),
        ),
        MenuEntry::Unblock => MenuOutcome::Send(
            ExecutorCommand::SetBlocked { card_id: id, blocked: false, note: None },
        ),
        MenuEntry::AddNote => MenuOutcome::AskWithNote(
            ask_about(
                "Add blocked message",
                "Message shown on “",
                title,
                "” while it stays blocked. Leave it empty to drop the message.",
                "Save",
                false,
                ConfirmAction::BlockCard(id),
            ),
            text,
        ),
        MenuEntry::EditNote => MenuOutcome::AskWithNote(
            ask_about(
                "Edit blocked message",
                "Message shown on “",
                title,
                "” while it stays blocked. Leave it empty to drop the message.",
                "Save",
                false,
                ConfirmAction::BlockCard(id),
            ),
            text,
        ),
        _ => MenuOutcome::Ask(
            ask_about(
                "Delete card",
                "Delete “",
                title,
                "”? This can't be undone.",
                "Delete",
                true,
                ConfirmAction::DeleteCard(id),
            ),
        ),
    }
}

/// Choose an entry of a review's menu.
pub fn choose_for_review(e: MenuEntry, id: Id, pr_number: u64) -> (r: MenuOutcome)
    ensures
        r@ == review_choice(e, id, pr_number),
{
    match e {
        MenuEntry::Bump => MenuOutcome::Send(ExecutorCommand::BumpQueued { id }),
        MenuEntry::ShowDiff => MenuOutcome::ShowDiff(DiffTarget::Review(id)),
        MenuEntry::OpenTerminal => MenuOutcome::Send(
            ExecutorCommand::OpenReviewWorktree { review_id: id, target: OpenTarget::Terminal },
        ),
        MenuEntry::OpenEditor => MenuOutcome::Send(
            ExecutorCommand::OpenReviewWorktree { review_id: id, target: OpenTarget::Editor },
        ),
        MenuEntry::DiscardFix => MenuOutcome::DiscardFix(id),
        _ => MenuOutcome::DismissReview(id, pr_number),
    }
}

/// A pull request whose fix is owed cannot be dismissed from its menu: the
/// promise would be dropped in silence.
pub proof fn a_pledge_is_not_dismissed(pr_number: u64, has_checkout: bool, queued: Option<u64>)
    ensures
        !entries(MenuKind::Review { pr_number, has_checkout, has_fix: true }, queued).contains(
            MenuEntry::Dismiss,
        ),
{
}

/// One more entry offers what was offered, and itself.
proof fn one_more(s: Seq<MenuEntry>, c: bool, e: MenuEntry, x: MenuEntry)
    ensures
        (s + entry_when(c, e)).contains(x) == (s.contains(x) || (c && e == x)),
{
    let t = s + entry_when(c, e);
    if s.contains(x) {
        let i = choose|i: int| 0 <= i < s.len() && s[i] == x;
        assert(t[i] == x);
    }
    if c && e == x {
        assert(t[s.len() as int] == x);
    }
    if t.contains(x) {
        let i = choose|i: int| 0 <= i < t.len() && t[i] == x;
        if i < s.len() {
            assert(s[i] == x);
        }
    }
}

/// A card's menu always offers exactly one of blocking and unblocking.
pub proof fn blocking_is_a_toggle(
    flags: MenuFlags,
    blocked: bool,
    note: Option<String>,
    queued: Option<u64>,
)
    ensures
        ({
            let es = entries(MenuKind::Card { flags, blocked, blocked_note: note }, queued);
            es.contains(MenuEntry::Block) == !blocked && es.contains(MenuEntry::Unblock) == blocked
        }),
{
    let a = entry_when(queued matches Some(n) && n > 1, MenuEntry::Bump);
    let b = a + entry_when(flags.can_diff, MenuEntry::ShowDiff);
    let c = b + entry_when(flags.can_open, MenuEntry::OpenTerminal);
    let d = c + entry_when(flags.can_open, MenuEntry::OpenEditor);
    let e = d + entry_when(flags.can_reset, MenuEntry::Reset);
    let f = e + entry_when(flags.can_done, MenuEntry::MarkDone);
    let g = f + entry_when(!blocked, MenuEntry::Block);
    let h = g + entry_when(blocked, MenuEntry::Unblock);
    let i = h + entry_when(blocked && note is Some, MenuEntry::EditNote);
    let j = i + entry_when(blocked && note is None, MenuEntry::AddNote);
    assert forall|x: MenuEntry| x == MenuEntry::Block || x == MenuEntry::Unblock implies (
    #[trigger] (j + entry_when(true, MenuEntry::Delete)).contains(x) == ((!blocked && x
        == MenuEntry::Block) || (blocked && x == MenuEntry::Unblock))) by {
        one_more(a, flags.can_diff, MenuEntry::ShowDiff, x);
        one_more(b, flags.can_open, MenuEntry::OpenTerminal, x);
        one_more(c, flags.can_open, MenuEntry::OpenEditor, x);
        one_more(d, flags.can_reset, MenuEntry::Reset, x);
        one_more(e, flags.can_done, MenuEntry::MarkDone, x);
        one_more(f, !blocked, MenuEntry::Block, x);
        one_more(g, blocked, MenuEntry::Unblock, x);
        one_more(h, blocked && note is Some, MenuEntry::EditNote, x);
        one_more(i, blocked && note is None, MenuEntry::AddNote, x);
        one_more(j, true, MenuEntry::Delete, x);
    }
}

// ---- Laws ----------------------------------------------------------------

/// An entry stands in a card's menu exactly where the card allows it.
#[verifier::rlimit(40)]
pub proof fn an_entry_has_its_place(
    flags: MenuFlags,
    blocked: bool,
    note: Option<String>,
    queued: Option<u64>,
    e: MenuEntry,
)
    ensures
        entries(MenuKind::Card { flags, blocked, blocked_note: note }, queued).contains(e) <==> (
        match e {
            MenuEntry::Bump => queued is Some && queued->0 > 1,
            MenuEntry::ShowDiff => flags.can_diff,
            MenuEntry::OpenTerminal => flags.can_open,
            MenuEntry::OpenEditor => flags.can_open,
            MenuEntry::Reset => flags.can_reset,
            MenuEntry::MarkDone => flags.can_done,
            MenuEntry::Block => !blocked,
            MenuEntry::Unblock => blocked,
            MenuEntry::EditNote => blocked && note is Some,
            MenuEntry::AddNote => blocked && note is None,
            MenuEntry::Delete => true,
            MenuEntry::DiscardFix => false,
            MenuEntry::Dismiss => false,
        }),
{
    let t0 = entry_when(queued matches Some(n) && n > 1, MenuEntry::Bump);
    let t1 = t0 + entry_when(flags.can_diff, MenuEntry::ShowDiff);
    let t2 = t1 + entry_when(flags.can_open, MenuEntry::OpenTerminal);
    let t3 = t2 + entry_when(flags.can_open, MenuEntry::OpenEditor);
    let t4 = t3 + entry_when(flags.can_reset, MenuEntry::Reset);
    let t5 = t4 + entry_when(flags.can_done, MenuEntry::MarkDone);
    let t6 = t5 + entry_when(!blocked, MenuEntry::Block);
    let t7 = t6 + entry_when(blocked, MenuEntry::Unblock);
    let t8 = t7 + entry_when(blocked && note is Some, MenuEntry::EditNote);
    let t9 = t8 + entry_when(blocked && note is None, MenuEntry::AddNote);
    assert(entries(MenuKind::Card { flags, blocked, blocked_note: note }, queued) == t9
        + entry_when(true, MenuEntry::Delete));
    one_more(t9, true, MenuEntry::Delete, e);
    one_more(t8, blocked && note is None, MenuEntry::AddNote, e);
    one_more(t7, blocked && note is Some, MenuEntry::EditNote, e);
    one_more(t6, blocked, MenuEntry::Unblock, e);
    one_more(t5, !blocked, MenuEntry::Block, e);
    one_more(t4, flags.can_done, MenuEntry::MarkDone, e);
    one_more(t3, flags.can_reset, MenuEntry::Reset, e);
    one_more(t2, flags.can_open, MenuEntry::OpenEditor, e);
    one_more(t1, flags.can_open, MenuEntry::OpenTerminal, e);
    one_more(t0, flags.can_diff, MenuEntry::ShowDiff, e);
    one_more(Seq::empty(), queued matches Some(n) && n > 1, MenuEntry::Bump, e);
    assert(Seq::empty() + t0 =~= t0);
}

/// An entry stands in a review's menu exactly where the review allows it.
pub proof fn a_review_entry_has_its_place(
    pr_number: u64,
    has_checkout: bool,
    has_fix: bool,
    queued: Option<u64>,
    e: MenuEntry,
)
    ensures
        entries(MenuKind::Review { pr_number, has_checkout, has_fix }, queued).contains(e) <==> (
        match e {
            MenuEntry::Bump => queued is Some && queued->0 > 1,
            MenuEntry::ShowDiff => true,
            MenuEntry::OpenTerminal => has_checkout,
            MenuEntry::OpenEditor => has_checkout,
            MenuEntry::DiscardFix => has_fix,
            MenuEntry::Dismiss => !has_fix,
            _ => false,
        }),
{
    let t0 = entry_when(queued matches Some(n) && n > 1, MenuEntry::Bump);
    let t1 = t0 + entry_when(true, MenuEntry::ShowDiff);
    let t2 = t1 + entry_when(has_checkout, MenuEntry::OpenTerminal);
    let t3 = t2 + entry_when(has_checkout, MenuEntry::OpenEditor);
    let t4 = t3 + entry_when(has_fix, MenuEntry::DiscardFix);
    assert(entries(MenuKind::Review { pr_number, has_checkout, has_fix }, queued) == t4
        + entry_when(!has_fix, MenuEntry::Dismiss));
    one_more(t4, !has_fix, MenuEntry::Dismiss, e);
    one_more(t3, has_fix, MenuEntry::DiscardFix, e);
    one_more(t2, has_checkout, MenuEntry::OpenEditor, e);
    one_more(t1, has_checkout, MenuEntry::OpenTerminal, e);
    one_more(t0, true, MenuEntry::ShowDiff, e);
    one_more(Seq::empty(), queued matches Some(n) && n > 1, MenuEntry::Bump, e);
    assert(Seq::empty() + t0 =~= t0);
}

/// The command a choice comes to once its dialog is confirmed.
pub open spec fn comes_to(o: OutcomeView) -> Option<ExecutorCommand> {
    match o {
        OutcomeView::Send(cmd) => Some(cmd),
        OutcomeView::Ask(req) => leads_to(GestureView::Ask(req)),
        _ => None,
    }
}

/// What a choice from a card's menu comes to is about that card, and what cannot be
/// taken back is asked for first. Only deleting is red.
pub proof fn a_card_choice_keeps_to_its_card(
    e: MenuEntry,
    id: Id,
    title: Seq<char>,
    note: Seq<char>,
)
    ensures
        comes_to(card_choice(e, id, title, note)) matches Some(cmd) ==> card_of(cmd) == Some(id),
        card_choice(e, id, title, note) matches OutcomeView::Send(cmd) ==> !irrevocable(cmd)
            && !(cmd is MarkDone),
        card_choice(e, id, title, note) matches OutcomeView::Ask(req) ==> (req.danger
            <==> req.action is DeleteCard) && within(req.message, title),
        card_choice(e, id, title, note) matches OutcomeView::ShowDiff(t) ==> t == DiffTarget::Card(
            id,
        ),
        card_choice(e, id, title, note) matches OutcomeView::AskWithNote(req, filled) ==> filled
            == note && req.action == ConfirmAction::BlockCard(id),
{
    parts_are_found(
        "Send “"@,
        title,
        "” back to the starting block? This discards its current progress; any questions and answers so far are appended to the prompt."@,
    );
    parts_are_found("Mark “"@, title, "” as done? This stops any active run and preview."@);
    parts_are_found(
        "Mark “"@,
        title,
        "” as blocked? It stops counting toward the attention badges and its board buttons are hidden until you unmark it."@,
    );
    parts_are_found("Delete “"@, title, "”? This can't be undone."@);
}

/// Each entry of a card's menu does its own: sends back, marks done, opens the
/// terminal or the editor, blocks and unblocks, deletes.
pub proof fn card_choices_do_their_own(id: Id, title: Seq<char>, note: Seq<char>, said: String)
    ensures
        comes_to(card_choice(MenuEntry::Reset, id, title, note)) matches Some(cmd)
            && cmd is BackToStart,
        comes_to(card_choice(MenuEntry::MarkDone, id, title, note)) matches Some(cmd)
            && cmd is MarkDone,
        comes_to(card_choice(MenuEntry::Delete, id, title, note)) matches Some(cmd)
            && cmd is DeleteCard,
        comes_to(card_choice(MenuEntry::Bump, id, title, note)) matches Some(cmd)
            && cmd is BumpQueued,
        comes_to(card_choice(MenuEntry::OpenTerminal, id, title, note)) matches Some(
            ExecutorCommand::OpenWorktree { target, .. },
        ) && target == OpenTarget::Terminal,
        comes_to(card_choice(MenuEntry::OpenEditor, id, title, note)) matches Some(
            ExecutorCommand::OpenWorktree { target, .. },
        ) && target == OpenTarget::Editor,
        comes_to(card_choice(MenuEntry::Unblock, id, title, note)) matches Some(
            ExecutorCommand::SetBlocked { blocked, note: kept, .. },
        ) && !blocked && kept is None,
        card_choice(MenuEntry::Block, id, title, note) matches OutcomeView::Ask(req) && (sent(
            req.action,
            said,
        ) matches ExecutorCommand::SetBlocked { card_id, blocked, note: kept } && card_id == id
            && blocked && kept == Some(said)),
        card_choice(MenuEntry::ShowDiff, id, title, note) is ShowDiff,
        card_choice(MenuEntry::AddNote, id, title, note) is AskWithNote,
        card_choice(MenuEntry::EditNote, id, title, note) is AskWithNote,
{
}

/// Each entry of a review's menu does its own, for that review; throwing away a fix or
/// the review itself is left to their dialogs.
pub proof fn review_choices_do_their_own(e: MenuEntry, id: Id, pr_number: u64)
    ensures
        comes_to(review_choice(e, id, pr_number)) matches Some(cmd) ==> (review_of(cmd) == Some(id)
            || card_of(cmd) == Some(id)) && !irrevocable(cmd),
        comes_to(review_choice(MenuEntry::Bump, id, pr_number)) matches Some(cmd)
            && cmd is BumpQueued,
        comes_to(review_choice(MenuEntry::OpenTerminal, id, pr_number)) matches Some(
            ExecutorCommand::OpenReviewWorktree { target, .. },
        ) && target == OpenTarget::Terminal,
        comes_to(review_choice(MenuEntry::OpenEditor, id, pr_number)) matches Some(
            ExecutorCommand::OpenReviewWorktree { target, .. },
        ) && target == OpenTarget::Editor,
        review_choice(MenuEntry::ShowDiff, id, pr_number) == OutcomeView::ShowDiff(
            DiffTarget::Review(id),
        ),
        review_choice(MenuEntry::DiscardFix, id, pr_number) == OutcomeView::DiscardFix(id),
        review_choice(MenuEntry::Dismiss, id, pr_number) == OutcomeView::DismissReview(
            id,
            pr_number,
        ),
{
}

/// Red entries are those that throw something away.
pub proof fn red_entries_throw_away(e: MenuEntry, r: &'static str)
    requires
        call_ensures(entry_class, (e,), r),
    ensures
        r@ == "menu-item danger"@ <==> e is Delete || e is DiscardFix || e is Dismiss,
{
    reveal_strlit("menu-item");
    reveal_strlit("menu-item danger");
    assert("menu-item"@.len() != "menu-item danger"@.len());
}

/// An entry says what its dialog does: the dialog of an entry is titled by the entry's
/// own words, but for deleting, which is confirmed by them.
pub proof fn entries_say_what_they_do(e: MenuEntry, id: Id, title: Seq<char>, note: Seq<char>)
    ensures
        e is MarkDone || e is Block ==> (card_choice(e, id, title, note) matches OutcomeView::Ask(
            req,
        ) && req.title == entry_words(e)),
        e is Reset ==> (card_choice(e, id, title, note) matches OutcomeView::Ask(req) && req.title
            == entry_words(e)),
        e is AddNote || e is EditNote ==> (card_choice(
            e,
            id,
            title,
            note,
        ) matches OutcomeView::AskWithNote(req, _) && req.title == entry_words(e)),
        e is Delete ==> (card_choice(e, id, title, note) matches OutcomeView::Ask(req)
            && req.confirm_label == entry_words(e)),
{
}

} // verus!
