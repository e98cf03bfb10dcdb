//! The confirm dialog and the overlays it can close.

use vstd::prelude::*;

use crate::command::ExecutorCommand;
use crate::diffdialog::DiffRequest;
use crate::lists::{count, count_where};
use crate::model::{DraftComment, Id, ReviewEvent};
use crate::reviewdraft::{clear, DraftEdits};
use crate::text::{
    cat2, cat3, cat5, decimal, decimal_reads_back, decimal_text, digit, parts_are_found, within,
};

verus! {

/// What to do if the user confirms.
#[derive(Debug, Clone, PartialEq, Eq)]
pub enum ConfirmAction {
    Send(ExecutorCommand),
    DeleteCard(Id),
    DeleteProject(Id),
    /// Submit a drafted review, then close both places it was validated in:
    /// leaving one open would invite a second submission.
    PublishReview(ExecutorCommand),
    /// Mark a card blocked, with the message typed in the dialog.
    BlockCard(Id),
}

#[derive(Debug, Clone, PartialEq, Eq)]
pub struct ConfirmRequest {
    pub title: String,
    pub message: String,
    pub confirm_label: String,
    pub danger: bool,
    pub action: ConfirmAction,
}

/// A request with these words and this action.
pub open spec fn asks(
    req: ConfirmRequest,
    title: Seq<char>,
    message: Seq<char>,
    label: Seq<char>,
    danger: bool,
    action: ConfirmAction,
) -> bool {
    &&& req.title@ == title
    &&& req.message@ == message
    &&& req.confirm_label@ == label
    &&& req.danger == danger
    &&& req.action == action
}

/// A dialog as a mathematical value.
pub struct RequestView {
    pub title: Seq<char>,
    pub message: Seq<char>,
    pub confirm_label: Seq<char>,
    pub danger: bool,
    pub action: ConfirmAction,
}

impl View for ConfirmRequest {
    type V = RequestView;

    open spec fn view(&self) -> RequestView {
        RequestView {
            title: self.title@,
            message: self.message@,
            confirm_label: self.confirm_label@,
            danger: self.danger,
            action: self.action,
        }
    }
}

/// What floats above the board.
#[derive(Debug, Clone, PartialEq, Eq)]
pub struct Overlays {
    pub confirm: Option<ConfirmRequest>,
    /// The message typed in the dialog that blocks a card.
    pub note: String,
    /// The drafted review being validated.
    pub edits: Option<DraftEdits>,
    pub diff: Option<DiffRequest>,
}

/// The overlays as a mathematical value.
pub struct OverlaysView {
    pub confirm: Option<RequestView>,
    pub note: Seq<char>,
    pub edits: Option<DraftEdits>,
    pub diff: Option<DiffRequest>,
}

impl View for Overlays {
    type V = OverlaysView;

    open spec fn view(&self) -> OverlaysView {
        OverlaysView {
            confirm: match self.confirm {
                Some(req) => Some(req@),
                None => None,
            },
            note: self.note@,
            edits: self.edits,
            diff: self.diff,
        }
    }
}

/// Nothing changed but the dialog, and the message field is blank.
pub open spec fn raised(before: Overlays, after: Overlays) -> bool {
    &&& after.confirm is Some
    &&& after.note@ == Seq::<char>::empty()
    &&& after.edits == before.edits
    &&& after.diff == before.diff
}

impl Overlays {
    pub fn new() -> (r: Overlays)
        ensures
            r.confirm is None,
            r.note@ == Seq::<char>::empty(),
            r.edits is None,
            r.diff is None,
    {
        Overlays { confirm: None, note: String::new(), edits: None, diff: None }
    }
}

/// A request in these words.
pub fn request(
    title: &str,
    message: String,
    label: &str,
    danger: bool,
    action: ConfirmAction,
) -> (r: ConfirmRequest)
    ensures
        asks(r, title@, message@, label@, danger, action),
{
    ConfirmRequest {
        title: title.to_owned(),
        message,
        confirm_label: label.to_owned(),
        danger,
        action,
    }
}

/// Put a dialog up, its message field blank.
pub fn request_confirm(ui: &mut Overlays, req: ConfirmRequest)
    ensures
        raised(*old(ui), *final(ui)),
        final(ui).confirm == Some(req),
{
    ui.note = String::new();
    ui.confirm = Some(req);
}

/// Put a dialog up with `note` in its message field: editing a message starts
/// from the one on the card.
pub fn request_confirm_with_note(ui: &mut Overlays, req: ConfirmRequest, note: String)
    ensures
        final(ui).confirm == Some(req),
        final(ui).note == note,
        final(ui).edits == old(ui).edits,
        final(ui).diff == old(ui).diff,
{
    request_confirm(ui, req);
    ui.note = note;
}

/// Take the dialog down.
pub fn dismiss(ui: &mut Overlays)
    ensures
        *final(ui) == (Overlays { confirm: None, ..*old(ui) }),
{
    ui.confirm = None;
}

/// Only blocking a card collects a message.
pub fn with_note(req: &ConfirmRequest) -> (r: bool)
    ensures
        r == (req.action is BlockCard),
{
    matches!(req.action, ConfirmAction::BlockCard(_))
}

pub fn confirm_class(req: &ConfirmRequest) -> (r: &'static str)
    ensures
        r@ == (if req.danger {
            "btn danger"@
        } else {
            "btn primary"@
        }),
{
    if req.danger {
        "btn danger"
    } else {
        "btn primary"
    }
}

/// What confirming a dialog sends.
pub open spec fn sent(action: ConfirmAction, note: String) -> ExecutorCommand {
    match action {
        ConfirmAction::Send(cmd) => cmd,
        ConfirmAction::PublishReview(cmd) => cmd,
        ConfirmAction::DeleteCard(id) => ExecutorCommand::DeleteCard { card_id: id },
        ConfirmAction::DeleteProject(id) => ExecutorCommand::DeleteProject { project_id: id },
        ConfirmAction::BlockCard(id) => ExecutorCommand::SetBlocked {
            card_id: id,
            blocked: true,
            note: Some(note),
        },
    }
}

/// The user confirmed: what is sent. The dialog comes down; publishing a review
/// also closes the places it was validated in.
pub fn confirmed(ui: &mut Overlays) -> (r: Option<ExecutorCommand>)
    ensures
        final(ui).confirm is None,
        final(ui).note == old(ui).note,
        match old(ui).confirm {
            None => r is None && *final(ui) == *old(ui),
            Some(req) => {
                &&& r == Some(sent(req.action, old(ui).note))
                &&& req.action is PublishReview ==> final(ui).edits is None && final(ui).diff is None
                &&& !(req.action is PublishReview) ==> final(ui).edits == old(ui).edits
                &&& !(req.action is PublishReview) ==> final(ui).diff == old(ui).diff
            },
        },
{
    match ui.confirm.take() {
        None => None,
        Some(req) => match req.action {
            ConfirmAction::Send(cmd) => Some(cmd),
            ConfirmAction::DeleteCard(id) => Some(ExecutorCommand::DeleteCard { card_id: id }),
            ConfirmAction::DeleteProject(id) => Some(
                ExecutorCommand::DeleteProject { project_id: id },
            ),
            ConfirmAction::PublishReview(cmd) => {
                finish_review_validation(ui);
                Some(cmd)
            },
            ConfirmAction::BlockCard(id) => Some(
                ExecutorCommand::SetBlocked {
                    card_id: id,
                    blocked: true,
                    note: Some(ui.note.clone()),
                },
            ),
        },
    }
}

/// Confirming a dialog sends the very command it was raised for, whatever was
/// typed in it meanwhile.
pub proof fn confirming_sends_what_was_asked(
    req: ConfirmRequest,
    title: Seq<char>,
    message: Seq<char>,
    label: Seq<char>,
    danger: bool,
    cmd: ExecutorCommand,
    note: String,
)
    requires
        asks(req, title, message, label, danger, ConfirmAction::Send(cmd)) || asks(
            req,
            title,
            message,
            label,
            danger,
            ConfirmAction::PublishReview(cmd),
        ),
    ensures
        sent(req.action, note) == cmd,
{
}

/// Run an irreversible, outward-facing command behind a dialog. In demo mode
/// nothing real happens, so it goes out at once: what is sent now.
pub fn confirm_then_send(
    ui: &mut Overlays,
    demo: bool,
    title: &str,
    message: String,
    confirm_label: &str,
    cmd: ExecutorCommand,
) -> (r: Option<ExecutorCommand>)
    ensures
        demo ==> r == Some(cmd) && *final(ui) == *old(ui),
        !demo ==> r is None && raised(*old(ui), *final(ui)) && asks(
            final(ui).confirm->0,
            title@,
            message@,
            confirm_label@,
            false,
            ConfirmAction::Send(cmd),
        ),
{
    if demo {
        return Some(cmd);
    }
    request_confirm(
        ui,
        request(title, message, confirm_label, false, ConfirmAction::Send(cmd)),
    );
    None
}

/// The drafted comments a review will carry.
pub open spec fn selected_count(drafts: Seq<DraftComment>) -> nat {
    count_where(drafts, |d: DraftComment| d.selected)
}

pub fn count_selected(drafts: &Vec<DraftComment>) -> (r: usize)
    ensures
        r == selected_count(drafts@),
{
    let hit = |d: &DraftComment| -> (b: bool)
        ensures
            b == d.selected,
    {
        d.selected
    };
    count(drafts, hit, Ghost(|d: DraftComment| d.selected))
}

/// What a review is said to post.
pub open spec fn posted(selected: nat) -> Seq<char> {
    if selected == 0 {
        "a summary-only review"@
    } else if selected == 1 {
        "1 inline comment"@
    } else {
        decimal(selected) + " inline comments"@
    }
}

/// The words a review is published behind: exactly what will be sent, and the
/// verdict.
pub open spec fn publish_message(selected: nat, verdict: Seq<char>) -> Seq<char> {
    "Submit "@ + posted(selected) + " to GitHub as “"@ + verdict
        + "”? This posts on the contributor's pull request under your account and can't be undone from here."@
}

/// Publish a drafted review behind a dialog, from either place it is validated
/// in. In demo mode it goes out at once and both places close.
pub fn confirm_publish_review(
    ui: &mut Overlays,
    demo: bool,
    review_id: Id,
    drafts: Vec<DraftComment>,
    event: ReviewEvent,
    verdict_label: &str,
    body: String,
) -> (r: Option<ExecutorCommand>)
    ensures
        ({
            let cmd = ExecutorCommand::PublishReview { review_id, drafts, event, body };
            &&& demo ==> r == Some(cmd) && final(ui).edits is None && final(ui).diff is None
                && final(ui).confirm == old(ui).confirm && final(ui).note == old(ui).note
            &&& !demo ==> r is None && raised(*old(ui), *final(ui)) && asks(
                final(ui).confirm->0,
                "Publish review"@,
                publish_message(selected_count(drafts@), verdict_label@),
                "Publish"@,
                false,
                ConfirmAction::PublishReview(cmd),
            )
        }),
{
    let selected: usize = count_selected(&drafts);
    let cmd = ExecutorCommand::PublishReview { review_id, drafts, event, body };
    if demo {
        finish_review_validation(ui);
        return Some(cmd);
    }
    let what = if selected == 0 {
        "a summary-only review".to_owned()
    } else if selected == 1 {
        "1 inline comment".to_owned()
    } else {
        let n = decimal_text(selected as u64);
        cat2(n.as_str(), " inline comments")
    };
    let message = cat5(
        "Submit ",
        what.as_str(),
        " to GitHub as “",
        verdict_label,
        "”? This posts on the contributor's pull request under your account and can't be undone from here.",
    );
    request_confirm(
        ui,
        request("Publish review", message, "Publish", false, ConfirmAction::PublishReview(cmd)),
    );
    None
}

pub open spec fn approve_message(pr_number: u64) -> Seq<char> {
    "Approve PR #"@ + decimal(pr_number as nat)
        + " without running a review agent? The approval posts on the contributor's pull request under your account and can't be undone from here."@
}

/// An approval with no comments and no summary.
pub open spec fn bare_approval(cmd: ExecutorCommand, id: Id) -> bool {
    cmd matches ExecutorCommand::PublishReview { review_id, drafts, event, body } && review_id == id
        && drafts@.len() == 0 && event == ReviewEvent::Approve && body@.len() == 0
}

/// Approve a pull request outright, without the review agent, behind the same
/// dialog as publishing.
pub fn confirm_approve_review(ui: &mut Overlays, demo: bool, review_id: Id, pr_number: u64) -> (r:
    Option<ExecutorCommand>)
    ensures
        demo ==> r is Some && bare_approval(r->0, review_id) && *final(ui) == *old(ui),
        !demo ==> {
            &&& r is None
            &&& raised(*old(ui), *final(ui))
            &&& final(ui).confirm->0.action matches ConfirmAction::Send(cmd)
            &&& bare_approval(cmd, review_id)
            &&& asks(
                final(ui).confirm->0,
                "Approve pull request"@,
                approve_message(pr_number),
                "Approve"@,
                false,
                ConfirmAction::Send(cmd),
            )
        },
{
    let n = decimal_text(pr_number);
    let message = cat3(
        "Approve PR #",
        n.as_str(),
        " without running a review agent? The approval posts on the contributor's pull request under your account and can't be undone from here.",
    );
    confirm_then_send(
        ui,
        demo,
        "Approve pull request",
        message,
        "Approve",
        ExecutorCommand::PublishReview {
            review_id,
            drafts: Vec::new(),
            event: ReviewEvent::Approve,
            body: String::new(),
        },
    )
}

/// Push a fix of ours to the author's branch, behind a dialog.
pub fn confirm_push_review_fix(
    ui: &mut Overlays,
    demo: bool,
    review_id: Id,
    head_ref: &str,
) -> (r: Option<ExecutorCommand>)
    ensures
        demo ==> r == Some(ExecutorCommand::PushReviewFix { review_id }) && *final(ui) == *old(ui),
        !demo ==> r is None && raised(*old(ui), *final(ui)) && asks(
            final(ui).confirm->0,
            "Push the fix"@,
            "Push the fix to “"@ + head_ref@ + "”?"@,
            "Push"@,
            false,
            ConfirmAction::Send(ExecutorCommand::PushReviewFix { review_id }),
        ),
{
    let message = cat3("Push the fix to “", head_ref, "”?");
    confirm_then_send(
        ui,
        demo,
        "Push the fix",
        message,
        "Push",
        ExecutorCommand::PushReviewFix { review_id },
    )
}

/// Abandon a fix of ours, behind a dialog.
pub fn confirm_discard_review_fix(ui: &mut Overlays, review_id: Id)
    ensures
        raised(*old(ui), *final(ui)),
        asks(
            final(ui).confirm->0,
            "Discard the fix"@,
            "Abandon the fix and tell the author it isn't coming?"@,
            "Discard"@,
            true,
            ConfirmAction::Send(ExecutorCommand::DiscardReviewFix { review_id }),
        ),
{
    request_confirm(
        ui,
        request(
            "Discard the fix",
            "Abandon the fix and tell the author it isn't coming?".to_owned(),
            "Discard",
            true,
            ConfirmAction::Send(ExecutorCommand::DiscardReviewFix { review_id }),
        ),
    );
}

/// Close both places a review was validated in, once it has been submitted.
pub fn finish_review_validation(ui: &mut Overlays)
    ensures
        final(ui).edits is None,
        final(ui).diff is None,
        final(ui).confirm == old(ui).confirm,
        final(ui).note == old(ui).note,
{
    clear(&mut ui.edits);
    ui.diff = None;
}

pub open spec fn dismiss_message(pr_number: u64) -> Seq<char> {
    "Remove PR #"@ + decimal(pr_number as nat)
        + " from the review board? It won't come back on a later scan, and any checkout made for it is torn down."@
}

/// Dismiss a pull request from the review board, behind a dialog: no later scan
/// will ever surface it again.
pub fn confirm_dismiss_review(ui: &mut Overlays, review_id: Id, pr_number: u64)
    ensures
        raised(*old(ui), *final(ui)),
        asks(
            final(ui).confirm->0,
            "Dismiss pull request"@,
            dismiss_message(pr_number),
            "Dismiss"@,
            true,
            ConfirmAction::Send(ExecutorCommand::DismissReview { review_id }),
        ),
{
    let n = decimal_text(pr_number);
    let message = cat3(
        "Remove PR #",
        n.as_str(),
        " from the review board? It won't come back on a later scan, and any checkout made for it is torn down.",
    );
    request_confirm(
        ui,
        request(
            "Dismiss pull request",
            message,
            "Dismiss",
            true,
            ConfirmAction::Send(ExecutorCommand::DismissReview { review_id }),
        ),
    );
}

/// Throw away a drafted review, behind a dialog: as permanent as dismissing.
pub fn confirm_discard_review(ui: &mut Overlays, review_id: Id)
    ensures
        raised(*old(ui), *final(ui)),
        asks(
            final(ui).confirm->0,
            "Discard review"@,
            "Throw away these drafted comments and drop the PR from the board? Nothing is posted to GitHub, and the PR won't reappear on a later scan."@,
            "Discard"@,
            true,
            ConfirmAction::Send(ExecutorCommand::DismissReview { review_id }),
        ),
{
    request_confirm(
        ui,
        request(
            "Discard review",
            "Throw away these drafted comments and drop the PR from the board? Nothing is posted to GitHub, and the PR won't reappear on a later scan.".to_owned(),
            "Discard",
            true,
            ConfirmAction::Send(ExecutorCommand::DismissReview { review_id }),
        ),
    );
}

// ---- Gestures ------------------------------------------------------------

/// What pressing a button does.
#[derive(Debug, Clone, PartialEq, Eq)]
pub enum Gesture {
    /// Send a command.
    Send(ExecutorCommand),
    /// Put a dialog up.
    Ask(ConfirmRequest),
    /// Send a command that leaves the machine: behind a dialog, but for demo
    /// mode.
    Guard { title: &'static str, message: String, label: &'static str, cmd: ExecutorCommand },
    /// Open the card's panel at one of its sections.
    OpenAt(&'static str),
    /// Nothing: the button is disabled.
    Nothing,
}

/// A gesture as a mathematical value.
pub enum GestureView {
    Send(ExecutorCommand),
    Ask(RequestView),
    Guard(Seq<char>, Seq<char>, Seq<char>, ExecutorCommand),
    OpenAt(Seq<char>),
    Nothing,
}

impl View for Gesture {
    type V = GestureView;

    open spec fn view(&self) -> GestureView {
        match *self {
            Gesture::Send(cmd) => GestureView::Send(cmd),
            Gesture::Ask(req) => GestureView::Ask(req@),
            Gesture::Guard { title, message, label, cmd } => GestureView::Guard(
                title@,
                message@,
                label@,
                cmd,
            ),
            Gesture::OpenAt(anchor) => GestureView::OpenAt(anchor@),
            Gesture::Nothing => GestureView::Nothing,
        }
    }
}

/// What a gesture comes to at once.
#[derive(Debug, Clone, PartialEq, Eq)]
pub struct Performed {
    pub send: Option<ExecutorCommand>,
    pub open_at: Option<&'static str>,
}

/// The overlays with a dialog up.
pub open spec fn with_dialog(ui: OverlaysView, req: RequestView) -> OverlaysView {
    OverlaysView { confirm: Some(req), note: Seq::empty(), ..ui }
}

/// What a gesture does to the dialogs, and what is sent or opened at once. The demo
/// sends what is guarded without asking.
pub open spec fn performed(
    before: OverlaysView,
    after: OverlaysView,
    r: Performed,
    demo: bool,
    g: GestureView,
) -> bool {
    match g {
        GestureView::Send(cmd) => r.send == Some(cmd) && r.open_at is None && after == before,
        GestureView::Ask(req) => r.send is None && r.open_at is None && after == with_dialog(
            before,
            req,
        ),
        GestureView::Guard(title, message, label, cmd) => {
            &&& r.open_at is None
            &&& demo ==> r.send == Some(cmd) && after == before
            &&& !demo ==> r.send is None && after == with_dialog(
                before,
                RequestView {
                    title,
                    message,
                    confirm_label: label,
                    danger: false,
                    action: ConfirmAction::Send(cmd),
                },
            )
        },
        GestureView::OpenAt(anchor) => r.send is None && r.open_at is Some && r.open_at->0@
            == anchor && after == before,
        GestureView::Nothing => r.send is None && r.open_at is None && after == before,
    }
}

/// Carry a gesture out. Nothing that leaves the machine is sent before it is
/// confirmed, but for demo mode.
pub fn perform(ui: &mut Overlays, demo: bool, gesture: Gesture) -> (r: Performed)
    ensures
        performed(old(ui)@, final(ui)@, r, demo, gesture@),
{
    match gesture {
        Gesture::Send(cmd) => Performed { send: Some(cmd), open_at: None },
        Gesture::Ask(req) => {
            request_confirm(ui, req);
            Performed { send: None, open_at: None }
        },
        Gesture::Guard { title, message, label, cmd } => {
            let send = confirm_then_send(ui, demo, title, message, label, cmd);
            Performed { send, open_at: None }
        },
        Gesture::OpenAt(anchor) => Performed { send: None, open_at: Some(anchor) },
        Gesture::Nothing => Performed { send: None, open_at: None },
    }
}

// ---- Laws ----------------------------------------------------------------

/// The command a gesture comes to once every dialog it raises is confirmed.
pub open spec fn leads_to(g: GestureView) -> Option<ExecutorCommand> {
    match g {
        GestureView::Send(cmd) => Some(cmd),
        GestureView::Guard(_, _, _, cmd) => Some(cmd),
        GestureView::Ask(req) => match req.action {
            ConfirmAction::Send(cmd) => Some(cmd),
            ConfirmAction::PublishReview(cmd) => Some(cmd),
            ConfirmAction::DeleteCard(id) => Some(ExecutorCommand::DeleteCard { card_id: id }),
            ConfirmAction::DeleteProject(id) => Some(
                ExecutorCommand::DeleteProject { project_id: id },
            ),
            ConfirmAction::BlockCard(_) => None,
        },
        _ => None,
    }
}

/// A confirmed dialog sends the command its gesture leads to; blocking a card marks
/// that card, with what the note holds by then.
pub proof fn confirming_does_what_was_asked(req: RequestView, note: String)
    ensures
        leads_to(GestureView::Ask(req)) matches Some(cmd) ==> sent(req.action, note) == cmd,
        req.action matches ConfirmAction::BlockCard(id) ==> (sent(req.action, note) matches
            ExecutorCommand::SetBlocked { card_id, blocked, note: said } && card_id == id && blocked
            && said == Some(note)),
{
}

/// A gesture sends what it leads to and nothing else, at once or from the dialog it
/// raises. One that asks raises its dialog with an empty note and leaves the drafts and
/// the diff; one that opens a card or does nothing changes nothing.
pub proof fn a_gesture_does_what_it_leads_to(
    before: OverlaysView,
    after: OverlaysView,
    r: Performed,
    demo: bool,
    g: GestureView,
)
    requires
        performed(before, after, r, demo, g),
    ensures
        r.send matches Some(cmd) ==> leads_to(g) == Some(cmd) && after == before,
        r.send is Some ==> g is Send || (g is Guard && demo),
        r.send is None && leads_to(g) is Some ==> (after.confirm matches Some(req) && leads_to(
            GestureView::Ask(req),
        ) == leads_to(g)),
        g is Ask || (g is Guard && !demo) ==> after.confirm is Some && after.note.len() == 0
            && after.edits == before.edits && after.diff == before.diff,
        g matches GestureView::Ask(req) ==> after.confirm == Some(req),
        g matches GestureView::Guard(title, message, label, _) ==> !demo ==> (
        after.confirm matches Some(req) && req.title == title && req.message == message
            && req.confirm_label == label && !req.danger),
        g matches GestureView::OpenAt(anchor) ==> r.open_at is Some && r.open_at->0@ == anchor
            && after == before,
        r.open_at is Some ==> g is OpenAt,
        g is Nothing ==> r.send is None && after == before,
{
}

/// Publishing says how many comments it posts and as what.
pub proof fn publishing_says_what_it_posts(
    drafts: Seq<DraftComment>,
    more: DraftComment,
    n: nat,
    verdict: Seq<char>,
)
    ensures
        selected_count(drafts.push(more)) == selected_count(drafts) + (if more.selected {
            1nat
        } else {
            0nat
        }),
        selected_count(Seq::empty()) == 0,
        n > 1 ==> within(publish_message(n, verdict), decimal(n)),
        within(publish_message(n, verdict), verdict),
        n == 0 <==> posted(n) == "a summary-only review"@,
{
    assert(drafts.push(more).drop_last() =~= drafts);
    let tail = "”? This posts on the contributor's pull request under your account and can't be undone from here."@;
    let m = publish_message(n, verdict);
    assert(m =~= "Submit "@ + posted(n) + " to GitHub as “"@ + verdict + tail);
    parts_are_found("Submit "@ + posted(n) + " to GitHub as “"@, verdict, tail);
    if n > 1 {
        let words = " inline comments"@;
        let rest = words + " to GitHub as “"@ + verdict + tail;
        assert(m =~= "Submit "@ + decimal(n) + rest);
        parts_are_found("Submit "@, decimal(n), rest);
    }
    reveal_strlit("a summary-only review");
    reveal_strlit("1 inline comment");
    assert("a summary-only review"@[0] == 'a' && "1 inline comment"@[0] == '1');
    if n > 1 {
        decimal_reads_back(n);
        assert(digit(decimal(n)[0]));
        assert(posted(n)[0] == decimal(n)[0]);
    }
}

/// What is done to a pull request under review is asked for by its number.
pub proof fn review_dialogs_name_the_pull_request(pr_number: u64)
    ensures
        within(approve_message(pr_number), decimal(pr_number as nat)),
        within(dismiss_message(pr_number), decimal(pr_number as nat)),
{
    let n = decimal(pr_number as nat);
    parts_are_found(
        "Approve PR #"@,
        n,
        " without running a review agent? The approval posts on the contributor's pull request under your account and can't be undone from here."@,
    );
    parts_are_found(
        "Remove PR #"@,
        n,
        " from the review board? It won't come back on a later scan, and any checkout made for it is torn down."@,
    );
}

/// A note is asked for exactly where a card is blocked, and a dialog is red exactly where
/// it is dangerous.
pub proof fn dialogs_look_their_part(req: ConfirmRequest, noted: bool, class: &'static str)
    requires
        call_ensures(with_note, (&req,), noted),
        call_ensures(confirm_class, (&req,), class),
    ensures
        noted <==> req.action is BlockCard,
        class@ == "btn danger"@ <==> req.danger,
{
    reveal_strlit("btn danger");
    reveal_strlit("btn primary");
    assert("btn danger"@.len() != "btn primary"@.len());
}

/// A gesture reads as what it is: what it says it sends it sends, and so with what it
/// asks, guards and opens.
pub proof fn a_gesture_reads_as_itself(g: Gesture, cmd: ExecutorCommand)
    ensures
        g@ == GestureView::Send(cmd) <==> g == Gesture::Send(cmd),
        g matches Gesture::Ask(req) ==> (g@ matches GestureView::Ask(v) && v.title == req.title@
            && v.message == req.message@ && v.confirm_label == req.confirm_label@ && v.danger
            == req.danger && v.action == req.action),
        g matches Gesture::Guard { cmd: guarded, .. } ==> (g@ matches GestureView::Guard(_, _, _, c)
            && c == guarded),
        g is Nothing <==> g@ is Nothing,
        g is OpenAt <==> g@ is OpenAt,
        g is Ask <==> g@ is Ask,
        g is Guard <==> g@ is Guard,
{
}

} // verus!
