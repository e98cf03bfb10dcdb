//! Editing a card: its title and description, how it runs, its attachments.

use vstd::prelude::*;

use crate::command::ExecutorCommand;
use crate::copies::CardView;
use crate::lists::{first_where, first_where_is_first};
use crate::model::{Card, CardConfig, CardKind, Id, ModelSpec};
use crate::outside::{base64_encode, base64_text, png_encode, png_file};
use crate::state::AppState;
use crate::text::{cat4, chars_of, ends, parts_are_found, same_text, starts, string_of};

verus! {

// ---- Edits ---------------------------------------------------------------

/// One edit of a card.
#[derive(Debug, PartialEq, Eq)]
pub enum CardEdit {
    Title(String),
    Description(String),
    /// Another provider, by what a card of its runs with by default.
    Provider(CardConfig),
    Kind(CardKind),
    Plan(ModelSpec),
    Implement(ModelSpec),
    Review(Option<ModelSpec>),
}

/// A card with one edit made. Switching the provider takes over its models but
/// keeps the card's kind.
pub open spec fn edited(c: CardView, e: CardEdit) -> CardView {
    match e {
        CardEdit::Title(t) => CardView { title: t@, ..c },
        CardEdit::Description(d) => CardView { description: d@, ..c },
        CardEdit::Provider(defaults) => CardView {
            config: CardConfig { kind: c.config.kind, ..defaults },
            ..c
        },
        CardEdit::Kind(kind) => CardView { config: CardConfig { kind, ..c.config }, ..c },
        CardEdit::Plan(plan) => CardView { config: CardConfig { plan, ..c.config }, ..c },
        CardEdit::Implement(implement) => CardView {
            config: CardConfig { implement, ..c.config },
            ..c
        },
        CardEdit::Review(review) => CardView { config: CardConfig { review, ..c.config }, ..c },
    }
}

pub fn edit_card(card: Card, e: CardEdit) -> (r: Card)
    ensures
        r@ == edited(card@, e),
{
    let mut c = card;
    match e {
        CardEdit::Title(t) => {
            c.title = t;
        },
        CardEdit::Description(d) => {
            c.description = d;
        },
        CardEdit::Provider(defaults) => {
            let kind = c.config.kind;
            c.config = defaults;
            c.config.kind = kind;
        },
        CardEdit::Kind(kind) => {
            c.config.kind = kind;
        },
        CardEdit::Plan(spec) => {
            c.config.plan = spec;
        },
        CardEdit::Implement(spec) => {
            c.config.implement = spec;
        },
        CardEdit::Review(spec) => {
            c.config.review = spec;
        },
    }
    c
}

/// Saving the card a view describes.
pub open spec fn saves(cmd: Option<ExecutorCommand>, c: CardView) -> bool {
    cmd matches Some(ExecutorCommand::SaveCard { card }) && card@ == c
}

impl AppState {
    /// Make one edit of a card and have it saved; the board changes when it is.
    /// Nothing is sent for a card that is gone.
    pub fn update_card(&self, id: Id, e: CardEdit) -> (r: Option<ExecutorCommand>)
        ensures
            match first_where(self@.cards, |c: Card| c.id == id) {
                Some(i) => saves(r, edited(self@.cards[i]@, e)),
                None => r is None,
            },
    {
        match self.find_card(id) {
            Some(card) => Some(self.save_card(edit_card(card.clone(), e))),
            None => None,
        }
    }
}

// ---- The title and the description ---------------------------------------

/// A text being edited in place: what is typed, what was saved last, and how
/// often the field was rebuilt to take a value back.
#[derive(Debug, Clone, PartialEq, Eq)]
pub struct Draft {
    pub buf: String,
    pub committed: String,
    pub generation: u32,
}

impl Draft {
    pub fn new(text: String) -> (r: Draft)
        ensures
            r.buf == text,
            r.committed == text,
            r.generation == 0,
    {
        Draft { buf: text.clone(), committed: text, generation: 0 }
    }

    pub fn typed(&mut self, text: String)
        ensures
            *final(self) == (Draft { buf: text, ..*old(self) }),
    {
        self.buf = text;
    }

    /// Leaving the field saves what is in it: the text to save.
    pub fn commit(&mut self, text: String) -> (r: String)
        ensures
            r == text,
            *final(self) == (Draft { committed: text, ..*old(self) }),
    {
        self.committed = text.clone();
        text
    }

    /// Escape takes back what was typed since the last save.
    pub fn revert(&mut self)
        requires
            old(self).generation < u32::MAX,
        ensures
            *final(self) == (Draft {
                buf: old(self).committed,
                generation: (old(self).generation + 1) as u32,
                ..*old(self)
            }),
    {
        self.buf = self.committed.clone();
        self.generation = self.generation + 1;
    }

    /// The panel goes away before the field is left: what is still to be saved.
    /// An untouched field saves nothing, lest it overwrite an edit from
    /// elsewhere.
    pub fn unsaved(&self) -> (r: Option<String>)
        ensures
            r == unsaved_text(*self),
    {
        if same_text(self.buf.as_str(), self.committed.as_str()) {
            None
        } else {
            Some(self.buf.clone())
        }
    }
}

pub open spec fn unsaved_text(d: Draft) -> Option<String> {
    if d.buf@ == d.committed@ {
        None
    } else {
        Some(d.buf)
    }
}

/// What is typed is never lost to the panel's closing: it is saved then, unless
/// it is what was saved last.
pub proof fn typed_text_is_saved(d: Draft, text: String)
    ensures
        text@ != d.committed@ ==> unsaved_text(Draft { buf: text, ..d }) == Some(text),
        text@ == d.committed@ ==> unsaved_text(Draft { buf: text, ..d }) is None,
{
}

/// After Escape there is nothing to save.
pub proof fn reverting_leaves_nothing(d: Draft)
    ensures
        unsaved_text(Draft { buf: d.committed, ..d }) is None,
{
}

// ---- How a card runs -----------------------------------------------------

/// The three ways a card can run.
#[derive(Debug, Clone, Copy, PartialEq, Eq, Structural)]
pub enum Mode {
    /// Plan first, then implement.
    Design,
    /// Implement straight from the description.
    Direct,
    /// Look, change nothing, and conclude.
    Investigate,
}

pub open spec fn mode_of(kind: CardKind, skip_plan: bool) -> Mode {
    if kind == CardKind::Investigation {
        Mode::Investigate
    } else if skip_plan {
        Mode::Direct
    } else {
        Mode::Design
    }
}

pub fn mode(kind: CardKind, skip_plan: bool) -> (r: Mode)
    ensures
        r == mode_of(kind, skip_plan),
{
    match kind {
        CardKind::Investigation => Mode::Investigate,
        CardKind::Task => if skip_plan {
            Mode::Direct
        } else {
            Mode::Design
        },
    }
}

pub fn start_label(m: Mode) -> (r: &'static str)
    ensures
        r@ == (match m {
            Mode::Design => "Start designing"@,
            Mode::Direct => "Start implementing"@,
            Mode::Investigate => "Start investigation"@,
        }),
{
    match m {
        Mode::Design => "Start designing",
        Mode::Direct => "Start implementing",
        Mode::Investigate => "Start investigation",
    }
}

pub fn mode_class(current: Mode, m: Mode) -> (r: &'static str)
    ensures
        r@ == (if current == m {
            "btn primary"@
        } else {
            "btn"@
        }),
{
    if current == m {
        "btn primary"
    } else {
        "btn"
    }
}

/// What choosing a mode changes: the card's kind, and for a card that makes
/// changes whether it skips planning.
pub open spec fn chosen(m: Mode) -> (CardKind, Option<bool>) {
    match m {
        Mode::Design => (CardKind::Task, Some(false)),
        Mode::Direct => (CardKind::Task, Some(true)),
        Mode::Investigate => (CardKind::Investigation, None),
    }
}

impl AppState {
    /// Choose a mode: the card to save, and the mark to set.
    pub fn choose_mode(&self, id: Id, m: Mode) -> (r: (
        Option<ExecutorCommand>,
        Option<ExecutorCommand>,
    ))
        ensures
            match first_where(self@.cards, |c: Card| c.id == id) {
                Some(i) => saves(r.0, edited(self@.cards[i]@, CardEdit::Kind(chosen(m).0))),
                None => r.0 is None,
            },
            r.1 == (match chosen(m).1 {
                Some(skip) => Some(ExecutorCommand::SetSkipPlan { card_id: id, skip }),
                None => None,
            }),
    {
        match m {
            Mode::Design => (
                self.update_card(id, CardEdit::Kind(CardKind::Task)),
                Some(self.set_card_skip_plan(id, false)),
            ),
            Mode::Direct => (
                self.update_card(id, CardEdit::Kind(CardKind::Task)),
                Some(self.set_card_skip_plan(id, true)),
            ),
            Mode::Investigate => (
                self.update_card(id, CardEdit::Kind(CardKind::Investigation)),
                None,
            ),
        }
    }
}

/// Which phases the form asks a model for.
#[derive(Debug, Clone, Copy, PartialEq, Eq, Structural)]
pub struct PhaseFields {
    /// The plan model, under the name of the investigation where there is no
    /// plan.
    pub plan: bool,
    pub implement: bool,
    pub review: bool,
    /// The self-review checkbox: an investigation has nothing to review.
    pub auto_review: bool,
}

pub fn phase_fields(m: Mode) -> (r: PhaseFields)
    ensures
        r == (PhaseFields {
            plan: m != Mode::Direct,
            implement: m != Mode::Investigate,
            review: m != Mode::Investigate,
            auto_review: m != Mode::Investigate,
        }),
{
    PhaseFields {
        plan: !matches!(m, Mode::Direct),
        implement: !matches!(m, Mode::Investigate),
        review: !matches!(m, Mode::Investigate),
        auto_review: !matches!(m, Mode::Investigate),
    }
}

/// Choosing a mode gives that mode, whatever the card was set to. (Investigating
/// leaves the mark alone, and does not read it.)
pub proof fn chosen_mode_holds(m: Mode, skip_before: bool)
    ensures
        mode_of(
            chosen(m).0,
            match chosen(m).1 {
                Some(skip) => skip,
                None => skip_before,
            },
        ) == m,
{
}

// ---- Attachments ---------------------------------------------------------

/// A character with ASCII letters in lower case.
pub open spec fn ascii_lower(c: char) -> char {
    if 'A' <= c && c <= 'Z' {
        ((c as u8) + 32) as char
    } else {
        c
    }
}

pub open spec fn ascii_lowered(s: Seq<char>) -> Seq<char> {
    s.map_values(|c: char| ascii_lower(c))
}

/// The type of a picture with this file extension, if a web view can show it.
pub open spec fn mime_of(ext: Seq<char>) -> Option<Seq<char>> {
    let e = ascii_lowered(ext);
    if e == "png"@ {
        Some("image/png"@)
    } else if e == "jpg"@ || e == "jpeg"@ {
        Some("image/jpeg"@)
    } else if e == "gif"@ {
        Some("image/gif"@)
    } else if e == "webp"@ {
        Some("image/webp"@)
    } else if e == "bmp"@ {
        Some("image/bmp"@)
    } else {
        None
    }
}

fn lower_ascii(s: &str) -> (r: String)
    ensures
        r@ == ascii_lowered(s@),
{
    let cs = chars_of(s);
    let mut out: Vec<char> = Vec::new();
    let mut i: usize = 0;
    while i < cs.len()
        invariant
            i <= cs.len(),
            out@ == ascii_lowered(cs@).take(i as int),
        decreases cs.len() - i,
    {
        let c = cs[i];
        let low = if 'A' <= c && c <= 'Z' {
            ((c as u8) + 32) as char
        } else {
            c
        };
        out.push(low);
        assert(out@ =~= ascii_lowered(cs@).take(i + 1));
        i += 1;
    }
    assert(out@ =~= ascii_lowered(cs@));
    string_of(out.as_slice())
}

/// The type of an attachment that can be previewed, by its file extension.
pub fn image_mime(extension: &str) -> (r: Option<&'static str>)
    ensures
        match r {
            Some(m) => mime_of(extension@) == Some(m@),
            None => mime_of(extension@) is None,
        },
{
    let low = lower_ascii(extension);
    let e = low.as_str();
    if same_text(e, "png") {
        Some("image/png")
    } else if same_text(e, "jpg") || same_text(e, "jpeg") {
        Some("image/jpeg")
    } else if same_text(e, "gif") {
        Some("image/gif")
    } else if same_text(e, "webp") {
        Some("image/webp")
    } else if same_text(e, "bmp") {
        Some("image/bmp")
    } else {
        None
    }
}

/// A file's bytes as a URL that holds them.
pub open spec fn inlined(mime: Seq<char>, bytes: Seq<u8>) -> Seq<char> {
    "data:"@ + mime + ";base64,"@ + base64_text(bytes)
}

pub fn data_url(mime: &str, bytes: &Vec<u8>) -> (r: String)
    requires
        bytes@.len() <= usize::MAX / 4,
    ensures
        r@ == inlined(mime@, bytes@),
{
    let b64 = base64_encode(bytes.as_slice());
    cat4("data:", mime, ";base64,", b64.as_str())
}

/// The source of an attachment's preview. Nothing for a file that is no picture
/// or could not be read.
pub fn preview_src(extension: &str, bytes: Option<Vec<u8>>) -> (r: Option<String>)
    requires
        bytes is Some ==> bytes->0@.len() <= usize::MAX / 4,
    ensures
        match (mime_of(extension@), bytes) {
            (Some(mime), Some(b)) => r is Some && r->0@ == inlined(mime, b@),
            _ => r is None,
        },
{
    match (image_mime(extension), bytes) {
        (Some(mime), Some(b)) => Some(data_url(mime, &b)),
        _ => None,
    }
}

impl AppState {
    /// Attach a pasted picture of RGBA bytes, as the PNG file of it. Nothing is
    /// sent where the bytes do not make a picture.
    pub fn attach_pasted(&self, card_id: Id, width: u32, height: u32, rgba: Vec<u8>) -> (r: Option<
        ExecutorCommand,
    >)
        requires
            rgba@.len() <= 4 * width * height,
        ensures
            match png_file(width, height, rgba@) {
                Some(png) => r matches Some(ExecutorCommand::AttachImageBytes { card_id: id, data })
                    && id == card_id && data@ == png,
                None => r is None,
            },
            rgba@.len() < 4 * width * height ==> r is None,
    {
        match png_encode(width, height, rgba) {
            Some(png) => Some(self.attach_image_bytes(card_id, png)),
            None => None,
        }
    }
}

// ---- Laws ----------------------------------------------------------------

/// An edit reads back, and nothing else of the card changes: not its other texts, not
/// the other parts of how it runs. Another provider brings its own models and keeps what
/// the card is.
pub proof fn a_card_edit_touches_one_field(card: Card, e: CardEdit, r: Card)
    requires
        call_ensures(edit_card, (card, e), r),
    ensures
        r@ == (CardView {
            title: r@.title,
            description: r@.description,
            config: r.config,
            ..card@
        }),
        e is Title || r.title@ == card.title@,
        e is Description || r.description@ == card.description@,
        e is Title || e is Description ==> r.config == card.config,
        e is Kind || r.config.kind == card.config.kind,
        e is Plan || e is Provider || r.config.plan == card.config.plan,
        e is Implement || e is Provider || r.config.implement == card.config.implement,
        e is Review || e is Provider || r.config.review == card.config.review,
        e is Provider || r.config.provider == card.config.provider,
        e matches CardEdit::Title(t) ==> r.title@ == t@,
        e matches CardEdit::Description(d) ==> r.description@ == d@,
        e matches CardEdit::Kind(kind) ==> r.config.kind == kind,
        e matches CardEdit::Plan(spec) ==> r.config.plan == spec,
        e matches CardEdit::Implement(spec) ==> r.config.implement == spec,
        e matches CardEdit::Review(spec) ==> r.config.review == spec,
        e matches CardEdit::Provider(defaults) ==> r.config.provider == defaults.provider
            && r.config.plan == defaults.plan && r.config.implement == defaults.implement
            && r.config.review == defaults.review,
{
}

/// Edits of two different parts of a card commute; a provider's models give way to the
/// ones picked after it.
pub proof fn card_edits_commute(
    c: CardView,
    title: String,
    text: String,
    kind: CardKind,
    plan: ModelSpec,
    implement: ModelSpec,
    review: Option<ModelSpec>,
)
    ensures
        edited(edited(c, CardEdit::Title(title)), CardEdit::Description(text)) == edited(
            edited(c, CardEdit::Description(text)),
            CardEdit::Title(title),
        ),
        edited(edited(c, CardEdit::Kind(kind)), CardEdit::Plan(plan)) == edited(
            edited(c, CardEdit::Plan(plan)),
            CardEdit::Kind(kind),
        ),
        edited(edited(c, CardEdit::Plan(plan)), CardEdit::Implement(implement)) == edited(
            edited(c, CardEdit::Implement(implement)),
            CardEdit::Plan(plan),
        ),
        edited(edited(c, CardEdit::Review(review)), CardEdit::Implement(implement)) == edited(
            edited(c, CardEdit::Implement(implement)),
            CardEdit::Review(review),
        ),
        edited(edited(c, CardEdit::Review(review)), CardEdit::Plan(plan)) == edited(
            edited(c, CardEdit::Plan(plan)),
            CardEdit::Review(review),
        ),
        edited(edited(c, CardEdit::Title(title)), CardEdit::Plan(plan)) == edited(
            edited(c, CardEdit::Plan(plan)),
            CardEdit::Title(title),
        ),
{
}

/// What is saved is the edited card of that id.
pub proof fn the_edited_card_is_saved(s: AppState, id: Id, e: CardEdit, r: Option<ExecutorCommand>)
    requires
        call_ensures(AppState::update_card, (&s, id, e), r),
    ensures
        r matches Some(cmd) ==> cmd is SaveCard && cmd->card.id == id && exists|i: int|
            0 <= i < s@.cards.len() && #[trigger] s@.cards[i].id == id && cmd->card@ == edited(
                s@.cards[i]@,
                e,
            ),
        r is None <==> forall|i: int| 0 <= i < s@.cards.len() ==> (#[trigger] s@.cards[i]).id != id,
{
    let p = |c: Card| c.id == id;
    first_where_is_first(s@.cards, p);
    assert forall|i: int| r is None && 0 <= i < s@.cards.len() implies (
    #[trigger] s@.cards[i]).id != id by {
        assert(!p(s@.cards[i]));
    }
    if first_where(s@.cards, p) is Some {
        let i = first_where(s@.cards, p)->0;
        assert(s@.cards[i].id == id);
    }
}

/// An investigation is one whatever else is set; a task is planned unless that is
/// skipped.
pub proof fn a_mode_follows_the_card(kind: CardKind, skip_plan: bool)
    ensures
        mode_of(kind, skip_plan) == Mode::Investigate <==> kind == CardKind::Investigation,
        kind == CardKind::Task ==> (mode_of(kind, skip_plan) == Mode::Direct <==> skip_plan),
{
}

/// Choosing a mode saves what the card is and, for a task, whether it skips the plan;
/// the card is then in that mode.
pub proof fn choosing_a_mode_sets_it(
    s: AppState,
    id: Id,
    m: Mode,
    r: (Option<ExecutorCommand>, Option<ExecutorCommand>),
)
    requires
        call_ensures(AppState::choose_mode, (&s, id, m), r),
    ensures
        r.0 matches Some(cmd) ==> cmd is SaveCard && (cmd->card@.config.kind
            == CardKind::Investigation <==> m == Mode::Investigate),
        r.1 is None <==> m == Mode::Investigate,
        r.1 matches Some(cmd) ==> (cmd matches ExecutorCommand::SetSkipPlan { card_id, skip }
            && card_id == id && (skip <==> m == Mode::Direct)),
{
}

/// The models on offer are those of the phases a mode runs.
pub proof fn fields_follow_the_mode(m: Mode, r: PhaseFields)
    requires
        call_ensures(phase_fields, (m,), r),
    ensures
        r.plan <==> m == Mode::Design || m == Mode::Investigate,
        r.implement <==> m == Mode::Design || m == Mode::Direct,
        r.review <==> r.implement,
        r.auto_review <==> r.implement,
{
}

/// A capital becomes its small letter, and every other character stays.
pub proof fn capitals_become_small(c: char)
    ensures
        'A' <= c <= 'Z' ==> ascii_lower(c) as int - 'a' as int == c as int - 'A' as int,
        !('A' <= c <= 'Z') ==> ascii_lower(c) == c,
{
    if 'A' <= c && c <= 'Z' {
        assert(c as u8 as int == c as int);
        assert(((c as u8) + 32) as char as int == c as int + 32);
    }
}

/// An image is known by its extension, in capitals or not: the type is the extension's
/// own, and a jpg is a jpeg.
pub proof fn images_are_known_by_extension(ext: Seq<char>)
    ensures
        ({
            let e = ascii_lowered(ext);
            let own = e == "png"@ || e == "jpeg"@ || e == "gif"@ || e == "webp"@ || e == "bmp"@;
            &&& own ==> mime_of(ext) == Some("image/"@ + e)
            &&& e == "jpg"@ ==> mime_of(ext) == Some("image/jpeg"@)
            &&& !own && e != "jpg"@ ==> mime_of(ext) is None
        }),
{
    reveal_strlit("png");
    reveal_strlit("jpg");
    reveal_strlit("jpeg");
    reveal_strlit("gif");
    reveal_strlit("webp");
    reveal_strlit("bmp");
    reveal_strlit("image/");
    reveal_strlit("image/png");
    reveal_strlit("image/jpeg");
    reveal_strlit("image/gif");
    reveal_strlit("image/webp");
    reveal_strlit("image/bmp");
    assert("image/"@ + "png"@ =~= "image/png"@);
    assert("image/"@ + "jpeg"@ =~= "image/jpeg"@);
    assert("image/"@ + "gif"@ =~= "image/gif"@);
    assert("image/"@ + "webp"@ =~= "image/webp"@);
    assert("image/"@ + "bmp"@ =~= "image/bmp"@);
    assert("png"@[0] == 'p' && "jpg"@[0] == 'j' && "gif"@[0] == 'g' && "webp"@[0] == 'w'
        && "bmp"@[0] == 'b' && "jpeg"@[0] == 'j');
    assert("jpg"@.len() == 3 && "jpeg"@.len() == 4);
}

/// An image in the page names its type and holds its bytes, and nothing else.
pub proof fn an_image_in_the_page_holds_its_bytes(mime: Seq<char>, bytes: Seq<u8>)
    ensures
        starts(inlined(mime, bytes), "data:"@ + mime),
        ends(inlined(mime, bytes), base64_text(bytes)),
        inlined(mime, bytes).len() == "data:"@.len() + mime.len() + ";base64,"@.len() + base64_text(
            bytes,
        ).len(),
{
    let head = "data:"@ + mime;
    let tail = ";base64,"@ + base64_text(bytes);
    assert(inlined(mime, bytes) =~= head + tail);
    parts_are_found(Seq::empty(), head, tail);
    parts_are_found(head + ";base64,"@, base64_text(bytes), Seq::empty());
}

/// A mode says what it starts with, each its own, and only the current one is marked.
pub proof fn modes_look_their_part(
    current: Mode,
    m: Mode,
    class: &'static str,
    a: &'static str,
    b: &'static str,
)
    requires
        call_ensures(mode_class, (current, m), class),
        call_ensures(start_label, (current,), a),
        call_ensures(start_label, (m,), b),
    ensures
        class@ == "btn primary"@ <==> current == m,
        a@ == b@ <==> current == m,
        starts(a@, "Start "@),
{
    reveal_strlit("btn primary");
    reveal_strlit("btn");
    reveal_strlit("Start designing");
    reveal_strlit("Start implementing");
    reveal_strlit("Start investigation");
    reveal_strlit("Start ");
    assert("btn"@.len() != "btn primary"@.len());
    assert("Start designing"@.len() == 15 && "Start implementing"@.len() == 18
        && "Start investigation"@.len() == 19);
    assert("Start designing"@.take(6) =~= "Start "@);
    assert("Start implementing"@.take(6) =~= "Start "@);
    assert("Start investigation"@.take(6) =~= "Start "@);
}

} // verus!
