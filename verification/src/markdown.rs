//! Agent prose as markdown-lite: headings, bullets, numbered steps, fenced and
//! inline code, bold, and `path:line` references.

use vstd::prelude::*;
use vstd::slice::slice_subrange;

use crate::text::{
    all_digits, alphanumeric, blank, blank_back, blank_front, blank_is_empty_trim, chars_of, digit,
    ends, find, find_is_first, find_last, find_last_slice, find_slice, is_alphanumeric, is_digit,
    is_white, starts, starts_slice, string_of, trim_back, trim_back_tail, trim_end_slice,
    trim_front, trim_slice, trim_start_slice, trimmed, white,
};

verus! {

// ---- Blocks --------------------------------------------------------------

/// The block structure prose is split into. Deliberately small: anything
/// richer degrades to a paragraph.
#[derive(Debug, PartialEq, Eq)]
pub enum MdBlock {
    Heading(u8, String),
    Para(Vec<String>),
    Bullets(Vec<String>),
    Ordered(Vec<String>),
    Code(String),
}

/// A block as a mathematical value.
pub enum BlockView {
    Heading(int, Seq<char>),
    Para(Seq<Seq<char>>),
    Bullets(Seq<Seq<char>>),
    Ordered(Seq<Seq<char>>),
    Code(Seq<char>),
}

/// The contents of a list of strings.
pub open spec fn texts(v: Seq<String>) -> Seq<Seq<char>> {
    v.map_values(|s: String| s@)
}

impl View for MdBlock {
    type V = BlockView;

    open spec fn view(&self) -> BlockView {
        match *self {
            MdBlock::Heading(level, line) => BlockView::Heading(level as int, line@),
            MdBlock::Para(lines) => BlockView::Para(texts(lines@)),
            MdBlock::Bullets(items) => BlockView::Bullets(texts(items@)),
            MdBlock::Ordered(items) => BlockView::Ordered(texts(items@)),
            MdBlock::Code(code) => BlockView::Code(code@),
        }
    }
}

pub open spec fn blocks_view(v: Seq<MdBlock>) -> Seq<BlockView> {
    v.map_values(|b: MdBlock| b@)
}

/// How many times `c` is repeated at the start of `s`.
pub open spec fn leading(s: Seq<char>, c: char) -> nat
    decreases s.len(),
{
    if s.len() > 0 && s[0] == c {
        1 + leading(s.drop_first(), c)
    } else {
        0
    }
}

/// How many digits `s` starts with.
pub open spec fn leading_digits(s: Seq<char>) -> nat
    decreases s.len(),
{
    if s.len() > 0 && digit(s[0]) {
        1 + leading_digits(s.drop_first())
    } else {
        0
    }
}

/// The level of a heading: one to six hashes, then a space.
pub open spec fn heading(s: Seq<char>) -> Option<int> {
    let hashes = leading(s, '#');
    if 1 <= hashes <= 6 && starts(s.skip(hashes as int), seq![' ']) {
        Some(hashes as int)
    } else {
        None
    }
}

/// The text of a `- ` or `* ` bullet.
pub open spec fn bullet(s: Seq<char>) -> Option<Seq<char>> {
    if starts(s, seq!['-', ' ']) || starts(s, seq!['*', ' ']) {
        Some(trimmed(s.skip(2)))
    } else {
        None
    }
}

/// The text of a `1. ` numbered item.
pub open spec fn ordered(s: Seq<char>) -> Option<Seq<char>> {
    let n = leading_digits(s) as int;
    if n > 0 && starts(s.skip(n), seq!['.', ' ']) {
        Some(trimmed(s.skip(n + 2)))
    } else {
        None
    }
}

/// A line that opens or closes a code block.
pub open spec fn fence(s: Seq<char>) -> bool {
    starts(s, seq!['`', '`', '`']) || starts(s, seq!['~', '~', '~'])
}

/// The lines put together with a separator between them.
pub open spec fn join(lines: Seq<Seq<char>>, sep: Seq<char>) -> Seq<char>
    decreases lines.len(),
{
    if lines.len() == 0 {
        Seq::empty()
    } else if lines.len() == 1 {
        lines[0]
    } else {
        join(lines.drop_last(), sep) + sep + lines.last()
    }
}

/// The first line of a text, without its line ending.
pub open spec fn first_line(s: Seq<char>) -> Seq<char> {
    match find(s, seq!['\n']) {
        Some(i) => if i > 0 && s[i - 1] == '\r' {
            s.take(i - 1)
        } else {
            s.take(i)
        },
        None => s,
    }
}

/// What follows the first line.
pub open spec fn next_lines(s: Seq<char>) -> Seq<char> {
    match find(s, seq!['\n']) {
        Some(i) => s.skip(i + 1),
        None => Seq::empty(),
    }
}

/// The block still being read.
pub enum OpenView {
    Nothing,
    Para(Seq<Seq<char>>),
    Bullets(Seq<Seq<char>>),
    Ordered(Seq<Seq<char>>),
    Code(Seq<Seq<char>>),
}

/// The blocks with the open one closed after them.
pub open spec fn closed(out: Seq<BlockView>, open: OpenView) -> Seq<BlockView> {
    match open {
        OpenView::Nothing => out,
        OpenView::Para(lines) => out.push(BlockView::Para(lines)),
        OpenView::Bullets(items) => out.push(BlockView::Bullets(items)),
        OpenView::Ordered(items) => out.push(BlockView::Ordered(items)),
        OpenView::Code(lines) => out.push(BlockView::Code(join(lines, seq!['\n']))),
    }
}

/// The items with `more` put after the last one, a space between.
pub open spec fn wrapped(items: Seq<Seq<char>>, more: Seq<char>) -> Seq<Seq<char>> {
    items.drop_last().push(items.last().push(' ') + more)
}

/// What one line does to the blocks read so far.
pub open spec fn read_line(out: Seq<BlockView>, open: OpenView, raw: Seq<char>) -> (
    Seq<BlockView>,
    OpenView,
) {
    let line = trim_back(raw);
    let body = trim_front(line);
    if let OpenView::Code(lines) = open {
        if fence(body) {
            (closed(out, open), OpenView::Nothing)
        } else {
            (out, OpenView::Code(lines.push(line)))
        }
    } else if fence(body) {
        (closed(out, open), OpenView::Code(Seq::empty()))
    } else if body.len() == 0 {
        (closed(out, open), OpenView::Nothing)
    } else if let Some(level) = heading(body) {
        (
            closed(out, open).push(BlockView::Heading(level, trimmed(body.skip(level)))),
            OpenView::Nothing,
        )
    } else if let Some(item) = bullet(body) {
        match open {
            OpenView::Bullets(items) => (out, OpenView::Bullets(items.push(item))),
            _ => (closed(out, open), OpenView::Bullets(seq![item])),
        }
    } else if let Some(item) = ordered(body) {
        match open {
            OpenView::Ordered(items) => (out, OpenView::Ordered(items.push(item))),
            _ => (closed(out, open), OpenView::Ordered(seq![item])),
        }
    } else {
        match open {
            OpenView::Para(lines) => (out, OpenView::Para(lines.push(body))),
            OpenView::Bullets(items) if starts(raw, seq![' ', ' ']) => (
                out,
                OpenView::Bullets(wrapped(items, body)),
            ),
            OpenView::Ordered(items) if starts(raw, seq![' ', ' ']) => (
                out,
                OpenView::Ordered(wrapped(items, body)),
            ),
            _ => (closed(out, open), OpenView::Para(seq![body])),
        }
    }
}

/// The blocks of a text, given those read before it.
pub open spec fn blocks_from(out: Seq<BlockView>, open: OpenView, s: Seq<char>) -> Seq<BlockView>
    decreases s.len(),
{
    if s.len() == 0 {
        closed(out, open)
    } else {
        let (out2, open2) = read_line(out, open, first_line(s));
        proof {
            find_is_first(s, seq!['\n']);
        }
        blocks_from(out2, open2, next_lines(s))
    }
}

/// The blocks of a text.
pub open spec fn blocks(s: Seq<char>) -> Seq<BlockView> {
    blocks_from(Seq::empty(), OpenView::Nothing, s)
}

enum Open {
    Nothing,
    Para(Vec<String>),
    Bullets(Vec<String>),
    Ordered(Vec<String>),
    Code(Vec<String>),
}

impl View for Open {
    type V = OpenView;

    closed spec fn view(&self) -> OpenView {
        match *self {
            Open::Nothing => OpenView::Nothing,
            Open::Para(lines) => OpenView::Para(texts(lines@)),
            Open::Bullets(items) => OpenView::Bullets(texts(items@)),
            Open::Ordered(items) => OpenView::Ordered(texts(items@)),
            Open::Code(lines) => OpenView::Code(texts(lines@)),
        }
    }
}

/// An open list or paragraph has a line already.
spec fn started(open: OpenView) -> bool {
    match open {
        OpenView::Bullets(items) => items.len() > 0,
        OpenView::Ordered(items) => items.len() > 0,
        _ => true,
    }
}

fn leading_count(s: &[char], c: char) -> (n: usize)
    ensures
        n == leading(s@, c),
        n <= s.len(),
{
    let mut i: usize = 0;
    assert(s@.skip(0) =~= s@);
    while i < s.len() && s[i] == c
        invariant
            i <= s.len(),
            leading(s@, c) == i + leading(s@.skip(i as int), c),
        decreases s.len() - i,
    {
        assert(s@.skip(i as int).drop_first() =~= s@.skip(i + 1));
        i += 1;
    }
    i
}

fn leading_digit_count(s: &[char]) -> (n: usize)
    ensures
        n == leading_digits(s@),
        n <= s.len(),
{
    let mut i: usize = 0;
    assert(s@.skip(0) =~= s@);
    while i < s.len() && is_digit(s[i])
        invariant
            i <= s.len(),
            leading_digits(s@) == i + leading_digits(s@.skip(i as int)),
        decreases s.len() - i,
    {
        assert(s@.skip(i as int).drop_first() =~= s@.skip(i + 1));
        i += 1;
    }
    i
}

fn tail(s: &[char], from: usize) -> (r: &[char])
    requires
        from <= s.len(),
    ensures
        r@ == s@.skip(from as int),
        r.len() == s.len() - from,
{
    assert(s@.subrange(from as int, s.len() as int) =~= s@.skip(from as int));
    slice_subrange(s, from, s.len())
}

fn head(s: &[char], to: usize) -> (r: &[char])
    requires
        to <= s.len(),
    ensures
        r@ == s@.take(to as int),
        r.len() == to,
{
    assert(s@.subrange(0, to as int) =~= s@.take(to as int));
    slice_subrange(s, 0, to)
}

fn starts_with_pair(s: &[char], a: char, b: char) -> (r: bool)
    ensures
        r == starts(s@, seq![a, b]),
{
    let r = s.len() >= 2 && s[0] == a && s[1] == b;
    if r {
        assert(s@.take(2) =~= seq![a, b]);
    } else if s.len() >= 2 {
        assert(s@.take(2)[0] == s@[0] && s@.take(2)[1] == s@[1]);
    }
    r
}

/// `#` through `######`, giving the level.
pub fn heading_level(line: &[char]) -> (r: Option<u8>)
    ensures
        match r {
            Some(n) => heading(line@) == Some(n as int) && n <= line.len(),
            None => heading(line@) is None,
        },
{
    let hashes = leading_count(line, '#');
    if 1 <= hashes && hashes <= 6 {
        assert(line@.skip(hashes as int).len() > 0 ==> line@.skip(hashes as int).take(1) =~= seq![
            line@[hashes as int],
        ]);
        assert(seq![' '][0] == ' ');
        if hashes < line.len() && line[hashes] == ' ' {
            return Some(hashes as u8);
        }
    }
    None
}

/// The text of a `- ` / `* ` bullet.
pub fn bullet_item(line: &[char]) -> (r: Option<String>)
    ensures
        match r {
            Some(t) => bullet(line@) == Some(t@),
            None => bullet(line@) is None,
        },
{
    if starts_with_pair(line, '-', ' ') || starts_with_pair(line, '*', ' ') {
        Some(string_of(trim_slice(tail(line, 2))))
    } else {
        None
    }
}

/// The text of a `1. ` numbered item.
pub fn ordered_item(line: &[char]) -> (r: Option<String>)
    ensures
        match r {
            Some(t) => ordered(line@) == Some(t@),
            None => ordered(line@) is None,
        },
{
    let n = leading_digit_count(line);
    if n == 0 {
        return None;
    }
    let rest = tail(line, n);
    if starts_with_pair(rest, '.', ' ') {
        assert(rest@.skip(2) =~= line@.skip(n + 2));
        Some(string_of(trim_slice(tail(rest, 2))))
    } else {
        None
    }
}

fn is_fence(s: &[char]) -> (r: bool)
    ensures
        r == fence(s@),
{
    let ticks: [char; 3] = ['`', '`', '`'];
    let tildes: [char; 3] = ['~', '~', '~'];
    assert(ticks@ =~= seq!['`', '`', '`']);
    assert(tildes@ =~= seq!['~', '~', '~']);
    starts_slice(s, ticks.as_slice()) || starts_slice(s, tildes.as_slice())
}

/// The lines put together with `sep` between them.
pub fn join_text(lines: &Vec<String>, sep: &str) -> (r: String)
    ensures
        r@ == join(texts(lines@), sep@),
{
    let mut r = String::new();
    let mut i: usize = 0;
    while i < lines.len()
        invariant
            i <= lines.len(),
            r@ == join(texts(lines@).take(i as int), sep@),
        decreases lines.len() - i,
    {
        if i > 0 {
            r.append(sep);
        }
        assert(Seq::<char>::empty() + lines@[i as int]@ =~= lines@[i as int]@);
        r.append(lines[i].as_str());
        assert(texts(lines@).take(i + 1).drop_last() =~= texts(lines@).take(i as int));
        i += 1;
    }
    assert(texts(lines@).take(i as int) =~= texts(lines@));
    r
}

fn close(out: &mut Vec<MdBlock>, open: Open)
    ensures
        blocks_view(final(out)@) == closed(blocks_view(old(out)@), open@),
{
    let ghost before = out@;
    match open {
        Open::Nothing => {},
        Open::Para(lines) => {
            out.push(MdBlock::Para(lines));
            assert(blocks_view(out@) =~= closed(blocks_view(before), open@));
        },
        Open::Bullets(items) => {
            out.push(MdBlock::Bullets(items));
            assert(blocks_view(out@) =~= closed(blocks_view(before), open@));
        },
        Open::Ordered(items) => {
            out.push(MdBlock::Ordered(items));
            assert(blocks_view(out@) =~= closed(blocks_view(before), open@));
        },
        Open::Code(lines) => {
            proof {
                reveal_strlit("\n");
                assert("\n"@ =~= seq!['\n']);
            }
            out.push(MdBlock::Code(join_text(&lines, "\n")));
            assert(blocks_view(out@) =~= closed(blocks_view(before), open@));
        },
    }
}

fn one(s: String) -> (v: Vec<String>)
    ensures
        texts(v@) == seq![s@],
{
    let mut v: Vec<String> = Vec::new();
    v.push(s);
    assert(texts(v@) =~= seq![s@]);
    v
}

fn with_more(items: Vec<String>, item: String) -> (v: Vec<String>)
    ensures
        texts(v@) == texts(items@).push(item@),
{
    let mut v = items;
    v.push(item);
    assert(texts(v@) =~= texts(items@).push(item@));
    v
}

fn wrap_last(items: Vec<String>, more: &[char]) -> (v: Vec<String>)
    requires
        items.len() > 0,
    ensures
        texts(v@) == wrapped(texts(items@), more@),
{
    let mut v = items;
    let mut last = v.pop().unwrap();
    last.push(' ');
    let rest = string_of(more);
    last.append(rest.as_str());
    v.push(last);
    assert(texts(v@) =~= wrapped(texts(items@), more@));
    v
}

fn read(out: &mut Vec<MdBlock>, open: Open, raw: &[char]) -> (next: Open)
    requires
        started(open@),
    ensures
        (blocks_view(final(out)@), next@) == read_line(blocks_view(old(out)@), open@, raw@),
        started(next@),
{
    let line = trim_end_slice(raw);
    let body = trim_start_slice(line);
    let fenced = is_fence(body);
    match open {
        Open::Code(lines) => {
            if fenced {
                close(out, Open::Code(lines));
                Open::Nothing
            } else {
                Open::Code(with_more(lines, string_of(line)))
            }
        },
        open => {
            if fenced {
                close(out, open);
                let next: Vec<String> = Vec::new();
                assert(texts(next@) =~= Seq::empty());
                return Open::Code(next);
            }
            if body.len() == 0 {
                close(out, open);
                return Open::Nothing;
            }
            if let Some(level) = heading_level(body) {
                close(out, open);
                let ghost before = out@;
                let title = string_of(trim_slice(tail(body, level as usize)));
                out.push(MdBlock::Heading(level, title));
                assert(blocks_view(out@) =~= blocks_view(before).push(
                    BlockView::Heading(level as int, title@),
                ));
                return Open::Nothing;
            }
            if let Some(item) = bullet_item(body) {
                return match open {
                    Open::Bullets(items) => Open::Bullets(with_more(items, item)),
                    open => {
                        close(out, open);
                        Open::Bullets(one(item))
                    },
                };
            }
            if let Some(item) = ordered_item(body) {
                return match open {
                    Open::Ordered(items) => Open::Ordered(with_more(items, item)),
                    open => {
                        close(out, open);
                        Open::Ordered(one(item))
                    },
                };
            }
            let indented = starts_with_pair(raw, ' ', ' ');
            match open {
                Open::Para(lines) => Open::Para(with_more(lines, string_of(body))),
                Open::Bullets(items) if indented => Open::Bullets(wrap_last(items, body)),
                Open::Ordered(items) if indented => Open::Ordered(wrap_last(items, body)),
                open => {
                    close(out, open);
                    Open::Para(one(string_of(body)))
                },
            }
        },
    }
}

/// Split prose into blocks. A fence that is never closed runs to the end of
/// the text.
pub fn md_blocks(text: &str) -> (r: Vec<MdBlock>)
    ensures
        blocks_view(r@) == blocks(text@),
{
    let cs = chars_of(text);
    let all = cs.as_slice();
    let mut out: Vec<MdBlock> = Vec::new();
    let mut open = Open::Nothing;
    let mut pos: usize = 0;
    let newline: [char; 1] = ['\n'];
    assert(newline@ =~= seq!['\n']);
    assert(blocks_view(out@) =~= Seq::empty());
    assert(all@.skip(0) =~= all@);
    while pos < all.len()
        invariant
            newline@ == seq!['\n'],
            pos <= all.len(),
            started(open@),
            blocks(all@) == blocks_from(blocks_view(out@), open@, all@.skip(pos as int)),
        decreases all.len() - pos,
    {
        let rest = tail(all, pos);
        match find_slice(rest, newline.as_slice()) {
            Some(i) => {
                let raw = if i > 0 && rest[i - 1] == '\r' {
                    head(rest, i - 1)
                } else {
                    head(rest, i)
                };
                assert(raw@ == first_line(rest@));
                open = read(&mut out, open, raw);
                assert(rest@.skip(i + 1) =~= all@.skip(pos + i + 1));
                pos = pos + i + 1;
            },
            None => {
                open = read(&mut out, open, rest);
                assert(all@.skip(all.len() as int) =~= Seq::empty());
                pos = all.len();
            },
        }
    }
    close(&mut out, open);
    out
}

// ---- Inline runs ---------------------------------------------------------

/// One inline run.
#[derive(Debug, PartialEq, Eq)]
pub enum MdInline {
    Text(String),
    Code(String),
    Strong(String),
    Path(String),
}

/// An inline run as a mathematical value.
pub enum InlineView {
    Text(Seq<char>),
    Code(Seq<char>),
    Strong(Seq<char>),
    Path(Seq<char>),
}

impl View for MdInline {
    type V = InlineView;

    open spec fn view(&self) -> InlineView {
        match *self {
            MdInline::Text(t) => InlineView::Text(t@),
            MdInline::Code(t) => InlineView::Code(t@),
            MdInline::Strong(t) => InlineView::Strong(t@),
            MdInline::Path(t) => InlineView::Path(t@),
        }
    }
}

pub open spec fn runs_view(v: Seq<MdInline>) -> Seq<InlineView> {
    v.map_values(|r: MdInline| r@)
}

/// A path reference minus its trailing `:42`, when it carries one, and whether
/// it did.
pub open spec fn line_suffix(word: Seq<char>) -> (Seq<char>, bool) {
    match find_last(word, ':') {
        Some(i) => if i + 1 < word.len() && all_digits(word.skip(i + 1)) {
            (word.take(i), true)
        } else {
            (word, false)
        },
        None => (word, false),
    }
}

/// A character a repo path may hold.
pub open spec fn path_char(c: char) -> bool {
    alphanumeric(c) || c == '.' || c == '_' || c == '-' || c == '/'
}

/// A word that looks like a repo file reference: an extension, and either a
/// directory separator or a line number.
pub open spec fn path_ref(word: Seq<char>) -> bool {
    let (path, line) = line_suffix(word);
    let dot = find_last(path, '.');
    &&& path.len() >= 4
    &&& path.last() != '/'
    &&& forall|i: int| 0 <= i < path.len() ==> path_char(#[trigger] path[i])
    &&& dot is Some
    &&& dot->0 > 0
    &&& 1 <= path.len() - dot->0 - 1 <= 6
    &&& forall|i: int| dot->0 < i < path.len() ==> alphanumeric(#[trigger] path[i])
    &&& path.contains('/') || line
}

/// The length of the first word, the white space that ends it included.
pub open spec fn word_len(s: Seq<char>) -> int
    decreases s.len(),
{
    if s.len() == 0 {
        0
    } else if white(s[0]) {
        1
    } else {
        1 + word_len(s.drop_first())
    }
}

pub open spec fn opening(c: char) -> bool {
    c == '(' || c == '[' || c == '`'
}

pub open spec fn closing(c: char) -> bool {
    c == ',' || c == '.' || c == ')' || c == ']' || c == ';' || c == ':' || c == '`'
}

/// How many opening marks `s` starts with.
pub open spec fn lead(s: Seq<char>) -> int
    decreases s.len(),
{
    if s.len() > 0 && opening(s[0]) {
        1 + lead(s.drop_first())
    } else {
        0
    }
}

/// `s` without the closing marks at its end.
pub open spec fn unclosed(s: Seq<char>) -> Seq<char>
    decreases s.len(),
{
    if s.len() > 0 && closing(s.last()) {
        unclosed(s.drop_last())
    } else {
        s
    }
}

/// What a word might reference: the word without the marks around it.
pub open spec fn inner(word: Seq<char>) -> Seq<char> {
    let core = trim_back(word);
    unclosed(core.skip(lead(core)))
}

/// A text run, unless it is empty.
pub open spec fn text_run(t: Seq<char>) -> Seq<InlineView> {
    if t.len() > 0 {
        seq![InlineView::Text(t)]
    } else {
        Seq::empty()
    }
}

/// Plain text as runs, its file references pulled out; `pending` is the text
/// since the last one.
pub open spec fn plain_runs(pending: Seq<char>, s: Seq<char>) -> Seq<InlineView>
    decreases s.len(),
{
    if s.len() == 0 {
        text_run(pending)
    } else {
        proof {
            word_len_bounds(s);
        }
        let n = word_len(s);
        let word = s.take(n);
        let at = lead(trim_back(word));
        if path_ref(inner(word)) {
            text_run(pending + word.take(at)) + seq![InlineView::Path(inner(word))] + plain_runs(
                word.skip(at + inner(word).len()),
                s.skip(n),
            )
        } else {
            plain_runs(pending + word, s.skip(n))
        }
    }
}

/// A word is not empty and does not outrun the text.
pub proof fn word_len_bounds(s: Seq<char>)
    ensures
        0 <= word_len(s) <= s.len(),
        s.len() > 0 ==> word_len(s) > 0,
    decreases s.len(),
{
    if s.len() > 0 {
        word_len_bounds(s.drop_first());
    }
}

/// The marks around inline code and bold text.
pub open spec fn mark(tick: bool) -> Seq<char> {
    if tick {
        seq!['`']
    } else {
        seq!['*', '*']
    }
}

/// The first mark of a line: where it stands, and whether it is a backtick.
pub open spec fn next_mark(s: Seq<char>) -> Option<(int, bool)> {
    match (find(s, mark(true)), find(s, mark(false))) {
        (Some(i), Some(j)) => if i <= j {
            Some((i, true))
        } else {
            Some((j, false))
        },
        (Some(i), None) => Some((i, true)),
        (None, Some(j)) => Some((j, false)),
        (None, None) => None,
    }
}

/// A mark stands within the line.
pub proof fn next_mark_bounds(s: Seq<char>)
    ensures
        next_mark(s) matches Some((at, tick)) ==> 0 <= at && at + mark(tick).len() <= s.len(),
{
    find_is_first(s, mark(true));
    find_is_first(s, mark(false));
}

/// The run between two marks.
pub open spec fn marked(tick: bool, t: Seq<char>) -> InlineView {
    if tick {
        InlineView::Code(t)
    } else {
        InlineView::Strong(t)
    }
}

/// The runs of a line; `plain` is the text since the last marked one. A mark
/// with no partner is text.
pub open spec fn inline_from(plain: Seq<char>, s: Seq<char>) -> Seq<InlineView>
    decreases s.len(),
{
    proof {
        next_mark_bounds(s);
    }
    match next_mark(s) {
        None => plain_runs(Seq::empty(), plain + s),
        Some((at, tick)) => {
            let n = mark(tick).len();
            let after = s.skip(at + n);
            proof {
                find_is_first(after, mark(tick));
            }
            match find(after, mark(tick)) {
                None => inline_from(plain + s.take(at + n), after),
                Some(end) => plain_runs(Seq::empty(), plain + s.take(at)) + seq![
                    marked(tick, after.take(end)),
                ] + inline_from(Seq::empty(), after.skip(end + n)),
            }
        },
    }
}

/// The runs of a line.
pub open spec fn inline(s: Seq<char>) -> Seq<InlineView> {
    inline_from(Seq::empty(), s)
}

fn is_opening(c: char) -> (r: bool)
    ensures
        r == opening(c),
{
    c == '(' || c == '[' || c == '`'
}

fn is_closing(c: char) -> (r: bool)
    ensures
        r == closing(c),
{
    c == ',' || c == '.' || c == ')' || c == ']' || c == ';' || c == ':' || c == '`'
}

/// A path reference minus its trailing `:42`, when it carries one, plus whether
/// it did.
pub fn split_line_suffix(word: &[char]) -> (r: (&[char], bool))
    ensures
        (r.0@, r.1) == line_suffix(word@),
        r.0.len() <= word.len(),
{
    match find_last_slice(word, ':') {
        Some(i) => {
            let l = tail(word, i + 1);
            let mut k: usize = 0;
            while k < l.len() && is_digit(l[k])
                invariant
                    k <= l.len(),
                    forall|j: int| 0 <= j < k ==> digit(#[trigger] l@[j]),
                decreases l.len() - k,
            {
                k += 1;
            }
            assert(k < l.len() ==> !digit(l@[k as int]));
            if l.len() > 0 && k == l.len() {
                assert(all_digits(l@));
                (head(word, i), true)
            } else {
                (word, false)
            }
        },
        None => (word, false),
    }
}

fn is_path_char(c: char) -> (r: bool)
    ensures
        r == path_char(c),
{
    is_alphanumeric(c) || c == '.' || c == '_' || c == '-' || c == '/'
}

/// Whether a word looks like a repo file reference — `src/cache.rs`,
/// `crates/app/src/style.css:504`. Conservative on purpose: turning ordinary
/// prose into chips would be worse than missing a reference.
pub fn is_path_ref(word: &[char]) -> (r: bool)
    ensures
        r == path_ref(word@),
{
    let (path, line) = split_line_suffix(word);
    if path.len() < 4 || path[path.len() - 1] == '/' {
        return false;
    }
    let mut i: usize = 0;
    let mut slash = false;
    while i < path.len()
        invariant
            i <= path.len(),
            path@ == line_suffix(word@).0,
            forall|j: int| 0 <= j < i ==> path_char(#[trigger] path@[j]),
            slash == path@.take(i as int).contains('/'),
        decreases path.len() - i,
    {
        if !is_path_char(path[i]) {
            assert(!path_char(path@[i as int]));
            return false;
        }
        assert(path@.take(i + 1) =~= path@.take(i as int).push(path@[i as int]));
        let ghost had = path@.take(i as int);
        if path[i] == '/' {
            slash = true;
            assert(path@.take(i + 1)[i as int] == '/');
        } else {
            assert(had.push(path@[i as int]).contains('/') == had.contains('/')) by {
                if had.contains('/') {
                    let k = choose|k: int| 0 <= k < had.len() && had[k] == '/';
                    assert(had.push(path@[i as int])[k] == '/');
                }
            }
        }
        i += 1;
    }
    assert(path@.take(i as int) =~= path@);
    match find_last_slice(path, '.') {
        None => false,
        Some(dot) => {
            let ext: usize = path.len() - dot - 1;
            if dot == 0 || ext < 1 || ext > 6 {
                return false;
            }
            let mut k: usize = dot + 1;
            while k < path.len()
                invariant
                    dot < k <= path.len(),
                    find_last(path@, '.') == Some(dot as int),
                    path@ == line_suffix(word@).0,
                    forall|j: int| dot < j < k ==> alphanumeric(#[trigger] path@[j]),
                decreases path.len() - k,
            {
                if !is_alphanumeric(path[k]) {
                    assert(!alphanumeric(path@[k as int]));
                    return false;
                }
                k += 1;
            }
            slash || line
        },
    }
}

fn word_end(s: &[char]) -> (n: usize)
    ensures
        n == word_len(s@),
        n <= s.len(),
        s.len() > 0 ==> n > 0,
{
    let mut i: usize = 0;
    assert(s@.skip(0) =~= s@);
    while i < s.len() && !is_white(s[i])
        invariant
            i <= s.len(),
            word_len(s@) == i + word_len(s@.skip(i as int)),
        decreases s.len() - i,
    {
        assert(s@.skip(i as int).drop_first() =~= s@.skip(i + 1));
        i += 1;
    }
    if i < s.len() {
        i + 1
    } else {
        i
    }
}

fn lead_count(s: &[char]) -> (n: usize)
    ensures
        n == lead(s@),
        n <= s.len(),
{
    let mut i: usize = 0;
    assert(s@.skip(0) =~= s@);
    while i < s.len() && is_opening(s[i])
        invariant
            i <= s.len(),
            lead(s@) == i + lead(s@.skip(i as int)),
        decreases s.len() - i,
    {
        assert(s@.skip(i as int).drop_first() =~= s@.skip(i + 1));
        i += 1;
    }
    i
}

fn without_closing(s: &[char]) -> (r: &[char])
    ensures
        r@ == unclosed(s@),
        r.len() <= s.len(),
{
    let mut n: usize = s.len();
    assert(s@.take(n as int) =~= s@);
    while n > 0 && is_closing(s[n - 1])
        invariant
            n <= s.len(),
            unclosed(s@) == unclosed(s@.take(n as int)),
        decreases n,
    {
        assert(s@.take(n as int).drop_last() =~= s@.take(n - 1));
        n -= 1;
    }
    head(s, n)
}

fn push_run(out: &mut Vec<MdInline>, run: MdInline)
    ensures
        runs_view(final(out)@) == runs_view(old(out)@).push(run@),
{
    let ghost before = out@;
    out.push(run);
    assert(runs_view(out@) =~= runs_view(before).push(run@));
}

fn push_text(out: &mut Vec<MdInline>, t: String)
    ensures
        runs_view(final(out)@) == runs_view(old(out)@) + text_run(t@),
{
    let ghost before = out@;
    if t.as_str().is_empty() {
        assert(runs_view(out@) =~= runs_view(before) + text_run(t@));
    } else {
        push_run(out, MdInline::Text(t));
        assert(runs_view(out@) =~= runs_view(before) + text_run(t@));
    }
}

/// Flush accumulated plain text, pulling `path:line` references out of it.
fn push_plain(out: &mut Vec<MdInline>, plain: &str)
    ensures
        runs_view(final(out)@) == runs_view(old(out)@) + plain_runs(Seq::empty(), plain@),
{
    let cs = chars_of(plain);
    let all = cs.as_slice();
    let ghost before = runs_view(out@);
    let mut pending = String::new();
    let mut pos: usize = 0;
    assert(all@.skip(0) =~= all@);
    while pos < all.len()
        invariant
            pos <= all.len(),
            before + plain_runs(Seq::empty(), all@) == runs_view(out@) + plain_runs(
                pending@,
                all@.skip(pos as int),
            ),
        decreases all.len() - pos,
    {
        let rest = tail(all, pos);
        let n = word_end(rest);
        let word = head(rest, n);
        let core = trim_end_slice(word);
        let at = lead_count(core);
        let named = without_closing(tail(core, at));
        let ghost now = runs_view(out@);
        let ghost p0 = pending@;
        assert(rest@.skip(n as int) =~= all@.skip(pos + n));
        if is_path_ref(named) {
            let before_it = string_of(head(word, at));
            pending.append(before_it.as_str());
            push_text(out, pending);
            push_run(out, MdInline::Path(string_of(named)));
            pending = string_of(tail(word, at + named.len()));
            assert(runs_view(out@) + plain_runs(pending@, all@.skip(pos + n)) =~= now + plain_runs(
                p0,
                rest@,
            ));
        } else {
            let whole = string_of(word);
            pending.append(whole.as_str());
        }
        pos = pos + n;
    }
    push_text(out, pending);
}

/// Split a line into inline runs: backticked code, `**bold**`, and file
/// references. Anything unmatched — a stray backtick or asterisk among them —
/// stays text.
pub fn md_inline(line: &str) -> (r: Vec<MdInline>)
    ensures
        runs_view(r@) == inline(line@),
{
    let cs = chars_of(line);
    let all = cs.as_slice();
    let mut out: Vec<MdInline> = Vec::new();
    let mut plain = String::new();
    let mut pos: usize = 0;
    let ticks: [char; 1] = ['`'];
    let stars: [char; 2] = ['*', '*'];
    assert(ticks@ =~= mark(true));
    assert(stars@ =~= mark(false));
    assert(all@.skip(0) =~= all@);
    assert(runs_view(out@) + inline(line@) =~= inline(line@));
    while pos < all.len()
        invariant
            ticks@ == mark(true),
            stars@ == mark(false),
            pos <= all.len(),
            inline(line@) == runs_view(out@) + inline_from(plain@, all@.skip(pos as int)),
        ensures
            pos <= all.len(),
            next_mark(all@.skip(pos as int)) is None,
            inline(line@) == runs_view(out@) + inline_from(plain@, all@.skip(pos as int)),
        decreases all.len() - pos,
    {
        let rest = tail(all, pos);
        let tick_at = find_slice(rest, ticks.as_slice());
        let star_at = find_slice(rest, stars.as_slice());
        let found = match (tick_at, star_at) {
            (Some(i), Some(j)) => if i <= j {
                Some((i, true))
            } else {
                Some((j, false))
            },
            (Some(i), None) => Some((i, true)),
            (None, Some(j)) => Some((j, false)),
            (None, None) => None,
        };
        let Some((at, tick)) = found else {
            break ;
        };
        let n: usize = if tick {
            1
        } else {
            2
        };
        let after = tail(rest, at + n);
        let ghost now = runs_view(out@);
        let ghost p0 = plain@;
        let close_at = if tick {
            find_slice(after, ticks.as_slice())
        } else {
            find_slice(after, stars.as_slice())
        };
        match close_at {
            None => {
                let before_it = string_of(head(rest, at + n));
                plain.append(before_it.as_str());
                assert(after@ =~= all@.skip(pos + at + n));
                pos = pos + at + n;
            },
            Some(end) => {
                let before_it = string_of(head(rest, at));
                plain.append(before_it.as_str());
                push_plain(&mut out, plain.as_str());
                plain = String::new();
                let inside = string_of(head(after, end));
                push_run(&mut out, if tick {
                    MdInline::Code(inside)
                } else {
                    MdInline::Strong(inside)
                });
                assert(after@.skip(end + n) =~= all@.skip(pos + at + n + end + n));
                assert(runs_view(out@) + inline_from(plain@, after@.skip(end + n)) =~= now
                    + inline_from(p0, rest@));
                pos = pos + at + n + end + n;
            },
        }
    }
    let rest_text = string_of(tail(all, pos));
    plain.append(rest_text.as_str());
    push_plain(&mut out, plain.as_str());
    out
}

// ---- File references -----------------------------------------------------

/// `s` without the `./` it starts with, however often that is repeated.
pub open spec fn undotted(s: Seq<char>) -> Seq<char>
    decreases s.len(),
{
    if starts(s, seq!['.', '/']) {
        undotted(s.skip(2))
    } else {
        s
    }
}

/// The path an agent means by what it wrote.
pub open spec fn claimed_path(s: Seq<char>) -> Seq<char> {
    line_suffix(undotted(trimmed(s))).0
}

/// Whether what an agent wrote names the file at `actual`: the path itself, a
/// shortened form of it, or one with more directories before it.
pub open spec fn names(claimed: Seq<char>, actual: Seq<char>) -> bool {
    let path = claimed_path(claimed);
    path.len() > 0 && (path == actual || ends(actual, seq!['/'] + path) || ends(
        path,
        seq!['/'] + actual,
    ))
}

fn strip_dots(s: &[char]) -> (r: &[char])
    ensures
        r@ == undotted(s@),
    decreases s.len(),
{
    if starts_with_pair(s, '.', '/') {
        strip_dots(tail(s, 2))
    } else {
        s
    }
}

fn ends_after_slash(s: &[char], path: &[char]) -> (r: bool)
    ensures
        r == ends(s@, seq!['/'] + path@),
{
    let ghost want = seq!['/'] + path@;
    if s.len() <= path.len() {
        return false;
    }
    let at: usize = s.len() - path.len() - 1;
    let end = tail(s, at);
    assert(end@ =~= s@.skip(s@.len() - want.len()));
    let same = starts_slice(tail(end, 1), path);
    assert(end@.skip(1).take(path@.len() as int) =~= end@.skip(1));
    if end[0] == '/' && same {
        assert(end@ =~= want);
        true
    } else {
        proof {
            if end@ == want {
                assert(want[0] == '/');
                assert(want.skip(1) =~= path@);
            }
        }
        false
    }
}

fn same_slice(a: &[char], b: &[char]) -> (r: bool)
    ensures
        r == (a@ == b@),
{
    assert(a@.len() == b@.len() ==> a@.take(b@.len() as int) =~= a@);
    a.len() == b.len() && starts_slice(a, b)
}

/// Whether a path written by an agent names the file at `actual`. Tolerant of a
/// shortened or extra-prefixed path and of a trailing `:line`: a near miss
/// should join rather than read as a phantom file.
pub fn same_path(claimed: &str, actual: &str) -> (r: bool)
    ensures
        r == names(claimed@, actual@),
{
    let cs = chars_of(claimed);
    let at = chars_of(actual);
    let (path, _) = split_line_suffix(strip_dots(trim_slice(cs.as_slice())));
    path.len() > 0 && (same_slice(path, at.as_slice()) || ends_after_slash(at.as_slice(), path)
        || ends_after_slash(path, at.as_slice()))
}

// ---- Laws ----------------------------------------------------------------

pub open spec fn run_text(r: InlineView) -> Seq<char> {
    match r {
        InlineView::Text(t) => t,
        InlineView::Code(t) => t,
        InlineView::Strong(t) => t,
        InlineView::Path(t) => t,
    }
}

/// What the runs say, put together again.
pub open spec fn said(runs: Seq<InlineView>) -> Seq<char>
    decreases runs.len(),
{
    if runs.len() == 0 {
        Seq::empty()
    } else {
        said(runs.drop_last()) + run_text(runs.last())
    }
}

/// A line without its paired marks.
pub open spec fn unmarked(s: Seq<char>) -> Seq<char>
    decreases s.len(),
{
    proof {
        next_mark_bounds(s);
    }
    match next_mark(s) {
        None => s,
        Some((at, tick)) => {
            let n = mark(tick).len();
            let after = s.skip(at + n);
            proof {
                find_is_first(after, mark(tick));
            }
            match find(after, mark(tick)) {
                None => s.take(at + n) + unmarked(after),
                Some(end) => s.take(at) + after.take(end) + unmarked(after.skip(end + n)),
            }
        },
    }
}

proof fn said_concat(a: Seq<InlineView>, b: Seq<InlineView>)
    ensures
        said(a + b) == said(a) + said(b),
    decreases b.len(),
{
    if b.len() == 0 {
        assert(a + b =~= a);
        assert(said(a) + said(b) =~= said(a));
    } else {
        assert((a + b).drop_last() =~= a + b.drop_last());
        said_concat(a, b.drop_last());
        assert(said(a + b) =~= said(a) + said(b));
    }
}

proof fn said_one(r: InlineView)
    ensures
        said(seq![r]) == run_text(r),
{
    assert(seq![r].drop_last() =~= Seq::<InlineView>::empty());
    assert(said(seq![r].drop_last()) + run_text(r) =~= run_text(r));
}

proof fn said_text(t: Seq<char>)
    ensures
        said(text_run(t)) == t,
{
    if t.len() > 0 {
        said_one(InlineView::Text(t));
    } else {
        assert(t =~= Seq::<char>::empty());
    }
}

proof fn lead_bounds(s: Seq<char>)
    ensures
        0 <= lead(s) <= s.len(),
    decreases s.len(),
{
    if s.len() > 0 && opening(s[0]) {
        lead_bounds(s.drop_first());
    }
}

proof fn unclosed_prefix(s: Seq<char>)
    ensures
        unclosed(s).len() <= s.len(),
        unclosed(s) == s.take(unclosed(s).len() as int),
    decreases s.len(),
{
    if s.len() > 0 && closing(s.last()) {
        unclosed_prefix(s.drop_last());
        assert(s.drop_last().take(unclosed(s).len() as int) =~= s.take(unclosed(s).len() as int));
    } else {
        assert(s.take(s.len() as int) =~= s);
    }
}

proof fn trim_back_prefix(s: Seq<char>)
    ensures
        trim_back(s).len() <= s.len(),
        trim_back(s) == s.take(trim_back(s).len() as int),
    decreases s.len(),
{
    if s.len() > 0 && white(s.last()) {
        trim_back_prefix(s.drop_last());
        assert(s.drop_last().take(trim_back(s).len() as int) =~= s.take(
            trim_back(s).len() as int,
        ));
    } else {
        assert(s.take(s.len() as int) =~= s);
    }
}

proof fn plain_runs_say(pending: Seq<char>, s: Seq<char>)
    ensures
        said(plain_runs(pending, s)) == pending + s,
    decreases s.len(),
{
    if s.len() == 0 {
        said_text(pending);
        assert(pending + s =~= pending);
    } else {
        word_len_bounds(s);
        let n = word_len(s);
        let word = s.take(n);
        let core = trim_back(word);
        let at = lead(core);
        let named = inner(word);
        if path_ref(named) {
            lead_bounds(core);
            trim_back_prefix(word);
            unclosed_prefix(core.skip(at));
            let before = text_run(pending + word.take(at));
            let path = seq![InlineView::Path(named)];
            let rest = plain_runs(word.skip(at + named.len()), s.skip(n));
            plain_runs_say(word.skip(at + named.len()), s.skip(n));
            said_concat(before + path, rest);
            said_concat(before, path);
            said_text(pending + word.take(at));
            said_one(InlineView::Path(named));
            assert(pending + word.take(at) + named + (word.skip(at + named.len()) + s.skip(n))
                =~= pending + s);
        } else {
            plain_runs_say(pending + word, s.skip(n));
            assert(pending + word + s.skip(n) =~= pending + s);
        }
    }
}

proof fn inline_from_says(plain: Seq<char>, s: Seq<char>)
    ensures
        said(inline_from(plain, s)) == plain + unmarked(s),
    decreases s.len(),
{
    next_mark_bounds(s);
    match next_mark(s) {
        None => {
            plain_runs_say(Seq::empty(), plain + s);
            assert(Seq::<char>::empty() + (plain + s) =~= plain + s);
        },
        Some((at, tick)) => {
            let n = mark(tick).len();
            let after = s.skip(at + n);
            find_is_first(after, mark(tick));
            match find(after, mark(tick)) {
                None => {
                    inline_from_says(plain + s.take(at + n), after);
                    assert(plain + s.take(at + n) + unmarked(after) =~= plain + unmarked(s));
                },
                Some(end) => {
                    let before = plain_runs(Seq::empty(), plain + s.take(at));
                    let run = seq![marked(tick, after.take(end))];
                    let rest = inline_from(Seq::empty(), after.skip(end + n));
                    plain_runs_say(Seq::empty(), plain + s.take(at));
                    said_one(marked(tick, after.take(end)));
                    inline_from_says(Seq::empty(), after.skip(end + n));
                    said_concat(before + run, rest);
                    said_concat(before, run);
                    assert(said(before + run + rest) =~= plain + unmarked(s));
                },
            }
        },
    }
}

/// The inline runs lose and invent no text: put together they are the line
/// without its paired marks.
pub proof fn inline_preserves_text(s: Seq<char>)
    ensures
        said(inline(s)) == unmarked(s),
{
    inline_from_says(Seq::empty(), s);
    assert(Seq::<char>::empty() + unmarked(s) =~= unmarked(s));
}

/// A line without backticks and without `**` comes back whole.
pub proof fn unmarked_line_is_whole(s: Seq<char>)
    requires
        find(s, mark(true)) is None,
        find(s, mark(false)) is None,
    ensures
        said(inline(s)) == s,
{
    inline_preserves_text(s);
}

/// A paragraph line as the reader sees it: not empty, and neither a fence, a
/// heading nor a list item.
pub open spec fn prose_line(s: Seq<char>) -> bool {
    s.len() > 0 && !fence(s) && heading(s) is None && bullet(s) is None && ordered(s) is None
}

/// Lines of code: each a line by itself, and none that would close the block.
pub open spec fn code_lines(lines: Seq<Seq<char>>) -> bool {
    forall|i: int|
        0 <= i < lines.len() ==> !(#[trigger] lines[i]).contains('\n') && !fence(
            trim_front(lines[i]),
        )
}

/// A list has an item, and each item a text.
pub open spec fn list_items(items: Seq<Seq<char>>) -> bool {
    items.len() > 0 && forall|i: int| 0 <= i < items.len() ==> (#[trigger] items[i]).len() > 0
}

pub open spec fn prose_block(b: BlockView) -> bool {
    match b {
        BlockView::Heading(level, text) => 1 <= level <= 6 && text.len() > 0,
        BlockView::Para(lines) => lines.len() > 0 && forall|i: int|
            0 <= i < lines.len() ==> prose_line(#[trigger] lines[i]),
        BlockView::Bullets(items) => list_items(items),
        BlockView::Ordered(items) => list_items(items),
        BlockView::Code(code) => exists|lines: Seq<Seq<char>>| #[trigger]
            code_lines(lines) && code == join(lines, seq!['\n']),
    }
}

spec fn prose_open(open: OpenView) -> bool {
    match open {
        OpenView::Nothing => true,
        OpenView::Para(lines) => prose_block(BlockView::Para(lines)),
        OpenView::Bullets(items) => list_items(items),
        OpenView::Ordered(items) => list_items(items),
        OpenView::Code(lines) => code_lines(lines),
    }
}

spec fn prose_blocks(out: Seq<BlockView>) -> bool {
    forall|i: int| 0 <= i < out.len() ==> prose_block(#[trigger] out[i])
}

/// A line without its outer white space is empty exactly where it is blank, and
/// does not end in white space.
proof fn body_ends(raw: Seq<char>)
    ensures
        trim_front(trim_back(raw)).len() == 0 <==> blank(raw),
        trim_front(trim_back(raw)).len() > 0 ==> !white(trim_front(trim_back(raw)).last()),
{
    let line = trim_back(raw);
    blank_back(raw);
    trim_back_tail(raw);
    blank_front(line);
    trim_front_suffix(line);
    if line.len() > 0 {
        assert(!white(line[line.len() - 1]));
    }
}

/// What is left of a line that does not end in white space is not blank.
proof fn text_left(s: Seq<char>, k: int)
    requires
        0 <= k < s.len(),
        !white(s.last()),
    ensures
        trimmed(s.skip(k)).len() > 0,
{
    blank_is_empty_trim(s.skip(k));
    assert(s.skip(k)[s.len() - k - 1] == s.last());
}

proof fn leading_bounds(s: Seq<char>, c: char)
    ensures
        leading(s, c) <= s.len(),
        leading_digits(s) <= s.len(),
    decreases s.len(),
{
    if s.len() > 0 {
        leading_bounds(s.drop_first(), c);
    }
}

proof fn marks_have_text(body: Seq<char>)
    requires
        body.len() > 0,
        !white(body.last()),
    ensures
        heading(body) matches Some(level) ==> 1 <= level <= 6 && trimmed(body.skip(level)).len() > 0,
        bullet(body) matches Some(item) ==> item.len() > 0,
        ordered(body) matches Some(item) ==> item.len() > 0,
{
    leading_bounds(body, '#');
    if let Some(level) = heading(body) {
        assert(body.skip(level).len() > 0);
        text_left(body, level);
    }
    if bullet(body) is Some {
        assert(body.take(2)[1] == ' ');
        assert(body[1] == ' ');
        text_left(body, 2);
    }
    if ordered(body) is Some {
        let n = leading_digits(body) as int;
        assert(body.skip(n).take(2)[1] == ' ');
        assert(body.skip(n)[1] == body[n + 1]);
        text_left(body, n + 2);
    }
}

proof fn first_line_is_one(s: Seq<char>)
    ensures
        !first_line(s).contains('\n'),
{
    find_is_first(s, seq!['\n']);
    let line = first_line(s);
    assert forall|i: int| 0 <= i < line.len() implies line[i] != '\n' by {
        assert(s[i] == line[i]);
        if line[i] == '\n' {
            assert(s.subrange(i, i + 1) =~= seq!['\n']);
        }
    }
}

proof fn read_line_prose(out: Seq<BlockView>, open: OpenView, raw: Seq<char>)
    requires
        prose_blocks(out),
        prose_open(open),
        !raw.contains('\n'),
    ensures
        prose_blocks(read_line(out, open, raw).0),
        prose_open(read_line(out, open, raw).1),
{
    let line = trim_back(raw);
    let body = trim_front(line);
    body_ends(raw);
    if body.len() > 0 {
        marks_have_text(body);
    }
    trim_back_prefix(raw);
    assert(!line.contains('\n')) by {
        assert forall|i: int| 0 <= i < line.len() implies line[i] != '\n' by {
            assert(raw[i] == line[i]);
            assert(raw.contains(raw[i]));
        }
    }
    if let OpenView::Code(lines) = open {
        assert(code_lines(lines));
        assert(prose_block(BlockView::Code(join(lines, seq!['\n']))));
    }
    assert(prose_blocks(closed(out, open)));
}

proof fn blocks_from_prose(out: Seq<BlockView>, open: OpenView, s: Seq<char>)
    requires
        prose_blocks(out),
        prose_open(open),
    ensures
        prose_blocks(blocks_from(out, open, s)),
    decreases s.len(),
{
    if s.len() > 0 {
        find_is_first(s, seq!['\n']);
        first_line_is_one(s);
        read_line_prose(out, open, first_line(s));
        let (out2, open2) = read_line(out, open, first_line(s));
        blocks_from_prose(out2, open2, next_lines(s));
    } else if let OpenView::Code(lines) = open {
        assert(code_lines(lines));
        assert(prose_block(BlockView::Code(join(lines, seq!['\n']))));
    }
}

/// Reading on never takes a block back.
proof fn blocks_from_grow(out: Seq<BlockView>, open: OpenView, s: Seq<char>)
    ensures
        blocks_from(out, open, s).len() >= closed(out, open).len(),
    decreases s.len(),
{
    if s.len() > 0 {
        find_is_first(s, seq!['\n']);
        let (out2, open2) = read_line(out, open, first_line(s));
        blocks_from_grow(out2, open2, next_lines(s));
    }
}

proof fn blank_by_lines(s: Seq<char>)
    ensures
        blank(s) <==> blank(first_line(s)) && blank(next_lines(s)),
{
    find_is_first(s, seq!['\n']);
    if let Some(i) = find(s, seq!['\n']) {
        assert(s.subrange(i, i + 1)[0] == s[i]);
        let line = first_line(s);
        let rest = next_lines(s);
        if blank(s) {
            assert forall|j: int| 0 <= j < line.len() implies white(#[trigger] line[j]) by {
                assert(line[j] == s[j]);
            }
            assert forall|j: int| 0 <= j < rest.len() implies white(#[trigger] rest[j]) by {
                assert(rest[j] == s[i + 1 + j]);
            }
        }
        if blank(line) && blank(rest) {
            assert forall|j: int| 0 <= j < s.len() implies white(#[trigger] s[j]) by {
                if j < line.len() {
                    assert(line[j] == s[j]);
                } else if j > i {
                    assert(rest[j - i - 1] == s[j]);
                }
            }
        }
    }
}

proof fn no_blocks_if_blank(s: Seq<char>)
    ensures
        blocks(s).len() == 0 <==> blank(s),
    decreases s.len(),
{
    if s.len() > 0 {
        find_is_first(s, seq!['\n']);
        blank_by_lines(s);
        let raw = first_line(s);
        body_ends(raw);
        let (out, open) = read_line(Seq::empty(), OpenView::Nothing, raw);
        if blank(raw) {
            no_blocks_if_blank(next_lines(s));
        } else {
            assert(closed(out, open).len() > 0);
            blocks_from_grow(out, open, next_lines(s));
        }
    }
}

/// No fence, heading mark or list mark is ever shown as paragraph text; no
/// heading, paragraph line or list item is empty; a heading has a level from one
/// to six; a code block holds no line that fences one. There are no blocks exactly
/// where the text is blank.
pub proof fn blocks_are_prose(s: Seq<char>)
    ensures
        forall|i: int| 0 <= i < blocks(s).len() ==> prose_block(#[trigger] blocks(s)[i]),
        blocks(s).len() == 0 <==> blank(s),
{
    blocks_from_prose(Seq::empty(), OpenView::Nothing, s);
    no_blocks_if_blank(s);
}

/// A clean path names itself.
pub proof fn path_names_itself(path: Seq<char>)
    requires
        path.len() > 0,
        claimed_path(path) == path,
    ensures
        names(path, path),
{
}

/// `./` before a path changes nothing about the file it names.
pub proof fn dotted_path_names_the_same(path: Seq<char>, actual: Seq<char>)
    requires
        path.len() > 0,
        trimmed(path) == path,
    ensures
        names(seq!['.', '/'] + path, actual) == names(path, actual),
{
    let dotted = seq!['.', '/'] + path;
    assert(trim_front(dotted) == dotted);
    assert(!white(path.last())) by {
        trimmed_tail(path);
    }
    assert(dotted.last() == path.last());
    assert(trim_back(dotted) == dotted);
    assert(dotted.take(2) =~= seq!['.', '/']);
    assert(dotted.skip(2) =~= path);
}

proof fn trimmed_tail(s: Seq<char>)
    requires
        trimmed(s) == s,
        s.len() > 0,
    ensures
        !white(s.last()),
{
    trim_back_prefix(trim_front(s));
    trim_front_len(s);
    if white(s.last()) {
        assert(trim_front(s).len() == s.len());
        trim_front_suffix(s);
        assert(trim_front(s) =~= s);
        trim_back_prefix(s.drop_last());
    }
}

proof fn trim_front_len(s: Seq<char>)
    ensures
        trim_front(s).len() <= s.len(),
    decreases s.len(),
{
    if s.len() > 0 && white(s[0]) {
        trim_front_len(s.drop_first());
    }
}

proof fn trim_front_suffix(s: Seq<char>)
    ensures
        trim_front(s).len() <= s.len(),
        trim_front(s) == s.skip(s.len() - trim_front(s).len()),
    decreases s.len(),
{
    if s.len() > 0 && white(s[0]) {
        trim_front_suffix(s.drop_first());
        assert(s.drop_first().skip(s.len() - 1 - trim_front(s).len()) =~= s.skip(
            s.len() - trim_front(s).len(),
        ));
    } else {
        assert(s.skip(0) =~= s);
    }
}

} // verus!
