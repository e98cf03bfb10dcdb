//! What the markdown reader keeps of a text: each kind of block, line by line, and
//! where one block ends and the next begins.

use vstd::prelude::*;

use crate::markdown::{
    blocks, blocks_from, blocks_view, bullet, claimed_path, closed, closing, fence, first_line,
    heading, inner, join, lead, leading, leading_digits, line_suffix, mark, md_blocks, names,
    next_lines, next_mark, opening, ordered, path_char, path_ref, plain_runs, read_line, text_run,
    unclosed, undotted, word_len, wrapped, BlockView, InlineView, MdBlock, MdInline, OpenView,
};
use crate::text::{
    all_digits, alphanumeric, back_goes, blank, blank_is_empty_trim, digit, ends, find,
    find_is_first, find_last, find_last_is_last, front_goes, starts, trim_back, trim_front, trimmed,
    white,
};

verus! {

// ---- Lines ---------------------------------------------------------------

pub open spec fn one_line(s: Seq<char>) -> bool {
    !s.contains('\n')
}

pub open spec fn one_liners(lines: Seq<Seq<char>>) -> bool {
    forall|i: int| 0 <= i < lines.len() ==> one_line(#[trigger] lines[i])
}

/// Lines one under the other, each with its line end.
pub open spec fn stacked(lines: Seq<Seq<char>>) -> Seq<char>
    decreases lines.len(),
{
    if lines.len() == 0 {
        Seq::empty()
    } else {
        lines[0].push('\n') + stacked(lines.drop_first())
    }
}

/// A line that opens or closes a block of code: three backticks or three tildes,
/// with nothing but white space before them.
pub open spec fn fence_line(s: Seq<char>) -> bool {
    let t = trim_front(s);
    t.len() >= 3 && (t[0] == '`' || t[0] == '~') && t[1] == t[0] && t[2] == t[0]
}

pub open spec fn no_fences(lines: Seq<Seq<char>>) -> bool {
    forall|i: int| 0 <= i < lines.len() ==> !fence_line(#[trigger] lines[i])
}

proof fn front_split(s: Seq<char>) -> (a: Seq<char>)
    ensures
        blank(a),
        s == a + trim_front(s),
        trim_front(s).len() > 0 ==> !white(trim_front(s)[0]),
    decreases s.len(),
{
    if s.len() > 0 && white(s[0]) {
        let rest = front_split(s.drop_first());
        let a = seq![s[0]] + rest;
        assert(s =~= seq![s[0]] + s.drop_first());
        assert(s =~= a + trim_front(s));
        assert forall|i: int| 0 <= i < a.len() implies white(#[trigger] a[i]) by {
            if i > 0 {
                assert(a[i] == rest[i - 1]);
            }
        }
        a
    } else {
        assert(s =~= Seq::<char>::empty() + s);
        Seq::empty()
    }
}

proof fn back_split(s: Seq<char>) -> (b: Seq<char>)
    ensures
        blank(b),
        s == trim_back(s) + b,
        trim_back(s).len() > 0 ==> !white(trim_back(s).last()),
    decreases s.len(),
{
    if s.len() > 0 && white(s.last()) {
        let rest = back_split(s.drop_last());
        let b = rest.push(s.last());
        assert(s =~= s.drop_last().push(s.last()));
        assert(s =~= trim_back(s) + b);
        assert forall|i: int| 0 <= i < b.len() implies white(#[trigger] b[i]) by {
            if i < rest.len() {
                assert(b[i] == rest[i]);
            }
        }
        b
    } else {
        assert(s =~= s + Seq::<char>::empty());
        Seq::empty()
    }
}

/// A line's body, trimmed behind and then before, is the line trimmed.
proof fn body_is_trimmed(s: Seq<char>)
    ensures
        trim_front(trim_back(s)) == trimmed(s),
        fence(trimmed(s)) <==> fence_line(s),
{
    let a = front_split(s);
    let u = trim_front(s);
    let b = back_split(u);
    let t = trimmed(s);
    blank_is_empty_trim(s);
    if t.len() == 0 {
        front_goes(s, Seq::empty());
        assert(s + Seq::<char>::empty() =~= s);
        back_goes(Seq::empty(), s);
        assert(Seq::<char>::empty() + s =~= s);
        assert(trim_back(s) =~= Seq::empty());
    } else {
        assert(t[0] == u[0]);
        assert(s =~= (a + t) + b);
        back_goes(a + t, b);
        front_goes(a, t);
        assert forall|i: int| 0 <= i < t.len() implies #[trigger] u[i] == t[i] by {}
        if t.len() < 3 && u.len() >= 3 {
            assert(u[2] == b[2 - t.len()]);
            assert(white(u[2]));
        }
        if t.len() >= 3 {
            assert(t.take(3) =~= seq![t[0], t[1], t[2]]);
            assert(seq!['`', '`', '`'][0] == '`' && seq!['`', '`', '`'][1] == '`' && seq![
                '`',
                '`',
                '`',
            ][2] == '`');
            assert(seq!['~', '~', '~'][0] == '~' && seq!['~', '~', '~'][1] == '~' && seq![
                '~',
                '~',
                '~',
            ][2] == '~');
            if fence_line(s) {
                assert(t.take(3) =~= seq!['`', '`', '`'] || t.take(3) =~= seq!['~', '~', '~']);
            }
            if fence(t) {
                assert(t[0] == t.take(3)[0] && t[1] == t.take(3)[1] && t[2] == t.take(3)[2]);
            }
        }
    }
}

proof fn line_end(line: Seq<char>, rest: Seq<char>)
    requires
        one_line(line),
    ensures
        find(line.push('\n') + rest, seq!['\n']) == Some(line.len() as int),
        find(line, seq!['\n']) is None,
{
    let s = line.push('\n') + rest;
    let nl = seq!['\n'];
    let n = line.len() as int;
    find_is_first(s, nl);
    assert(s.subrange(n, n + 1) =~= nl);
    if let Some(i) = find(s, nl) {
        assert(s.subrange(i, i + 1)[0] == '\n');
        if i < n {
            assert(line[i] == '\n');
            assert(line.contains('\n'));
        }
    }
    find_is_first(line, nl);
    if let Some(i) = find(line, nl) {
        assert(line.subrange(i, i + 1)[0] == '\n');
        assert(line[i] == '\n');
    }
}

/// A carriage return at the end of a line changes nothing of how it reads.
proof fn return_is_nothing(out: Seq<BlockView>, open: OpenView, raw: Seq<char>)
    ensures
        read_line(out, open, raw.push('\r')) == read_line(out, open, raw),
{
    let line = raw.push('\r');
    assert(line.drop_last() =~= raw);
    assert(white('\r'));
    assert(trim_back(line) == trim_back(raw));
    if starts(line, seq![' ', ' ']) {
        assert(line.take(2)[1] == ' ');
        assert(line[1] == ' ');
        assert(raw.take(2) =~= line.take(2));
    }
    if starts(raw, seq![' ', ' ']) {
        assert(raw.take(2) =~= line.take(2));
    }
}

proof fn reads_a_line(out: Seq<BlockView>, open: OpenView, line: Seq<char>, rest: Seq<char>)
    requires
        one_line(line),
    ensures
        ({
            let (out2, open2) = read_line(out, open, line);
            blocks_from(out, open, line.push('\n') + rest) == blocks_from(out2, open2, rest)
        }),
{
    let s = line.push('\n') + rest;
    let n = line.len() as int;
    line_end(line, rest);
    assert(s.take(n) =~= line);
    assert(s.skip(n + 1) =~= rest);
    if n > 0 && s[n - 1] == '\r' {
        assert(s.take(n - 1).push('\r') =~= line);
        return_is_nothing(out, open, s.take(n - 1));
    }
    assert(next_lines(s) == rest);
}

proof fn reads_the_last_line(out: Seq<BlockView>, open: OpenView, line: Seq<char>)
    requires
        one_line(line),
        line.len() > 0,
    ensures
        ({
            let (out2, open2) = read_line(out, open, line);
            blocks_from(out, open, line) == closed(out2, open2)
        }),
{
    line_end(line, Seq::empty());
    let (out2, open2) = read_line(out, open, line);
    assert(blocks_from(out2, open2, Seq::empty()) == closed(out2, open2));
}

proof fn closing_adds(out: Seq<BlockView>, open: OpenView)
    ensures
        closed(out, open) == out + closed(Seq::empty(), open),
{
    assert(closed(out, open) =~= out + closed(Seq::empty(), open));
}

proof fn reading_adds(out: Seq<BlockView>, open: OpenView, raw: Seq<char>)
    ensures
        read_line(out, open, raw).0 == out + read_line(Seq::empty(), open, raw).0,
        read_line(out, open, raw).1 == read_line(Seq::empty(), open, raw).1,
{
    closing_adds(out, open);
    assert(read_line(out, open, raw).0 =~= out + read_line(Seq::empty(), open, raw).0);
}

/// What has been read stays as it is, whatever follows.
proof fn more_adds(out: Seq<BlockView>, open: OpenView, s: Seq<char>)
    ensures
        blocks_from(out, open, s) == out + blocks_from(Seq::empty(), open, s),
    decreases s.len(),
{
    closing_adds(out, open);
    if s.len() > 0 {
        find_is_first(s, seq!['\n']);
        let raw = first_line(s);
        reading_adds(out, open, raw);
        let (one, next) = read_line(Seq::empty(), open, raw);
        more_adds(out + one, next, next_lines(s));
        more_adds(one, next, next_lines(s));
        assert(out + one + blocks_from(Seq::empty(), next, next_lines(s)) =~= out + (one
            + blocks_from(Seq::empty(), next, next_lines(s))));
    }
}

proof fn stack_first(lines: Seq<Seq<char>>, rest: Seq<char>)
    requires
        lines.len() > 0,
        one_liners(lines),
    ensures
        one_line(lines[0]),
        one_liners(lines.drop_first()),
        stacked(lines) + rest == lines[0].push('\n') + (stacked(lines.drop_first()) + rest),
{
    assert forall|i: int| 0 <= i < lines.drop_first().len() implies one_line(
        #[trigger] lines.drop_first()[i],
    ) by {
        assert(lines.drop_first()[i] == lines[i + 1]);
    }
    assert(stacked(lines) + rest =~= lines[0].push('\n') + (stacked(lines.drop_first()) + rest));
}

proof fn fenceless_rest(lines: Seq<Seq<char>>)
    requires
        lines.len() > 0,
        no_fences(lines),
    ensures
        !fence_line(lines[0]),
        no_fences(lines.drop_first()),
{
    assert forall|i: int| 0 <= i < lines.drop_first().len() implies !fence_line(
        #[trigger] lines.drop_first()[i],
    ) by {
        assert(lines.drop_first()[i] == lines[i + 1]);
    }
}

// ---- Code ----------------------------------------------------------------

proof fn code_goes_on(acc: Seq<Seq<char>>, lines: Seq<Seq<char>>, rest: Seq<char>)
    requires
        one_liners(lines),
        no_fences(lines),
    ensures
        blocks_from(Seq::empty(), OpenView::Code(acc), stacked(lines) + rest) == blocks_from(
            Seq::empty(),
            OpenView::Code(acc + lines.map_values(|l: Seq<char>| trim_back(l))),
            rest,
        ),
    decreases lines.len(),
{
    let cut = |l: Seq<char>| trim_back(l);
    if lines.len() == 0 {
        assert(stacked(lines) + rest =~= rest);
        assert(acc + lines.map_values(cut) =~= acc);
    } else {
        stack_first(lines, rest);
        fenceless_rest(lines);
        body_is_trimmed(lines[0]);
        reads_a_line(
            Seq::empty(),
            OpenView::Code(acc),
            lines[0],
            stacked(lines.drop_first()) + rest,
        );
        code_goes_on(acc.push(trim_back(lines[0])), lines.drop_first(), rest);
        assert(acc.push(trim_back(lines[0])) + lines.drop_first().map_values(cut) =~= acc
            + lines.map_values(cut));
    }
}

/// A fence, lines that do not fence, and a fence again are one block of code. It
/// holds the lines between the fences, each whole but for its trailing white space:
/// its indentation is kept. What the opening fence says after its mark is not code.
/// Without a closing fence the block runs to the end of the text.
pub proof fn code_keeps_its_lines(opens: Seq<char>, lines: Seq<Seq<char>>, closes: Seq<char>)
    requires
        one_line(opens),
        one_liners(lines),
        one_line(closes),
        fence_line(opens),
        no_fences(lines),
        fence_line(closes),
    ensures
        blocks(opens.push('\n') + (stacked(lines) + closes)) == seq![
            BlockView::Code(join(lines.map_values(|l: Seq<char>| trim_back(l)), seq!['\n'])),
        ],
        blocks(opens.push('\n') + stacked(lines)) == seq![
            BlockView::Code(join(lines.map_values(|l: Seq<char>| trim_back(l)), seq!['\n'])),
        ],
{
    let kept = lines.map_values(|l: Seq<char>| trim_back(l));
    let code = seq![BlockView::Code(join(kept, seq!['\n']))];
    let none = Seq::<Seq<char>>::empty();
    body_is_trimmed(opens);
    body_is_trimmed(closes);
    assert(none + kept =~= kept);
    reads_a_line(Seq::empty(), OpenView::Nothing, opens, stacked(lines) + closes);
    code_goes_on(none, lines, closes);
    assert(closes.len() > 0) by {
        front_split(closes);
    }
    reads_the_last_line(Seq::empty(), OpenView::Code(kept), closes);
    assert(Seq::<BlockView>::empty().push(BlockView::Code(join(kept, seq!['\n']))) =~= code);
    reads_a_line(Seq::empty(), OpenView::Nothing, opens, stacked(lines));
    code_goes_on(none, lines, Seq::empty());
    assert(stacked(lines) + Seq::<char>::empty() =~= stacked(lines));
    assert(blocks_from(Seq::empty(), OpenView::Code(kept), Seq::empty()) == closed(
        Seq::empty(),
        OpenView::Code(kept),
    ));
}

/// A closed block of code is done: what follows is read as a text of its own.
pub proof fn code_ends_at_its_fence(
    opens: Seq<char>,
    lines: Seq<Seq<char>>,
    closes: Seq<char>,
    rest: Seq<char>,
)
    requires
        one_line(opens),
        one_liners(lines),
        one_line(closes),
        fence_line(opens),
        no_fences(lines),
        fence_line(closes),
    ensures
        blocks(opens.push('\n') + (stacked(lines) + (closes.push('\n') + rest))) == blocks(
            opens.push('\n') + (stacked(lines) + closes),
        ) + blocks(rest),
{
    let kept = lines.map_values(|l: Seq<char>| trim_back(l));
    let none = Seq::<Seq<char>>::empty();
    body_is_trimmed(opens);
    body_is_trimmed(closes);
    assert(none + kept =~= kept);
    let tail = closes.push('\n') + rest;
    reads_a_line(Seq::empty(), OpenView::Nothing, opens, stacked(lines) + tail);
    code_goes_on(none, lines, tail);
    reads_a_line(Seq::empty(), OpenView::Code(kept), closes, rest);
    more_adds(closed(Seq::empty(), OpenView::Code(kept)), OpenView::Nothing, rest);
    code_keeps_its_lines(opens, lines, closes);
    assert(closed(Seq::empty(), OpenView::Code(kept)) =~= seq![
        BlockView::Code(join(kept, seq!['\n'])),
    ]);
}

/// Joining puts the separator between two lists of lines and nowhere else.
pub proof fn joining_parts(a: Seq<Seq<char>>, b: Seq<Seq<char>>, x: Seq<char>, sep: Seq<char>)
    ensures
        join(Seq::empty(), sep) == Seq::<char>::empty(),
        join(seq![x], sep) == x,
        a.len() > 0 && b.len() > 0 ==> join(a + b, sep) == join(a, sep) + sep + join(b, sep),
    decreases b.len(),
{
    if a.len() > 0 && b.len() == 1 {
        assert((a + b).drop_last() =~= a);
        assert((a + b).last() == b[0]);
    } else if a.len() > 0 && b.len() > 1 {
        joining_parts(a, b.drop_last(), x, sep);
        assert((a + b).drop_last() =~= a + b.drop_last());
        assert((a + b).last() == b.last());
        assert(join(a, sep) + sep + join(b.drop_last(), sep) + sep + b.last() =~= join(a, sep) + sep
            + (join(b.drop_last(), sep) + sep + b.last()));
    }
}

// ---- Where one block ends ------------------------------------------------

/// Lines that do not fence leave a reader outside any block of code.
proof fn fenceless(out: Seq<BlockView>, open: OpenView, pre: Seq<Seq<char>>, rest: Seq<char>) -> (r: (
    Seq<BlockView>,
    OpenView,
))
    requires
        one_liners(pre),
        no_fences(pre),
        !(open is Code),
    ensures
        !(r.1 is Code),
        blocks_from(out, open, stacked(pre) + rest) == blocks_from(r.0, r.1, rest),
        blocks_from(out, open, stacked(pre)) == closed(r.0, r.1),
    decreases pre.len(),
{
    if pre.len() == 0 {
        assert(stacked(pre) + rest =~= rest);
        (out, open)
    } else {
        stack_first(pre, rest);
        stack_first(pre, Seq::empty());
        assert(stacked(pre) + Seq::<char>::empty() =~= stacked(pre));
        let more = stacked(pre.drop_first());
        assert(more + Seq::<char>::empty() =~= more);
        fenceless_rest(pre);
        body_is_trimmed(pre[0]);
        reads_a_line(out, open, pre[0], more + rest);
        reads_a_line(out, open, pre[0], more);
        let (out2, open2) = read_line(out, open, pre[0]);
        fenceless(out2, open2, pre.drop_first(), rest)
    }
}

/// Outside code a blank line ends a block: what stands before it and what stands
/// behind it are read each for itself.
pub proof fn a_blank_line_parts(pre: Seq<Seq<char>>, gap: Seq<char>, rest: Seq<char>)
    requires
        one_liners(pre),
        no_fences(pre),
        one_line(gap),
        blank(gap),
    ensures
        blocks(stacked(pre) + (gap.push('\n') + rest)) == blocks(stacked(pre)) + blocks(rest),
{
    let (out, open) = fenceless(Seq::empty(), OpenView::Nothing, pre, gap.push('\n') + rest);
    body_is_trimmed(gap);
    blank_is_empty_trim(gap);
    assert(!fence(trimmed(gap)));
    reads_a_line(out, open, gap, rest);
    more_adds(closed(out, open), OpenView::Nothing, rest);
}

/// A fence ends a block too, and opens a block of code.
pub proof fn a_fence_parts(pre: Seq<Seq<char>>, opens: Seq<char>, rest: Seq<char>)
    requires
        one_liners(pre),
        no_fences(pre),
        one_line(opens),
        fence_line(opens),
    ensures
        blocks(stacked(pre) + (opens.push('\n') + rest)) == blocks(stacked(pre)) + blocks(
            opens.push('\n') + rest,
        ),
{
    let (out, open) = fenceless(Seq::empty(), OpenView::Nothing, pre, opens.push('\n') + rest);
    body_is_trimmed(opens);
    reads_a_line(out, open, opens, rest);
    reads_a_line(Seq::empty(), OpenView::Nothing, opens, rest);
    more_adds(closed(out, open), OpenView::Code(Seq::empty()), rest);
}

// ---- Headings ------------------------------------------------------------

pub open spec fn hashes(k: nat) -> Seq<char> {
    Seq::new(k, |i: int| '#')
}

proof fn hashes_counted(k: nat, r: Seq<char>)
    requires
        r.len() > 0 ==> r[0] != '#',
    ensures
        leading(hashes(k) + r, '#') == k,
    decreases k,
{
    if k == 0 {
        assert(hashes(k) + r =~= r);
    } else {
        let km = (k - 1) as nat;
        hashes_counted(km, r);
        assert((hashes(k) + r)[0] == '#');
        assert((hashes(k) + r).drop_first() =~= hashes(km) + r);
    }
}

/// A text behind a mark: its white space behind it goes with the line's.
proof fn behind_a_mark(indent: Seq<char>, m: Seq<char>, t: Seq<char>)
    requires
        blank(indent),
        m.len() > 0,
        !white(m[0]),
        !blank(t),
    ensures
        trimmed(indent + m + t) == m + trim_back(t),
        trimmed(trim_back(t)) == trimmed(t),
        trimmed(seq![' '] + trim_back(t)) == trimmed(t),
{
    let b = back_split(t);
    blank_is_empty_trim(t);
    body_is_trimmed(t);
    let core = m + trim_back(t);
    assert(trim_back(t).len() > 0) by {
        if trim_back(t).len() == 0 {
            assert(trim_back(t) =~= Seq::empty());
            assert(trim_front(trim_back(t)) =~= Seq::empty());
        }
    }
    assert(indent + m + t =~= indent + core + b);
    crate::text::trimming_leaves_the_text(indent, core, b);
    let u = trim_back(t);
    crate::text::trimmed_idempotent(t);
    assert(trim_back(trim_front(u)) == trimmed(t)) by {
        assert(trim_front(u) == trimmed(t));
        let gone = back_split(trim_front(t));
        back_goes(trimmed(t), Seq::empty());
        assert(trimmed(t) + Seq::<char>::empty() =~= trimmed(t));
    }
    let sp = seq![' '] + u;
    assert(white(' '));
    assert(sp.drop_first() =~= u);
    assert(trim_front(sp) == trim_front(u));
}

proof fn reads_a_heading(
    out: Seq<BlockView>,
    open: OpenView,
    indent: Seq<char>,
    k: nat,
    t: Seq<char>,
)
    requires
        blank(indent),
        1 <= k <= 6,
        !blank(t),
        !(open is Code),
    ensures
        read_line(out, open, indent + hashes(k) + (seq![' '] + t)) == (
            closed(out, open).push(BlockView::Heading(k as int, trimmed(t))),
            OpenView::Nothing,
        ),
{
    let m = hashes(k) + seq![' '];
    let line = indent + hashes(k) + (seq![' '] + t);
    assert(line =~= indent + m + t);
    assert(m[0] == '#');
    assert(!white('#'));
    behind_a_mark(indent, m, t);
    body_is_trimmed(line);
    let body = trimmed(line);
    let r = seq![' '] + trim_back(t);
    assert(body =~= hashes(k) + r);
    hashes_counted(k, r);
    assert(body.skip(k as int) =~= r);
    assert(r.take(1) =~= seq![' ']);
    assert(body[0] == '#');
    assert(!fence(body)) by {
        assert(body.len() >= 3 ==> body.take(3)[0] == '#');
        assert(seq!['`', '`', '`'][0] == '`');
        assert(seq!['~', '~', '~'][0] == '~');
    }
}

/// One to six hashes, a space and a text are a heading of that level and that text.
/// It is a block of its own: it ends what stands before it, and what stands behind it
/// is read for itself.
pub proof fn a_heading_stands_alone(
    pre: Seq<Seq<char>>,
    indent: Seq<char>,
    k: nat,
    t: Seq<char>,
    rest: Seq<char>,
)
    requires
        one_liners(pre),
        no_fences(pre),
        one_line(indent),
        blank(indent),
        1 <= k <= 6,
        one_line(t),
        !blank(t),
    ensures
        blocks(stacked(pre) + ((indent + hashes(k) + (seq![' '] + t)).push('\n') + rest)) == blocks(
            stacked(pre),
        ) + seq![BlockView::Heading(k as int, trimmed(t))] + blocks(rest),
{
    let line = indent + hashes(k) + (seq![' '] + t);
    assert forall|i: int| 0 <= i < line.len() implies line[i] != '\n' by {
        if i < indent.len() {
            assert(line[i] == indent[i]);
            assert(indent.contains(indent[i]));
        } else if i >= indent.len() + k + 1 {
            let j = i - indent.len() - k - 1;
            assert(line[i] == t[j]);
            assert(t.contains(t[j]));
        }
    }
    let (out, open) = fenceless(Seq::empty(), OpenView::Nothing, pre, line.push('\n') + rest);
    reads_a_heading(out, open, indent, k, t);
    reads_a_line(out, open, line, rest);
    let read = closed(out, open).push(BlockView::Heading(k as int, trimmed(t)));
    more_adds(read, OpenView::Nothing, rest);
    assert(read =~= closed(out, open) + seq![BlockView::Heading(k as int, trimmed(t))]);
}

// ---- Lists and paragraphs ------------------------------------------------

/// A line of plain words: its first character marks nothing.
pub open spec fn wordy(s: Seq<char>) -> bool {
    let t = trimmed(s);
    t.len() > 0 && t[0] != '#' && t[0] != '-' && t[0] != '*' && t[0] != '`' && t[0] != '~' && !digit(
        t[0],
    )
}

proof fn unmarked_start(t: Seq<char>)
    requires
        t.len() > 0,
    ensures
        t[0] != '`' && t[0] != '~' ==> !fence(t),
        t[0] != '#' ==> heading(t) is None,
        t[0] != '-' && t[0] != '*' ==> bullet(t) is None,
        !digit(t[0]) ==> ordered(t) is None,
{
    assert(t.len() >= 3 ==> t.take(3)[0] == t[0]);
    assert(t.len() >= 2 ==> t.take(2)[0] == t[0]);
    assert(seq!['`', '`', '`'][0] == '`');
    assert(seq!['~', '~', '~'][0] == '~');
    assert(seq!['-', ' '][0] == '-');
    assert(seq!['*', ' '][0] == '*');
}

proof fn paragraph_goes_on(acc: Seq<Seq<char>>, lines: Seq<Seq<char>>)
    requires
        one_liners(lines),
        forall|i: int| 0 <= i < lines.len() ==> wordy(#[trigger] lines[i]),
    ensures
        blocks_from(Seq::empty(), OpenView::Para(acc), stacked(lines)) == seq![
            BlockView::Para(acc + lines.map_values(|l: Seq<char>| trimmed(l))),
        ],
    decreases lines.len(),
{
    let cut = |l: Seq<char>| trimmed(l);
    if lines.len() == 0 {
        assert(acc + lines.map_values(cut) =~= acc);
        assert(closed(Seq::empty(), OpenView::Para(acc)) =~= seq![BlockView::Para(acc)]);
    } else {
        stack_first(lines, Seq::empty());
        let rest = lines.drop_first();
        assert(stacked(lines) + Seq::<char>::empty() =~= stacked(lines));
        assert(stacked(rest) + Seq::<char>::empty() =~= stacked(rest));
        assert forall|i: int| 0 <= i < rest.len() implies wordy(#[trigger] rest[i]) by {
            assert(rest[i] == lines[i + 1]);
        }
        assert(wordy(lines[0]));
        body_is_trimmed(lines[0]);
        unmarked_start(trimmed(lines[0]));
        reads_a_line(Seq::empty(), OpenView::Para(acc), lines[0], stacked(rest));
        paragraph_goes_on(acc.push(trimmed(lines[0])), rest);
        assert(acc.push(trimmed(lines[0])) + rest.map_values(cut) =~= acc + lines.map_values(cut));
    }
}

/// Lines of plain words are one paragraph, which keeps them apart and in their order.
pub proof fn a_paragraph_keeps_its_lines(lines: Seq<Seq<char>>)
    requires
        lines.len() > 0,
        one_liners(lines),
        forall|i: int| 0 <= i < lines.len() ==> wordy(#[trigger] lines[i]),
    ensures
        blocks(stacked(lines)) == seq![
            BlockView::Para(lines.map_values(|l: Seq<char>| trimmed(l))),
        ],
{
    let cut = |l: Seq<char>| trimmed(l);
    stack_first(lines, Seq::empty());
    let rest = lines.drop_first();
    assert(stacked(lines) + Seq::<char>::empty() =~= stacked(lines));
    assert(stacked(rest) + Seq::<char>::empty() =~= stacked(rest));
    assert forall|i: int| 0 <= i < rest.len() implies wordy(#[trigger] rest[i]) by {
        assert(rest[i] == lines[i + 1]);
    }
    assert(wordy(lines[0]));
    body_is_trimmed(lines[0]);
    unmarked_start(trimmed(lines[0]));
    reads_a_line(Seq::empty(), OpenView::Nothing, lines[0], stacked(rest));
    paragraph_goes_on(seq![trimmed(lines[0])], rest);
    assert(seq![trimmed(lines[0])] + rest.map_values(cut) =~= lines.map_values(cut));
}

/// An item of a list as a line: a dash or a star and a space before its text.
pub open spec fn dashed(c: char, t: Seq<char>) -> Seq<char> {
    seq![c, ' '] + t
}

/// An item of a numbered list as a line: its number, a dot and a space before its
/// text.
pub open spec fn numbered(n: Seq<char>, t: Seq<char>) -> Seq<char> {
    n + seq!['.', ' '] + t
}

pub open spec fn item_text(t: Seq<char>) -> bool {
    one_line(t) && !blank(t)
}

proof fn reads_as_dashed(c: char, t: Seq<char>)
    requires
        c == '-' || c == '*',
        item_text(t),
    ensures
        one_line(dashed(c, t)),
        !fence(trimmed(dashed(c, t))),
        trimmed(dashed(c, t)).len() > 0,
        heading(trimmed(dashed(c, t))) is None,
        bullet(trimmed(dashed(c, t))) == Some(trimmed(t)),
{
    let line = dashed(c, t);
    let m = seq![c, ' '];
    assert(Seq::<char>::empty() + m + t =~= line);
    behind_a_mark(Seq::empty(), m, t);
    let body = trimmed(line);
    assert(body == m + trim_back(t));
    assert(body[0] == c);
    unmarked_start(body);
    assert(body.take(2) =~= m);
    assert(body.skip(2) =~= trim_back(t));
    assert forall|i: int| 0 <= i < line.len() implies line[i] != '\n' by {
        if i >= 2 {
            assert(line[i] == t[i - 2]);
            assert(t.contains(t[i - 2]));
        }
    }
}

proof fn digits_counted(n: Seq<char>, r: Seq<char>)
    requires
        all_digits(n),
        r.len() > 0 ==> !digit(r[0]),
    ensures
        leading_digits(n + r) == n.len(),
    decreases n.len(),
{
    if n.len() == 0 {
        assert(n + r =~= r);
    } else {
        assert(digit(n[0]));
        assert((n + r)[0] == n[0]);
        assert((n + r).drop_first() =~= n.drop_first() + r);
        assert forall|i: int| 0 <= i < n.drop_first().len() implies digit(
            #[trigger] n.drop_first()[i],
        ) by {
            assert(n.drop_first()[i] == n[i + 1]);
        }
        digits_counted(n.drop_first(), r);
    }
}

proof fn reads_as_numbered(n: Seq<char>, t: Seq<char>)
    requires
        n.len() > 0,
        all_digits(n),
        item_text(t),
    ensures
        one_line(numbered(n, t)),
        !fence(trimmed(numbered(n, t))),
        trimmed(numbered(n, t)).len() > 0,
        heading(trimmed(numbered(n, t))) is None,
        bullet(trimmed(numbered(n, t))) is None,
        ordered(trimmed(numbered(n, t))) == Some(trimmed(t)),
{
    let line = numbered(n, t);
    let m = n + seq!['.', ' '];
    assert(digit(n[0]));
    assert(m[0] == n[0]);
    assert(!white(m[0]));
    assert(Seq::<char>::empty() + m + t =~= line);
    behind_a_mark(Seq::empty(), m, t);
    let body = trimmed(line);
    assert(body[0] == n[0]);
    unmarked_start(body);
    let r = seq!['.', ' '] + trim_back(t);
    assert(body =~= n + r);
    digits_counted(n, r);
    let k = n.len() as int;
    assert(body.skip(k) =~= r);
    assert(r.take(2) =~= seq!['.', ' ']);
    assert(body.skip(k + 2) =~= trim_back(t));
    assert forall|i: int| 0 <= i < line.len() implies line[i] != '\n' by {
        if i < k {
            assert(digit(n[i]));
            assert(line[i] == n[i]);
        } else if i >= k + 2 {
            assert(line[i] == t[i - k - 2]);
            assert(t.contains(t[i - k - 2]));
        }
    }
}

proof fn dashes_go_on(acc: Seq<Seq<char>>, c: char, items: Seq<Seq<char>>)
    requires
        c == '-' || c == '*',
        forall|i: int| 0 <= i < items.len() ==> item_text(#[trigger] items[i]),
    ensures
        blocks_from(
            Seq::empty(),
            OpenView::Bullets(acc),
            stacked(items.map_values(|t: Seq<char>| dashed(c, t))),
        ) == seq![BlockView::Bullets(acc + items.map_values(|t: Seq<char>| trimmed(t)))],
    decreases items.len(),
{
    let cut = |t: Seq<char>| trimmed(t);
    let dash = |t: Seq<char>| dashed(c, t);
    let lines = items.map_values(dash);
    if items.len() == 0 {
        assert(acc + items.map_values(cut) =~= acc);
        assert(closed(Seq::empty(), OpenView::Bullets(acc)) =~= seq![BlockView::Bullets(acc)]);
    } else {
        let rest = items.drop_first();
        assert(lines.drop_first() =~= rest.map_values(dash));
        assert forall|i: int| 0 <= i < rest.len() implies item_text(#[trigger] rest[i]) by {
            assert(rest[i] == items[i + 1]);
        }
        assert(item_text(items[0]));
        reads_as_dashed(c, items[0]);
        body_is_trimmed(lines[0]);
        reads_a_line(Seq::empty(), OpenView::Bullets(acc), lines[0], stacked(lines.drop_first()));
        dashes_go_on(acc.push(trimmed(items[0])), c, rest);
        assert(acc.push(trimmed(items[0])) + rest.map_values(cut) =~= acc + items.map_values(cut));
    }
}

/// Dashed lines are one list, which keeps its items whole and in their order.
pub proof fn a_list_keeps_its_items(c: char, items: Seq<Seq<char>>)
    requires
        c == '-' || c == '*',
        items.len() > 0,
        forall|i: int| 0 <= i < items.len() ==> item_text(#[trigger] items[i]),
    ensures
        blocks(stacked(items.map_values(|t: Seq<char>| dashed(c, t)))) == seq![
            BlockView::Bullets(items.map_values(|t: Seq<char>| trimmed(t))),
        ],
{
    let cut = |t: Seq<char>| trimmed(t);
    let dash = |t: Seq<char>| dashed(c, t);
    let lines = items.map_values(dash);
    let rest = items.drop_first();
    assert(lines.drop_first() =~= rest.map_values(dash));
    assert forall|i: int| 0 <= i < rest.len() implies item_text(#[trigger] rest[i]) by {
        assert(rest[i] == items[i + 1]);
    }
    assert(item_text(items[0]));
    reads_as_dashed(c, items[0]);
    body_is_trimmed(lines[0]);
    reads_a_line(Seq::empty(), OpenView::Nothing, lines[0], stacked(lines.drop_first()));
    dashes_go_on(seq![trimmed(items[0])], c, rest);
    assert(seq![trimmed(items[0])] + rest.map_values(cut) =~= items.map_values(cut));
}

/// An item of a numbered list: its number and its text.
pub open spec fn numbered_item(p: (Seq<char>, Seq<char>)) -> bool {
    p.0.len() > 0 && all_digits(p.0) && item_text(p.1)
}

proof fn numbers_go_on(acc: Seq<Seq<char>>, items: Seq<(Seq<char>, Seq<char>)>)
    requires
        forall|i: int| 0 <= i < items.len() ==> numbered_item(#[trigger] items[i]),
    ensures
        blocks_from(
            Seq::empty(),
            OpenView::Ordered(acc),
            stacked(items.map_values(|p: (Seq<char>, Seq<char>)| numbered(p.0, p.1))),
        ) == seq![
            BlockView::Ordered(acc + items.map_values(|p: (Seq<char>, Seq<char>)| trimmed(p.1))),
        ],
    decreases items.len(),
{
    let cut = |p: (Seq<char>, Seq<char>)| trimmed(p.1);
    let number = |p: (Seq<char>, Seq<char>)| numbered(p.0, p.1);
    let lines = items.map_values(number);
    if items.len() == 0 {
        assert(acc + items.map_values(cut) =~= acc);
        assert(closed(Seq::empty(), OpenView::Ordered(acc)) =~= seq![BlockView::Ordered(acc)]);
    } else {
        let rest = items.drop_first();
        assert(lines.drop_first() =~= rest.map_values(number));
        assert forall|i: int| 0 <= i < rest.len() implies numbered_item(#[trigger] rest[i]) by {
            assert(rest[i] == items[i + 1]);
        }
        assert(numbered_item(items[0]));
        reads_as_numbered(items[0].0, items[0].1);
        body_is_trimmed(lines[0]);
        reads_a_line(Seq::empty(), OpenView::Ordered(acc), lines[0], stacked(lines.drop_first()));
        numbers_go_on(acc.push(trimmed(items[0].1)), rest);
        assert(acc.push(trimmed(items[0].1)) + rest.map_values(cut) =~= acc + items.map_values(cut));
    }
}

/// Numbered lines are one numbered list, whatever the numbers.
pub proof fn a_numbered_list_keeps_its_items(items: Seq<(Seq<char>, Seq<char>)>)
    requires
        items.len() > 0,
        forall|i: int| 0 <= i < items.len() ==> numbered_item(#[trigger] items[i]),
    ensures
        blocks(stacked(items.map_values(|p: (Seq<char>, Seq<char>)| numbered(p.0, p.1)))) == seq![
            BlockView::Ordered(items.map_values(|p: (Seq<char>, Seq<char>)| trimmed(p.1))),
        ],
{
    let cut = |p: (Seq<char>, Seq<char>)| trimmed(p.1);
    let number = |p: (Seq<char>, Seq<char>)| numbered(p.0, p.1);
    let lines = items.map_values(number);
    let rest = items.drop_first();
    assert(lines.drop_first() =~= rest.map_values(number));
    assert forall|i: int| 0 <= i < rest.len() implies numbered_item(#[trigger] rest[i]) by {
        assert(rest[i] == items[i + 1]);
    }
    assert(numbered_item(items[0]));
    reads_as_numbered(items[0].0, items[0].1);
    body_is_trimmed(lines[0]);
    reads_a_line(Seq::empty(), OpenView::Nothing, lines[0], stacked(lines.drop_first()));
    numbers_go_on(seq![trimmed(items[0].1)], rest);
    assert(seq![trimmed(items[0].1)] + rest.map_values(cut) =~= items.map_values(cut));
}

/// Plain words indented under an item of a list go on with that item.
pub proof fn an_item_wraps(c: char, n: Seq<char>, t: Seq<char>, more: Seq<char>)
    requires
        c == '-' || c == '*',
        n.len() > 0,
        all_digits(n),
        item_text(t),
        one_line(more),
        wordy(more),
    ensures
        blocks(dashed(c, t).push('\n') + (seq![' ', ' '] + more)) == seq![
            BlockView::Bullets(seq![trimmed(t).push(' ') + trimmed(more)]),
        ],
        blocks(numbered(n, t).push('\n') + (seq![' ', ' '] + more)) == seq![
            BlockView::Ordered(seq![trimmed(t).push(' ') + trimmed(more)]),
        ],
{
    let under = seq![' ', ' '] + more;
    let none = Seq::<BlockView>::empty();
    let items = seq![trimmed(t)];
    reads_as_dashed(c, t);
    body_is_trimmed(dashed(c, t));
    reads_a_line(none, OpenView::Nothing, dashed(c, t), under);
    reads_as_numbered(n, t);
    body_is_trimmed(numbered(n, t));
    reads_a_line(none, OpenView::Nothing, numbered(n, t), under);
    assert forall|i: int| 0 <= i < under.len() implies under[i] != '\n' by {
        if i >= 2 {
            assert(under[i] == more[i - 2]);
            assert(more.contains(more[i - 2]));
        }
    }
    assert(white(' '));
    assert(under.drop_first() =~= seq![' '] + more);
    assert((seq![' '] + more).drop_first() =~= more);
    reveal_with_fuel(trim_front, 3);
    assert(trim_front(under) == trim_front(more));
    body_is_trimmed(under);
    unmarked_start(trimmed(under));
    assert(under.take(2) =~= seq![' ', ' ']);
    reads_the_last_line(none, OpenView::Bullets(items), under);
    reads_the_last_line(none, OpenView::Ordered(items), under);
    let grown = seq![trimmed(t).push(' ') + trimmed(more)];
    assert(wrapped(items, trimmed(more)) =~= grown);
    assert(closed(none, OpenView::Bullets(grown)) =~= seq![BlockView::Bullets(grown)]);
    assert(closed(none, OpenView::Ordered(grown)) =~= seq![BlockView::Ordered(grown)]);
}

/// The kinds of a line that stands in a block of its own kind.
pub enum LineKind {
    Words,
    Dashed,
    Numbered,
}

/// A line of a kind. Words stand at the edge: indented they might go on with an item.
pub open spec fn line_of(kind: LineKind, line: Seq<char>) -> bool {
    match kind {
        LineKind::Words => wordy(line) && !white(line[0]),
        LineKind::Dashed => line.len() > 2 && (line[0] == '-' || line[0] == '*') && line[1] == ' '
            && item_text(line.skip(2)),
        LineKind::Numbered => exists|n: int|
            1 <= n < line.len() && all_digits(#[trigger] line.take(n)) && line.skip(n).len() > 2
                && line.skip(n)[0] == '.' && line.skip(n)[1] == ' ' && item_text(line.skip(n + 2)),
    }
}

proof fn opens_its_kind(out: Seq<BlockView>, open: OpenView, kind: LineKind, line: Seq<char>)
    requires
        one_line(line),
        line_of(kind, line),
        !(open is Code),
    ensures
        ({
            let (out2, open2) = read_line(out, open, line);
            match kind {
                LineKind::Words => open2 is Para,
                LineKind::Dashed => open2 is Bullets,
                LineKind::Numbered => open2 is Ordered,
            }
        }),
        ({
            let fresh = match kind {
                LineKind::Words => !(open is Para),
                LineKind::Dashed => !(open is Bullets),
                LineKind::Numbered => !(open is Ordered),
            };
            fresh ==> read_line(out, open, line) == (
                closed(out, open),
                read_line(Seq::empty(), OpenView::Nothing, line).1,
            ) && read_line(Seq::empty(), OpenView::Nothing, line).0 == Seq::<BlockView>::empty()
        }),
{
    body_is_trimmed(line);
    match kind {
        LineKind::Words => {
            unmarked_start(trimmed(line));
            assert(line.len() > 0) by {
                front_split(line);
                if line.len() == 0 {
                    assert(trimmed(line).len() == 0);
                }
            }
            if starts(line, seq![' ', ' ']) {
                assert(line.take(2)[0] == ' ');
                assert(white(' '));
            }
        },
        LineKind::Dashed => {
            assert(line =~= dashed(line[0], line.skip(2)));
            reads_as_dashed(line[0], line.skip(2));
        },
        LineKind::Numbered => {
            let n = choose|n: int|
                1 <= n < line.len() && all_digits(#[trigger] line.take(n)) && line.skip(n).len() > 2
                    && line.skip(n)[0] == '.' && line.skip(n)[1] == ' ' && item_text(
                    line.skip(n + 2),
                );
            assert(line.skip(n)[0] == line[n] && line.skip(n)[1] == line[n + 1]);
            assert(line =~= numbered(line.take(n), line.skip(n + 2)));
            reads_as_numbered(line.take(n), line.skip(n + 2));
        },
    }
}

/// Where the kind of the lines changes a new block begins, blank line or not.
pub proof fn another_kind_begins_a_block(
    pre: Seq<Seq<char>>,
    a: LineKind,
    before: Seq<char>,
    b: LineKind,
    line: Seq<char>,
    rest: Seq<char>,
)
    requires
        one_liners(pre),
        no_fences(pre),
        one_line(before),
        one_line(line),
        line_of(a, before),
        line_of(b, line),
        a != b,
    ensures
        blocks(stacked(pre) + (before.push('\n') + (line.push('\n') + rest))) == blocks(
            stacked(pre) + before.push('\n'),
        ) + blocks(line.push('\n') + rest),
{
    let tail = line.push('\n') + rest;
    let none = Seq::<BlockView>::empty();
    reads_before(pre, before, tail);
    let (out2, open2) = after(pre, before);
    opens_its_kind(after_lines(none, OpenView::Nothing, pre).0, after_lines(
        none,
        OpenView::Nothing,
        pre,
    ).1, a, before);
    opens_its_kind(out2, open2, b, line);
    reads_a_line(out2, open2, line, rest);
    reads_a_line(none, OpenView::Nothing, line, rest);
    more_adds(closed(out2, open2), read_line(none, OpenView::Nothing, line).1, rest);
}

/// Where a reader stands after some lines.
spec fn after_lines(out: Seq<BlockView>, open: OpenView, lines: Seq<Seq<char>>) -> (
    Seq<BlockView>,
    OpenView,
)
    decreases lines.len(),
{
    if lines.len() == 0 {
        (out, open)
    } else {
        let (out2, open2) = read_line(out, open, lines[0]);
        after_lines(out2, open2, lines.drop_first())
    }
}

spec fn after(pre: Seq<Seq<char>>, line: Seq<char>) -> (Seq<BlockView>, OpenView) {
    let (out, open) = after_lines(Seq::empty(), OpenView::Nothing, pre);
    read_line(out, open, line)
}

proof fn reads_lines(out: Seq<BlockView>, open: OpenView, pre: Seq<Seq<char>>, rest: Seq<char>)
    requires
        one_liners(pre),
        no_fences(pre),
        !(open is Code),
    ensures
        ({
            let (out2, open2) = after_lines(out, open, pre);
            !(open2 is Code) && blocks_from(out, open, stacked(pre) + rest) == blocks_from(
                out2,
                open2,
                rest,
            )
        }),
    decreases pre.len(),
{
    if pre.len() == 0 {
        assert(stacked(pre) + rest =~= rest);
    } else {
        stack_first(pre, rest);
        fenceless_rest(pre);
        body_is_trimmed(pre[0]);
        reads_a_line(out, open, pre[0], stacked(pre.drop_first()) + rest);
        let (out2, open2) = read_line(out, open, pre[0]);
        reads_lines(out2, open2, pre.drop_first(), rest);
    }
}

proof fn reads_before(pre: Seq<Seq<char>>, line: Seq<char>, rest: Seq<char>)
    requires
        one_liners(pre),
        no_fences(pre),
        one_line(line),
    ensures
        !(after_lines(Seq::empty(), OpenView::Nothing, pre).1 is Code),
        ({
            let (out, open) = after(pre, line);
            &&& blocks(stacked(pre) + (line.push('\n') + rest)) == blocks_from(out, open, rest)
            &&& blocks(stacked(pre) + line.push('\n')) == closed(out, open)
        }),
{
    let (out, open) = after_lines(Seq::empty(), OpenView::Nothing, pre);
    reads_lines(Seq::empty(), OpenView::Nothing, pre, line.push('\n') + rest);
    reads_a_line(out, open, line, rest);
    reads_lines(Seq::empty(), OpenView::Nothing, pre, line.push('\n'));
    reads_a_line(out, open, line, Seq::empty());
    assert(line.push('\n') + Seq::<char>::empty() =~= line.push('\n'));
}

// ---- Runs in a line ------------------------------------------------------

/// No two stars stand side by side, nor one at the end.
pub open spec fn starless(s: Seq<char>) -> bool {
    &&& forall|i: int| 0 <= i < s.len() - 1 ==> !(#[trigger] s[i] == '*' && s[i + 1] == '*')
    &&& s.len() > 0 ==> s.last() != '*'
}

proof fn tick_found(a: Seq<char>, rest: Seq<char>)
    requires
        !a.contains('`'),
    ensures
        find(a + seq!['`'] + rest, mark(true)) == Some(a.len() as int),
{
    let s = a + seq!['`'] + rest;
    let n = a.len() as int;
    let m = mark(true);
    assert(m.len() == 1 && m[0] == '`');
    assert(s.subrange(n, n + m.len()) =~= m);
    find_is_first(s, m);
    let i = find(s, m)->0;
    assert(find(s, m) is Some && i <= n);
    assert(s.subrange(i, i + m.len())[0] == s[i]);
    if i < n {
        assert(s[i] == a[i]);
        assert(a.contains(a[i]));
    }
}

proof fn stars_found(a: Seq<char>, rest: Seq<char>)
    requires
        starless(a),
    ensures
        find(a + seq!['*', '*'] + rest, mark(false)) == Some(a.len() as int),
{
    let s = a + seq!['*', '*'] + rest;
    let n = a.len() as int;
    let m = mark(false);
    assert(m.len() == 2 && m[0] == '*' && m[1] == '*');
    assert(s.subrange(n, n + m.len()) =~= m);
    find_is_first(s, m);
    let i = find(s, m)->0;
    assert(find(s, m) is Some && i <= n);
    let two = s.subrange(i, i + m.len());
    assert(two[0] == s[i] && two[1] == s[i + 1]);
    if i < n - 1 {
        assert(s[i] == a[i] && s[i + 1] == a[i + 1]);
    } else if i < n {
        assert(s[i] == a.last());
    }
}

proof fn later(s: Seq<char>, needle: Seq<char>, n: int)
    requires
        0 <= n,
        needle.len() > 0,
        forall|i: int|
            0 <= i < n && i + needle.len() <= s.len() ==> #[trigger] s.subrange(
                i,
                i + needle.len(),
            ) != needle,
    ensures
        find(s, needle) matches Some(i) ==> i >= n,
{
    find_is_first(s, needle);
}

/// A text between two backticks is code, whole and unchanged; before and behind it the
/// line is read as ever.
pub proof fn ticks_make_code(a: Seq<char>, t: Seq<char>, rest: Seq<char>)
    requires
        !a.contains('`'),
        starless(a),
        !t.contains('`'),
    ensures
        crate::markdown::inline(a + seq!['`'] + (t + seq!['`'] + rest)) == plain_runs(Seq::empty(), a) + seq![
            InlineView::Code(t),
        ] + crate::markdown::inline(rest),
{
    let behind = t + seq!['`'] + rest;
    let s = a + seq!['`'] + behind;
    let n = a.len() as int;
    tick_found(a, behind);
    tick_found(t, rest);
    assert forall|i: int| 0 <= i < n + 1 && i + 2 <= s.len() implies #[trigger] s.subrange(i, i + 2)
        != mark(false) by {
        let two = s.subrange(i, i + 2);
        assert(two[0] == s[i] && two[1] == s[i + 1]);
        if i < n - 1 {
            assert(s[i] == a[i] && s[i + 1] == a[i + 1]);
        }
    }
    later(s, mark(false), n + 1);
    assert(next_mark(s) == Some((n, true)));
    assert(s.skip(n + 1) =~= behind);
    assert(s.take(n) =~= a);
    assert(Seq::<char>::empty() + a =~= a);
    assert(behind.take(t.len() as int) =~= t);
    assert(behind.skip(t.len() as int + 1) =~= rest);
}

/// A text between two pairs of stars is strong, whole and unchanged.
pub proof fn stars_make_strong(a: Seq<char>, t: Seq<char>, rest: Seq<char>)
    requires
        !a.contains('`'),
        starless(a),
        starless(t),
    ensures
        crate::markdown::inline(a + seq!['*', '*'] + (t + seq!['*', '*'] + rest)) == plain_runs(Seq::empty(), a)
            + seq![InlineView::Strong(t)] + crate::markdown::inline(rest),
{
    let behind = t + seq!['*', '*'] + rest;
    let s = a + seq!['*', '*'] + behind;
    let n = a.len() as int;
    stars_found(a, behind);
    stars_found(t, rest);
    assert forall|i: int| 0 <= i < n + 2 && i + 1 <= s.len() implies #[trigger] s.subrange(i, i + 1)
        != mark(true) by {
        assert(s.subrange(i, i + 1)[0] == s[i]);
        if i < n {
            assert(s[i] == a[i]);
            assert(a.contains(a[i]));
        }
    }
    later(s, mark(true), n + 2);
    assert(next_mark(s) == Some((n, false)));
    assert(s.skip(n + 2) =~= behind);
    assert(s.take(n) =~= a);
    assert(Seq::<char>::empty() + a =~= a);
    assert(behind.take(t.len() as int) =~= t);
    assert(behind.skip(t.len() as int + 2) =~= rest);
}

/// A line without marks is read for its paths alone.
pub proof fn an_unmarked_line_is_plain(s: Seq<char>)
    requires
        !s.contains('`'),
        starless(s),
    ensures
        crate::markdown::inline(s) == plain_runs(Seq::empty(), s),
{
    find_is_first(s, mark(true));
    find_is_first(s, mark(false));
    if let Some(i) = find(s, mark(true)) {
        assert(s.subrange(i, i + 1)[0] == '`');
        assert(s[i] == '`');
    }
    if let Some(i) = find(s, mark(false)) {
        assert(s.subrange(i, i + 2)[0] == '*' && s.subrange(i, i + 2)[1] == '*');
        assert(s[i] == '*' && s[i + 1] == '*');
    }
    assert(Seq::<char>::empty() + s =~= s);
}

// ---- Paths ---------------------------------------------------------------

/// Words a path is made of: letters, digits, dots, dashes, underscores and slashes.
pub open spec fn path_text(s: Seq<char>) -> bool {
    forall|i: int|
        0 <= i < s.len() ==> (alphanumeric(#[trigger] s[i]) || s[i] == '.' || s[i] == '_' || s[i]
            == '-' || s[i] == '/')
}

pub open spec fn letters(s: Seq<char>) -> bool {
    forall|i: int| 0 <= i < s.len() ==> alphanumeric(#[trigger] s[i])
}

proof fn last_is_at(a: Seq<char>, c: char, b: Seq<char>)
    requires
        !b.contains(c),
    ensures
        find_last(a + seq![c] + b, c) == Some(a.len() as int),
{
    let s = a + seq![c] + b;
    let n = a.len() as int;
    find_last_is_last(s, c);
    assert(s[n] == c);
    if let Some(i) = find_last(s, c) {
        if i > n {
            assert(s[i] == b[i - n - 1]);
            assert(b.contains(b[i - n - 1]));
        }
    }
}

/// A number of a line behind a path is split off it; a text without a colon has none.
pub proof fn a_line_number_splits_off(path: Seq<char>, n: Seq<char>)
    requires
        n.len() > 0,
        all_digits(n),
    ensures
        line_suffix(path + seq![':'] + n) == (path, true),
        !path.contains(':') ==> line_suffix(path) == (path, false),
{
    let s = path + seq![':'] + n;
    assert forall|i: int| 0 <= i < n.len() implies n[i] != ':' by {
        assert(digit(n[i]));
    }
    last_is_at(path, ':', n);
    let k = path.len() as int;
    assert(s.skip(k + 1) =~= n);
    assert(s.take(k) =~= path);
    find_last_is_last(path, ':');
}

/// A folder, a slash, a name and a short extension make a path, with or without the
/// number of a line; a bare file name makes one only with such a number.
pub proof fn paths_are_recognised(dir: Seq<char>, name: Seq<char>, ext: Seq<char>, n: Seq<char>)
    requires
        dir.len() > 0,
        name.len() > 0,
        path_text(dir),
        path_text(name),
        1 <= ext.len() <= 6,
        letters(ext),
        n.len() > 0,
        all_digits(n),
    ensures
        path_ref(dir + seq!['/'] + name + seq!['.'] + ext),
        path_ref(dir + seq!['/'] + name + seq!['.'] + ext + seq![':'] + n),
        name.len() + ext.len() >= 3 && !name.contains('/') ==> path_ref(
            name + seq!['.'] + ext + seq![':'] + n,
        ) && !path_ref(name + seq!['.'] + ext),
{
    let front = dir + seq!['/'] + name;
    named_path(front, ext, n);
    assert forall|i: int| 0 <= i < front.len() implies (alphanumeric(#[trigger] front[i])
        || front[i] == '.' || front[i] == '_' || front[i] == '-' || front[i] == '/') by {
        if i < dir.len() {
            assert(front[i] == dir[i]);
        } else if i > dir.len() {
            assert(front[i] == name[i - dir.len() - 1]);
        }
    }
    let path = front + seq!['.'] + ext;
    assert(path[dir.len() as int] == '/');
    assert(path.contains('/'));
    named_path(name, ext, n);
    if !name.contains('/') {
        let bare = name + seq!['.'] + ext;
        assert forall|i: int| 0 <= i < bare.len() implies bare[i] != '/' by {
            if i < name.len() {
                assert(bare[i] == name[i]);
                assert(name.contains(name[i]));
            } else if i > name.len() {
                assert(alphanumeric(ext[i - name.len() - 1]));
            }
        }
        assert(!bare.contains('/'));
    }
}

proof fn named_path(front: Seq<char>, ext: Seq<char>, n: Seq<char>)
    requires
        front.len() > 0,
        path_text(front),
        1 <= ext.len() <= 6,
        letters(ext),
        n.len() > 0,
        all_digits(n),
    ensures
        ({
            let path = front + seq!['.'] + ext;
            &&& path_ref(path) <==> path.len() >= 4 && path.contains('/')
            &&& path_ref(path + seq![':'] + n) <==> path.len() >= 4
        }),
{
    let path = front + seq!['.'] + ext;
    let k = front.len() as int;
    assert forall|i: int| 0 <= i < path.len() implies path_char(#[trigger] path[i]) && path[i]
        != ':' by {
        if i < k {
            assert(path[i] == front[i]);
        } else if i > k {
            assert(path[i] == ext[i - k - 1]);
            assert(alphanumeric(ext[i - k - 1]));
        }
    }
    assert(!path.contains(':'));
    a_line_number_splits_off(path, n);
    assert forall|i: int| 0 <= i < ext.len() implies ext[i] != '.' by {
        assert(alphanumeric(ext[i]));
    }
    last_is_at(front, '.', ext);
    assert(path.last() == ext[ext.len() - 1]);
    assert(alphanumeric(ext[ext.len() - 1]));
    assert forall|i: int| k < i < path.len() implies alphanumeric(#[trigger] path[i]) by {
        assert(path[i] == ext[i - k - 1]);
    }
}

/// What has no dot, no short extension behind it or a strange character in it is no
/// path.
pub proof fn other_words_are_no_paths(word: Seq<char>)
    requires
        !word.contains(':'),
    ensures
        path_ref(word) ==> word.contains('.') && word.contains('/') && word.len() >= 4 && path_text(
            word,
        ),
        forall|a: Seq<char>, ext: Seq<char>|
            word == #[trigger] (a + seq!['.'] + ext) && letters(ext) && ext.len() > 6
                ==> !path_ref(word),
{
    find_last_is_last(word, ':');
    find_last_is_last(word, '.');
    assert forall|a: Seq<char>, ext: Seq<char>|
        word == #[trigger] (a + seq!['.'] + ext) && letters(ext) && ext.len() > 6 implies !path_ref(
        word,
    ) by {
        assert forall|i: int| 0 <= i < ext.len() implies ext[i] != '.' by {
            assert(alphanumeric(ext[i]));
        }
        last_is_at(a, '.', ext);
    }
    if path_ref(word) {
        let i = find_last(word, '.')->0;
        assert(word[i] == '.');
        assert forall|j: int| 0 <= j < word.len() implies (alphanumeric(#[trigger] word[j])
            || word[j] == '.' || word[j] == '_' || word[j] == '-' || word[j] == '/') by {
            assert(path_char(word[j]));
        }
    }
}

/// The characters of a path reference: those of a path, and the colon of its line.
proof fn path_ref_chars(p: Seq<char>)
    requires
        path_ref(p),
    ensures
        p.len() >= 4,
        forall|i: int| 0 <= i < p.len() ==> (path_char(#[trigger] p[i]) || p[i] == ':'),
        alphanumeric(p.last()),
        path_char(p[0]),
{
    find_last_is_last(p, ':');
    let (path, line) = line_suffix(p);
    find_last_is_last(path, '.');
    assert forall|i: int| 0 <= i < p.len() implies (path_char(#[trigger] p[i]) || p[i] == ':') by {
        if i < path.len() {
            assert(path[i] == p[i]);
            assert(path_char(path[i]));
        } else if line {
            let k = find_last(p, ':')->0;
            if i > k {
                assert(p.skip(k + 1)[i - k - 1] == p[i]);
                assert(digit(p[i]));
            }
        }
    }
    if line {
        let k = find_last(p, ':')->0;
        let d = p.skip(k + 1);
        assert(d[d.len() - 1] == p.last());
        assert(digit(d[d.len() - 1]));
    } else {
        assert(path[path.len() - 1] == p.last());
        assert(alphanumeric(path[path.len() - 1]));
    }
    assert(path[0] == p[0]);
    assert(path_char(path[0]));
}

proof fn word_is_whole(s: Seq<char>)
    requires
        forall|i: int| 0 <= i < s.len() ==> !white(#[trigger] s[i]),
    ensures
        word_len(s) == s.len(),
        trim_back(s) == s,
    decreases s.len(),
{
    if s.len() > 0 {
        assert(!white(s[0]));
        assert(!white(s[s.len() - 1]));
        assert forall|i: int| 0 <= i < s.drop_first().len() implies !white(
            #[trigger] s.drop_first()[i],
        ) by {
            assert(s.drop_first()[i] == s[i + 1]);
        }
        word_is_whole(s.drop_first());
    }
}

proof fn opened(o: Seq<char>, t: Seq<char>)
    requires
        forall|i: int| 0 <= i < o.len() ==> opening(#[trigger] o[i]),
        t.len() > 0 ==> !opening(t[0]),
    ensures
        lead(o + t) == o.len(),
    decreases o.len(),
{
    if o.len() == 0 {
        assert(o + t =~= t);
    } else {
        assert((o + t)[0] == o[0]);
        assert((o + t).drop_first() =~= o.drop_first() + t);
        assert forall|i: int| 0 <= i < o.drop_first().len() implies opening(
            #[trigger] o.drop_first()[i],
        ) by {
            assert(o.drop_first()[i] == o[i + 1]);
        }
        opened(o.drop_first(), t);
    }
}

proof fn closed_off(t: Seq<char>, c: Seq<char>)
    requires
        forall|i: int| 0 <= i < c.len() ==> closing(#[trigger] c[i]),
        t.len() > 0 ==> !closing(t.last()),
    ensures
        unclosed(t + c) == t,
    decreases c.len(),
{
    if c.len() == 0 {
        assert(t + c =~= t);
    } else {
        assert((t + c).last() == c[c.len() - 1]);
        assert((t + c).drop_last() =~= t + c.drop_last());
        assert forall|i: int| 0 <= i < c.drop_last().len() implies closing(
            #[trigger] c.drop_last()[i],
        ) by {
            assert(c.drop_last()[i] == c[i]);
        }
        closed_off(t, c.drop_last());
    }
}

/// A path stands as a path, without the brackets before it and the punctuation behind
/// it, which stay text.
pub proof fn a_path_stands_out(o: Seq<char>, p: Seq<char>, c: Seq<char>)
    requires
        path_ref(p),
        forall|i: int| 0 <= i < o.len() ==> (#[trigger] o[i] == '(' || o[i] == '['),
        forall|i: int|
            0 <= i < c.len() ==> (#[trigger] c[i] == ',' || c[i] == '.' || c[i] == ')' || c[i]
                == ']' || c[i] == ';' || c[i] == ':'),
    ensures
        crate::markdown::inline(o + p + c) == text_run(o) + seq![InlineView::Path(p)] + text_run(c),
        crate::markdown::inline(p) == seq![InlineView::Path(p)],
{
    standing_out(o, p, c);
    let e = Seq::<char>::empty();
    standing_out(e, p, e);
    assert(e + p + e =~= p);
    assert(text_run(e) + seq![InlineView::Path(p)] + text_run(e) =~= seq![InlineView::Path(p)]);
}

/// The characters of a path among brackets and punctuation: no white space and no mark.
proof fn standing_chars(o: Seq<char>, p: Seq<char>, c: Seq<char>)
    requires
        path_ref(p),
        forall|i: int| 0 <= i < o.len() ==> (#[trigger] o[i] == '(' || o[i] == '['),
        forall|i: int|
            0 <= i < c.len() ==> (#[trigger] c[i] == ',' || c[i] == '.' || c[i] == ')' || c[i]
                == ']' || c[i] == ';' || c[i] == ':'),
    ensures
        forall|i: int|
            0 <= i < (o + p + c).len() ==> !white(#[trigger] (o + p + c)[i]) && (o + p + c)[i]
                != '`' && (o + p + c)[i] != '*',
{
    let s = o + p + c;
    path_ref_chars(p);
    assert forall|i: int| 0 <= i < s.len() implies !white(#[trigger] s[i]) && s[i] != '`' && s[i]
        != '*' by {
        if i < o.len() {
            assert(s[i] == o[i]);
        } else if i < o.len() + p.len() {
            assert(s[i] == p[i - o.len()]);
        } else {
            assert(s[i] == c[i - o.len() - p.len()]);
        }
    }
}

/// The path is what is left of the word once its brackets and punctuation are off.
proof fn standing_inner(o: Seq<char>, p: Seq<char>, c: Seq<char>)
    requires
        path_ref(p),
        forall|i: int| 0 <= i < o.len() ==> (#[trigger] o[i] == '(' || o[i] == '['),
        forall|i: int|
            0 <= i < c.len() ==> (#[trigger] c[i] == ',' || c[i] == '.' || c[i] == ')' || c[i]
                == ']' || c[i] == ';' || c[i] == ':'),
    ensures
        word_len(o + p + c) == (o + p + c).len(),
        trim_back(o + p + c) == o + p + c,
        lead(o + p + c) == o.len(),
        inner(o + p + c) == p,
{
    let s = o + p + c;
    path_ref_chars(p);
    standing_chars(o, p, c);
    word_is_whole(s);
    assert(s =~= o + (p + c));
    assert((p + c)[0] == p[0]);
    opened(o, p + c);
    assert(s.skip(o.len() as int) =~= p + c);
    closed_off(p, c);
}

#[verifier::rlimit(40)]
proof fn standing_out(o: Seq<char>, p: Seq<char>, c: Seq<char>)
    requires
        path_ref(p),
        forall|i: int| 0 <= i < o.len() ==> (#[trigger] o[i] == '(' || o[i] == '['),
        forall|i: int|
            0 <= i < c.len() ==> (#[trigger] c[i] == ',' || c[i] == '.' || c[i] == ')' || c[i]
                == ']' || c[i] == ';' || c[i] == ':'),
    ensures
        crate::markdown::inline(o + p + c) == text_run(o) + seq![InlineView::Path(p)] + text_run(c),
{
    let s = o + p + c;
    let k = o.len() as int;
    let n = s.len() as int;
    assert(p.len() > 0) by {
        path_ref_chars(p);
    }
    assert(!s.contains('`') && starless(s)) by {
        standing_chars(o, p, c);
    }
    an_unmarked_line_is_plain(s);
    standing_inner(o, p, c);
    assert(s.take(n) =~= s);
    assert(s.skip(n) =~= Seq::empty());
    assert(s.take(k) =~= o);
    assert(Seq::<char>::empty() + o =~= o);
    assert(s.skip(k + p.len()) =~= c);
    assert(plain_runs(c, Seq::empty()) == text_run(c));
}

/// A claimed path names the file itself, the file with folders before it, and the file
/// with folders before the claim; the number of a line in the claim changes nothing. A
/// longer name that only ends the same, with no slash between, is another file.
pub proof fn a_claim_names_its_file(claim: Seq<char>, dir: Seq<char>, actual: Seq<char>)
    requires
        claim.len() > 0,
        actual.len() > 0,
    ensures
        ({
            let path = claimed_path(claim);
            &&& path.len() > 0 ==> names(claim, path)
            &&& path.len() > 0 ==> names(claim, dir + seq!['/'] + path)
            &&& path == dir + seq!['/'] + actual ==> names(claim, actual)
            &&& dir.len() > 0 && path.len() > 0 && names(claim, dir + path) ==> dir.last() == '/'
            &&& names(claim, actual) ==> ends(actual, path) || ends(path, actual)
            &&& path.len() == 0 ==> !names(claim, actual)
        }),
{
    let path = claimed_path(claim);
    let slashed = seq!['/'] + path;
    assert(dir + seq!['/'] + path =~= dir + slashed);
    crate::text::parts_are_found(dir, slashed, Seq::empty());
    let under = seq!['/'] + actual;
    assert(dir + seq!['/'] + actual =~= dir + under);
    crate::text::parts_are_found(dir, under, Seq::empty());
    if dir.len() > 0 && path.len() > 0 && names(claim, dir + path) {
        let whole = dir + path;
        assert(whole.skip(whole.len() - slashed.len())[0] == dir.last());
        assert(slashed[0] == '/');
    }
    if names(claim, actual) {
        if ends(actual, slashed) {
            let i = actual.len() - slashed.len();
            assert(actual.skip(i) == slashed);
            assert(actual.skip(i + 1) =~= actual.skip(i).skip(1));
            assert(slashed.skip(1) =~= path);
        }
        if ends(path, under) {
            let i = path.len() - under.len();
            assert(path.skip(i) == under);
            assert(path.skip(i + 1) =~= path.skip(i).skip(1));
            assert(under.skip(1) =~= actual);
        }
        if path == actual {
            assert(actual.skip(0) =~= actual);
        }
    }
}

/// White space around a claim, the dots before it and the number of a line behind it
/// are no part of the path it claims.
pub proof fn a_claim_is_read_bare(a: Seq<char>, path: Seq<char>, n: Seq<char>, b: Seq<char>)
    requires
        blank(a),
        blank(b),
        path.len() > 0,
        path[0] != '.',
        !white(path[0]),
        !white(path.last()),
        !path.contains(':'),
        n.len() > 0,
        all_digits(n),
    ensures
        claimed_path(a + path + b) == path,
        claimed_path(a + (path + seq![':'] + n) + b) == path,
        claimed_path(a + (seq!['.', '/'] + path) + b) == path,
{
    let lined = path + seq![':'] + n;
    let dotted = seq!['.', '/'] + path;
    assert(lined.last() == n[n.len() - 1]);
    assert(digit(n[n.len() - 1]));
    assert(lined[0] == path[0]);
    crate::text::trimming_leaves_the_text(a, path, b);
    crate::text::trimming_leaves_the_text(a, lined, b);
    assert(dotted.last() == path.last());
    crate::text::trimming_leaves_the_text(a, dotted, b);
    assert(!starts(path, seq!['.', '/'])) by {
        assert(path.len() >= 2 ==> path.take(2)[0] == path[0]);
        assert(seq!['.', '/'][0] == '.');
    }
    assert(!starts(lined, seq!['.', '/'])) by {
        assert(lined.len() >= 2 ==> lined.take(2)[0] == lined[0]);
        assert(seq!['.', '/'][0] == '.');
    }
    assert(dotted.take(2) =~= seq!['.', '/']);
    assert(dotted.skip(2) =~= path);
    reveal_with_fuel(undotted, 2);
    a_line_number_splits_off(path, n);
}

// ---- What is handed out --------------------------------------------------

/// A block and a run read as what they are, each with its own text.
pub proof fn blocks_and_runs_read_as_themselves(b: MdBlock, r: MdInline)
    ensures
        b matches MdBlock::Code(t) ==> b@ == BlockView::Code(t@),
        b matches MdBlock::Heading(k, t) ==> b@ == BlockView::Heading(k as int, t@),
        b matches MdBlock::Para(l) ==> (b@ matches BlockView::Para(v) && v.len() == l@.len()),
        b matches MdBlock::Bullets(l) ==> (b@ matches BlockView::Bullets(v) && v.len() == l@.len()),
        b matches MdBlock::Ordered(l) ==> (b@ matches BlockView::Ordered(v) && v.len() == l@.len()),
        r matches MdInline::Text(t) ==> r@ == InlineView::Text(t@),
        r matches MdInline::Code(t) ==> r@ == InlineView::Code(t@),
        r matches MdInline::Strong(t) ==> r@ == InlineView::Strong(t@),
        r matches MdInline::Path(t) ==> r@ == InlineView::Path(t@),
{
}

/// Reading a fenced text hands out one block of code, with the lines between the fences.
pub proof fn a_fenced_text_is_one_block(
    text: &str,
    opens: Seq<char>,
    lines: Seq<Seq<char>>,
    closes: Seq<char>,
    r: Vec<MdBlock>,
)
    requires
        call_ensures(md_blocks, (text,), r),
        text@ == opens.push('\n') + (stacked(lines) + closes),
        one_line(opens),
        one_liners(lines),
        one_line(closes),
        fence_line(opens),
        no_fences(lines),
        fence_line(closes),
    ensures
        r@.len() == 1,
        r@[0] matches MdBlock::Code(code) && code@ == join(
            lines.map_values(|l: Seq<char>| trim_back(l)),
            seq!['\n'],
        ),
{
    code_keeps_its_lines(opens, lines, closes);
    let kept = join(lines.map_values(|l: Seq<char>| trim_back(l)), seq!['\n']);
    let v = blocks_view(r@);
    assert(v == seq![BlockView::Code(kept)]);
    assert(v.len() == 1);
    assert(v[0] == r@[0]@);
}

} // verus!
