//! The keystroke-drop harness: what it types, and how it judges what survived.

use vstd::prelude::*;

use crate::lists::{count, count_where};
use crate::markdown::texts;
use crate::search::contains_text;
use crate::state::{demo_mode, switched_on};
use crate::text::{
    cat2, cat5, chars_of, decimal, decimal_reads_back, digit, find, find_is_first, find_slice,
    numbers_read_back, parse_number, parsed, same_text, separators_part_the_text, split_parts,
    starts, string_of, text_parts, within,
};

verus! {

/// What the probe types.
pub const SENTINEL: &'static str =
    "the-quick-brown-fox-jumps-over-the-lazy-dog-0123456789-abcdefghijklmnopqrstuvwxy";

/// The element the probe types into.
pub const CHAT_INPUT_ID: &'static str = "chat-input";

/// The sentinel is eighty characters of which no two neighbours are the same,
/// so that what survives can be told apart.
pub proof fn sentinel_is_unambiguous()
    ensures
        SENTINEL@.len() == 80,
        forall|i: int| 0 <= i < 79 ==> #[trigger] SENTINEL@[i] != SENTINEL@[i + 1],
{
    reveal_strlit(
        "the-quick-brown-fox-jumps-over-the-lazy-dog-0123456789-abcdefghijklmnopqrstuvwxy",
    );
}

// ---- Switches ------------------------------------------------------------

/// A switch, by the value of its variable.
pub fn flag(value: Option<&str>) -> (r: bool)
    ensures
        r == (value matches Some(v) && switched_on(v@)),
{
    demo_mode(value)
}

/// Whether the chat box keeps what is typed in it by itself; a switch brings the
/// other rendering back.
pub fn fix_a(off: Option<&str>) -> (r: bool)
    ensures
        r == !(off matches Some(v) && switched_on(v@)),
{
    !flag(off)
}

/// A number, by the value of its variable, or its default.
pub open spec fn number_or(value: Option<Seq<char>>, default: u64) -> nat {
    match value {
        Some(v) => match parsed(v, u64::MAX as nat) {
            Some(n) => n,
            None => default as nat,
        },
        None => default as nat,
    }
}

pub fn num(value: Option<&str>, default: u64) -> (r: u64)
    ensures
        r == number_or(
            match value {
                Some(v) => Some(v@),
                None => None,
            },
            default,
        ),
{
    match value {
        Some(v) => {
            let cs = chars_of(v);
            match parse_number(cs.as_slice(), u64::MAX) {
                Some(n) => n,
                None => default,
            }
        },
        None => default,
    }
}

/// How many transcript lines are drawn; none means all of them.
pub fn transcript_cap(unbounded: Option<&str>, cap: Option<&str>) -> (r: u64)
    ensures
        r == (if unbounded matches Some(v) && switched_on(v@) {
            0
        } else {
            number_or(
                match cap {
                    Some(v) => Some(v@),
                    None => None,
                },
                500,
            )
        }),
{
    if flag(unbounded) {
        0
    } else {
        num(cap, 500)
    }
}

/// How long the sentinel takes to type with `gap` milliseconds between its
/// characters.
pub fn typed_span(gap: u64) -> (r: u64)
    requires
        gap * 79 <= u64::MAX,
    ensures
        r == gap * (SENTINEL@.len() - 1),
{
    proof {
        sentinel_is_unambiguous();
    }
    gap * 79
}

/// What the flood touches in one tick beside the transcript: the sibling cards
/// every second tick, the card under test every eighth, unless the checks drive
/// it themselves.
pub fn churn(tick: u64, siblings: usize, checks_under_load: bool) -> (r: (bool, bool))
    ensures
        r.0 == (siblings > 0 && tick % 2 == 0),
        r.1 == (siblings > 0 && !checks_under_load && tick % 8 == 0),
{
    (
        siblings > 0 && tick % 2 == 0,
        siblings > 0 && !checks_under_load && tick % 8 == 0,
    )
}

// ---- Judging a trial -----------------------------------------------------

/// `needle` is left of `haystack` once some of its characters are taken out.
pub open spec fn subsequence(needle: Seq<char>, haystack: Seq<char>) -> bool
    decreases haystack.len(),
{
    if needle.len() == 0 {
        true
    } else if haystack.len() == 0 {
        false
    } else if needle[0] == haystack[0] {
        subsequence(needle.drop_first(), haystack.drop_first())
    } else {
        subsequence(needle, haystack.drop_first())
    }
}

/// Whether what survived is still in order: a rewind leaves a subsequence, and
/// anything else means that the probe itself misbehaves.
pub fn is_subsequence(needle: &str, haystack: &str) -> (r: bool)
    ensures
        r == subsequence(needle@, haystack@),
{
    let n = chars_of(needle);
    let h = chars_of(haystack);
    let mut i: usize = 0;
    let mut j: usize = 0;
    assert(n@.skip(0) =~= n@);
    assert(h@.skip(0) =~= h@);
    while i < n.len() && j < h.len()
        invariant
            i <= n.len(),
            j <= h.len(),
            subsequence(needle@, haystack@) == subsequence(n@.skip(i as int), h@.skip(j as int)),
        decreases h.len() - j,
    {
        proof {
            assert(n@.skip(i as int).drop_first() =~= n@.skip(i + 1));
            assert(h@.skip(j as int).drop_first() =~= h@.skip(j + 1));
        }
        if n[i] == h[j] {
            i += 1;
        }
        j += 1;
    }
    i == n.len()
}

/// Places in a text, in ascending order, where the characters of another stand.
pub open spec fn embeds(needle: Seq<char>, haystack: Seq<char>, at: Seq<int>) -> bool {
    &&& at.len() == needle.len()
    &&& forall|k: int| 0 <= k < at.len() ==> 0 <= #[trigger] at[k] < haystack.len()
    &&& forall|k: int| 0 <= k < at.len() ==> haystack[#[trigger] at[k]] == needle[k]
    &&& forall|k: int, l: int| 0 <= k < l < at.len() ==> #[trigger] at[k] < #[trigger] at[l]
}

/// What survived is a subsequence exactly if its characters stand in the
/// original in the same order.
pub proof fn subsequence_is_in_order(needle: Seq<char>, haystack: Seq<char>)
    ensures
        subsequence(needle, haystack) <==> exists|at: Seq<int>| embeds(needle, haystack, at),
{
    if subsequence(needle, haystack) {
        let at = places(needle, haystack);
        assert(embeds(needle, haystack, at));
    }
    if exists|at: Seq<int>| embeds(needle, haystack, at) {
        let at = choose|at: Seq<int>| embeds(needle, haystack, at);
        embedded_is_subsequence(needle, haystack, at);
    }
}

proof fn places(needle: Seq<char>, haystack: Seq<char>) -> (at: Seq<int>)
    requires
        subsequence(needle, haystack),
    ensures
        embeds(needle, haystack, at),
    decreases haystack.len(),
{
    if needle.len() == 0 {
        Seq::empty()
    } else {
        let rest = haystack.drop_first();
        if needle[0] == haystack[0] {
            let inner = places(needle.drop_first(), rest);
            let at = Seq::new(
                needle.len(),
                |k: int|
                    if k == 0 {
                        0
                    } else {
                        inner[k - 1] + 1
                    },
            );
            assert forall|k: int| 0 <= k < at.len() implies 0 <= #[trigger] at[k] < haystack.len()
                && haystack[at[k]] == needle[k] by {
                if k > 0 {
                    assert(rest[inner[k - 1]] == needle.drop_first()[k - 1]);
                }
            }
            assert forall|k: int, l: int| 0 <= k < l < at.len() implies #[trigger] at[k]
                < #[trigger] at[l] by {
                assert(0 <= inner[l - 1]);
                if k > 0 {
                    assert(inner[k - 1] < inner[l - 1]);
                }
            }
            at
        } else {
            let inner = places(needle, rest);
            let at = inner.map_values(|i: int| i + 1);
            assert forall|k: int| 0 <= k < at.len() implies 0 <= #[trigger] at[k] < haystack.len()
                && haystack[at[k]] == needle[k] by {
                assert(rest[inner[k]] == needle[k]);
            }
            assert forall|k: int, l: int| 0 <= k < l < at.len() implies #[trigger] at[k]
                < #[trigger] at[l] by {
                assert(inner[k] < inner[l]);
            }
            at
        }
    }
}

proof fn embedded_is_subsequence(needle: Seq<char>, haystack: Seq<char>, at: Seq<int>)
    requires
        embeds(needle, haystack, at),
    ensures
        subsequence(needle, haystack),
    decreases haystack.len(),
{
    if needle.len() > 0 {
        assert(0 <= at[0] < haystack.len());
        let rest = haystack.drop_first();
        if needle[0] == haystack[0] {
            let tail = needle.drop_first();
            let inner = Seq::new(tail.len(), |k: int| at[k + 1] - 1);
            assert forall|k: int| 0 <= k < inner.len() implies 0 <= #[trigger] inner[k]
                < rest.len() && rest[inner[k]] == tail[k] by {
                assert(at[0] < at[k + 1]);
                assert(haystack[at[k + 1]] == needle[k + 1]);
            }
            assert forall|k: int, l: int| 0 <= k < l < inner.len() implies #[trigger] inner[k]
                < #[trigger] inner[l] by {
                assert(at[k + 1] < at[l + 1]);
            }
            embedded_is_subsequence(tail, rest, inner);
        } else {
            assert(haystack[at[0]] == needle[0]);
            let inner = at.map_values(|i: int| i - 1);
            assert forall|k: int| 0 <= k < inner.len() implies 0 <= #[trigger] inner[k]
                < rest.len() && rest[inner[k]] == needle[k] by {
                if k > 0 {
                    assert(at[0] < at[k]);
                }
                assert(haystack[at[k]] == needle[k]);
            }
            assert forall|k: int, l: int| 0 <= k < l < inner.len() implies #[trigger] inner[k]
                < #[trigger] inner[l] by {
                assert(at[k] < at[l]);
            }
            embedded_is_subsequence(needle, rest, inner);
        }
    }
}

/// What one trial came to.
#[derive(Debug, Clone, PartialEq, Eq)]
pub struct Trial {
    pub typed: usize,
    /// How long the typing took.
    pub typing_ms: u64,
    /// What the field still showed at the end.
    pub dom: String,
    pub dom_len: usize,
    pub dom_match: bool,
    /// What the last input handler received matches.
    pub signal_match: bool,
    /// What the draft store held matches.
    pub draft_match: bool,
    pub subsequence: bool,
    pub dropped: usize,
}

/// A report is the typing time, a colon and what survived; one without a colon
/// is what survived alone.
pub open spec fn reported(raw: Seq<char>) -> (nat, Seq<char>) {
    match find(raw, seq![':']) {
        Some(i) => (
            match parsed(raw.take(i), u64::MAX as nat) {
                Some(ms) => ms,
                None => 0,
            },
            raw.skip(i + 1),
        ),
        None => (0, raw),
    }
}

fn read_report(raw: &str) -> (r: (u64, String))
    ensures
        r.0 == reported(raw@).0,
        r.1@ == reported(raw@).1,
{
    let cs = chars_of(raw);
    let colon: [char; 1] = [':'];
    assert(colon@ =~= seq![':']);
    match find_slice(cs.as_slice(), colon.as_slice()) {
        Some(i) => {
            proof {
                find_is_first(raw@, seq![':']);
            }
            let head = vstd::slice::slice_subrange(cs.as_slice(), 0, i);
            assert(head@ =~= raw@.take(i as int));
            let tail = vstd::slice::slice_subrange(cs.as_slice(), i + 1, cs.len());
            assert(tail@ =~= raw@.skip(i + 1));
            let ms = match parse_number(head, u64::MAX) {
                Some(ms) => ms,
                None => 0,
            };
            (ms, string_of(tail))
        },
        None => (0, raw.to_owned()),
    }
}

/// Judge a trial by its report. Nothing where the field was not on screen.
pub fn judge(raw: &str, signal: &str, draft: &str) -> (r: Option<Trial>)
    ensures
        ({
            let (ms, dom) = reported(raw@);
            &&& r is None <==> dom == "__NOELEM__"@
            &&& r matches Some(t) ==> {
                &&& t.typed == 80
                &&& t.typing_ms == ms
                &&& t.dom@ == dom
                &&& t.dom_len == dom.len()
                &&& t.dom_match == (dom == SENTINEL@)
                &&& t.signal_match == (signal@ == SENTINEL@)
                &&& t.draft_match == (draft@ == SENTINEL@)
                &&& t.subsequence == subsequence(dom, SENTINEL@)
                &&& t.dropped == (if dom.len() < 80 {
                    80 - dom.len()
                } else {
                    0
                })
            }
        }),
{
    let (typing_ms, dom) = read_report(raw);
    if same_text(dom.as_str(), "__NOELEM__") {
        return None;
    }
    let dom_len = chars_of(dom.as_str()).len();
    Some(
        Trial {
            typed: 80,
            typing_ms,
            dom_match: same_text(dom.as_str(), SENTINEL),
            signal_match: same_text(signal, SENTINEL),
            draft_match: same_text(draft, SENTINEL),
            subsequence: is_subsequence(dom.as_str(), SENTINEL),
            dropped: if dom_len < 80 {
                80 - dom_len
            } else {
                0
            },
            dom_len,
            dom,
        },
    )
}

/// A field that kept everything dropped nothing.
pub proof fn an_intact_field_dropped_nothing(dom: Seq<char>)
    requires
        dom == SENTINEL@,
    ensures
        subsequence(dom, SENTINEL@),
        dom.len() == 80,
{
    sentinel_is_unambiguous();
    subsequence_of_itself(dom);
}

proof fn subsequence_of_itself(s: Seq<char>)
    ensures
        subsequence(s, s),
    decreases s.len(),
{
    if s.len() > 0 {
        subsequence_of_itself(s.drop_first());
    }
}

/// The characters dropped over every trial.
pub open spec fn total_dropped(trials: Seq<Trial>) -> nat
    decreases trials.len(),
{
    if trials.len() == 0 {
        0
    } else {
        total_dropped(trials.drop_last()) + trials.last().dropped as nat
    }
}

/// What the trials come to: how many dropped anything, how much that was, and
/// in how many the input handler had everything.
pub fn summary_of(trials: &Vec<Trial>) -> (r: (usize, u128, usize))
    ensures
        r.0 == count_where(trials@, |t: Trial| t.dropped > 0),
        r.1 == total_dropped(trials@),
        r.2 == count_where(trials@, |t: Trial| t.signal_match),
{
    let drops = |t: &Trial| -> (b: bool)
        ensures
            b == (t.dropped > 0),
    {
        t.dropped > 0
    };
    let intact = |t: &Trial| -> (b: bool)
        ensures
            b == t.signal_match,
    {
        t.signal_match
    };
    let dropping = count(trials, drops, Ghost(|t: Trial| t.dropped > 0));
    let signal_ok = count(trials, intact, Ghost(|t: Trial| t.signal_match));
    let mut total: u128 = 0;
    let mut i: usize = 0;
    while i < trials.len()
        invariant
            i <= trials.len(),
            total == total_dropped(trials@.take(i as int)),
            total <= i * u64::MAX,
        decreases trials.len() - i,
    {
        assert(trials@.take(i + 1).drop_last() =~= trials@.take(i as int));
        assert(i * u64::MAX + u64::MAX <= u128::MAX) by (nonlinear_arith)
            requires
                i < u64::MAX,
        ;
        assert((i + 1) * u64::MAX == i * u64::MAX + u64::MAX) by (nonlinear_arith);
        total = total + trials[i].dropped as u128;
        i += 1;
    }
    assert(trials@.take(i as int) =~= trials@);
    (dropping, total, signal_ok)
}

// ---- The checks ----------------------------------------------------------

/// A name, filled up to 28 characters.
pub open spec fn padded(name: Seq<char>) -> Seq<char>
    decreases 28 - name.len(),
{
    if name.len() < 28 {
        padded(name.push(' '))
    } else {
        name
    }
}

/// The line a check is reported with.
pub fn check_line(name: &str, ok: bool, detail: &str) -> (r: String)
    ensures
        r@ == "[check] "@ + padded(name@) + " "@ + (if ok {
            "PASS"@
        } else {
            "FAIL"@
        }) + ("  "@ + detail@),
{
    let mut line = name.to_owned();
    let mut n: usize = chars_of(name).len();
    while n < 28
        invariant
            n == line@.len(),
            padded(line@) == padded(name@),
        decreases 28 - n,
    {
        line.push(' ');
        n += 1;
    }
    let word = if ok {
        "PASS"
    } else {
        "FAIL"
    };
    let tail = cat2("  ", detail);
    cat5("[check] ", line.as_str(), " ", word, tail.as_str())
}

/// What a field's reading says of its value, without what it says of the value
/// it was built with.
pub open spec fn bare_value(s: Seq<char>) -> Seq<char> {
    match find(s, " default="@) {
        Some(i) => s.take(i),
        None => s,
    }
}

pub fn value_of(s: &str) -> (r: String)
    ensures
        r@ == bare_value(s@),
{
    let cs = chars_of(s);
    let mark = chars_of(" default=");
    match find_slice(cs.as_slice(), mark.as_slice()) {
        Some(i) => {
            proof {
                find_is_first(s@, " default="@);
            }
            let head = vstd::slice::slice_subrange(cs.as_slice(), 0, i);
            assert(head@ =~= s@.take(i as int));
            string_of(head)
        },
        None => s.to_owned(),
    }
}

/// The board was filtered down to the one card searched for, and is whole again
/// after: its counts before, during and after, and what was typed.
pub open spec fn filtered_live(out: Seq<char>) -> bool {
    let parts = text_parts(out, '/', ' ');
    &&& parts.len() >= 3
    &&& parts[1] == "1"@
    &&& parsed(parts[0], usize::MAX as nat) matches Some(n)
    &&& n > 1
    &&& parts[0] == parts[2]
    &&& within(out, "typed=\"stress card 3\""@)
}

pub fn search_filtered(out: &str) -> (r: bool)
    ensures
        r == filtered_live(out@),
{
    let parts = split_parts(out, '/', ' ');
    assert(texts(parts@).len() == parts.len());
    if parts.len() < 3 {
        return false;
    }
    assert(texts(parts@)[0] == parts@[0]@ && texts(parts@)[1] == parts@[1]@ && texts(parts@)[2]
        == parts@[2]@);
    let before = chars_of(parts[0].as_str());
    let fewer = match parse_number(before.as_slice(), usize::MAX as u64) {
        Some(n) => n > 1,
        None => false,
    };
    same_text(parts[1].as_str(), "1") && fewer && same_text(parts[0].as_str(), parts[2].as_str())
        && contains_text(out, "typed=\"stress card 3\"")
}

// ---- Laws ----------------------------------------------------------------

/// A number set is taken where it reads as one, else the default is.
pub proof fn a_number_set_is_taken(n: u64, default: u64, junk: Seq<char>)
    ensures
        number_or(Some(decimal(n as nat)), default) == n,
        number_or(None, default) == default,
        junk.len() > 0 && !digit(junk[0]) && junk[0] != '+' ==> number_or(Some(junk), default)
            == default,
{
    numbers_read_back(n as nat, u64::MAX as nat, junk);
}

/// A report is the milliseconds, a colon and what the field held, which may hold colons
/// itself; without a colon it is what the field held.
pub proof fn a_report_reads_back(ms: u64, dom: Seq<char>)
    ensures
        reported(decimal(ms as nat) + seq![':'] + dom) == (ms as nat, dom),
        !dom.contains(':') ==> reported(dom) == (0nat, dom),
{
    let n = decimal(ms as nat);
    let raw = n + seq![':'] + dom;
    let k = n.len() as int;
    let colon = seq![':'];
    decimal_reads_back(ms as nat);
    numbers_read_back(ms as nat, u64::MAX as nat, n);
    find_is_first(raw, colon);
    assert(raw.subrange(k, k + colon.len()) =~= colon);
    let i = find(raw, colon)->0;
    assert(find(raw, colon) is Some && i <= k);
    assert(raw.subrange(i, i + colon.len())[0] == raw[i]);
    if i < k {
        assert(raw[i] == n[i]);
        assert(digit(n[i]));
    }
    assert(raw.take(k) =~= n);
    assert(raw.skip(k + 1) =~= dom);
    find_is_first(dom, colon);
    if let Some(j) = find(dom, colon) {
        assert(dom.subrange(j, j + colon.len())[0] == dom[j]);
        assert(dom.contains(dom[j]));
    }
}

/// A name is padded with spaces to its column and never cut.
pub proof fn a_name_is_padded(name: Seq<char>, i: int)
    ensures
        padded(name).len() == (if name.len() < 28 {
            28
        } else {
            name.len()
        }),
        starts(padded(name), name),
        name.len() <= i < padded(name).len() ==> padded(name)[i] == ' ',
    decreases 28 - name.len(),
{
    if name.len() < 28 {
        a_name_is_padded(name.push(' '), i);
        let p = padded(name);
        let k = name.len() as int;
        assert(p.take(k + 1) == name.push(' '));
        assert(p.take(k) =~= p.take(k + 1).take(k));
        assert(name.push(' ').take(k) =~= name);
        assert(p[k] == p.take(k + 1)[k]);
    } else {
        assert(name.take(name.len() as int) =~= name);
    }
}

/// What is dropped over all trials adds up.
pub proof fn drops_add_up(a: Seq<Trial>, b: Seq<Trial>, t: Trial)
    ensures
        total_dropped(a + b) == total_dropped(a) + total_dropped(b),
        total_dropped(seq![t]) == t.dropped,
    decreases b.len(),
{
    assert(seq![t].drop_last() =~= Seq::empty());
    reveal_with_fuel(total_dropped, 2);
    if b.len() == 0 {
        assert(a + b =~= a);
    } else {
        drops_add_up(a, b.drop_last(), t);
        assert((a + b).drop_last() =~= a + b.drop_last());
    }
}

/// A value is what stands before the word for its default.
pub proof fn a_value_stands_before_its_default(v: Seq<char>, rest: Seq<char>)
    requires
        !v.contains(' '),
    ensures
        bare_value(v + " default="@ + rest) == v,
        bare_value(v) == v,
{
    let m = " default="@;
    let s = v + m + rest;
    let k = v.len() as int;
    reveal_strlit(" default=");
    assert(m[0] == ' ');
    find_is_first(s, m);
    assert(s.subrange(k, k + m.len()) =~= m);
    let i = find(s, m)->0;
    assert(find(s, m) is Some && i <= k);
    assert(s.subrange(i, i + m.len())[0] == s[i]);
    if i < k {
        assert(s[i] == v[i]);
        assert(v.contains(v[i]));
    }
    assert(s.take(k) =~= v);
    find_is_first(v, m);
    if let Some(j) = find(v, m) {
        assert(v.subrange(j, j + m.len())[0] == v[j]);
        assert(v.contains(v[j]));
    }
}

/// A trial is judged by what the field holds against what was typed: intact where they
/// are the same, with as many dropped as are missing. A field that is not there is not
/// judged.
pub proof fn a_trial_is_judged_by_what_is_there(
    raw: &str,
    signal: &str,
    draft: &str,
    r: Option<Trial>,
    ms: u64,
    dom: Seq<char>,
)
    requires
        call_ensures(judge, (raw, signal, draft), r),
        raw@ == decimal(ms as nat) + seq![':'] + dom,
    ensures
        r is None <==> dom == "__NOELEM__"@,
        r matches Some(t) ==> t.typing_ms == ms && t.dom@ == dom && t.dom_len == dom.len() && (
        t.dom_match <==> dom == SENTINEL@) && (t.signal_match <==> signal@ == SENTINEL@) && (
        t.draft_match <==> draft@ == SENTINEL@),
        r matches Some(t) ==> t.dom_match ==> t.dropped == 0 && t.subsequence,
        r matches Some(t) ==> dom.len() <= 80 ==> t.dropped + dom.len() == t.typed,
{
    a_report_reads_back(ms, dom);
    if dom == SENTINEL@ {
        an_intact_field_dropped_nothing(dom);
    }
}

/// Nothing churns without siblings; with them something does on every other tick, and
/// the checks on every fourth of those unless they run under load.
pub proof fn churn_goes_by_the_tick(tick: u64, siblings: usize, under_load: bool, r: (bool, bool))
    requires
        call_ensures(churn, (tick, siblings, under_load), r),
    ensures
        siblings == 0 ==> !r.0 && !r.1,
        r.1 ==> r.0,
        siblings > 0 ==> (r.0 <==> tick % 2 == 0),
        under_load ==> !r.1,
        siblings > 0 && !under_load ==> (r.1 <==> tick % 8 == 0),
{
}

/// The search has filtered where one of all the cards is left, there is more than one,
/// and the field holds what was typed.
pub proof fn one_of_all_is_left(a: nat, m: nat, b: nat, rest: Seq<char>)
    requires
        a <= usize::MAX,
    ensures
        ({
            let out = decimal(a).push('/') + (decimal(m).push('/') + (decimal(b).push(' ') + rest));
            filtered_live(out) <==> m == 1 && a == b && a > 1 && within(
                out,
                "typed=\"stress card 3\""@,
            )
        }),
{
    let out = decimal(a).push('/') + (decimal(m).push('/') + (decimal(b).push(' ') + rest));
    let after_b = text_parts(rest, '/', ' ');
    no_separator(a);
    no_separator(m);
    no_separator(b);
    let bs = decimal(b).push(' ') + rest;
    let ms = decimal(m).push('/') + bs;
    separators_part_the_text(decimal(b), ' ', rest, '/', ' ');
    separators_part_the_text(decimal(m), '/', bs, '/', ' ');
    separators_part_the_text(decimal(a), '/', ms, '/', ' ');
    let parts = text_parts(out, '/', ' ');
    assert(parts == seq![decimal(a)] + (seq![decimal(m)] + (seq![decimal(b)] + after_b)));
    assert(parts[0] == decimal(a) && parts[1] == decimal(m) && parts[2] == decimal(b));
    decimal_reads_back(a);
    decimal_reads_back(m);
    decimal_reads_back(b);
    numbers_read_back(a, usize::MAX as nat, decimal(a));
    reveal_strlit("1");
    assert(decimal(1) =~= "1"@);
    decimal_reads_back(1);
}

proof fn no_separator(n: nat)
    ensures
        !decimal(n).contains('/'),
        !decimal(n).contains(' '),
{
    decimal_reads_back(n);
    let d = decimal(n);
    assert forall|i: int| 0 <= i < d.len() implies d[i] != '/' && d[i] != ' ' by {
        assert(digit(d[i]));
    }
}

} // verus!
