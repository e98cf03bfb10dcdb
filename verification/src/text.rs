//! Text as sequences of characters: trimming, searching, numbers.

use vstd::prelude::*;
use vstd::slice::slice_subrange;

verus! {

/// `String::push` appends one character at the end.
pub assume_specification[ String::push ](s: &mut String, c: char)
    ensures
        final(s)@ == old(s)@.push(c),
;

/// The characters Unicode gives the `White_Space` property.
pub open spec fn white(c: char) -> bool {
    let n = c as u32;
    ||| 0x09 <= n <= 0x0d
    ||| n == 0x20
    ||| n == 0x85
    ||| n == 0xa0
    ||| n == 0x1680
    ||| 0x2000 <= n <= 0x200a
    ||| n == 0x2028
    ||| n == 0x2029
    ||| n == 0x202f
    ||| n == 0x205f
    ||| n == 0x3000
}

pub fn is_white(c: char) -> (r: bool)
    ensures
        r == white(c),
{
    let n: u32 = c as u32;
    (n >= 0x09 && n <= 0x0d) || n == 0x20 || n == 0x85 || n == 0xa0 || n == 0x1680 || (n >= 0x2000
        && n <= 0x200a) || n == 0x2028 || n == 0x2029 || n == 0x202f || n == 0x205f || n == 0x3000
}

/// An ASCII digit.
pub open spec fn digit(c: char) -> bool {
    '0' <= c <= '9'
}

pub fn is_digit(c: char) -> (r: bool)
    ensures
        r == digit(c),
{
    '0' <= c && c <= '9'
}

/// An ASCII letter or digit.
pub open spec fn alphanumeric(c: char) -> bool {
    digit(c) || 'a' <= c <= 'z' || 'A' <= c <= 'Z'
}

pub fn is_alphanumeric(c: char) -> (r: bool)
    ensures
        r == alphanumeric(c),
{
    is_digit(c) || ('a' <= c && c <= 'z') || ('A' <= c && c <= 'Z')
}

/// The characters of a string.
pub fn chars_of(s: &str) -> (v: Vec<char>)
    ensures
        v@ == s@,
{
    let mut v: Vec<char> = Vec::new();
    for c in it: s.chars()
        invariant
            v@ == s@.take(it.index()),
            it.seq() == s@,
    {
        v.push(c);
    }
    v
}

/// A string of the given characters.
pub fn string_of(s: &[char]) -> (r: String)
    ensures
        r@ == s@,
{
    let mut r = String::new();
    let mut i: usize = 0;
    while i < s.len()
        invariant
            i <= s.len(),
            r@ == s@.take(i as int),
        decreases s.len() - i,
    {
        r.push(s[i]);
        i += 1;
    }
    r
}

pub fn same_text(a: &str, b: &str) -> (r: bool)
    ensures
        r == (a@ == b@),
{
    a.to_owned() == b.to_owned()
}

/// The concatenation of two, three, four or five strings.
pub fn cat2(a: &str, b: &str) -> (r: String)
    ensures
        r@ == a@ + b@,
{
    let mut r = a.to_owned();
    r.append(b);
    r
}

pub fn cat3(a: &str, b: &str, c: &str) -> (r: String)
    ensures
        r@ == a@ + b@ + c@,
{
    let mut r = cat2(a, b);
    r.append(c);
    r
}

pub fn cat4(a: &str, b: &str, c: &str, d: &str) -> (r: String)
    ensures
        r@ == a@ + b@ + c@ + d@,
{
    let mut r = cat3(a, b, c);
    r.append(d);
    r
}

pub fn cat5(a: &str, b: &str, c: &str, d: &str, e: &str) -> (r: String)
    ensures
        r@ == a@ + b@ + c@ + d@ + e@,
{
    let mut r = cat4(a, b, c, d);
    r.append(e);
    r
}

// ---- Trimming ------------------------------------------------------------

/// The text without its leading white space.
pub open spec fn trim_front(s: Seq<char>) -> Seq<char>
    decreases s.len(),
{
    if s.len() > 0 && white(s[0]) {
        trim_front(s.drop_first())
    } else {
        s
    }
}

/// The text without its trailing white space.
pub open spec fn trim_back(s: Seq<char>) -> Seq<char>
    decreases s.len(),
{
    if s.len() > 0 && white(s.last()) {
        trim_back(s.drop_last())
    } else {
        s
    }
}

/// The text without white space at either end.
pub open spec fn trimmed(s: Seq<char>) -> Seq<char> {
    trim_back(trim_front(s))
}

/// A text of nothing but white space.
pub open spec fn blank(s: Seq<char>) -> bool {
    forall|i: int| 0 <= i < s.len() ==> white(#[trigger] s[i])
}

pub fn trim_start_slice(s: &[char]) -> (r: &[char])
    ensures
        r@ == trim_front(s@),
        r.len() <= s.len(),
        exists|k: int| 0 <= k <= s.len() && r@ == #[trigger] s@.skip(k),
{
    let mut i: usize = 0;
    assert(s@.skip(0) =~= s@);
    while i < s.len() && is_white(s[i])
        invariant
            i <= s.len(),
            trim_front(s@) == trim_front(s@.skip(i as int)),
        decreases s.len() - i,
    {
        assert(s@.skip(i as int).drop_first() =~= s@.skip(i + 1));
        i += 1;
    }
    assert(s@.subrange(i as int, s.len() as int) =~= s@.skip(i as int));
    slice_subrange(s, i, s.len())
}

pub fn trim_end_slice(s: &[char]) -> (r: &[char])
    ensures
        r@ == trim_back(s@),
        r.len() <= s.len(),
        r@ == s@.take(r.len() as int),
{
    let mut n: usize = s.len();
    assert(s@.take(n as int) =~= s@);
    while n > 0 && is_white(s[n - 1])
        invariant
            n <= s.len(),
            trim_back(s@) == trim_back(s@.take(n as int)),
        decreases n,
    {
        assert(s@.take(n as int).drop_last() =~= s@.take(n - 1));
        n -= 1;
    }
    assert(s@.subrange(0, n as int) =~= s@.take(n as int));
    slice_subrange(s, 0, n)
}

pub fn trim_slice(s: &[char]) -> (r: &[char])
    ensures
        r@ == trimmed(s@),
        r.len() <= s.len(),
{
    trim_end_slice(trim_start_slice(s))
}

/// `s` without white space at either end.
pub fn trim(s: &str) -> (r: String)
    ensures
        r@ == trimmed(s@),
{
    let cs = chars_of(s);
    string_of(trim_slice(cs.as_slice()))
}

/// Whether nothing is left of `s` once trimmed.
pub fn is_blank(s: &str) -> (r: bool)
    ensures
        r == blank(s@),
        r == (trimmed(s@).len() == 0),
{
    let cs = chars_of(s);
    proof {
        blank_is_empty_trim(s@);
    }
    trim_slice(cs.as_slice()).len() == 0
}

/// Trimming leaves nothing exactly of the texts of white space alone.
pub proof fn blank_is_empty_trim(s: Seq<char>)
    ensures
        trimmed(s).len() == 0 <==> blank(s),
{
    blank_front(s);
    blank_back(trim_front(s));
}

pub(crate) proof fn blank_front(s: Seq<char>)
    ensures
        blank(trim_front(s)) <==> blank(s),
        blank(s) ==> trim_front(s).len() == 0,
    decreases s.len(),
{
    if s.len() > 0 && white(s[0]) {
        blank_front(s.drop_first());
        assert(blank(s) ==> blank(s.drop_first()));
        assert forall|i: int| blank(s.drop_first()) && 0 <= i < s.len() implies white(#[trigger] s[i]) by {
            if i > 0 {
                assert(s.drop_first()[i - 1] == s[i]);
            }
        }
    }
}

pub(crate) proof fn blank_back(s: Seq<char>)
    ensures
        trim_back(s).len() == 0 <==> blank(s),
    decreases s.len(),
{
    if s.len() > 0 {
        if white(s.last()) {
            blank_back(s.drop_last());
            assert(blank(s) ==> blank(s.drop_last()));
            assert forall|i: int| blank(s.drop_last()) && 0 <= i < s.len() implies white(#[trigger] s[i]) by {
                if i < s.len() - 1 {
                    assert(s.drop_last()[i] == s[i]);
                }
            }
        } else {
            assert(!white(s[s.len() - 1]));
        }
    }
}

/// Trimming twice is trimming once.
pub proof fn trimmed_idempotent(s: Seq<char>)
    ensures
        trimmed(trimmed(s)) == trimmed(s),
{
    trim_front_head(s);
    trim_back_tail(trim_front(s));
}

proof fn trim_front_head(s: Seq<char>)
    ensures
        trim_front(s).len() > 0 ==> !white(trim_front(s)[0]),
    decreases s.len(),
{
    if s.len() > 0 && white(s[0]) {
        trim_front_head(s.drop_first());
    }
}

pub(crate) proof fn trim_back_tail(s: Seq<char>)
    ensures
        trim_back(s).len() > 0 ==> !white(trim_back(s).last()),
        trim_back(s).len() > 0 ==> trim_back(s)[0] == s[0],
        trim_back(s).len() <= s.len(),
    decreases s.len(),
{
    if s.len() > 0 && white(s.last()) {
        trim_back_tail(s.drop_last());
    }
}

// ---- Searching -----------------------------------------------------------

/// `pre` starts `s`.
pub open spec fn starts(s: Seq<char>, pre: Seq<char>) -> bool {
    pre.len() <= s.len() && s.take(pre.len() as int) == pre
}

/// `post` ends `s`.
pub open spec fn ends(s: Seq<char>, post: Seq<char>) -> bool {
    post.len() <= s.len() && s.skip(s.len() - post.len()) == post
}

/// Where `needle` first occurs in `s`.
pub open spec fn find(s: Seq<char>, needle: Seq<char>) -> Option<int>
    decreases s.len(),
{
    if starts(s, needle) {
        Some(0)
    } else if s.len() == 0 {
        None
    } else {
        match find(s.drop_first(), needle) {
            Some(i) => Some(i + 1),
            None => None,
        }
    }
}

/// `needle` occurs in `s`.
pub open spec fn within(s: Seq<char>, needle: Seq<char>) -> bool {
    find(s, needle) is Some
}

/// Where `c` last occurs in `s`.
pub open spec fn find_last(s: Seq<char>, c: char) -> Option<int>
    decreases s.len(),
{
    if s.len() == 0 {
        None
    } else if s.last() == c {
        Some(s.len() - 1)
    } else {
        find_last(s.drop_last(), c)
    }
}

pub fn starts_slice(s: &[char], pre: &[char]) -> (r: bool)
    ensures
        r == starts(s@, pre@),
{
    if pre.len() > s.len() {
        return false;
    }
    let mut i: usize = 0;
    while i < pre.len()
        invariant
            i <= pre.len() <= s.len(),
            forall|j: int| 0 <= j < i ==> s@[j] == pre@[j],
        decreases pre.len() - i,
    {
        if s[i] != pre[i] {
            assert(s@.take(pre@.len() as int)[i as int] != pre@[i as int]);
            return false;
        }
        i += 1;
    }
    assert(s@.take(pre@.len() as int) =~= pre@);
    true
}

/// Whether `s` starts with `pre`.
pub fn starts_with(s: &str, pre: &str) -> (r: bool)
    ensures
        r == starts(s@, pre@),
{
    let a = chars_of(s);
    let b = chars_of(pre);
    starts_slice(a.as_slice(), b.as_slice())
}

pub fn find_slice(s: &[char], needle: &[char]) -> (r: Option<usize>)
    ensures
        match r {
            Some(i) => find(s@, needle@) == Some(i as int) && i + needle.len() <= s.len(),
            None => find(s@, needle@) is None,
        },
{
    let mut i: usize = 0;
    assert(s@.skip(0) =~= s@);
    while i < s.len()
        invariant
            i <= s.len(),
            find(s@, needle@) == (match find(s@.skip(i as int), needle@) {
                Some(k) => Some(k + i),
                None => None,
            }),
        decreases s.len() - i,
    {
        let tail = slice_subrange(s, i, s.len());
        assert(tail@ =~= s@.skip(i as int));
        if starts_slice(tail, needle) {
            return Some(i);
        }
        assert(s@.skip(i as int).drop_first() =~= s@.skip(i + 1));
        i += 1;
    }
    if needle.len() == 0 {
        assert(s@.skip(i as int).take(0) =~= needle@);
        Some(i)
    } else {
        None
    }
}

pub fn find_last_slice(s: &[char], c: char) -> (r: Option<usize>)
    ensures
        match r {
            Some(i) => find_last(s@, c) == Some(i as int) && i < s.len(),
            None => find_last(s@, c) is None,
        },
{
    let mut n: usize = s.len();
    assert(s@.take(n as int) =~= s@);
    while n > 0
        invariant
            n <= s.len(),
            find_last(s@, c) == find_last(s@.take(n as int), c),
        decreases n,
    {
        if s[n - 1] == c {
            return Some(n - 1);
        }
        assert(s@.take(n as int).drop_last() =~= s@.take(n - 1));
        n -= 1;
    }
    None
}

/// `find` gives a place where `needle` stands, and the first one.
pub proof fn find_is_first(s: Seq<char>, needle: Seq<char>)
    ensures
        match find(s, needle) {
            Some(i) => {
                &&& 0 <= i <= s.len() - needle.len()
                &&& s.subrange(i, i + needle.len()) == needle
                &&& forall|j: int|
                    0 <= j < i ==> #[trigger] s.subrange(j, j + needle.len()) != needle
            },
            None => forall|j: int|
                0 <= j <= s.len() - needle.len() ==> #[trigger] s.subrange(j, j + needle.len())
                    != needle,
        },
    decreases s.len(),
{
    if starts(s, needle) {
        assert(s.subrange(0, needle.len() as int) =~= s.take(needle.len() as int));
    } else if s.len() > 0 {
        let t = s.drop_first();
        find_is_first(t, needle);
        assert(s.subrange(0, needle.len() as int) =~= s.take(needle.len() as int) || needle.len() > s.len());
        assert forall|j: int| 0 < j <= s.len() - needle.len() implies #[trigger] s.subrange(
            j,
            j + needle.len(),
        ) == t.subrange(j - 1, j - 1 + needle.len()) by {
            assert(s.subrange(j, j + needle.len()) =~= t.subrange(j - 1, j - 1 + needle.len()));
        }
    } else {
        assert(s.take(0) =~= s);
        assert(needle.len() > 0) by {
            if needle.len() == 0 {
                assert(s.take(0) =~= needle);
            }
        }
    }
}

/// `find_last` gives a place where `c` stands, with none after it.
pub proof fn find_last_is_last(s: Seq<char>, c: char)
    ensures
        match find_last(s, c) {
            Some(i) => 0 <= i < s.len() && s[i] == c && forall|j: int|
                i < j < s.len() ==> s[j] != c,
            None => !s.contains(c),
        },
    decreases s.len(),
{
    if s.len() > 0 && s.last() != c {
        find_last_is_last(s.drop_last(), c);
        if find_last(s, c) is None {
            assert forall|j: int| 0 <= j < s.len() implies s[j] != c by {
                if j < s.len() - 1 {
                    assert(s.drop_last()[j] == s[j]);
                    assert(!s.drop_last().contains(c));
                }
            }
        } else {
            let i = find_last(s, c)->0;
            assert forall|j: int| i < j < s.len() implies s[j] != c by {
                if j < s.len() - 1 {
                    assert(s.drop_last()[j] == s[j]);
                }
            }
        }
    }
}

/// The parts of a text between its separators.
pub open spec fn text_parts(s: Seq<char>, a: char, b: char) -> Seq<Seq<char>>
    decreases s.len(),
{
    if s.len() == 0 {
        seq![Seq::empty()]
    } else {
        let before = text_parts(s.drop_last(), a, b);
        if s.last() == a || s.last() == b {
            before.push(Seq::empty())
        } else {
            before.drop_last().push(before.last().push(s.last()))
        }
    }
}

pub fn split_parts(s: &str, a: char, b: char) -> (r: Vec<String>)
    ensures
        crate::markdown::texts(r@) == text_parts(s@, a, b),
        r@.len() > 0,
{
    let cs = chars_of(s);
    let mut out: Vec<String> = Vec::new();
    out.push(String::new());
    assert(crate::markdown::texts(out@) =~= text_parts(cs@.take(0), a, b));
    let mut i: usize = 0;
    while i < cs.len()
        invariant
            i <= cs.len(),
            out@.len() > 0,
            crate::markdown::texts(out@) == text_parts(cs@.take(i as int), a, b),
        decreases cs.len() - i,
    {
        let c = cs[i];
        let ghost before = crate::markdown::texts(out@);
        assert(cs@.take(i + 1).drop_last() =~= cs@.take(i as int));
        if c == a || c == b {
            out.push(String::new());
            assert(crate::markdown::texts(out@) =~= before.push(Seq::empty()));
        } else {
            let mut last = out.pop().unwrap();
            last.push(c);
            out.push(last);
            assert(crate::markdown::texts(out@) =~= before.drop_last().push(before.last().push(c)));
        }
        i += 1;
    }
    assert(cs@.take(i as int) =~= cs@);
    out
}

// ---- Numbers -------------------------------------------------------------

/// The digit of a number below ten.
pub open spec fn digit_char(n: nat) -> char {
    (('0' as nat) + n) as char
}

/// The decimal numeral of `n`.
pub open spec fn decimal(n: nat) -> Seq<char>
    decreases n,
{
    if n < 10 {
        seq![digit_char(n)]
    } else {
        decimal(n / 10).push(digit_char(n % 10))
    }
}

pub fn decimal_text(n: u64) -> (r: String)
    ensures
        r@ == decimal(n as nat),
    decreases n,
{
    if n < 10 {
        let mut r = String::new();
        r.push((48u8 + n as u8) as char);
        assert(r@ =~= seq![digit_char(n as nat)]);
        r
    } else {
        let mut r = decimal_text(n / 10);
        r.push((48u8 + (n % 10) as u8) as char);
        r
    }
}

/// The number a run of digits stands for.
pub open spec fn digits_value(s: Seq<char>) -> nat
    decreases s.len(),
{
    if s.len() == 0 {
        0
    } else {
        digits_value(s.drop_last()) * 10 + (s.last() as nat - '0' as nat) as nat
    }
}

pub open spec fn all_digits(s: Seq<char>) -> bool {
    forall|i: int| 0 <= i < s.len() ==> digit(#[trigger] s[i])
}

/// The number `s` writes, if it writes one no greater than `max`: digits, with
/// at most a plus sign before them.
pub open spec fn parsed(s: Seq<char>, max: nat) -> Option<nat> {
    let body = if s.len() > 0 && s[0] == '+' {
        s.drop_first()
    } else {
        s
    };
    if body.len() > 0 && all_digits(body) && digits_value(body) <= max {
        Some(digits_value(body))
    } else {
        None
    }
}

proof fn digits_value_monotonic(s: Seq<char>, i: int)
    requires
        all_digits(s),
        0 <= i <= s.len(),
    ensures
        digits_value(s.take(i)) <= digits_value(s),
    decreases s.len() - i,
{
    if i < s.len() {
        digits_value_monotonic(s, i + 1);
        assert(s.take(i + 1).drop_last() =~= s.take(i));
    } else {
        assert(s.take(i) =~= s);
    }
}

pub fn parse_number(s: &[char], max: u64) -> (r: Option<u64>)
    ensures
        match r {
            Some(n) => parsed(s@, max as nat) == Some(n as nat),
            None => parsed(s@, max as nat) is None,
        },
{
    let from: usize = if s.len() > 0 && s[0] == '+' {
        1
    } else {
        0
    };
    let body = slice_subrange(s, from, s.len());
    assert(body@ =~= if s@.len() > 0 && s@[0] == '+' {
        s@.drop_first()
    } else {
        s@
    });
    if body.len() == 0 {
        return None;
    }
    let mut i: usize = 0;
    while i < body.len()
        invariant
            i <= body.len(),
            body@ == (if s@.len() > 0 && s@[0] == '+' {
                s@.drop_first()
            } else {
                s@
            }),
            forall|j: int| 0 <= j < i ==> digit(#[trigger] body@[j]),
        decreases body.len() - i,
    {
        if !is_digit(body[i]) {
            assert(!digit(body@[i as int]));
            assert(!all_digits(body@));
            return None;
        }
        i += 1;
    }
    let mut n: u64 = 0;
    let mut k: usize = 0;
    assert(body@.take(0).len() == 0);
    while k < body.len()
        invariant
            k <= body.len(),
            all_digits(body@),
            n <= max,
            n == digits_value(body@.take(k as int)),
            parsed(s@, max as nat) == (if digits_value(body@) <= max {
                Some(digits_value(body@))
            } else {
                None
            }),
        decreases body.len() - k,
    {
        let d: u64 = (body[k] as u32 - '0' as u32) as u64;
        proof {
            assert(digit(body@[k as int]));
            assert(body@.take(k + 1).drop_last() =~= body@.take(k as int));
            digits_value_monotonic(body@, k + 1);
        }
        if n > (max - if d <= max { d } else { max }) / 10 || d > max {
            return None;
        }
        n = n * 10 + d;
        k += 1;
    }
    assert(body@.take(k as int) =~= body@);
    Some(n)
}

// ---- Laws ----------------------------------------------------------------

/// Trimming takes the white space around a text and nothing of the text itself.
pub proof fn trimming_leaves_the_text(a: Seq<char>, t: Seq<char>, b: Seq<char>)
    requires
        blank(a),
        blank(b),
        t.len() > 0 ==> !white(t[0]) && !white(t.last()),
    ensures
        trimmed(a + t + b) == t,
        t.len() > 0 ==> trim_back(a + t + b) == a + t,
        t.len() > 0 ==> trim_front(a + t + b) == t + b,
{
    if t.len() == 0 {
        let s = a + t + b;
        assert forall|i: int| 0 <= i < s.len() implies white(#[trigger] s[i]) by {
            if i < a.len() {
                assert(s[i] == a[i]);
            } else {
                assert(s[i] == b[i - a.len()]);
            }
        }
        blank_is_empty_trim(s);
        assert(trimmed(s) =~= t);
    } else {
        assert(a + t + b =~= a + (t + b));
        front_goes(a, t + b);
        back_goes(t, b);
        back_goes(a + t, b);
    }
}

/// White space before a text is all that leaves its front.
pub(crate) proof fn front_goes(a: Seq<char>, t: Seq<char>)
    requires
        blank(a),
        t.len() > 0 ==> !white(t[0]),
    ensures
        trim_front(a + t) == t,
    decreases a.len(),
{
    if a.len() == 0 {
        assert(a + t =~= t);
    } else {
        assert((a + t)[0] == a[0]);
        assert((a + t).drop_first() =~= a.drop_first() + t);
        assert forall|i: int| 0 <= i < a.drop_first().len() implies white(
            #[trigger] a.drop_first()[i],
        ) by {
            assert(a.drop_first()[i] == a[i + 1]);
        }
        front_goes(a.drop_first(), t);
    }
}

/// White space behind a text is all that leaves its back.
pub(crate) proof fn back_goes(t: Seq<char>, b: Seq<char>)
    requires
        blank(b),
        t.len() > 0 ==> !white(t.last()),
    ensures
        trim_back(t + b) == t,
    decreases b.len(),
{
    if b.len() == 0 {
        assert(t + b =~= t);
    } else {
        assert((t + b).last() == b[b.len() - 1]);
        assert((t + b).drop_last() =~= t + b.drop_last());
        assert forall|i: int| 0 <= i < b.drop_last().len() implies white(
            #[trigger] b.drop_last()[i],
        ) by {
            assert(b.drop_last()[i] == b[i]);
        }
        back_goes(t, b.drop_last());
    }
}

/// A text without a separator is one part, and a separator stands between the parts
/// of what is before it and the parts of what is behind it.
pub proof fn separators_part_the_text(s: Seq<char>, sep: char, t: Seq<char>, a: char, b: char)
    ensures
        !s.contains(a) && !s.contains(b) ==> text_parts(s, a, b) == seq![s],
        sep == a || sep == b ==> text_parts(s.push(sep) + t, a, b) == text_parts(s, a, b)
            + text_parts(t, a, b),
    decreases s.len() + t.len(),
{
    if !s.contains(a) && !s.contains(b) {
        one_part(s, a, b);
    }
    if sep == a || sep == b {
        parted(s, sep, t, a, b);
    }
}

proof fn one_part(s: Seq<char>, a: char, b: char)
    requires
        !s.contains(a),
        !s.contains(b),
    ensures
        text_parts(s, a, b) == seq![s],
    decreases s.len(),
{
    if s.len() == 0 {
        assert(s =~= Seq::empty());
    } else {
        assert(s.contains(s[s.len() - 1]));
        assert forall|c: char| s.drop_last().contains(c) implies s.contains(c) by {
            let i = choose|i: int| 0 <= i < s.drop_last().len() && s.drop_last()[i] == c;
            assert(s[i] == c);
        }
        one_part(s.drop_last(), a, b);
        assert(s.drop_last().push(s.last()) =~= s);
        assert(seq![s.drop_last()].drop_last() =~= Seq::empty());
        assert(text_parts(s, a, b) =~= seq![s]);
    }
}

proof fn parted(s: Seq<char>, sep: char, t: Seq<char>, a: char, b: char)
    requires
        sep == a || sep == b,
    ensures
        text_parts(s.push(sep) + t, a, b) == text_parts(s, a, b) + text_parts(t, a, b),
        text_parts(t, a, b).len() > 0,
    decreases t.len(),
{
    let whole = s.push(sep) + t;
    if t.len() == 0 {
        assert(whole =~= s.push(sep));
        assert(whole.drop_last() =~= s);
        assert(text_parts(whole, a, b) =~= text_parts(s, a, b) + text_parts(t, a, b));
    } else {
        parted(s, sep, t.drop_last(), a, b);
        assert(whole.drop_last() =~= s.push(sep) + t.drop_last());
        let before = text_parts(t.drop_last(), a, b);
        let all = text_parts(s, a, b) + before;
        assert(all.drop_last() =~= text_parts(s, a, b) + before.drop_last());
        assert(all.last() == before.last());
        assert(text_parts(whole, a, b) =~= text_parts(s, a, b) + text_parts(t, a, b));
    }
}

pub(crate) proof fn decimal_reads_back(n: nat)
    ensures
        all_digits(decimal(n)),
        decimal(n).len() > 0,
        digits_value(decimal(n)) == n,
    decreases n,
{
    if n >= 10 {
        decimal_reads_back(n / 10);
        let d = decimal(n);
        assert(d.drop_last() =~= decimal(n / 10));
        assert(d.last() == digit_char(n % 10));
        assert forall|i: int| 0 <= i < d.len() implies digit(#[trigger] d[i]) by {
            if i < d.len() - 1 {
                assert(d[i] == decimal(n / 10)[i]);
            }
        }
    } else {
        let d = decimal(n);
        assert(d =~= seq![digit_char(n)]);
        assert(d.drop_last() =~= Seq::empty());
        reveal_with_fuel(digits_value, 2);
        assert(digits_value(d) == n);
    }
}

/// A number written out reads back as that number, with or without a plus sign, up
/// to the greatest that is asked for and no further. What is not all digits reads as
/// no number.
pub proof fn numbers_read_back(n: nat, max: nat, s: Seq<char>)
    ensures
        parsed(decimal(n), max) == (if n <= max {
            Some(n)
        } else {
            None
        }),
        parsed(seq!['+'] + decimal(n), max) == parsed(decimal(n), max),
        parsed(s, max) matches Some(v) ==> v <= max && s.len() > 0 && forall|i: int|
            1 <= i < s.len() ==> digit(#[trigger] s[i]),
        s.len() > 0 && !digit(s[0]) && s[0] != '+' ==> parsed(s, max) is None,
{
    decimal_reads_back(n);
    assert(digit(decimal(n)[0]));
    let plus = seq!['+'] + decimal(n);
    assert(plus.drop_first() =~= decimal(n));
    if parsed(s, max) is Some {
        assert forall|i: int| 1 <= i < s.len() implies digit(#[trigger] s[i]) by {
            if s[0] == '+' {
                assert(s.drop_first()[i - 1] == s[i]);
            }
        }
    }
}

/// A text holds, starts with and ends with what it is put together from.
pub proof fn parts_are_found(a: Seq<char>, n: Seq<char>, b: Seq<char>)
    ensures
        starts(n + b, n),
        ends(a + n, n),
        within(a + n + b, n),
{
    assert((n + b).take(n.len() as int) =~= n);
    assert((a + n).skip(a.len() as int) =~= n);
    let s = a + n + b;
    let i: int = a.len() as int;
    find_is_first(s, n);
    assert(s.subrange(i, i + n.len()) =~= n);
}

} // verus!
