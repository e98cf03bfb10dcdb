//! Lists: finding, keeping, replacing and ordering their items.

use vstd::prelude::*;

verus! {

/// Where the first item with a property stands.
pub open spec fn first_where<T>(s: Seq<T>, p: spec_fn(T) -> bool) -> Option<int>
    decreases s.len(),
{
    if s.len() == 0 {
        None
    } else if p(s[0]) {
        Some(0)
    } else {
        match first_where(s.drop_first(), p) {
            Some(i) => Some(i + 1),
            None => None,
        }
    }
}

/// `first_where` gives an item with the property and none before it.
pub proof fn first_where_is_first<T>(s: Seq<T>, p: spec_fn(T) -> bool)
    ensures
        match first_where(s, p) {
            Some(i) => 0 <= i < s.len() && p(s[i]) && forall|j: int| 0 <= j < i ==> !p(#[trigger] s[j]),
            None => forall|j: int| 0 <= j < s.len() ==> !p(#[trigger] s[j]),
        },
    decreases s.len(),
{
    if s.len() > 0 && !p(s[0]) {
        let t = s.drop_first();
        first_where_is_first(t, p);
        match first_where(t, p) {
            Some(i) => {
                assert(t[i] == s[i + 1]);
                assert forall|j: int| 0 <= j < i + 1 implies !p(#[trigger] s[j]) by {
                    if j > 0 {
                        assert(t[j - 1] == s[j]);
                    }
                }
            },
            None => {
                assert forall|j: int| 0 <= j < s.len() implies !p(#[trigger] s[j]) by {
                    if j > 0 {
                        assert(t[j - 1] == s[j]);
                    }
                }
            },
        }
    }
}

/// The index of the first item that `hit` accepts.
pub(crate) fn position<T>(
    v: &Vec<T>,
    hit: impl Fn(&T) -> bool,
    Ghost(p): Ghost<spec_fn(T) -> bool>,
) -> (r: Option<usize>)
    requires
        forall|t: T| call_requires(hit, (&t,)),
        forall|t: T, b: bool| call_ensures(hit, (&t,), b) ==> b == p(t),
    ensures
        match r {
            Some(i) => i < v.len() && first_where(v@, p) == Some(i as int),
            None => first_where(v@, p) is None,
        },
{
    let mut i: usize = 0;
    assert(v@.skip(0) =~= v@);
    while i < v.len()
        invariant
            i <= v.len(),
            forall|t: T| call_requires(hit, (&t,)),
            forall|t: T, b: bool| call_ensures(hit, (&t,), b) ==> b == p(t),
            first_where(v@, p) == (match first_where(v@.skip(i as int), p) {
                Some(k) => Some(k + i),
                None => None,
            }),
        decreases v.len() - i,
    {
        if hit(&v[i]) {
            return Some(i);
        }
        assert(v@.skip(i as int).drop_first() =~= v@.skip(i + 1));
        i += 1;
    }
    None
}

/// `x` in the place of the first item that is the same, or at the end.
pub open spec fn upserted<T>(s: Seq<T>, x: T, same: spec_fn(T) -> bool) -> Seq<T> {
    match first_where(s, same) {
        Some(i) => s.update(i, x),
        None => s.push(x),
    }
}

pub(crate) fn upsert<T>(
    v: &mut Vec<T>,
    x: T,
    same: impl Fn(&T) -> bool,
    Ghost(p): Ghost<spec_fn(T) -> bool>,
)
    requires
        forall|t: T| call_requires(same, (&t,)),
        forall|t: T, b: bool| call_ensures(same, (&t,), b) ==> b == p(t),
    ensures
        final(v)@ == upserted(old(v)@, x, p),
{
    match position(v, same, Ghost(p)) {
        Some(i) => v[i] = x,
        None => v.push(x),
    }
}

/// Only the items that `keep` accepts, in their order.
pub(crate) fn retain<T>(
    v: Vec<T>,
    keep: impl Fn(&T) -> bool,
    Ghost(p): Ghost<spec_fn(T) -> bool>,
) -> (r: Vec<T>)
    requires
        forall|t: T| call_requires(keep, (&t,)),
        forall|t: T, b: bool| call_ensures(keep, (&t,), b) ==> b == p(t),
    ensures
        r@ == v@.filter(p),
{
    let mut kept: Vec<T> = Vec::new();
    let ghost all = v@;
    for t in iter: v.into_iter()
        invariant
            iter.seq() == all,
            forall|t: T| call_requires(keep, (&t,)),
            forall|t: T, b: bool| call_ensures(keep, (&t,), b) ==> b == p(t),
            kept@ == all.take(iter.index()).filter(p),
    {
        proof {
            let i = iter.index();
            assert(all.take(i + 1).drop_last() =~= all.take(i));
            reveal(Seq::filter);
        }
        if keep(&t) {
            kept.push(t);
        }
    }
    assert(all.take(all.len() as int) =~= all);
    kept
}

/// What a filter leaves comes from the list and has the property.
pub proof fn filter_from<T>(s: Seq<T>, p: spec_fn(T) -> bool, m: int)
    requires
        0 <= m < s.filter(p).len(),
    ensures
        p(s.filter(p)[m]),
        s.contains(s.filter(p)[m]),
    decreases s.len(),
{
    reveal(Seq::filter);
    let t = s.drop_last();
    if m < t.filter(p).len() {
        filter_from(t, p, m);
        let i = choose|i: int| 0 <= i < t.len() && t[i] == t.filter(p)[m];
        assert(s[i] == t[i]);
    } else {
        assert(s[s.len() - 1] == s.filter(p)[m]);
    }
}

/// A filter leaves every item with the property.
pub proof fn filter_keeps<T>(s: Seq<T>, p: spec_fn(T) -> bool, x: T)
    requires
        s.contains(x),
        p(x),
    ensures
        s.filter(p).contains(x),
    decreases s.len(),
{
    reveal(Seq::filter);
    let t = s.drop_last();
    if s.last() == x {
        assert(s.filter(p)[t.filter(p).len() as int] == x);
    } else {
        let i = choose|i: int| 0 <= i < s.len() && s[i] == x;
        assert(t[i] == x);
        filter_keeps(t, p, x);
        let j = choose|j: int| 0 <= j < t.filter(p).len() && t.filter(p)[j] == x;
        assert(s.filter(p)[j] == x);
    }
}

/// The items that a list of references is to.
pub open spec fn derefs<T>(s: Seq<&T>) -> Seq<T> {
    Seq::new(s.len(), |i: int| *s[i])
}

/// References to the items that `keep` accepts, in their order.
pub(crate) fn select<'a, T>(
    v: &'a Vec<T>,
    keep: impl Fn(&T) -> bool,
    Ghost(p): Ghost<spec_fn(T) -> bool>,
) -> (r: Vec<&'a T>)
    requires
        forall|t: T| call_requires(keep, (&t,)),
        forall|t: T, b: bool| call_ensures(keep, (&t,), b) ==> b == p(t),
    ensures
        derefs(r@) == v@.filter(p),
{
    let mut kept: Vec<&'a T> = Vec::new();
    let mut i: usize = 0;
    proof {
        assert(v@.take(0) =~= Seq::empty());
        reveal(Seq::filter);
        assert(derefs(kept@) =~= v@.take(0).filter(p));
    }
    while i < v.len()
        invariant
            i <= v.len(),
            forall|t: T| call_requires(keep, (&t,)),
            forall|t: T, b: bool| call_ensures(keep, (&t,), b) ==> b == p(t),
            derefs(kept@) == v@.take(i as int).filter(p),
        decreases v.len() - i,
    {
        let ghost before = kept@;
        proof {
            assert(v@.take(i + 1).drop_last() =~= v@.take(i as int));
            reveal(Seq::filter);
        }
        if keep(&v[i]) {
            kept.push(&v[i]);
            assert(derefs(kept@) =~= derefs(before).push(v@[i as int]));
        }
        i += 1;
    }
    assert(v@.take(v@.len() as int) =~= v@);
    kept
}

/// The references among these whose items `keep` accepts, in their order.
pub(crate) fn select_among<'a, T>(
    v: &Vec<&'a T>,
    keep: impl Fn(&T) -> bool,
    Ghost(p): Ghost<spec_fn(T) -> bool>,
) -> (r: Vec<&'a T>)
    requires
        forall|t: T| call_requires(keep, (&t,)),
        forall|t: T, b: bool| call_ensures(keep, (&t,), b) ==> b == p(t),
    ensures
        derefs(r@) == derefs(v@).filter(p),
{
    let mut kept: Vec<&'a T> = Vec::new();
    let mut i: usize = 0;
    let ghost all = derefs(v@);
    proof {
        assert(all.take(0) =~= Seq::empty());
        reveal(Seq::filter);
        assert(derefs(kept@) =~= all.take(0).filter(p));
    }
    while i < v.len()
        invariant
            i <= v.len(),
            all == derefs(v@),
            forall|t: T| call_requires(keep, (&t,)),
            forall|t: T, b: bool| call_ensures(keep, (&t,), b) ==> b == p(t),
            derefs(kept@) == all.take(i as int).filter(p),
        decreases v.len() - i,
    {
        let ghost before = kept@;
        proof {
            assert(all.take(i + 1).drop_last() =~= all.take(i as int));
            reveal(Seq::filter);
        }
        if keep(v[i]) {
            kept.push(v[i]);
            assert(derefs(kept@) =~= derefs(before).push(all[i as int]));
        }
        i += 1;
    }
    assert(all.take(all.len() as int) =~= all);
    kept
}

/// The number of items with a property.
pub open spec fn count_where<T>(s: Seq<T>, p: spec_fn(T) -> bool) -> nat
    decreases s.len(),
{
    if s.len() == 0 {
        0
    } else {
        count_where(s.drop_last(), p) + if p(s.last()) {
            1nat
        } else {
            0nat
        }
    }
}

pub proof fn count_within<T>(s: Seq<T>, p: spec_fn(T) -> bool)
    ensures
        count_where(s, p) <= s.len(),
    decreases s.len(),
{
    if s.len() > 0 {
        count_within(s.drop_last(), p);
    }
}

pub(crate) fn count<T>(
    v: &Vec<T>,
    hit: impl Fn(&T) -> bool,
    Ghost(p): Ghost<spec_fn(T) -> bool>,
) -> (r: usize)
    requires
        forall|t: T| call_requires(hit, (&t,)),
        forall|t: T, b: bool| call_ensures(hit, (&t,), b) ==> b == p(t),
    ensures
        r == count_where(v@, p),
        r <= v.len(),
{
    let mut n: usize = 0;
    let mut i: usize = 0;
    while i < v.len()
        invariant
            n <= i <= v.len(),
            forall|t: T| call_requires(hit, (&t,)),
            forall|t: T, b: bool| call_ensures(hit, (&t,), b) ==> b == p(t),
            n == count_where(v@.take(i as int), p),
        decreases v.len() - i,
    {
        assert(v@.take(i + 1).drop_last() =~= v@.take(i as int));
        if hit(&v[i]) {
            n += 1;
        }
        i += 1;
    }
    assert(v@.take(i as int) =~= v@);
    n
}

// ---- Stable order --------------------------------------------------------

/// Where an item goes in an ordered list: after every item whose key is not
/// greater.
pub open spec fn place<T>(s: Seq<T>, key: spec_fn(T) -> int, x: T) -> int
    decreases s.len(),
{
    if s.len() > 0 && key(s.last()) > key(x) {
        place(s.drop_last(), key, x)
    } else {
        s.len() as int
    }
}

/// The items in the order of their keys, those of one key in the order they
/// came.
pub open spec fn stable_sorted<T>(s: Seq<T>, key: spec_fn(T) -> int) -> Seq<T>
    decreases s.len(),
{
    if s.len() == 0 {
        s
    } else {
        let t = stable_sorted(s.drop_last(), key);
        t.insert(place(t, key, s.last()), s.last())
    }
}

pub open spec fn ordered_by<T>(s: Seq<T>, key: spec_fn(T) -> int) -> bool {
    forall|i: int, j: int| 0 <= i < j < s.len() ==> key(#[trigger] s[i]) <= key(#[trigger] s[j])
}

proof fn place_bounds<T>(s: Seq<T>, key: spec_fn(T) -> int, x: T)
    ensures
        0 <= place(s, key, x) <= s.len(),
        forall|i: int| place(s, key, x) <= i < s.len() ==> key(#[trigger] s[i]) > key(x),
        place(s, key, x) > 0 ==> key(s[place(s, key, x) - 1]) <= key(x),
    decreases s.len(),
{
    if s.len() > 0 && key(s.last()) > key(x) {
        place_bounds(s.drop_last(), key, x);
        assert forall|i: int| place(s, key, x) <= i < s.len() implies key(#[trigger] s[i]) > key(
            x,
        ) by {
            if i < s.len() - 1 {
                assert(s.drop_last()[i] == s[i]);
            }
        }
    }
}

/// The items come out in the order of their keys, and all of them do.
pub proof fn stable_sorted_orders<T>(s: Seq<T>, key: spec_fn(T) -> int)
    ensures
        ordered_by(stable_sorted(s, key), key),
        stable_sorted(s, key).to_multiset() == s.to_multiset(),
        stable_sorted(s, key).len() == s.len(),
    decreases s.len(),
{
    broadcast use vstd::seq_lib::group_to_multiset_ensures;

    if s.len() > 0 {
        let t = stable_sorted(s.drop_last(), key);
        let x = s.last();
        stable_sorted_orders(s.drop_last(), key);
        place_bounds(t, key, x);
        let at = place(t, key, x);
        let r = t.insert(at, x);
        assert forall|i: int, j: int| 0 <= i < j < r.len() implies key(#[trigger] r[i]) <= key(
            #[trigger] r[j],
        ) by {
            if i < at && at > 0 {
                if i < at - 1 {
                    assert(key(t[i]) <= key(t[at - 1]));
                }
            }
        }
        assert(s.drop_last().push(x) =~= s);
        vstd::seq_lib::to_multiset_insert(t, at, x);
    }
}

proof fn filter_insert<T>(t: Seq<T>, at: int, x: T, p: spec_fn(T) -> bool)
    requires
        0 <= at <= t.len(),
        p(x) ==> forall|i: int| at <= i < t.len() ==> !p(#[trigger] t[i]),
    ensures
        t.insert(at, x).filter(p) == if p(x) {
            t.filter(p).push(x)
        } else {
            t.filter(p)
        },
    decreases t.len() - at,
{
    reveal(Seq::filter);
    let r = t.insert(at, x);
    if at == t.len() {
        assert(r.drop_last() =~= t);
    } else {
        assert(r.drop_last() =~= t.drop_last().insert(at, x));
        assert(r.last() == t.last());
        assert forall|i: int| p(x) && at <= i < t.drop_last().len() implies !p(
            #[trigger] t.drop_last()[i],
        ) by {
            assert(t.drop_last()[i] == t[i]);
        }
        assert(p(x) ==> !p(t[t.len() - 1]));
        filter_insert(t.drop_last(), at, x, p);
    }
}

/// Items of one key keep the order they came in.
pub proof fn stable_sorted_is_stable<T>(s: Seq<T>, key: spec_fn(T) -> int, k: int)
    ensures
        stable_sorted(s, key).filter(|t: T| key(t) == k) == s.filter(|t: T| key(t) == k),
    decreases s.len(),
{
    let p = |t: T| key(t) == k;
    if s.len() > 0 {
        let t = stable_sorted(s.drop_last(), key);
        let x = s.last();
        stable_sorted_is_stable(s.drop_last(), key, k);
        place_bounds(t, key, x);
        let at = place(t, key, x);
        assert forall|i: int| p(x) && at <= i < t.len() implies !p(#[trigger] t[i]) by {}
        filter_insert(t, at, x, p);
        assert(s.filter(p) == if p(x) {
            s.drop_last().filter(p).push(x)
        } else {
            s.drop_last().filter(p)
        }) by {
            reveal(Seq::filter);
        }
    }
}

/// Order by key, oldest arrival first among equals.
pub(crate) fn sort_by_key<'a, T>(
    v: Vec<&'a T>,
    key: impl Fn(&T) -> i128,
    Ghost(k): Ghost<spec_fn(T) -> int>,
) -> (r: Vec<&'a T>)
    requires
        forall|t: T| call_requires(key, (&t,)),
        forall|t: T, n: i128| call_ensures(key, (&t,), n) ==> n == k(t),
    ensures
        derefs(r@) == stable_sorted(derefs(v@), k),
{
    let mut out: Vec<&'a T> = Vec::new();
    let mut i: usize = 0;
    let ghost all = derefs(v@);
    assert(derefs(out@) =~= stable_sorted(all.take(0), k));
    while i < v.len()
        invariant
            i <= v.len(),
            all == derefs(v@),
            forall|t: T| call_requires(key, (&t,)),
            forall|t: T, n: i128| call_ensures(key, (&t,), n) ==> n == k(t),
            derefs(out@) == stable_sorted(all.take(i as int), k),
        decreases v.len() - i,
    {
        let x = v[i];
        let xk: i128 = key(x);
        let mut at: usize = out.len();
        let ghost now = derefs(out@);
        assert(now.take(at as int) =~= now);
        loop
            invariant
                at <= out.len(),
                now == derefs(out@),
                xk == k(*x),
                forall|t: T| call_requires(key, (&t,)),
                forall|t: T, n: i128| call_ensures(key, (&t,), n) ==> n == k(t),
                place(now, k, *x) == place(now.take(at as int), k, *x),
            ensures
                at <= out.len(),
                place(now, k, *x) == at,
            decreases at,
        {
            if at == 0 {
                break ;
            }
            let other: i128 = key(out[at - 1]);
            assert(now.take(at as int).last() == *out@[at - 1]);
            if other <= xk {
                break ;
            }
            assert(now.take(at as int).drop_last() =~= now.take(at - 1));
            at -= 1;
        }
        out.insert(at, x);
        assert(derefs(out@) =~= now.insert(at as int, *x));
        assert(all.take(i + 1).drop_last() =~= all.take(i as int));
        i += 1;
    }
    assert(all.take(i as int) =~= all);
    out
}

/// The items without a property before those with it, each group in the order
/// it came.
pub open spec fn sunk<T>(s: Seq<T>, p: spec_fn(T) -> bool) -> Seq<T> {
    s.filter(|t: T| !p(t)) + s.filter(p)
}

pub(crate) fn sink<'a, T>(
    v: Vec<&'a T>,
    hit: impl Fn(&T) -> bool,
    Ghost(p): Ghost<spec_fn(T) -> bool>,
) -> (r: Vec<&'a T>)
    requires
        forall|t: T| call_requires(hit, (&t,)),
        forall|t: T, b: bool| call_ensures(hit, (&t,), b) ==> b == p(t),
    ensures
        derefs(r@) == sunk(derefs(v@), p),
{
    let mut above: Vec<&'a T> = Vec::new();
    let mut below: Vec<&'a T> = Vec::new();
    let ghost np = |t: T| !p(t);
    let ghost all = derefs(v@);
    let mut i: usize = 0;
    proof {
        assert(all.take(0) =~= Seq::empty());
        reveal(Seq::filter);
        assert(derefs(above@) =~= all.take(0).filter(np));
        assert(derefs(below@) =~= all.take(0).filter(p));
    }
    while i < v.len()
        invariant
            i <= v.len(),
            np == (|t: T| !p(t)),
            all == derefs(v@),
            forall|t: T| call_requires(hit, (&t,)),
            forall|t: T, b: bool| call_ensures(hit, (&t,), b) ==> b == p(t),
            derefs(above@) == all.take(i as int).filter(np),
            derefs(below@) == all.take(i as int).filter(p),
        decreases v.len() - i,
    {
        let ghost a0 = above@;
        let ghost b0 = below@;
        proof {
            assert(all.take(i + 1).drop_last() =~= all.take(i as int));
            reveal(Seq::filter);
        }
        if hit(v[i]) {
            below.push(v[i]);
            assert(derefs(below@) =~= derefs(b0).push(all[i as int]));
        } else {
            above.push(v[i]);
            assert(derefs(above@) =~= derefs(a0).push(all[i as int]));
        }
        i += 1;
    }
    assert(all.take(i as int) =~= all);
    let ghost a1 = above@;
    let ghost b1 = below@;
    above.append(&mut below);
    assert(derefs(above@) =~= derefs(a1) + derefs(b1));
    above
}

/// Sinking moves items but keeps every one of them.
pub proof fn sunk_keeps_all<T>(s: Seq<T>, p: spec_fn(T) -> bool)
    ensures
        sunk(s, p).to_multiset() == s.to_multiset(),
    decreases s.len(),
{
    broadcast use vstd::seq_lib::group_to_multiset_ensures;

    let np = |t: T| !p(t);
    reveal(Seq::filter);
    if s.len() == 0 {
        assert(sunk(s, p) =~= s);
    } else {
        let t = s.drop_last();
        let x = s.last();
        sunk_keeps_all(t, p);
        assert(t.push(x) =~= s);
        if p(x) {
            assert(sunk(s, p) =~= sunk(t, p).push(x));
        } else {
            let at = t.filter(np).len() as int;
            assert(sunk(s, p) =~= sunk(t, p).insert(at, x));
            vstd::seq_lib::to_multiset_insert(sunk(t, p), at, x);
        }
    }
}

/// What a filter keeps: the members that pass, all of them and no other.
pub proof fn a_filter_keeps_what_passes<T>(s: Seq<T>, f: spec_fn(T) -> bool, x: T)
    ensures
        s.filter(f).contains(x) <==> s.contains(x) && f(x),
        (forall|i: int| 0 <= i < s.len() ==> f(#[trigger] s[i])) ==> s.filter(f) == s,
    decreases s.len(),
{
    reveal(Seq::filter);
    if s.len() > 0 {
        let t = s.drop_last();
        a_filter_keeps_what_passes(t, f, x);
        assert(s =~= t.push(s.last()));
        push_contains(t, s.last(), x);
        push_contains(t.filter(f), s.last(), x);
        if forall|i: int| 0 <= i < s.len() ==> f(#[trigger] s[i]) {
            assert forall|i: int| 0 <= i < t.len() implies f(#[trigger] t[i]) by {
                assert(t[i] == s[i]);
            }
            assert(f(s[s.len() - 1]));
        }
    }
}

proof fn push_contains<T>(s: Seq<T>, y: T, x: T)
    ensures
        s.push(y).contains(x) <==> s.contains(x) || x == y,
{
    if s.contains(x) {
        let i = s.index_of(x);
        assert(s.push(y)[i] == x);
    }
    assert(s.push(y)[s.len() as int] == y);
}

/// A sequence put together from two holds what either holds.
pub proof fn joined_contains<T>(a: Seq<T>, b: Seq<T>, x: T)
    ensures
        (a + b).contains(x) <==> a.contains(x) || b.contains(x),
{
    if a.contains(x) {
        let i = a.index_of(x);
        assert((a + b)[i] == x);
    }
    if b.contains(x) {
        let i = b.index_of(x);
        assert((a + b)[a.len() + i] == x);
    }
}

/// What comes in takes the place of the first of its kind, or the end; nothing else
/// changes.
pub proof fn an_upsert_replaces_or_adds<T>(s: Seq<T>, x: T, same: spec_fn(T) -> bool, i: int)
    ensures
        ({
            let known = exists|j: int| 0 <= j < s.len() && same(#[trigger] s[j]);
            let r = upserted(s, x, same);
            &&& r.contains(x)
            &&& r.len() == s.len() + (if known {
                0int
            } else {
                1int
            })
            &&& !known ==> r.last() == x
            &&& 0 <= i < s.len() && !same(s[i]) ==> r[i] == s[i]
        }),
{
    first_where_is_first(s, same);
    let r = upserted(s, x, same);
    match first_where(s, same) {
        Some(j) => {
            assert(r[j] == x);
            assert(same(s[j]));
        },
        None => {
            assert(r[s.len() as int] == x);
        },
    }
}

/// A filter keeps the order of what it keeps.
pub proof fn a_filter_keeps_order<T>(s: Seq<T>, f: spec_fn(T) -> bool, key: spec_fn(T) -> int)
    requires
        ordered_by(s, key),
    ensures
        ordered_by(s.filter(f), key),
    decreases s.len(),
{
    reveal(Seq::filter);
    if s.len() > 0 {
        let t = s.drop_last();
        assert forall|i: int, j: int| 0 <= i < j < t.len() implies key(#[trigger] t[i]) <= key(
            #[trigger] t[j],
        ) by {
            assert(t[i] == s[i] && t[j] == s[j]);
        }
        a_filter_keeps_order(t, f, key);
        let kept = t.filter(f);
        let r = s.filter(f);
        if f(s.last()) {
            assert forall|i: int, j: int| 0 <= i < j < r.len() implies key(#[trigger] r[i]) <= key(
                #[trigger] r[j],
            ) by {
                if j == kept.len() {
                    a_filter_keeps_what_passes(t, f, kept[i]);
                    assert(kept.contains(kept[i]));
                    let k = t.index_of(kept[i]);
                    assert(s[k] == kept[i]);
                    assert(key(s[k]) <= key(s[s.len() - 1]));
                } else {
                    assert(r[i] == kept[i] && r[j] == kept[j]);
                }
            }
        }
    }
}

/// Filtering twice is filtering for both.
pub proof fn filters_combine<T>(s: Seq<T>, f: spec_fn(T) -> bool, g: spec_fn(T) -> bool)
    ensures
        s.filter(f).filter(g) == s.filter(|t: T| f(t) && g(t)),
    decreases s.len(),
{
    reveal(Seq::filter);
    let both = |t: T| f(t) && g(t);
    if s.len() == 0 {
        assert(s.filter(f).filter(g) =~= s.filter(both));
    } else {
        let t = s.drop_last();
        filters_combine(t, f, g);
        if f(s.last()) {
            assert(t.filter(f).push(s.last()).drop_last() =~= t.filter(f));
        }
    }
}

/// Sinking keeps the order within what sinks and within what stays.
pub proof fn sinking_keeps_order<T>(
    s: Seq<T>,
    p: spec_fn(T) -> bool,
    key: spec_fn(T) -> int,
    i: int,
    j: int,
)
    requires
        ordered_by(s, key),
        0 <= i < j < sunk(s, p).len(),
        p(sunk(s, p)[i]) == p(sunk(s, p)[j]),
    ensures
        key(sunk(s, p)[i]) <= key(sunk(s, p)[j]),
{
    let np = |t: T| !p(t);
    let a = s.filter(np);
    let b = s.filter(p);
    a_filter_keeps_order(s, np, key);
    a_filter_keeps_order(s, p, key);
    if i < a.len() {
        a_filter_keeps_what_passes(s, np, a[i]);
        assert(a.contains(a[i]));
    } else {
        a_filter_keeps_what_passes(s, p, b[i - a.len()]);
        assert(b.contains(b[i - a.len()]));
    }
    if j < a.len() {
        a_filter_keeps_what_passes(s, np, a[j]);
        assert(a.contains(a[j]));
    } else {
        a_filter_keeps_what_passes(s, p, b[j - a.len()]);
        assert(b.contains(b[j - a.len()]));
    }
}

/// What sinks lies below what stays.
pub proof fn sinking_parts<T>(s: Seq<T>, p: spec_fn(T) -> bool, i: int, j: int)
    requires
        0 <= i < j < sunk(s, p).len(),
        p(sunk(s, p)[i]),
    ensures
        p(sunk(s, p)[j]),
{
    let np = |t: T| !p(t);
    let a = s.filter(np);
    let b = s.filter(p);
    if i < a.len() {
        a_filter_keeps_what_passes(s, np, a[i]);
        assert(a.contains(a[i]));
    } else {
        a_filter_keeps_what_passes(s, p, b[j - a.len()]);
        assert(b.contains(b[j - a.len()]));
    }
}

/// A count of two lists is the sum of their counts; one item counts once if it has the
/// property; nothing is counted exactly where nothing has it.
pub proof fn counts_add_up<T>(a: Seq<T>, b: Seq<T>, x: T, p: spec_fn(T) -> bool)
    ensures
        count_where(a + b, p) == count_where(a, p) + count_where(b, p),
        count_where(seq![x], p) == (if p(x) {
            1nat
        } else {
            0nat
        }),
        count_where(a, p) == 0 <==> forall|i: int| 0 <= i < a.len() ==> !p(#[trigger] a[i]),
{
    sum_of_counts(a, b, p);
    assert(seq![x].drop_last() =~= Seq::empty());
    reveal_with_fuel(count_where, 2);
    none_counted(a, p);
}

proof fn sum_of_counts<T>(a: Seq<T>, b: Seq<T>, p: spec_fn(T) -> bool)
    ensures
        count_where(a + b, p) == count_where(a, p) + count_where(b, p),
    decreases b.len(),
{
    if b.len() == 0 {
        assert(a + b =~= a);
    } else {
        assert((a + b).drop_last() =~= a + b.drop_last());
        sum_of_counts(a, b.drop_last(), p);
    }
}

proof fn none_counted<T>(a: Seq<T>, p: spec_fn(T) -> bool)
    ensures
        count_where(a, p) == 0 <==> forall|i: int| 0 <= i < a.len() ==> !p(#[trigger] a[i]),
    decreases a.len(),
{
    if a.len() > 0 {
        let t = a.drop_last();
        none_counted(t, p);
        if count_where(a, p) == 0 {
            assert forall|i: int| 0 <= i < a.len() implies !p(#[trigger] a[i]) by {
                if i < t.len() {
                    assert(t[i] == a[i]);
                }
            }
        }
        if forall|i: int| 0 <= i < a.len() ==> !p(#[trigger] a[i]) {
            assert forall|i: int| 0 <= i < t.len() implies !p(#[trigger] t[i]) by {
                assert(t[i] == a[i]);
            }
            assert(!p(a[a.len() - 1]));
        }
    }
}

} // verus!
