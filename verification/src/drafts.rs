//! Typed-but-unsent input that must outlive its panel: one map keyed by owner
//! and field name.
//!
//! A value equal to its seed is removed from the map, so an untouched or
//! just-sent field never shadows a fresher seed. A working copy of agent output
//! is stored with a fingerprint of what it edits, and is restored only while
//! that still matches. Drafts die with their owner.

use vstd::prelude::*;

use crate::lists::{
    filter_from, filter_keeps, first_where, first_where_is_first, position, retain,
};
use crate::markdown::texts;
use crate::model::Id;
use crate::outside::{
    json_pair, json_pair_read, json_pair_text, json_string, json_string_text, json_unpair,
};
use crate::text::same_text;

verus! {

/// One draft slot: the card or review it belongs to, and a field name.
#[derive(Debug, Clone, Copy, PartialEq, Eq)]
pub struct DraftKey {
    pub owner: Id,
    pub field: &'static str,
}

impl View for DraftKey {
    type V = (Id, Seq<char>);

    open spec fn view(&self) -> (Id, Seq<char>) {
        (self.owner, self.field@)
    }
}

struct Entry {
    key: DraftKey,
    value: String,
}

/// The drafts, at most one per slot.
pub struct DraftMap {
    entries: Vec<Entry>,
}

spec fn distinct(s: Seq<Entry>) -> bool {
    forall|i: int, j: int|
        0 <= i < j < s.len() ==> (#[trigger] s[i]).key@ != (#[trigger] s[j]).key@
}

spec fn at_key(k: (Id, Seq<char>)) -> spec_fn(Entry) -> bool {
    |e: Entry| e.key@ == k
}

spec fn contents(s: Seq<Entry>) -> Map<(Id, Seq<char>), Seq<char>> {
    Map::new(
        |k: (Id, Seq<char>)| first_where(s, at_key(k)) is Some,
        |k: (Id, Seq<char>)| s[first_where(s, at_key(k))->0].value@,
    )
}

impl View for DraftMap {
    type V = Map<(Id, Seq<char>), Seq<char>>;

    closed spec fn view(&self) -> Map<(Id, Seq<char>), Seq<char>> {
        contents(self.entries@)
    }
}

proof fn lookup(s: Seq<Entry>, k: (Id, Seq<char>), i: int)
    requires
        distinct(s),
        0 <= i < s.len(),
        s[i].key@ == k,
    ensures
        first_where(s, at_key(k)) == Some(i),
        contents(s).contains_key(k),
        contents(s)[k] == s[i].value@,
{
    first_where_is_first(s, at_key(k));
}

proof fn absent(s: Seq<Entry>, k: (Id, Seq<char>))
    requires
        forall|i: int| 0 <= i < s.len() ==> (#[trigger] s[i]).key@ != k,
    ensures
        !contents(s).contains_key(k),
{
    first_where_is_first(s, at_key(k));
}

/// Two lists with the same entry (or none) for a key agree on that key.
proof fn agree(s: Seq<Entry>, t: Seq<Entry>, k: (Id, Seq<char>))
    requires
        distinct(s),
        distinct(t),
        forall|i: int|
            0 <= i < s.len() && (#[trigger] s[i]).key@ == k ==> exists|j: int|
                0 <= j < t.len() && #[trigger] t[j] == s[i],
        forall|j: int|
            0 <= j < t.len() && (#[trigger] t[j]).key@ == k ==> exists|i: int|
                0 <= i < s.len() && #[trigger] s[i] == t[j],
    ensures
        contents(s).contains_key(k) == contents(t).contains_key(k),
        contents(s).contains_key(k) ==> contents(s)[k] == contents(t)[k],
{
    first_where_is_first(s, at_key(k));
    first_where_is_first(t, at_key(k));
    if let Some(i) = first_where(s, at_key(k)) {
        let j = choose|j: int| 0 <= j < t.len() && #[trigger] t[j] == s[i];
        lookup(t, k, j);
    }
    if let Some(j) = first_where(t, at_key(k)) {
        let i = choose|i: int| 0 <= i < s.len() && #[trigger] s[i] == t[j];
        lookup(s, k, i);
    }
}

impl DraftMap {
    #[verifier::type_invariant]
    spec fn inv(self) -> bool {
        distinct(self.entries@)
    }

    pub fn new() -> (r: DraftMap)
        ensures
            r@ == Map::<(Id, Seq<char>), Seq<char>>::empty(),
    {
        let r = DraftMap { entries: Vec::new() };
        assert(r@ =~= Map::<(Id, Seq<char>), Seq<char>>::empty());
        r
    }

    /// How many drafts are held.
    pub fn len(&self) -> (r: usize)
        ensures
            r == self@.len(),
            self@.dom().finite(),
    {
        proof {
            use_type_invariant(self);
            keys_counted(self.entries@);
        }
        self.entries.len()
    }

    pub fn is_empty(&self) -> (r: bool)
        ensures
            r == (self@ == Map::<(Id, Seq<char>), Seq<char>>::empty()),
    {
        proof {
            use_type_invariant(self);
            if self.entries@.len() > 0 {
                lookup(self.entries@, self.entries@[0].key@, 0);
            } else {
                assert(self@ =~= Map::<(Id, Seq<char>), Seq<char>>::empty());
            }
        }
        self.entries.len() == 0
    }

    fn find(&self, key: DraftKey) -> (r: Option<usize>)
        ensures
            match r {
                Some(i) => i < self.entries.len() && self.entries@[i as int].key@ == key@
                    && self@.contains_key(key@) && self@[key@] == self.entries@[i as int].value@,
                None => !self@.contains_key(key@) && forall|i: int|
                    0 <= i < self.entries@.len() ==> (#[trigger] self.entries@[i]).key@ != key@,
            },
    {
        proof {
            first_where_is_first(self.entries@, at_key(key@));
        }
        let hit = |e: &Entry| -> (b: bool)
            ensures
                b == (e.key@ == key@),
        {
            e.key.owner == key.owner && same_text(e.key.field, key.field)
        };
        position(&self.entries, hit, Ghost(at_key(key@)))
    }

    fn remove(&mut self, key: DraftKey)
        ensures
            final(self)@ == old(self)@.remove(key@),
    {
        proof {
            use_type_invariant(&*self);
        }
        let mut entries: Vec<Entry> = Vec::new();
        let found = self.find(key);
        std::mem::swap(&mut entries, &mut self.entries);
        let ghost before = entries@;
        match found {
            Some(i) => {
                entries.remove(i);
                proof {
                    let after = entries@;
                    assert(after =~= before.remove(i as int));
                    assert(distinct(after));
                    assert forall|k: (Id, Seq<char>)|
                        #![trigger contents(after).dom().contains(k)]
                        #![trigger contents(after)[k]]
                        k != key@ implies contents(after).dom().contains(k) == contents(
                        before,
                    ).dom().contains(k) && (contents(before).dom().contains(k) ==> contents(
                        after,
                    )[k] == contents(before)[k]) by {
                        assert forall|j: int|
                            0 <= j < before.len() && (#[trigger] before[j]).key@
                                == k implies exists|m: int|
                            0 <= m < after.len() && #[trigger] after[m] == before[j] by {
                            let m = if j < i {
                                j
                            } else {
                                j - 1
                            };
                            assert(after[m] == before[j]);
                        }
                        assert forall|m: int|
                            0 <= m < after.len() && (#[trigger] after[m]).key@
                                == k implies exists|j: int|
                            0 <= j < before.len() && #[trigger] before[j] == after[m] by {
                            let j = if m < i {
                                m
                            } else {
                                m + 1
                            };
                            assert(before[j] == after[m]);
                        }
                        agree(before, after, k);
                    }
                    absent(after, key@);
                    assert(contents(after) =~= contents(before).remove(key@));
                }
            },
            None => {
                assert(contents(before).remove(key@) =~= contents(before));
            },
        }
        self.entries = entries;
    }

    fn insert(&mut self, key: DraftKey, value: String)
        ensures
            final(self)@ == old(self)@.insert(key@, value@),
    {
        self.remove(key);
        proof {
            use_type_invariant(&*self);
        }
        let ghost mid = self.entries@;
        let mut entries: Vec<Entry> = Vec::new();
        std::mem::swap(&mut entries, &mut self.entries);
        proof {
            assert forall|i: int| 0 <= i < mid.len() implies (#[trigger] mid[i]).key@ != key@ by {
                if mid[i].key@ == key@ {
                    lookup(mid, key@, i);
                }
            }
        }
        entries.push(Entry { key, value });
        proof {
            let after = entries@;
            assert(distinct(after));
            lookup(after, key@, mid.len() as int);
            assert forall|k: (Id, Seq<char>)|
                #![trigger contents(after).dom().contains(k)]
                #![trigger contents(after)[k]]
                k != key@ implies contents(after).dom().contains(k) == contents(
                mid,
            ).dom().contains(k) && (contents(mid).dom().contains(k) ==> contents(after)[k]
                == contents(mid)[k]) by {
                assert forall|j: int| 0 <= j < mid.len() && (#[trigger] mid[j]).key@
                    == k implies exists|m: int| 0 <= m < after.len() && #[trigger] after[m] == mid[j] by {
                    assert(after[j] == mid[j]);
                }
                assert forall|m: int| 0 <= m < after.len() && (#[trigger] after[m]).key@
                    == k implies exists|j: int| 0 <= j < mid.len() && #[trigger] mid[j] == after[m] by {
                    assert(mid[m] == after[m]);
                }
                agree(mid, after, k);
            }
            assert(contents(after) =~= contents(mid).insert(key@, value@));
        }
        self.entries = entries;
        assert(self@ =~= old(self)@.insert(key@, value@));
    }
}

proof fn keys_counted(s: Seq<Entry>)
    requires
        distinct(s),
    ensures
        contents(s).dom().finite(),
        contents(s).len() == s.len(),
    decreases s.len(),
{
    if s.len() == 0 {
        assert(contents(s) =~= Map::<(Id, Seq<char>), Seq<char>>::empty());
    } else {
        let t = s.drop_last();
        let k = s.last().key@;
        keys_counted(t);
        absent(t, k);
        lookup(s, k, s.len() - 1);
        assert forall|j: (Id, Seq<char>)| j != k implies contents(s).contains_key(j) == contents(
            t,
        ).contains_key(j) by {
            assert forall|i: int| 0 <= i < t.len() && (#[trigger] t[i]).key@
                == j implies exists|m: int| 0 <= m < s.len() && #[trigger] s[m] == t[i] by {
                assert(s[i] == t[i]);
            }
            assert forall|m: int| 0 <= m < s.len() && (#[trigger] s[m]).key@
                == j implies exists|i: int| 0 <= i < t.len() && #[trigger] t[i] == s[m] by {
                assert(t[m] == s[m]);
            }
            agree(t, s, j);
        }
        assert(contents(s).dom() =~= contents(t).dom().insert(k));
    }
}

/// The draft in a slot, if there is one.
pub fn restore_str(map: &DraftMap, key: DraftKey) -> (r: Option<String>)
    ensures
        match r {
            Some(v) => map@.contains_key(key@) && v@ == map@[key@],
            None => !map@.contains_key(key@),
        },
{
    match map.find(key) {
        Some(i) => Some(map.entries[i].value.clone()),
        None => None,
    }
}

/// The drafts once a field with this seed reads `value`.
pub open spec fn mirrored(
    map: Map<(Id, Seq<char>), Seq<char>>,
    key: (Id, Seq<char>),
    value: Seq<char>,
    seed: Seq<char>,
) -> Map<(Id, Seq<char>), Seq<char>> {
    if value == seed {
        map.remove(key)
    } else {
        map.insert(key, value)
    }
}

/// Keep the draft of a field that now reads `value`; one back at its seed is
/// dropped.
pub fn mirror_str(map: &mut DraftMap, key: DraftKey, value: String, seed: &str)
    ensures
        final(map)@ == mirrored(old(map)@, key@, value@, seed@),
{
    if same_text(value.as_str(), seed) {
        map.remove(key);
    } else {
        map.insert(key, value);
    }
}

/// What a typed draft restores to, given what its slot holds: the value stored
/// with this very fingerprint.
pub open spec fn typed_value(raw: Option<Seq<char>>, origin_fp: Seq<char>) -> Option<
    Seq<Seq<char>>,
> {
    match raw {
        Some(s) => match json_pair_read(s) {
            Some((fp, value)) => if fp == origin_fp {
                Some(value)
            } else {
                None
            },
            None => None,
        },
        None => None,
    }
}

/// What a slot holds.
pub open spec fn slot(
    map: Map<(Id, Seq<char>), Seq<char>>,
    key: (Id, Seq<char>),
) -> Option<Seq<char>> {
    if map.contains_key(key) {
        Some(map[key])
    } else {
        None
    }
}

/// A typed draft is stored as JSON, its origin's fingerprint with the value;
/// restoring gives the value only while the fingerprint still matches. A slot
/// that is empty or cannot be read restores nothing, and what [`mirror_typed`]
/// stored for this origin comes back as it was.
pub fn restore_typed(map: &DraftMap, key: DraftKey, origin_fp: &str) -> (r: Option<Vec<String>>)
    ensures
        match r {
            Some(v) => typed_value(slot(map@, key@), origin_fp@) == Some(texts(v@)),
            None => typed_value(slot(map@, key@), origin_fp@) is None,
        },
        forall|fp: Seq<char>, value: Seq<Seq<char>>|
            slot(map@, key@) == Some(#[trigger] json_pair_text(fp, value)) ==> match r {
                Some(v) => fp == origin_fp@ && texts(v@) == value,
                None => fp != origin_fp@,
            },
{
    match map.find(key) {
        None => None,
        Some(i) => match json_unpair(map.entries[i].value.as_str()) {
            None => None,
            Some((fp, value)) => if same_text(fp.as_str(), origin_fp) {
                Some(value)
            } else {
                None
            },
        },
    }
}

/// Whether two lists of texts are equal.
pub fn same_texts(a: &Vec<String>, b: &Vec<String>) -> (r: bool)
    ensures
        r == (texts(a@) == texts(b@)),
{
    if a.len() != b.len() {
        assert(texts(a@).len() != texts(b@).len());
        return false;
    }
    let mut i: usize = 0;
    while i < a.len()
        invariant
            i <= a.len(),
            a.len() == b.len(),
            forall|j: int| 0 <= j < i ==> (#[trigger] a@[j])@ == b@[j]@,
        decreases a.len() - i,
    {
        if !same_text(a[i].as_str(), b[i].as_str()) {
            assert(texts(a@)[i as int] != texts(b@)[i as int]);
            return false;
        }
        i += 1;
    }
    assert(texts(a@) =~= texts(b@));
    true
}

/// Keep a working copy of agent output with the fingerprint of that output; one
/// back at its seed is dropped.
pub fn mirror_typed(
    map: &mut DraftMap,
    key: DraftKey,
    origin_fp: &str,
    value: &Vec<String>,
    seed: &Vec<String>,
)
    ensures
        final(map)@ == (if texts(value@) == texts(seed@) {
            old(map)@.remove(key@)
        } else {
            old(map)@.insert(key@, json_pair_text(origin_fp@, texts(value@)))
        }),
{
    if same_texts(value, seed) {
        map.remove(key);
    } else if let Some(raw) = json_pair(origin_fp, value) {
        map.insert(key, raw);
    }
}

/// The fingerprint of a text that a draft is a working copy of.
pub fn origin_of(text: &str) -> (r: String)
    ensures
        r@ == json_string_text(text@),
{
    match json_string(text) {
        Some(fp) => fp,
        None => String::new(),
    }
}

/// What a text field opens with: its draft, or else its seed.
pub fn use_draft(map: &DraftMap, owner: Id, field: &'static str, seed: String) -> (r: String)
    ensures
        r@ == (match slot(map@, (owner, field@)) {
            Some(v) => v,
            None => seed@,
        }),
{
    match restore_str(map, DraftKey { owner, field }) {
        Some(v) => v,
        None => seed,
    }
}

/// What a working copy of agent output opens with: its draft, while that is of
/// the same output, or else its seed.
pub fn use_draft_of(
    map: &DraftMap,
    owner: Id,
    field: &'static str,
    origin_fp: &str,
    seed: Vec<String>,
) -> (r: Vec<String>)
    ensures
        texts(r@) == (match typed_value(slot(map@, (owner, field@)), origin_fp@) {
            Some(v) => v,
            None => texts(seed@),
        }),
{
    match restore_typed(map, DraftKey { owner, field }, origin_fp) {
        Some(v) => v,
        None => seed,
    }
}

/// Drop one field's draft.
pub fn forget(map: &mut DraftMap, owner: Id, field: &'static str)
    ensures
        final(map)@ == old(map)@.remove((owner, field@)),
{
    map.remove(DraftKey { owner, field });
}

/// The drafts that are not `owner`'s.
pub open spec fn without_owner(map: Map<(Id, Seq<char>), Seq<char>>, owner: Id) -> Map<
    (Id, Seq<char>),
    Seq<char>,
> {
    map.restrict(Set::new(|k: (Id, Seq<char>)| k.0 != owner))
}

/// The drafts that are none of these owners'.
pub open spec fn without_owners(map: Map<(Id, Seq<char>), Seq<char>>, owners: Set<Id>) -> Map<
    (Id, Seq<char>),
    Seq<char>,
> {
    map.restrict(Set::new(|k: (Id, Seq<char>)| !owners.contains(k.0)))
}

proof fn filter_distinct(s: Seq<Entry>, p: spec_fn(Entry) -> bool)
    requires
        distinct(s),
    ensures
        distinct(s.filter(p)),
    decreases s.len(),
{
    reveal(Seq::filter);
    if s.len() > 0 {
        let t = s.drop_last();
        filter_distinct(t, p);
        assert forall|m: int| 0 <= m < t.filter(p).len() implies (#[trigger] t.filter(p)[m]).key@
            != s.last().key@ by {
            filter_from(t, p, m);
            let i = choose|i: int| 0 <= i < t.len() && t[i] == t.filter(p)[m];
            assert(s[i] == t[i]);
        }
    }
}

/// Drop every draft of `owner`.
pub fn forget_owner_in(map: &mut DraftMap, owner: Id)
    ensures
        final(map)@ == without_owner(old(map)@, owner),
{
    proof {
        use_type_invariant(&*map);
    }
    let ghost before = map.entries@;
    let mut entries: Vec<Entry> = Vec::new();
    std::mem::swap(&mut entries, &mut map.entries);
    let ghost keep = |e: Entry| e.key.owner != owner;
    let stays = |e: &Entry| -> (b: bool)
        ensures
            b == (e.key.owner != owner),
    {
        e.key.owner != owner
    };
    let kept = retain(entries, stays, Ghost(keep));
    proof {
        let after = kept@;
        filter_distinct(before, keep);
        assert forall|k: (Id, Seq<char>)|
            #![trigger contents(after).dom().contains(k)]
            #![trigger contents(after)[k]]
            contents(after).dom().contains(k) == (contents(before).dom().contains(k) && k.0
                != owner) && (contents(after).dom().contains(k) ==> contents(after)[k] == contents(
                before,
            )[k]) by {
            if k.0 != owner {
                assert forall|j: int| 0 <= j < before.len() && (#[trigger] before[j]).key@
                    == k implies exists|m: int| 0 <= m < after.len() && #[trigger] after[m] == before[j] by {
                    assert(before.contains(before[j]) && keep(before[j]));
                    filter_keeps(before, keep, before[j]);
                    assert(after.contains(before[j]));
                }
                assert forall|m: int| 0 <= m < after.len() && (#[trigger] after[m]).key@
                    == k implies exists|j: int| 0 <= j < before.len() && #[trigger] before[j] == after[m] by {
                    filter_from(before, keep, m);
                }
                agree(before, after, k);
            } else {
                assert forall|m: int| 0 <= m < after.len() implies (#[trigger] after[m]).key@
                    != k by {
                    filter_from(before, keep, m);
                }
                absent(after, k);
            }
        }
        assert(contents(after) =~= without_owner(contents(before), owner));
    }
    map.entries = kept;
}

/// Drop every draft of each of these owners.
pub fn forget_owners(map: &mut DraftMap, owners: &Vec<Id>)
    ensures
        final(map)@ == without_owners(old(map)@, owners@.to_set()),
{
    let ghost before = map@;
    let mut i: usize = 0;
    assert(map@ =~= without_owners(before, owners@.take(0).to_set()));
    while i < owners.len()
        invariant
            i <= owners.len(),
            map@ == without_owners(before, owners@.take(i as int).to_set()),
        decreases owners.len() - i,
    {
        let ghost mid = map@;
        let ghost seen = owners@.take(i as int);
        forget_owner_in(map, owners[i]);
        proof {
            let next = owners@.take(i + 1);
            assert(next =~= seen.push(owners@[i as int]));
            assert forall|x: Id| next.to_set().contains(x) <==> (seen.to_set().contains(x) || x
                == owners@[i as int]) by {
                if seen.contains(x) {
                    let j = choose|j: int| 0 <= j < seen.len() && seen[j] == x;
                    assert(next[j] == x);
                }
                assert(next[i as int] == owners@[i as int]);
            }
            assert(map@ =~= without_owners(before, next.to_set()));
        }
        i += 1;
    }
    assert(owners@.take(i as int) =~= owners@);
}

// ---- Laws ----------------------------------------------------------------

/// What a text field opens with.
pub open spec fn opens_with(
    map: Map<(Id, Seq<char>), Seq<char>>,
    key: (Id, Seq<char>),
    seed: Seq<char>,
) -> Seq<char> {
    match slot(map, key) {
        Some(v) => v,
        None => seed,
    }
}

/// A field that is torn down and opened again on the same seed reads what was
/// last typed in it.
pub proof fn typed_text_survives(
    map: Map<(Id, Seq<char>), Seq<char>>,
    key: (Id, Seq<char>),
    value: Seq<char>,
    seed: Seq<char>,
)
    ensures
        opens_with(mirrored(map, key, value, seed), key, seed) == value,
{
}

/// A field back at its seed holds no draft, so a fresher seed shows.
pub proof fn seed_leaves_no_draft(
    map: Map<(Id, Seq<char>), Seq<char>>,
    key: (Id, Seq<char>),
    seed: Seq<char>,
    fresher: Seq<char>,
)
    ensures
        slot(mirrored(map, key, seed, seed), key) is None,
        opens_with(mirrored(map, key, seed, seed), key, fresher) == fresher,
{
}

/// Typing in one field touches no other field's draft.
pub proof fn typing_touches_one_slot(
    map: Map<(Id, Seq<char>), Seq<char>>,
    key: (Id, Seq<char>),
    other: (Id, Seq<char>),
    value: Seq<char>,
    seed: Seq<char>,
)
    requires
        other != key,
    ensures
        slot(mirrored(map, key, value, seed), other) == slot(map, other),
{
}

/// Forgetting an owner empties its slots and leaves every other owner's.
pub proof fn forgetting_spares_others(
    map: Map<(Id, Seq<char>), Seq<char>>,
    owner: Id,
    key: (Id, Seq<char>),
)
    ensures
        slot(without_owner(map, owner), key) == (if key.0 == owner {
            None
        } else {
            slot(map, key)
        }),
{
}

/// Forgetting some owners forgets exactly their texts.
pub proof fn forgetting_owners_spares_others(
    map: Map<(Id, Seq<char>), Seq<char>>,
    owners: Set<Id>,
    key: (Id, Seq<char>),
)
    ensures
        slot(without_owners(map, owners), key) == (if owners.contains(key.0) {
            None
        } else {
            slot(map, key)
        }),
{
}

/// A field opens with what was typed into it, or with its seed where nothing was.
pub proof fn a_field_opens_with_its_draft(
    map: DraftMap,
    owner: Id,
    field: &'static str,
    seed: String,
    r: String,
)
    requires
        call_ensures(use_draft, (&map, owner, field, seed), r),
    ensures
        map@.contains_key((owner, field@)) ==> r@ == map@[(owner, field@)],
        !map@.contains_key((owner, field@)) ==> r@ == seed@,
{
}

/// A typed draft is for what it was drafted on: on anything else it is not read.
pub proof fn a_typed_draft_keeps_its_origin(raw: Option<Seq<char>>, fp: Seq<char>, other: Seq<char>)
    requires
        fp != other,
        typed_value(raw, fp) is Some,
    ensures
        typed_value(raw, other) is None,
        raw is Some,
{
}

} // verus!
