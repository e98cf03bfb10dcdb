//! The find bar: a query that filters the boards by title.

use vstd::prelude::*;

use crate::outside::{lower, lowercase};
use crate::text::{
    blank, blank_is_empty_trim, chars_of, find_slice, is_blank, parts_are_found, trim, trimmed,
    trimming_leaves_the_text, white, within,
};

verus! {

/// The active query: the box is open and its text is not blank. A closed box
/// never filters.
pub fn query(search: &Option<String>) -> (r: Option<String>)
    ensures
        match r {
            Some(q) => search is Some && q@ == search->0@ && !blank(search->0@),
            None => search is None || blank(search->0@),
        },
{
    match search {
        Some(q) if !is_blank(q.as_str()) => Some(q.clone()),
        _ => None,
    }
}

/// Whether one text occurs in another.
pub fn contains_text(text: &str, needle: &str) -> (r: bool)
    ensures
        r == within(text@, needle@),
{
    let t = chars_of(text);
    let n = chars_of(needle);
    find_slice(t.as_slice(), n.as_slice()).is_some()
}

/// A title matches a query that occurs in it, letter case and the white space
/// around the query aside.
pub open spec fn title_matches(title: Seq<char>, q: Seq<char>) -> bool {
    within(lower(title), lower(trimmed(q)))
}

pub fn matches(title: &str, q: &str) -> (r: bool)
    ensures
        r == title_matches(title@, q@),
{
    let t = lowercase(title);
    let trimmed_q = trim(q);
    let n = lowercase(trimmed_q.as_str());
    contains_text(t.as_str(), n.as_str())
}

/// The shortcut: open the box empty, or leave an open one as it is. Whether it
/// was open already, in which case it takes the focus.
pub fn open(search: &mut Option<String>) -> (was_open: bool)
    ensures
        was_open == (*old(search) is Some),
        was_open ==> *final(search) == *old(search),
        !was_open ==> *final(search) is Some && final(search)->0@ == Seq::<char>::empty(),
{
    match search {
        Some(_) => true,
        None => {
            *search = Some(String::new());
            false
        },
    }
}

pub fn close(search: &mut Option<String>)
    ensures
        *final(search) is None,
{
    *search = None;
}

// ---- Laws ----------------------------------------------------------------

/// White space around a query changes nothing, a blank one lets everything through, and
/// a title is found by itself.
pub proof fn a_query_is_read_bare(title: Seq<char>, a: Seq<char>, q: Seq<char>, b: Seq<char>)
    requires
        blank(a),
        blank(b),
        q.len() > 0 ==> !white(q[0]) && !white(q.last()),
    ensures
        title_matches(title, a + q + b) == title_matches(title, q),
        title_matches(q, q),
        title_matches(q, a + q + b),
{
    trimming_leaves_the_text(a, q, b);
    let e = Seq::<char>::empty();
    trimming_leaves_the_text(e, q, e);
    assert(e + q + e =~= q);
    parts_are_found(e, lower(q), e);
    assert(e + lower(q) + e =~= lower(q));
}

/// A search counts where something but white space is typed.
pub proof fn a_blank_search_is_none(search: Option<String>, r: Option<String>)
    requires
        call_ensures(query, (&search,), r),
    ensures
        r is Some <==> search is Some && trimmed(search->0@).len() > 0,
        r matches Some(q) ==> q@ == search->0@,
{
    if let Some(s) = search {
        blank_is_empty_trim(s@);
    }
}

} // verus!
