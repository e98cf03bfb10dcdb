//! The rendered diff: the file list, the lines, and the comments threaded into
//! them.

use std::collections::HashSet;

use vstd::prelude::*;

use crate::markdown::{first_line, names, next_lines, same_path};
use crate::model::{
    DiffFile, DiffLineKind, DraftComment, FileStatus, ReviewEvent,
};
use crate::outside::{lower, lowercase};
use crate::search::contains_text;
use crate::text::{
    cat2, cat3, chars_of, decimal, decimal_text, ends, find_is_first, find_last, find_last_is_last,
    find_last_slice, find_slice, parts_are_found, same_text, starts, string_of, within,
};

verus! {

broadcast use vstd::std_specs::hash::group_hash_axioms;

// ---- Files ---------------------------------------------------------------

/// The last part of a path.
pub open spec fn base_name(path: Seq<char>) -> Seq<char> {
    match find_last(path, '/') {
        Some(i) => path.skip(i + 1),
        None => path,
    }
}

/// A file's path as shown: both sides of a rename, otherwise the side that
/// exists.
pub open spec fn shown_path(f: DiffFile) -> Seq<char> {
    match (f.old_path, f.new_path) {
        (Some(o), Some(n)) => if o@ != n@ {
            o@ + " → "@ + n@
        } else {
            n@
        },
        (None, Some(n)) => n@,
        (Some(o), None) => o@,
        (None, None) => "(unknown)"@,
    }
}

/// A file's name for the compact list.
pub open spec fn shown_name(f: DiffFile) -> Seq<char> {
    match (f.old_path, f.new_path) {
        (_, Some(n)) => base_name(n@),
        (Some(o), None) => base_name(o@),
        (None, None) => "(unknown)"@,
    }
}

fn last_part(path: &str) -> (r: String)
    ensures
        r@ == base_name(path@),
{
    let cs = chars_of(path);
    match find_last_slice(cs.as_slice(), '/') {
        Some(i) => {
            proof {
                find_last_is_last(path@, '/');
            }
            let rest = vstd::slice::slice_subrange(cs.as_slice(), i + 1, cs.len());
            assert(rest@ =~= path@.skip(i + 1));
            string_of(rest)
        },
        None => path.to_owned(),
    }
}

pub fn file_name(f: &DiffFile) -> (r: String)
    ensures
        r@ == shown_name(*f),
{
    match (&f.old_path, &f.new_path) {
        (_, Some(n)) => last_part(n.as_str()),
        (Some(o), None) => last_part(o.as_str()),
        (None, None) => "(unknown)".to_owned(),
    }
}

pub fn file_path(f: &DiffFile) -> (r: String)
    ensures
        r@ == shown_path(*f),
{
    match (&f.old_path, &f.new_path) {
        (Some(o), Some(n)) => if !same_text(o.as_str(), n.as_str()) {
            cat3(o.as_str(), " → ", n.as_str())
        } else {
            n.clone()
        },
        (None, Some(n)) => n.clone(),
        (Some(o), None) => o.clone(),
        (None, None) => "(unknown)".to_owned(),
    }
}

/// A file passes the filter if its path holds the needle, letter case aside.
pub open spec fn passes(f: DiffFile, query: Seq<char>) -> bool {
    lower(query).len() == 0 || within(lower(shown_path(f)), lower(query))
}

/// The places of the files that pass the filter, in order.
pub open spec fn passing(files: Seq<DiffFile>, query: Seq<char>) -> Seq<usize>
    decreases files.len(),
{
    if files.len() == 0 {
        Seq::empty()
    } else {
        let before = passing(files.drop_last(), query);
        if passes(files.last(), query) {
            before.push((files.len() - 1) as usize)
        } else {
            before
        }
    }
}

/// The files listed under a filter, by their place in the diff: the place is
/// what scrolling and folding go by.
pub fn listed_files(files: &Vec<DiffFile>, query: &str) -> (r: Vec<usize>)
    ensures
        r@ == passing(files@, query@),
{
    let needle = lowercase(query);
    let any = needle.as_str().is_empty();
    let mut out: Vec<usize> = Vec::new();
    let mut i: usize = 0;
    while i < files.len()
        invariant
            i <= files.len(),
            needle@ == lower(query@),
            any == (needle@.len() == 0),
            out@ == passing(files@.take(i as int), query@),
        decreases files.len() - i,
    {
        let path = file_path(&files[i]);
        let low = lowercase(path.as_str());
        assert(files@.take(i + 1).drop_last() =~= files@.take(i as int));
        if any || contains_text(low.as_str(), needle.as_str()) {
            out.push(i);
        }
        i += 1;
    }
    assert(files@.take(i as int) =~= files@);
    out
}

/// A file is listed exactly if it passes the filter.
pub proof fn listed_if_passing(files: Seq<DiffFile>, query: Seq<char>, i: int)
    requires
        0 <= i < files.len() <= usize::MAX,
    ensures
        passing(files, query).contains(i as usize) == passes(files[i], query),
    decreases files.len(),
{
    let before = passing(files.drop_last(), query);
    let all = passing(files, query);
    passing_below(files.drop_last(), query);
    if i < files.len() - 1 {
        listed_if_passing(files.drop_last(), query, i);
        if before.contains(i as usize) {
            let k = choose|k: int| 0 <= k < before.len() && before[k] == i as usize;
            assert(all[k] == i as usize);
        }
        if all.contains(i as usize) {
            let k = choose|k: int| 0 <= k < all.len() && all[k] == i as usize;
            assert(k < before.len());
            assert(before[k] == i as usize);
        }
    } else {
        if passes(files[i], query) {
            assert(all[before.len() as int] == i as usize);
        }
    }
}

proof fn passing_below(files: Seq<DiffFile>, query: Seq<char>)
    requires
        files.len() <= usize::MAX,
    ensures
        forall|k: int|
            0 <= k < passing(files, query).len() ==> #[trigger] passing(files, query)[k]
                < files.len(),
    decreases files.len(),
{
    if files.len() > 0 {
        let before = passing(files.drop_last(), query);
        let all = passing(files, query);
        passing_below(files.drop_last(), query);
        assert forall|k: int| 0 <= k < all.len() implies #[trigger] all[k] < files.len() by {
            if k < before.len() {
                assert(all[k] == before[k]);
            }
        }
    }
}

/// The first file that a path names.
pub open spec fn named_file(files: Seq<DiffFile>, want: Seq<char>) -> Option<int>
    decreases files.len(),
{
    if files.len() == 0 {
        None
    } else {
        match named_file(files.drop_last(), want) {
            Some(i) => Some(i),
            None => if names(want, shown_path(files.last())) {
                Some(files.len() - 1)
            } else {
                None
            },
        }
    }
}

/// Where an opened diff scrolls to: the comment asked for, or the first file
/// that the path names. A path that the diff does not cover scrolls nowhere.
pub open spec fn scroll_target(
    files: Seq<DiffFile>,
    anchor: Option<Seq<char>>,
    path: Option<Seq<char>>,
) -> Option<Seq<char>> {
    match (anchor, path) {
        (Some(a), _) => Some(a),
        (None, Some(want)) => match named_file(files, want) {
            Some(i) => Some("difffile-"@ + decimal(i as nat)),
            None => None,
        },
        (None, None) => None,
    }
}

pub fn scroll_anchor(
    files: &Vec<DiffFile>,
    scroll_to: &Option<String>,
    scroll_to_path: &Option<String>,
) -> (r: Option<String>)
    ensures
        crate::card::opt_text(r) == scroll_target(
            files@,
            crate::card::opt_text(*scroll_to),
            crate::card::opt_text(*scroll_to_path),
        ),
{
    if let Some(a) = scroll_to {
        return Some(a.clone());
    }
    match scroll_to_path {
        Some(want) => {
            let mut i: usize = 0;
            while i < files.len()
                invariant
                    i <= files.len(),
                    named_file(files@.take(i as int), want@) is None,
                    *scroll_to is None,
                    *scroll_to_path == Some(*want),
                decreases files.len() - i,
            {
                let path = file_path(&files[i]);
                assert(files@.take(i + 1).drop_last() =~= files@.take(i as int));
                if same_path(want.as_str(), path.as_str()) {
                    proof {
                        named_file_stays(files@, i + 1, want@);
                    }
                    return Some(file_anchor(i));
                }
                i += 1;
            }
            assert(files@.take(i as int) =~= files@);
            None
        },
        None => None,
    }
}

proof fn named_file_stays(files: Seq<DiffFile>, n: int, want: Seq<char>)
    requires
        0 <= n <= files.len(),
        named_file(files.take(n), want) is Some,
    ensures
        named_file(files, want) == named_file(files.take(n), want),
    decreases files.len() - n,
{
    if n == files.len() {
        assert(files.take(n) =~= files);
    } else {
        assert(files.take(n + 1).drop_last() =~= files.take(n));
        named_file_stays(files, n + 1, want);
    }
}

/// The element a file's block is scrolled to by.
pub fn file_anchor(i: usize) -> (r: String)
    ensures
        r@ == "difffile-"@ + decimal(i as nat),
{
    let n = decimal_text(i as u64);
    cat2("difffile-", n.as_str())
}

// ---- Folding -------------------------------------------------------------

pub open spec fn folded(s: Set<usize>, i: usize) -> Set<usize> {
    if s.contains(i) {
        s.remove(i)
    } else {
        s.insert(i)
    }
}

/// Fold a file's block, or unfold it.
pub fn toggle_file(collapsed: &mut HashSet<usize>, i: usize)
    ensures
        final(collapsed)@ == folded(old(collapsed)@, i),
{
    if !collapsed.insert(i) {
        collapsed.remove(&i);
        assert(collapsed@ =~= folded(old(collapsed)@, i));
    }
}

/// Going to a file from the list unfolds it.
pub fn reveal_file(collapsed: &mut HashSet<usize>, i: usize)
    ensures
        final(collapsed)@ == old(collapsed)@.remove(i),
{
    collapsed.remove(&i);
}

/// Folding a block twice changes nothing.
pub proof fn folding_twice_is_nothing(s: Set<usize>, i: usize)
    ensures
        folded(folded(s, i), i) == s,
{
    assert(folded(folded(s, i), i) =~= s);
}

// ---- Counts --------------------------------------------------------------

pub open spec fn total_added(files: Seq<DiffFile>) -> nat
    decreases files.len(),
{
    if files.len() == 0 {
        0
    } else {
        total_added(files.drop_last()) + files.last().added as nat
    }
}

pub open spec fn total_removed(files: Seq<DiffFile>) -> nat
    decreases files.len(),
{
    if files.len() == 0 {
        0
    } else {
        total_removed(files.drop_last()) + files.last().removed as nat
    }
}

/// The lines added and removed over every file; nothing for a diff of no files.
pub fn totals(files: &Vec<DiffFile>) -> (r: Option<(u128, u128)>)
    ensures
        files@.len() == 0 ==> r is None,
        files@.len() > 0 ==> r is Some && (r->0).0 == total_added(files@) && (r->0).1
            == total_removed(files@),
{
    if files.len() == 0 {
        return None;
    }
    let mut added: u128 = 0;
    let mut removed: u128 = 0;
    let mut i: usize = 0;
    while i < files.len()
        invariant
            i <= files.len(),
            added == total_added(files@.take(i as int)),
            removed == total_removed(files@.take(i as int)),
            added <= i * u32::MAX,
            removed <= i * u32::MAX,
        decreases files.len() - i,
    {
        assert(files@.take(i + 1).drop_last() =~= files@.take(i as int));
        assert(i * u32::MAX + u32::MAX <= u128::MAX) by (nonlinear_arith)
            requires
                i <= u64::MAX,
        ;
        assert((i + 1) * u32::MAX == i * u32::MAX + u32::MAX) by (nonlinear_arith);
        added = added + files[i].added as u128;
        removed = removed + files[i].removed as u128;
        i += 1;
    }
    assert(files@.take(i as int) =~= files@);
    Some((added, removed))
}

/// The height set aside for a hunk that was not drawn yet, in pixels.
pub fn hunk_height(lines: usize) -> (r: u128)
    ensures
        r == lines * 18 + 24,
{
    lines as u128 * 18 + 24
}

// ---- Lines ---------------------------------------------------------------

pub fn status_glyph(s: FileStatus) -> (r: &'static str)
    ensures
        r@ == (match s {
            FileStatus::Added => "A"@,
            FileStatus::Deleted => "D"@,
            FileStatus::Modified => "M"@,
            FileStatus::Renamed => "R"@,
            FileStatus::Copied => "C"@,
        }),
{
    match s {
        FileStatus::Added => "A",
        FileStatus::Deleted => "D",
        FileStatus::Modified => "M",
        FileStatus::Renamed => "R",
        FileStatus::Copied => "C",
    }
}

pub fn status_class(s: FileStatus) -> (r: &'static str)
    ensures
        r@ == (match s {
            FileStatus::Added => "add"@,
            FileStatus::Deleted => "del"@,
            _ => "mod"@,
        }),
{
    match s {
        FileStatus::Added => "add",
        FileStatus::Deleted => "del",
        _ => "mod",
    }
}

pub fn line_class(k: DiffLineKind) -> (r: &'static str)
    ensures
        r@ == (match k {
            DiffLineKind::Added => "add"@,
            DiffLineKind::Removed => "del"@,
            DiffLineKind::Context => "ctx"@,
        }),
{
    match k {
        DiffLineKind::Added => "add",
        DiffLineKind::Removed => "del",
        DiffLineKind::Context => "ctx",
    }
}

pub fn sign(k: DiffLineKind) -> (r: &'static str)
    ensures
        r@ == (match k {
            DiffLineKind::Added => "+"@,
            DiffLineKind::Removed => "−"@,
            DiffLineKind::Context => " "@,
        }),
{
    match k {
        DiffLineKind::Added => "+",
        DiffLineKind::Removed => "−",
        DiffLineKind::Context => " ",
    }
}

/// A line number, or nothing on the side that has no such line.
pub fn gutter(n: Option<u32>) -> (r: String)
    ensures
        r@ == (match n {
            Some(n) => decimal(n as nat),
            None => Seq::empty(),
        }),
{
    match n {
        Some(n) => decimal_text(n as u64),
        None => String::new(),
    }
}

// ---- Comments in the diff ------------------------------------------------

/// The rows a text fills: one per line, and one more for every 72 characters of
/// it.
pub open spec fn rows(s: Seq<char>) -> nat
    decreases s.len(),
{
    if s.len() == 0 {
        0
    } else {
        proof {
            find_is_first(s, seq!['\n']);
        }
        1 + first_line(s).len() / 72 + rows(next_lines(s))
    }
}

/// How many rows a comment box starts with, between 2 and 24.
pub fn fallback_rows(body: &str) -> (r: usize)
    ensures
        r == (if rows(body@) < 2 {
            2nat
        } else if rows(body@) > 24 {
            24
        } else {
            rows(body@)
        }),
{
    let cs = chars_of(body);
    let all = cs.as_slice();
    let newline: [char; 1] = ['\n'];
    assert(newline@ =~= seq!['\n']);
    let mut n: usize = 0;
    let mut pos: usize = 0;
    assert(all@.skip(0) =~= all@);
    while pos < all.len()
        invariant
            newline@ == seq!['\n'],
            pos <= all.len(),
            all@ == body@,
            n < 24,
            n + rows(all@.skip(pos as int)) == rows(all@),
        decreases all.len() - pos,
    {
        let rest = vstd::slice::slice_subrange(all, pos, all.len());
        assert(rest@ =~= all@.skip(pos as int));
        let (line, after) = match find_slice(rest, newline.as_slice()) {
            Some(i) => {
                let end = if i > 0 && rest[i - 1] == '\r' {
                    i - 1
                } else {
                    i
                };
                assert(rest@.skip(i + 1) =~= all@.skip(pos + i + 1));
                let line = vstd::slice::slice_subrange(rest, 0, end);
                assert(line@ =~= rest@.take(end as int));
                (line, pos + i + 1)
            },
            None => {
                assert(all@.skip(all.len() as int) =~= Seq::empty());
                (rest, all.len())
            },
        };
        assert(line@ == first_line(rest@));
        assert(all@.skip(after as int) == next_lines(rest@));
        let wraps: usize = line.len() / 72;
        if wraps >= 24 || n + 1 + wraps >= 24 {
            return 24;
        }
        n = n + 1 + wraps;
        pos = after;
    }
    if n < 2 {
        2
    } else {
        n
    }
}

pub fn comment_class(c: &DraftComment) -> (r: &'static str)
    ensures
        r@ == (if c.selected {
            "inline-comment"@
        } else {
            "inline-comment is-skipped"@
        }),
{
    if c.selected {
        "inline-comment"
    } else {
        "inline-comment is-skipped"
    }
}

/// Where a drafted comment stands.
pub open spec fn location(path: Seq<char>, line: Option<u32>) -> Seq<char> {
    match line {
        Some(l) => path + ":"@ + decimal(l as nat),
        None => path,
    }
}

pub fn comment_location(path: &str, line: Option<u32>) -> (r: String)
    ensures
        r@ == location(path@, line),
{
    match line {
        Some(l) => {
            let n = decimal_text(l as u64);
            cat3(path, ":", n.as_str())
        },
        None => path.to_owned(),
    }
}

pub open spec fn publish_words(selected: nat) -> Seq<char> {
    if selected == 0 {
        "Publish summary only"@
    } else if selected == 1 {
        "Publish 1 comment"@
    } else {
        "Publish "@ + decimal(selected) + " comments"@
    }
}

pub fn publish_label(selected: usize) -> (r: String)
    ensures
        r@ == publish_words(selected as nat),
{
    if selected == 0 {
        "Publish summary only".to_owned()
    } else if selected == 1 {
        "Publish 1 comment".to_owned()
    } else {
        let n = decimal_text(selected as u64);
        cat3("Publish ", n.as_str(), " comments")
    }
}

// ---- Verdicts ------------------------------------------------------------

/// The stable value of a verdict.
pub open spec fn event_text(e: ReviewEvent) -> Seq<char> {
    match e {
        ReviewEvent::Comment => "comment"@,
        ReviewEvent::RequestChanges => "request-changes"@,
        ReviewEvent::Approve => "approve"@,
    }
}

/// The verdict a value stands for; anything unknown is a plain comment.
pub open spec fn event_of(s: Seq<char>) -> ReviewEvent {
    if s == "approve"@ {
        ReviewEvent::Approve
    } else if s == "request-changes"@ {
        ReviewEvent::RequestChanges
    } else {
        ReviewEvent::Comment
    }
}

pub fn event_value(e: ReviewEvent) -> (r: &'static str)
    ensures
        r@ == event_text(e),
{
    match e {
        ReviewEvent::Comment => "comment",
        ReviewEvent::RequestChanges => "request-changes",
        ReviewEvent::Approve => "approve",
    }
}

pub fn parse_event(s: &str) -> (r: ReviewEvent)
    ensures
        r == event_of(s@),
{
    if same_text(s, "approve") {
        ReviewEvent::Approve
    } else if same_text(s, "request-changes") {
        ReviewEvent::RequestChanges
    } else {
        ReviewEvent::Comment
    }
}

/// A verdict's value reads back as that verdict.
pub proof fn verdicts_round_trip(e: ReviewEvent)
    ensures
        event_of(event_text(e)) == e,
{
    reveal_strlit("approve");
    reveal_strlit("request-changes");
    reveal_strlit("comment");
    assert("comment"@[0] != "approve"@[0]);
    assert("comment"@[0] != "request-changes"@[0]);
    assert("approve"@[0] != "request-changes"@[0]);
}

// ---- Laws ----------------------------------------------------------------

/// A file's name is what stands behind the last slash of its path.
pub proof fn a_name_ends_its_path(path: Seq<char>, dir: Seq<char>, name: Seq<char>)
    ensures
        !base_name(path).contains('/'),
        ends(path, base_name(path)),
        !name.contains('/') ==> base_name(dir + seq!['/'] + name) == name && base_name(name) == name,
{
    find_last_is_last(path, '/');
    match find_last(path, '/') {
        Some(i) => {
            let b = base_name(path);
            assert forall|j: int| 0 <= j < b.len() implies b[j] != '/' by {
                assert(b[j] == path[i + 1 + j]);
            }
        },
        None => {
            assert(path.skip(0) =~= path);
        },
    }
    if !name.contains('/') {
        let p = dir + seq!['/'] + name;
        let k = dir.len() as int;
        find_last_is_last(p, '/');
        find_last_is_last(name, '/');
        assert(p[k] == '/');
        let i = find_last(p, '/')->0;
        if i > k {
            assert(p[i] == name[i - k - 1]);
            assert(name.contains(name[i - k - 1]));
        }
        assert(p.skip(k + 1) =~= name);
    }
}

/// A file is shown under the path it has now, with the path it had before it where it
/// was moved; a file that is gone is shown under the path it had.
pub proof fn a_file_is_shown_under_its_path(f: DiffFile)
    ensures
        f.new_path matches Some(n) ==> ends(shown_path(f), n@) && shown_name(f) == base_name(n@),
        f.new_path is Some && f.old_path is Some && f.new_path->0@ != f.old_path->0@ ==> starts(
            shown_path(f),
            f.old_path->0@,
        ),
        f.new_path is Some && (f.old_path is None || f.old_path->0@ == f.new_path->0@)
            ==> shown_path(f) == f.new_path->0@,
        f.new_path is None && f.old_path is Some ==> shown_path(f) == f.old_path->0@ && shown_name(
            f,
        ) == base_name(f.old_path->0@),
{
    if let Some(n) = f.new_path {
        parts_are_found(Seq::empty(), n@, Seq::empty());
        assert(Seq::<char>::empty() + n@ =~= n@);
        if let Some(o) = f.old_path {
            parts_are_found(o@ + " → "@, n@, Seq::empty());
            assert(o@ + " → "@ + n@ =~= o@ + (" → "@ + n@));
            parts_are_found(Seq::empty(), o@, " → "@ + n@);
        }
    }
}

/// The file a path names is the first whose path it names, and none where it names
/// none.
pub proof fn the_first_file_named_is_found(files: Seq<DiffFile>, want: Seq<char>)
    ensures
        match named_file(files, want) {
            Some(i) => 0 <= i < files.len() && names(want, shown_path(files[i])) && forall|j: int|
                0 <= j < i ==> !names(want, shown_path(#[trigger] files[j])),
            None => forall|j: int|
                0 <= j < files.len() ==> !names(want, shown_path(#[trigger] files[j])),
        },
    decreases files.len(),
{
    if files.len() > 0 {
        let t = files.drop_last();
        the_first_file_named_is_found(t, want);
        match named_file(t, want) {
            Some(i) => {
                assert forall|j: int| 0 <= j < i implies !names(
                    want,
                    shown_path(#[trigger] files[j]),
                ) by {
                    assert(t[j] == files[j]);
                }
            },
            None => {
                assert forall|j: int| 0 <= j < files.len() - 1 implies !names(
                    want,
                    shown_path(#[trigger] files[j]),
                ) by {
                    assert(t[j] == files[j]);
                }
            },
        }
    }
}

/// The dialog scrolls to the comment it was opened at, else to the file it was opened
/// at, else nowhere.
pub proof fn scrolling_goes_where_it_was_asked(
    files: Seq<DiffFile>,
    anchor: Option<Seq<char>>,
    path: Option<Seq<char>>,
)
    ensures
        anchor is Some ==> scroll_target(files, anchor, path) == anchor,
        anchor is None && path is None ==> scroll_target(files, anchor, path) is None,
        anchor is None && path is Some ==> (scroll_target(files, anchor, path) is Some
            <==> exists|j: int|
            0 <= j < files.len() && names(path->0, shown_path(#[trigger] files[j]))),
        anchor is None && path is Some && scroll_target(files, anchor, path) is Some ==> ends(
            scroll_target(files, anchor, path)->0,
            decimal(named_file(files, path->0)->0 as nat),
        ),
{
    if let Some(want) = path {
        the_first_file_named_is_found(files, want);
        if let Some(i) = named_file(files, want) {
            parts_are_found("difffile-"@, decimal(i as nat), Seq::empty());
            assert(names(want, shown_path(files[i])));
        }
    }
}

/// An empty filter lets every file through, and a file's own path lets it through.
pub proof fn a_filter_lets_its_files_through(f: DiffFile, query: Seq<char>)
    ensures
        lower(query).len() == 0 ==> passes(f, query),
        passes(f, shown_path(f)),
{
    let p = lower(shown_path(f));
    parts_are_found(Seq::empty(), p, Seq::empty());
    assert(Seq::<char>::empty() + p + Seq::<char>::empty() =~= p);
}

/// The totals of two lists of files add up, the added and the removed each for
/// themselves.
pub proof fn totals_add_up(a: Seq<DiffFile>, b: Seq<DiffFile>, f: DiffFile)
    ensures
        total_added(a + b) == total_added(a) + total_added(b),
        total_removed(a + b) == total_removed(a) + total_removed(b),
        total_added(seq![f]) == f.added,
        total_removed(seq![f]) == f.removed,
    decreases b.len(),
{
    assert(seq![f].drop_last() =~= Seq::empty());
    reveal_with_fuel(total_added, 2);
    reveal_with_fuel(total_removed, 2);
    if b.len() == 0 {
        assert(a + b =~= a);
    } else {
        totals_add_up(a, b.drop_last(), f);
        assert((a + b).drop_last() =~= a + b.drop_last());
    }
}

/// Added files and added lines look alike, so do deleted files and removed lines, and
/// the two do not.
pub proof fn added_and_removed_look_their_part(
    s: FileStatus,
    k: DiffLineKind,
    of_file: &'static str,
    of_line: &'static str,
    glyph: &'static str,
    mark: &'static str,
)
    requires
        call_ensures(status_class, (s,), of_file),
        call_ensures(line_class, (k,), of_line),
        call_ensures(status_glyph, (s,), glyph),
        call_ensures(sign, (k,), mark),
    ensures
        s is Added ==> (of_file@ == of_line@ <==> k is Added),
        s is Deleted ==> (of_file@ == of_line@ <==> k is Removed),
        of_line@ == "add"@ <==> k is Added,
        of_line@ == "del"@ <==> k is Removed,
        of_file@ == "add"@ <==> s is Added,
        of_file@ == "del"@ <==> s is Deleted,
        mark@ == "+"@ <==> k is Added,
        mark@ == " "@ <==> k is Context,
        glyph@ == "A"@ <==> s is Added,
        glyph@ == "D"@ <==> s is Deleted,
        glyph@ == "M"@ <==> s is Modified,
        glyph@ == "R"@ <==> s is Renamed,
{
    reveal_strlit("add");
    reveal_strlit("del");
    reveal_strlit("mod");
    reveal_strlit("ctx");
    reveal_strlit("+");
    reveal_strlit("−");
    reveal_strlit(" ");
    reveal_strlit("A");
    reveal_strlit("D");
    reveal_strlit("M");
    reveal_strlit("R");
    reveal_strlit("C");
    assert("add"@[0] == 'a' && "del"@[0] == 'd' && "mod"@[0] == 'm' && "ctx"@[0] == 'c');
    assert("+"@[0] == '+' && "−"@[0] == '−' && " "@[0] == ' ');
    assert("A"@[0] == 'A' && "D"@[0] == 'D' && "M"@[0] == 'M' && "R"@[0] == 'R' && "C"@[0] == 'C');
}

/// A place in a file is its path, and its line behind a colon where it has one.
pub proof fn a_place_is_a_path_and_a_line(path: Seq<char>, line: u32)
    ensures
        location(path, None) == path,
        starts(location(path, Some(line)), path),
        ends(location(path, Some(line)), ":"@ + decimal(line as nat)),
        location(path, Some(line)).len() == path.len() + ":"@.len() + decimal(line as nat).len(),
{
    let n = ":"@ + decimal(line as nat);
    assert(path + ":"@ + decimal(line as nat) =~= path + n);
    parts_are_found(path, n, Seq::empty());
    parts_are_found(Seq::empty(), path, n);
}

/// The button says how many comments it publishes.
pub proof fn publishing_says_how_many(selected: nat)
    ensures
        selected > 1 ==> within(publish_words(selected), decimal(selected)),
        selected == 0 <==> publish_words(selected) == "Publish summary only"@,
{
    parts_are_found("Publish "@, decimal(selected), " comments"@);
    reveal_strlit("Publish summary only");
    reveal_strlit("Publish 1 comment");
    reveal_strlit("Publish ");
    if selected == 1 {
        assert(publish_words(selected).len() != "Publish summary only"@.len());
    }
    if selected > 1 {
        crate::text::decimal_reads_back(selected);
        assert(crate::text::digit(decimal(selected)[0]));
        assert(publish_words(selected)[8] == decimal(selected)[0]);
        assert("Publish summary only"@[8] == 's');
    }
}

} // verus!
