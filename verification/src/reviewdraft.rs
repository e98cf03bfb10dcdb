//! The edit buffer for one pull request's drafted comments, shared by the
//! panel's list and the diff viewer.

use vstd::prelude::*;

use crate::model::{DraftComment, Id, ReviewEvent};
use crate::text::{
    cat2, decimal, decimal_reads_back, decimal_text, ends, parts_are_found, same_text,
};

verus! {

/// A drafted comment as a mathematical value.
pub struct CommentView {
    pub path: Seq<char>,
    pub line: Option<u32>,
    pub body: Seq<char>,
    pub severity: Seq<char>,
    pub selected: bool,
}

impl View for DraftComment {
    type V = CommentView;

    open spec fn view(&self) -> CommentView {
        CommentView {
            path: self.path@,
            line: self.line,
            body: self.body@,
            severity: self.severity@,
            selected: self.selected,
        }
    }
}

pub open spec fn comments_view(v: Seq<DraftComment>) -> Seq<CommentView> {
    v.map_values(|c: DraftComment| c@)
}

/// The user's working copy of a drafted review: which comments to send, their
/// bodies, the overall summary, and the verdict.
#[derive(Debug, Clone, PartialEq, Eq)]
pub struct DraftEdits {
    /// The review the buffer belongs to.
    pub review_id: Id,
    /// The comments as the agent drafted them. A fresh agent run drafts others,
    /// which is the sign to start over.
    pub origin: Vec<DraftComment>,
    pub comments: Vec<DraftComment>,
    pub summary: String,
    pub verdict: ReviewEvent,
}

/// The edit buffer as a mathematical value.
#[verifier::ext_equal]
pub struct EditsView {
    pub review_id: Id,
    pub origin: Seq<CommentView>,
    pub comments: Seq<CommentView>,
    pub summary: Seq<char>,
    pub verdict: ReviewEvent,
}

impl View for DraftEdits {
    type V = EditsView;

    open spec fn view(&self) -> EditsView {
        EditsView {
            review_id: self.review_id,
            origin: comments_view(self.origin@),
            comments: comments_view(self.comments@),
            summary: self.summary@,
            verdict: self.verdict,
        }
    }
}

pub open spec fn buffer_view(b: Option<DraftEdits>) -> Option<EditsView> {
    match b {
        Some(d) => Some(d@),
        None => None,
    }
}

/// The buffer once a drafted review is on screen: kept if it holds edits of
/// this very draft, started over otherwise.
pub open spec fn seeded(
    b: Option<EditsView>,
    review_id: Id,
    comments: Seq<CommentView>,
    summary: Seq<char>,
    verdict: ReviewEvent,
) -> Option<EditsView> {
    match b {
        Some(d) if d.review_id == review_id && d.origin == comments => b,
        _ => Some(EditsView { review_id, origin: comments, comments, summary, verdict }),
    }
}

fn same_comment(a: &DraftComment, b: &DraftComment) -> (r: bool)
    ensures
        r == (a@ == b@),
{
    same_text(a.path.as_str(), b.path.as_str()) && same_line(a.line, b.line) && same_text(
        a.body.as_str(),
        b.body.as_str(),
    ) && same_text(a.severity.as_str(), b.severity.as_str()) && a.selected == b.selected
}

fn same_line(a: Option<u32>, b: Option<u32>) -> (r: bool)
    ensures
        r == (a == b),
{
    match (a, b) {
        (Some(x), Some(y)) => x == y,
        (None, None) => true,
        _ => false,
    }
}

fn same_comments(a: &Vec<DraftComment>, b: &Vec<DraftComment>) -> (r: bool)
    ensures
        r == (comments_view(a@) == comments_view(b@)),
{
    if a.len() != b.len() {
        assert(comments_view(a@).len() != comments_view(b@).len());
        return false;
    }
    let mut i: usize = 0;
    while i < a.len()
        invariant
            i <= a.len(),
            a.len() == b.len(),
            forall|j: int| 0 <= j < i ==> (#[trigger] a@[j])@ == b@[j]@,
        decreases a.len() - i,
    {
        if !same_comment(&a[i], &b[i]) {
            assert(comments_view(a@)[i as int] != comments_view(b@)[i as int]);
            return false;
        }
        i += 1;
    }
    assert(comments_view(a@) =~= comments_view(b@));
    true
}

/// Seed the buffer for a drafted review, unless it already holds edits of this
/// very draft. Reviewing the same pull request again drafts new comments under
/// the same id, which is why the comments count too.
pub fn ensure_seeded(
    buffer: &mut Option<DraftEdits>,
    review_id: Id,
    comments: &Vec<DraftComment>,
    summary: &str,
    verdict: ReviewEvent,
)
    ensures
        buffer_view(*final(buffer)) == seeded(
            buffer_view(*old(buffer)),
            review_id,
            comments_view(comments@),
            summary@,
            verdict,
        ),
{
    let fresh = match buffer.as_ref() {
        Some(d) => d.review_id != review_id || !same_comments(&d.origin, comments),
        None => true,
    };
    if fresh {
        let origin = comments.clone();
        let edited = comments.clone();
        assert(origin@ =~= comments@);
        assert(edited@ =~= comments@);
        *buffer = Some(
            DraftEdits { review_id, origin, comments: edited, summary: summary.to_owned(), verdict },
        );
    }
}

/// The buffer, if it belongs to `review_id`.
pub fn edits_for(buffer: &Option<DraftEdits>, review_id: Id) -> (r: Option<&DraftEdits>)
    ensures
        match r {
            Some(d) => *buffer == Some(*d) && d@.review_id == review_id,
            None => buffer is None || buffer->0@.review_id != review_id,
        },
{
    match buffer {
        Some(d) if d.review_id == review_id => Some(d),
        _ => None,
    }
}

/// Drop the buffer, after publishing or dismissing.
pub fn clear(buffer: &mut Option<DraftEdits>)
    ensures
        *final(buffer) is None,
{
    *buffer = None;
}

/// The buffer with its comments replaced.
pub open spec fn with_comments(b: Option<EditsView>, comments: Seq<CommentView>) -> Option<
    EditsView,
> {
    match b {
        Some(d) => Some(EditsView { comments, ..d }),
        None => None,
    }
}

/// The buffer with one comment replaced, where there is such a comment.
pub open spec fn with_comment(b: Option<EditsView>, index: int, c: CommentView) -> Option<
    EditsView,
> {
    match b {
        Some(d) if 0 <= index < d.comments.len() => with_comments(
            b,
            d.comments.update(index, c),
        ),
        _ => b,
    }
}

/// The comment at a place of the buffer.
pub open spec fn comment_at(b: Option<EditsView>, index: int) -> CommentView {
    b->0.comments[index]
}

/// The edits with one comment checked or unchecked.
pub open spec fn toggled_at(b: Option<EditsView>, index: int) -> Option<EditsView> {
    let c = comment_at(b, index);
    with_comment(b, index, (CommentView { selected: !c.selected, ..c }))
}

/// The edits with one comment reworded.
pub open spec fn body_set(b: Option<EditsView>, index: int, body: Seq<char>) -> Option<EditsView> {
    with_comment(b, index, (CommentView { body, ..comment_at(b, index) }))
}

/// The edits with one comment's severity set.
pub open spec fn severity_set(b: Option<EditsView>, index: int, severity: Seq<char>) -> Option<
    EditsView,
> {
    with_comment(b, index, (CommentView { severity, ..comment_at(b, index) }))
}

/// The edits with the summary reworded.
pub open spec fn summary_set(b: Option<EditsView>, summary: Seq<char>) -> Option<EditsView> {
    match b {
        Some(d) => Some(EditsView { summary, ..d }),
        None => None,
    }
}

/// The edits with another verdict.
pub open spec fn verdict_set(b: Option<EditsView>, verdict: ReviewEvent) -> Option<EditsView> {
    match b {
        Some(d) => Some(EditsView { verdict, ..d }),
        None => None,
    }
}

/// Flip a comment's include checkbox.
pub fn toggle(buffer: &mut Option<DraftEdits>, index: usize)
    ensures
        buffer_view(*final(buffer)) == toggled_at(buffer_view(*old(buffer)), index as int),
{
    if let Some(mut d) = buffer.take() {
        if index < d.comments.len() {
            let ghost before = d@;
            let mut c = d.comments[index].clone();
            c.selected = !c.selected;
            d.comments.set(index, c);
            assert(d@ =~= with_comment(Some(before), index as int, c@)->0);
        }
        *buffer = Some(d);
    }
}

/// Replace a comment's body with the user's.
pub fn set_body(buffer: &mut Option<DraftEdits>, index: usize, body: String)
    ensures
        buffer_view(*final(buffer)) == body_set(buffer_view(*old(buffer)), index as int, body@),
{
    if let Some(mut d) = buffer.take() {
        if index < d.comments.len() {
            let ghost before = d@;
            let mut c = d.comments[index].clone();
            c.body = body;
            d.comments.set(index, c);
            assert(d@ =~= with_comment(Some(before), index as int, c@)->0);
        }
        *buffer = Some(d);
    }
}

/// Replace a comment's criticality with the maintainer's judgement. An empty
/// one publishes the comment untagged.
pub fn set_severity(buffer: &mut Option<DraftEdits>, index: usize, severity: String)
    ensures
        buffer_view(*final(buffer)) == severity_set(
            buffer_view(*old(buffer)),
            index as int,
            severity@,
        ),
{
    if let Some(mut d) = buffer.take() {
        if index < d.comments.len() {
            let ghost before = d@;
            let mut c = d.comments[index].clone();
            c.severity = severity;
            d.comments.set(index, c);
            assert(d@ =~= with_comment(Some(before), index as int, c@)->0);
        }
        *buffer = Some(d);
    }
}

pub fn set_summary(buffer: &mut Option<DraftEdits>, summary: String)
    ensures
        buffer_view(*final(buffer)) == summary_set(buffer_view(*old(buffer)), summary@),
{
    if let Some(mut d) = buffer.take() {
        d.summary = summary;
        *buffer = Some(d);
    }
}

pub fn set_verdict(buffer: &mut Option<DraftEdits>, verdict: ReviewEvent)
    ensures
        buffer_view(*final(buffer)) == verdict_set(buffer_view(*old(buffer)), verdict),
{
    if let Some(mut d) = buffer.take() {
        d.verdict = verdict;
        *buffer = Some(d);
    }
}

/// The id of a comment's thread in the diff viewer.
pub open spec fn thread_id(index: nat) -> Seq<char> {
    "draftcomment-"@ + decimal(index)
}

pub fn anchor_id(index: usize) -> (r: String)
    ensures
        r@ == thread_id(index as nat),
{
    let n = decimal_text(index as u64);
    cat2("draftcomment-", n.as_str())
}

// ---- Laws ----------------------------------------------------------------

/// Seeding twice is seeding once, so every render of either surface may do it.
pub proof fn seeding_is_idempotent(
    b: Option<EditsView>,
    review_id: Id,
    comments: Seq<CommentView>,
    summary: Seq<char>,
    verdict: ReviewEvent,
)
    ensures
        seeded(
            seeded(b, review_id, comments, summary, verdict),
            review_id,
            comments,
            summary,
            verdict,
        ) == seeded(b, review_id, comments, summary, verdict),
{
}

/// Edits of a draft survive its being seeded again, whatever was edited.
pub proof fn edits_survive_seeding(
    b: EditsView,
    edited: Seq<CommentView>,
    summary: Seq<char>,
    verdict: ReviewEvent,
    drafted_summary: Seq<char>,
    drafted_verdict: ReviewEvent,
)
    ensures
        ({
            let mine = EditsView { comments: edited, summary, verdict, ..b };
            seeded(Some(mine), b.review_id, b.origin, drafted_summary, drafted_verdict) == Some(
                mine,
            )
        }),
{
}

/// One review's edits never show on another, nor on a new draft of the same
/// one.
pub proof fn edits_do_not_leak(
    b: EditsView,
    review_id: Id,
    comments: Seq<CommentView>,
    summary: Seq<char>,
    verdict: ReviewEvent,
)
    requires
        b.review_id != review_id || b.origin != comments,
    ensures
        seeded(Some(b), review_id, comments, summary, verdict) == Some(
            (EditsView { review_id, origin: comments, comments, summary, verdict }),
        ),
{
}

/// Editing a comment edits that one and that part of it: its check, its text or its
/// severity. The others, the summary, the verdict and what was drafted stay.
pub proof fn a_comment_edit_touches_one_part(d: EditsView, i: int, j: int, text: Seq<char>)
    requires
        0 <= i < d.comments.len(),
        0 <= j < d.comments.len(),
    ensures
        ({
            let c = d.comments[j];
            let t = toggled_at(Some(d), i)->0;
            let w = body_set(Some(d), i, text)->0;
            let v = severity_set(Some(d), i, text)->0;
            &&& t == (EditsView { comments: t.comments, ..d })
            &&& w == (EditsView { comments: w.comments, ..d })
            &&& v == (EditsView { comments: v.comments, ..d })
            &&& j != i ==> t.comments[j] == c && w.comments[j] == c && v.comments[j] == c
            &&& j == i ==> t.comments[j] == (CommentView { selected: t.comments[j].selected, ..c })
                && t.comments[j].selected != c.selected
            &&& j == i ==> w.comments[j] == (CommentView { body: w.comments[j].body, ..c })
                && w.comments[j].body == text
            &&& j == i ==> v.comments[j] == (CommentView { severity: v.comments[j].severity, ..c })
                && v.comments[j].severity == text
        }),
        toggled_at(toggled_at(Some(d), i), i) == Some(d),
{
    let t = toggled_at(Some(d), i)->0;
    let back = toggled_at(Some(t), i)->0;
    assert(back.comments =~= d.comments);
    assert(back =~= d);
}

/// The summary and the verdict read back, and leave everything else. Without a review
/// open, or beyond its comments, an edit does nothing.
pub proof fn review_edits_keep_to_themselves(
    d: EditsView,
    text: Seq<char>,
    verdict: ReviewEvent,
    i: int,
)
    ensures
        summary_set(Some(d), text) matches Some(e) && e.summary == text && e == (EditsView {
            summary: e.summary,
            ..d
        }),
        verdict_set(Some(d), verdict) matches Some(e) && e.verdict == verdict && e == (EditsView {
            verdict: e.verdict,
            ..d
        }),
        i >= d.comments.len() ==> toggled_at(Some(d), i) == Some(d) && body_set(Some(d), i, text)
            == Some(d) && severity_set(Some(d), i, text) == Some(d),
        toggled_at(None, i) is None && body_set(None, i, text) is None && severity_set(
            None,
            i,
            text,
        ) is None && summary_set(None, text) is None && verdict_set(None, verdict) is None,
{
}

/// Every comment has its own place in the dialog, told by its number.
pub proof fn comments_have_their_own_place(i: nat, j: nat)
    ensures
        ends(thread_id(i), decimal(i)),
        thread_id(i) == thread_id(j) ==> i == j,
{
    parts_are_found("draftcomment-"@, decimal(i), Seq::empty());
    if thread_id(i) == thread_id(j) {
        let k = "draftcomment-"@.len() as int;
        assert(thread_id(i).skip(k) =~= decimal(i));
        assert(thread_id(j).skip(k) =~= decimal(j));
        decimal_reads_back(i);
        decimal_reads_back(j);
    }
}

/// The edits of a review are found for that review and for no other.
pub proof fn edits_are_found_for_their_review(
    buffer: Option<DraftEdits>,
    id: Id,
    r: Option<&DraftEdits>,
)
    requires
        call_ensures(edits_for, (&buffer, id), r),
    ensures
        r matches Some(d) ==> d.review_id == id && buffer == Some(*d),
        buffer matches Some(d) ==> d.review_id == id ==> r is Some,
{
}

} // verus!
