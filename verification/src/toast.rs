//! The notification queue.

use vstd::prelude::*;

use crate::lists::retain;
use crate::model::Severity;

verus! {

/// The queue is bounded so notifications cannot pile up.
pub const MAX_TOASTS: usize = 5;

/// How long, in seconds, a notification that goes away by itself stays.
pub const TOAST_TTL_SECS: u64 = 10;

#[derive(Debug, Clone, PartialEq, Eq)]
pub struct Toast {
    pub id: u64,
    pub severity: Severity,
    pub message: String,
}

#[derive(Debug, Clone, PartialEq, Eq)]
pub struct Toasts {
    pub list: Vec<Toast>,
    pub next_id: u64,
}

/// The last `n` of a sequence.
pub open spec fn newest<A>(s: Seq<A>, n: int) -> Seq<A> {
    if s.len() <= n {
        s
    } else {
        s.skip(s.len() - n)
    }
}

/// Every notification's id is below the next one to be given, and they rise
/// from the oldest to the newest.
pub open spec fn toasts_ordered(t: Toasts) -> bool {
    &&& t.list@.len() <= MAX_TOASTS
    &&& forall|i: int| 0 <= i < t.list@.len() ==> (#[trigger] t.list@[i]).id < t.next_id
    &&& forall|i: int, j: int|
        0 <= i < j < t.list@.len() ==> (#[trigger] t.list@[i]).id < (#[trigger] t.list@[j]).id
}

/// Taking notifications out keeps the others in order.
proof fn filter_keeps_order(s: Seq<Toast>, keep: spec_fn(Toast) -> bool, next: int)
    requires
        forall|i: int| 0 <= i < s.len() ==> (#[trigger] s[i]).id < next,
        forall|i: int, j: int|
            0 <= i < j < s.len() ==> (#[trigger] s[i]).id < (#[trigger] s[j]).id,
    ensures
        s.filter(keep).len() <= s.len(),
        forall|i: int| 0 <= i < s.filter(keep).len() ==> (#[trigger] s.filter(keep)[i]).id < next,
        forall|i: int, j: int|
            0 <= i < j < s.filter(keep).len() ==> (#[trigger] s.filter(keep)[i]).id < (
            #[trigger] s.filter(keep)[j]).id,
    decreases s.len(),
{
    reveal(Seq::filter);
    if s.len() > 0 {
        filter_keeps_order(s.drop_last(), keep, s.last().id as int);
    }
}

impl Toasts {
    pub fn new() -> (r: Toasts)
        ensures
            r.list@ == Seq::<Toast>::empty(),
            r.next_id == 1,
            toasts_ordered(r),
    {
        Toasts { list: Vec::new(), next_id: 1 }
    }

    /// Add a notification, dropping the oldest ones past the bound.
    pub fn push_toast(&mut self, severity: Severity, message: String)
        ensures
            final(self).list@ == newest(
                old(self).list@.push(Toast { id: old(self).next_id, severity, message }),
                MAX_TOASTS as int,
            ),
            final(self).next_id == (if old(self).next_id == u64::MAX {
                0
            } else {
                (old(self).next_id + 1) as u64
            }),
            toasts_ordered(*old(self)) && old(self).next_id < u64::MAX ==> toasts_ordered(
                *final(self),
            ),
    {
        let id: u64 = self.next_id;
        self.next_id = if id == u64::MAX {
            0
        } else {
            id + 1
        };
        self.list.push(Toast { id, severity, message });
        let ghost all = self.list@;
        let len: usize = self.list.len();
        if len > MAX_TOASTS {
            let kept = self.list.split_off(len - MAX_TOASTS);
            self.list = kept;
            assert(self.list@ =~= newest(all, MAX_TOASTS as int));
        }
    }

    /// Remove a notification by hand, or when its time is up.
    pub fn dismiss_toast(&mut self, id: u64)
        ensures
            final(self).list@ == old(self).list@.filter(|t: Toast| t.id != id),
            final(self).next_id == old(self).next_id,
            toasts_ordered(*old(self)) ==> toasts_ordered(*final(self)),
    {
        let mut all: Vec<Toast> = Vec::new();
        std::mem::swap(&mut all, &mut self.list);
        let stays = |t: &Toast| -> (b: bool)
            ensures
                b == (t.id != id),
        {
            t.id != id
        };
        self.list = retain(all, stays, Ghost(|t: Toast| t.id != id));
        proof {
            if toasts_ordered(*old(self)) {
                filter_keeps_order(
                    old(self).list@,
                    |t: Toast| t.id != id,
                    old(self).next_id as int,
                );
            }
        }
    }
}

pub fn severity_class(sev: Severity) -> (r: &'static str)
    ensures
        r@ == (match sev {
            Severity::Info => "toast info"@,
            Severity::Success => "toast success"@,
            Severity::Warning => "toast warning"@,
            Severity::Error => "toast error"@,
        }),
{
    match sev {
        Severity::Info => "toast info",
        Severity::Success => "toast success",
        Severity::Warning => "toast warning",
        Severity::Error => "toast error",
    }
}

pub fn severity_icon(sev: Severity) -> (r: &'static str)
    ensures
        r@ == (match sev {
            Severity::Info => "ℹ"@,
            Severity::Success => "✓"@,
            Severity::Warning => "⚠"@,
            Severity::Error => "✕"@,
        }),
{
    match sev {
        Severity::Info => "ℹ",
        Severity::Success => "✓",
        Severity::Warning => "⚠",
        Severity::Error => "✕",
    }
}

/// Errors and warnings stay until dismissed by hand, so a problem is never
/// missed; the others go away by themselves.
pub fn goes_away(sev: Severity) -> (r: bool)
    ensures
        r == (sev == Severity::Info || sev == Severity::Success),
{
    match sev {
        Severity::Error | Severity::Warning => false,
        _ => true,
    }
}

// ---- Laws ----------------------------------------------------------------

/// The newest are kept, in their order: what came last is last, nothing goes while there
/// is room, and the oldest go first.
pub proof fn the_newest_are_kept<A>(s: Seq<A>, x: A, n: int, i: int)
    requires
        n > 0,
    ensures
        newest(s, n).len() <= n,
        newest(s.push(x), n).last() == x,
        s.len() <= n ==> newest(s, n) == s,
        s.len() > n ==> newest(s, n).len() == n,
        0 <= i < newest(s, n).len() ==> newest(s, n)[newest(s, n).len() - 1 - i] == s[s.len() - 1
            - i],
{
}

/// Good news goes away by itself; warnings and errors stay until they are dismissed.
pub proof fn bad_news_stays(sev: Severity, r: bool)
    requires
        call_ensures(goes_away, (sev,), r),
    ensures
        sev is Warning || sev is Error ==> !r,
        sev is Info || sev is Success ==> r,
{
}

/// Every severity has its own look and its own sign.
pub proof fn severities_look_their_part(
    a: Severity,
    b: Severity,
    x: &'static str,
    y: &'static str,
    i: &'static str,
    j: &'static str,
)
    requires
        call_ensures(severity_class, (a,), x),
        call_ensures(severity_class, (b,), y),
        call_ensures(severity_icon, (a,), i),
        call_ensures(severity_icon, (b,), j),
    ensures
        x@ == y@ ==> a == b,
        i@ == j@ ==> a == b,
        x@ == "toast error"@ <==> a is Error,
        i@ == "✓"@ <==> a is Success,
{
    reveal_strlit("toast info");
    reveal_strlit("toast success");
    reveal_strlit("toast warning");
    reveal_strlit("toast error");
    reveal_strlit("ℹ");
    reveal_strlit("✓");
    reveal_strlit("⚠");
    reveal_strlit("✕");
    assert("toast info"@[6] == 'i' && "toast success"@[6] == 's' && "toast warning"@[6] == 'w'
        && "toast error"@[6] == 'e');
    assert("ℹ"@[0] == 'ℹ' && "✓"@[0] == '✓' && "⚠"@[0] == '⚠' && "✕"@[0] == '✕');
}

} // verus!
