//! The usage bar: how much of each provider's rate limits is used up, and when
//! that was looked up last.

use vstd::prelude::*;

use crate::card::opt_text;
use crate::model::{ProviderUsage, RateLimitWindow};
use crate::outside::{clock_text, datable, fixed_clock, local_offset, zoned};
use crate::text::{cat2, cat3, cat5, decimal, decimal_text, ends, parts_are_found, within};

verus! {

// ---- The refresh button --------------------------------------------------

/// A refresh that was asked for and has not come back yet.
#[derive(Debug, Clone, Copy, PartialEq, Eq, Structural)]
pub struct Pending {
    pub generation: u32,
    pub clicked_at: i64,
}

/// A snapshot ends the wait if it was taken at or after the click.
pub open spec fn landed(pending: Option<Pending>, refreshed_at: Option<i64>) -> bool {
    pending matches Some(p) && (refreshed_at matches Some(at) && at >= p.clicked_at)
}

pub fn refresh_landed(pending: Option<Pending>, refreshed_at: Option<i64>) -> (r: bool)
    ensures
        r == landed(pending, refreshed_at),
{
    match (pending, refreshed_at) {
        (Some(p), Some(at)) => at >= p.clicked_at,
        _ => false,
    }
}

/// The button that refreshes: how often it was clicked, and the click that is
/// still waited for.
#[derive(Debug, Clone, Copy, PartialEq, Eq, Structural)]
pub struct RefreshButton {
    pub clicks: u32,
    pub pending: Option<Pending>,
}

/// The button after a snapshot came in.
pub open spec fn after_snapshot(b: RefreshButton, refreshed_at: Option<i64>) -> RefreshButton {
    if landed(b.pending, refreshed_at) {
        RefreshButton { pending: None, ..b }
    } else {
        b
    }
}

/// The button after the safety timer of one click ran out.
pub open spec fn after_timeout(b: RefreshButton, generation: u32) -> RefreshButton {
    if b.pending matches Some(p) && p.generation == generation {
        RefreshButton { pending: None, ..b }
    } else {
        b
    }
}

impl RefreshButton {
    pub fn new() -> (r: RefreshButton)
        ensures
            r == (RefreshButton { clicks: 0, pending: None }),
    {
        RefreshButton { clicks: 0, pending: None }
    }

    /// A click: the number it is known by.
    pub fn click(&mut self, now: i64) -> (generation: u32)
        requires
            old(self).clicks < u32::MAX,
        ensures
            generation == old(self).clicks + 1,
            *final(self) == (RefreshButton {
                clicks: generation,
                pending: Some(Pending { generation, clicked_at: now }),
            }),
    {
        self.clicks = self.clicks + 1;
        self.pending = Some(Pending { generation: self.clicks, clicked_at: now });
        self.clicks
    }

    pub fn snapshot(&mut self, refreshed_at: Option<i64>)
        ensures
            *final(self) == after_snapshot(*old(self), refreshed_at),
    {
        if refresh_landed(self.pending, refreshed_at) {
            self.pending = None;
        }
    }

    pub fn timeout(&mut self, generation: u32)
        ensures
            *final(self) == after_timeout(*old(self), generation),
    {
        if let Some(p) = self.pending {
            if p.generation == generation {
                self.pending = None;
            }
        }
    }
}

/// Neither an earlier click's timer nor a snapshot from before the click ends
/// the wait for a later one.
pub proof fn a_later_click_owns_the_button(b: RefreshButton, earlier: u32, stale: i64)
    requires
        b.pending matches Some(p) && p.generation == b.clicks && stale < p.clicked_at,
        earlier < b.clicks,
    ensures
        after_timeout(b, earlier) == b,
        after_snapshot(b, Some(stale)) == b,
        after_snapshot(b, None) == b,
{
}

// ---- What the bar says ---------------------------------------------------

/// What the bar says without a gauge. The first look goes out at launch, so
/// never having refreshed still means that it is on its way.
pub fn empty_message(refreshed_at: Option<i64>, pending: bool) -> (r: &'static str)
    ensures
        r@ == (if pending || refreshed_at is None {
            "Checking usage…"@
        } else {
            "No usage data"@
        }),
{
    if pending || refreshed_at.is_none() {
        "Checking usage…"
    } else {
        "No usage data"
    }
}

/// The seconds between a snapshot and now; one from the future is fresh.
pub open spec fn elapsed_seconds(at: i64, now: i64) -> nat {
    if now <= at {
        0
    } else {
        ((now - at) / 1000) as nat
    }
}

/// A span of seconds as how long ago it was.
pub open spec fn ago(elapsed: nat) -> Seq<char> {
    if elapsed < 60 {
        "just now"@
    } else if elapsed < 3600 {
        decimal(elapsed / 60) + " min ago"@
    } else if elapsed < 86400 {
        decimal(elapsed / 3600) + "h ago"@
    } else {
        decimal(elapsed / 86400) + "d ago"@
    }
}

/// The tooltip, given how the time of the snapshot reads.
pub open spec fn updated_words(elapsed: nat, clock: Seq<char>) -> Seq<char> {
    "Updated "@ + ago(elapsed) + " ("@ + clock + ")"@
}

fn ago_text(elapsed: u64) -> (r: String)
    ensures
        r@ == ago(elapsed as nat),
{
    if elapsed < 60 {
        "just now".to_owned()
    } else if elapsed < 3600 {
        let n = decimal_text(elapsed / 60);
        cat2(n.as_str(), " min ago")
    } else if elapsed < 86400 {
        let n = decimal_text(elapsed / 3600);
        cat2(n.as_str(), "h ago")
    } else {
        let n = decimal_text(elapsed / 86400);
        cat2(n.as_str(), "d ago")
    }
}

/// The tooltip, given how the time of the snapshot reads.
pub fn updated_label(elapsed: u64, clock: &str) -> (r: String)
    ensures
        r@ == updated_words(elapsed as nat, clock@),
{
    let rel = ago_text(elapsed);
    cat5("Updated ", rel.as_str(), " (", clock, ")")
}

/// The time is enough for the last day; before that the day is shown too.
pub open spec fn clock_format(elapsed: nat) -> Seq<char> {
    if elapsed < 86400 {
        "%H:%M"@
    } else {
        "%b %d, %H:%M"@
    }
}

/// The bar's tooltip: how long ago the numbers were looked up, and the time by
/// the machine's own clock, with the day once that is past. How that time reads
/// depends on the machine's time zone.
pub fn refreshed_label(refreshed_at: Option<i64>, now_ms: i64) -> (r: String)
    ensures
        match refreshed_at {
            Some(at) if datable(at) => exists|east: i32| #[trigger] zoned(east) && r@
                == updated_words(
                elapsed_seconds(at, now_ms),
                clock_text(at, east, clock_format(elapsed_seconds(at, now_ms))),
            ),
            _ => r@ == "Usage not refreshed yet"@,
        },
{
    match refreshed_at {
        Some(at) => {
            let elapsed: u64 = if now_ms <= at {
                0
            } else {
                ((now_ms as i128 - at as i128) as u128 / 1000) as u64
            };
            assert(elapsed == elapsed_seconds(at, now_ms));
            let format = if elapsed < 86400 {
                "%H:%M"
            } else {
                "%b %d, %H:%M"
            };
            match local_offset(at) {
                Some(east) => match fixed_clock(at, east, format) {
                    Some(clock) => updated_label(elapsed, clock.as_str()),
                    None => "Usage not refreshed yet".to_owned(),
                },
                None => "Usage not refreshed yet".to_owned(),
            }
        },
        None => "Usage not refreshed yet".to_owned(),
    }
}

// ---- Gauges --------------------------------------------------------------

/// A window of which nothing is used says nothing worth a gauge.
pub open spec fn gauged(w: Option<RateLimitWindow>) -> bool {
    w matches Some(w) && w.started
}

pub fn shown(window: &Option<RateLimitWindow>) -> (r: bool)
    ensures
        r == gauged(*window),
{
    match window {
        Some(w) => w.started,
        None => false,
    }
}

/// The window of a model family with a cap of its own.
pub open spec fn model_window(u: ProviderUsage) -> Option<RateLimitWindow> {
    match u.weekly_model {
        Some((_, w)) => Some(w),
        None => None,
    }
}

pub open spec fn any_gauge(u: ProviderUsage) -> bool {
    gauged(u.session) || gauged(u.weekly) || gauged(model_window(u))
}

/// Whether a provider has a gauge to show. A model family's own cap is enough.
pub fn has_visible_window(usage: &ProviderUsage) -> (r: bool)
    ensures
        r == any_gauge(*usage),
{
    let own = match &usage.weekly_model {
        Some((_, w)) => w.started,
        None => false,
    };
    shown(&usage.session) || shown(&usage.weekly) || own
}

/// Nothing to draw: neither provider has a gauge.
pub open spec fn bar_empty(claude: Option<ProviderUsage>, codex: Option<ProviderUsage>) -> bool {
    !(claude matches Some(u) && any_gauge(u)) && !(codex matches Some(u) && any_gauge(u))
}

pub fn is_bar_empty(claude: &Option<ProviderUsage>, codex: &Option<ProviderUsage>) -> (r: bool)
    ensures
        r == bar_empty(*claude, *codex),
{
    let a = match claude {
        Some(u) => has_visible_window(u),
        None => false,
    };
    let b = match codex {
        Some(u) => has_visible_window(u),
        None => false,
    };
    !a && !b
}

/// The label of the gauge of a model family.
pub fn model_gauge_label(name: &str) -> (r: String)
    ensures
        r@ == "7d "@ + name@,
{
    cat2("7d ", name)
}

/// The share of a window that is used, at most all of it.
pub open spec fn percent_of(w: RateLimitWindow) -> nat {
    if w.whole_percent > 100 {
        100
    } else {
        w.whole_percent as nat
    }
}

/// A gauge: its level, its number, and when its window starts over.
#[derive(Debug, Clone, PartialEq, Eq)]
pub struct Gauge {
    pub level: &'static str,
    pub percent: u32,
    pub reset: Option<String>,
}

pub open spec fn level_of(percent: nat) -> Seq<char> {
    if percent >= 80 {
        "high"@
    } else if percent >= 50 {
        "warn"@
    } else {
        "ok"@
    }
}

/// When a window starts over: as it was reported, or as a countdown.
pub open spec fn reset_words(w: RateLimitWindow, now: i64) -> Option<Seq<char>> {
    match w.resets_text {
        Some(t) => Some(t@),
        None => match w.resets_at {
            Some(at) => Some(time_left(at, now)),
            None => None,
        },
    }
}

/// A gauge of a window, `now` being the seconds since 1970.
pub fn gauge(w: &RateLimitWindow, now: i64) -> (r: Gauge)
    ensures
        r.percent == percent_of(*w),
        r.level@ == level_of(percent_of(*w)),
        opt_text(r.reset) == reset_words(*w, now),
{
    let percent = if w.whole_percent > 100 {
        100
    } else {
        w.whole_percent
    };
    Gauge {
        level: if percent >= 80 {
            "high"
        } else if percent >= 50 {
            "warn"
        } else {
            "ok"
        },
        percent,
        reset: match &w.resets_text {
            Some(t) => Some(t.clone()),
            None => match w.resets_at {
                Some(at) => Some(countdown(at, now)),
                None => None,
            },
        },
    }
}

/// A number below a hundred, in two digits.
pub open spec fn two_digits(n: nat) -> Seq<char> {
    if n < 10 {
        "0"@ + decimal(n)
    } else {
        decimal(n)
    }
}

/// The time until `resets_at`; one that is past is now.
pub open spec fn time_left(resets_at: i64, now: i64) -> Seq<char> {
    let left = if resets_at <= now {
        0
    } else {
        (resets_at - now) as nat
    };
    let days = left / 86400;
    let hours = (left % 86400) / 3600;
    let minutes = (left % 3600) / 60;
    if days > 0 {
        "in "@ + decimal(days) + "d "@ + decimal(hours) + "h"@
    } else if hours > 0 {
        "in "@ + decimal(hours) + "h "@ + two_digits(minutes) + "m"@
    } else {
        "in "@ + decimal(minutes) + "m"@
    }
}

pub fn countdown(resets_at: i64, now: i64) -> (r: String)
    ensures
        r@ == time_left(resets_at, now),
{
    let left: u64 = if resets_at <= now {
        0
    } else {
        (resets_at as i128 - now as i128) as u64
    };
    let days = left / 86400;
    let hours = (left % 86400) / 3600;
    let minutes = ((left % 86400) % 3600) / 60;
    assert((left % 86400) % 3600 == left % 3600);
    let h = decimal_text(hours);
    let m = decimal_text(minutes);
    if days > 0 {
        let d = decimal_text(days);
        cat5("in ", d.as_str(), "d ", h.as_str(), "h")
    } else if hours > 0 {
        let padded = if minutes < 10 {
            cat2("0", m.as_str())
        } else {
            m
        };
        cat5("in ", h.as_str(), "h ", padded.as_str(), "m")
    } else {
        cat3("in ", m.as_str(), "m")
    }
}

/// A window that has started over shows no time left.
pub proof fn time_runs_out(resets_at: i64, now: i64)
    requires
        now >= resets_at,
    ensures
        time_left(resets_at, now) == "in "@ + decimal(0) + "m"@,
{
}

// ---- Laws ----------------------------------------------------------------

/// Time left is told in its two greatest units: days and hours, hours and minutes, or
/// minutes alone. What is less than a minute is left out.
pub proof fn time_left_is_told(resets_at: i64, now: i64, d: nat, h: nat, m: nat, s: nat)
    requires
        h < 24,
        m < 60,
        s < 60,
        resets_at - now == d * 86400 + h * 3600 + m * 60 + s,
    ensures
        d > 0 ==> time_left(resets_at, now) == "in "@ + decimal(d) + "d "@ + decimal(h) + "h"@,
        d == 0 && h > 0 && m >= 10 ==> time_left(resets_at, now) == "in "@ + decimal(h) + "h "@
            + decimal(m) + "m"@,
        d == 0 && h > 0 && m < 10 ==> time_left(resets_at, now) == "in "@ + decimal(h) + "h "@ + (
        "0"@ + decimal(m)) + "m"@,
        d == 0 && h == 0 ==> time_left(resets_at, now) == "in "@ + decimal(m) + "m"@,
{
    let left = d * 86400 + h * 3600 + m * 60 + s;
    assert(left / 86400 == d) by (nonlinear_arith)
        requires
            left == d * 86400 + h * 3600 + m * 60 + s,
            h < 24,
            m < 60,
            s < 60,
    ;
    assert((left % 86400) / 3600 == h) by (nonlinear_arith)
        requires
            left == d * 86400 + h * 3600 + m * 60 + s,
            h < 24,
            m < 60,
            s < 60,
    ;
    assert((left % 3600) / 60 == m) by (nonlinear_arith)
        requires
            left == d * 86400 + h * 3600 + m * 60 + s,
            h < 24,
            m < 60,
            s < 60,
    ;
}

/// Time gone by is told in its greatest unit: days, hours or minutes; what is less than
/// a minute is now.
pub proof fn time_gone_is_told(d: nat, h: nat, m: nat, s: nat)
    requires
        h < 24,
        m < 60,
        s < 60,
    ensures
        ({
            let gone = ago(d * 86400 + h * 3600 + m * 60 + s);
            &&& d > 0 ==> gone == decimal(d) + "d ago"@
            &&& d == 0 && h > 0 ==> gone == decimal(h) + "h ago"@
            &&& d == 0 && h == 0 && m > 0 ==> gone == decimal(m) + " min ago"@
            &&& d == 0 && h == 0 && m == 0 ==> gone == "just now"@
        }),
{
    let gone = d * 86400 + h * 3600 + m * 60 + s;
    assert(gone / 86400 == d) by (nonlinear_arith)
        requires
            gone == d * 86400 + h * 3600 + m * 60 + s,
            h < 24,
            m < 60,
            s < 60,
    ;
    if d == 0 {
        assert(gone / 3600 == h) by (nonlinear_arith)
            requires
                gone == h * 3600 + m * 60 + s,
                m < 60,
                s < 60,
        ;
        if h == 0 {
            assert(gone / 60 == m) by (nonlinear_arith)
                requires
                    gone == m * 60 + s,
                    s < 60,
            ;
        }
    }
}

/// Seconds are counted from the milliseconds gone by; a clock that ran back counts none.
/// A refresh longer ago than a day comes with its date.
pub proof fn elapsed_time_is_counted(at: i64, now: i64, n: nat, ms: nat, a: nat)
    requires
        ms < 1000,
    ensures
        now - at == n * 1000 + ms ==> elapsed_seconds(at, now) == n,
        now <= at ==> elapsed_seconds(at, now) == 0,
        clock_format(a) == "%H:%M"@ <==> a < 86400,
{
    reveal_strlit("%H:%M");
    reveal_strlit("%b %d, %H:%M");
    assert("%H:%M"@.len() != "%b %d, %H:%M"@.len());
}

/// A gauge fills to the brim and no further, warns from half on and is high from four
/// fifths on; a limit's own words for its reset win over a countdown.
pub proof fn a_gauge_tells_its_window(w: RateLimitWindow, now: i64, p: nat)
    ensures
        percent_of(w) <= 100,
        w.whole_percent <= 100 ==> percent_of(w) == w.whole_percent,
        w.whole_percent > 100 ==> percent_of(w) == 100,
        level_of(p) == "high"@ <==> p >= 80,
        level_of(p) == "warn"@ <==> 50 <= p < 80,
        level_of(p) == "ok"@ <==> p < 50,
        w.resets_text is Some ==> reset_words(w, now) == Some(w.resets_text->0@),
        w.resets_text is None && w.resets_at is Some ==> reset_words(w, now) == Some(
            time_left(w.resets_at->0, now),
        ),
        w.resets_text is None && w.resets_at is None ==> reset_words(w, now) is None,
{
    reveal_strlit("high");
    reveal_strlit("warn");
    reveal_strlit("ok");
    assert("high"@[0] == 'h' && "warn"@[0] == 'w' && "ok"@[0] == 'o');
}

/// The bar is empty exactly where no window of either provider has started.
pub proof fn the_bar_shows_what_has_started(
    claude: Option<ProviderUsage>,
    codex: Option<ProviderUsage>,
    u: ProviderUsage,
    w: RateLimitWindow,
)
    ensures
        (claude == Some(u) || codex == Some(u)) && w.started && (u.session == Some(w) || u.weekly
            == Some(w) || (u.weekly_model is Some && (u.weekly_model->0).1 == w)) ==> !bar_empty(
            claude,
            codex,
        ),
        claude is None && codex is None ==> bar_empty(claude, codex),
        any_gauge(u) ==> (u.session is Some && u.session->0.started) || (u.weekly is Some
            && u.weekly->0.started) || (u.weekly_model is Some && (u.weekly_model->0).1.started),
        bar_empty(claude, codex) && claude == Some(u) ==> !any_gauge(u),
        !bar_empty(claude, codex) ==> (claude is Some && any_gauge(claude->0)) || (codex is Some
            && any_gauge(codex->0)),
{
}

/// A click waits for a refresh made at or after it, or for its own time to run out.
pub proof fn a_click_waits_for_its_refresh(b: RefreshButton, at: i64)
    requires
        b.pending is Some,
    ensures
        at >= b.pending->0.clicked_at ==> after_snapshot(b, Some(at)).pending is None,
        at < b.pending->0.clicked_at ==> after_snapshot(b, Some(at)) == b,
        after_timeout(b, b.pending->0.generation).pending is None,
        after_snapshot(b, Some(at)).clicks == b.clicks,
        after_timeout(b, b.pending->0.generation).clicks == b.clicks,
{
}

/// The label tells how long ago the refresh was and when, and a bar that is still to be
/// filled says that it is being looked up.
pub proof fn the_label_tells_when(
    elapsed: nat,
    clock: Seq<char>,
    refreshed: Option<i64>,
    pending: bool,
    empty: &'static str,
    name: &str,
    label: String,
)
    requires
        call_ensures(empty_message, (refreshed, pending), empty),
        call_ensures(model_gauge_label, (name,), label),
    ensures
        within(updated_words(elapsed, clock), ago(elapsed)),
        within(updated_words(elapsed, clock), clock),
        empty@ == "No usage data"@ <==> !pending && refreshed is Some,
        ends(label@, name@),
{
    let w = updated_words(elapsed, clock);
    assert(w =~= "Updated "@ + ago(elapsed) + (" ("@ + clock + ")"@));
    parts_are_found("Updated "@, ago(elapsed), " ("@ + clock + ")"@);
    parts_are_found("Updated "@ + ago(elapsed) + " ("@, clock, ")"@);
    parts_are_found("7d "@, name@, Seq::empty());
    reveal_strlit("No usage data");
    reveal_strlit("Checking usage…");
    assert("No usage data"@.len() != "Checking usage…"@.len());
}

} // verus!
