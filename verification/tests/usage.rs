//! The usage bar and the clock.

use usine::model::{ProviderUsage, RateLimitWindow};
use usine::transcript::{fmt_time, tail_window, time_at};
use usine::usagebar::{
    countdown, empty_message, gauge, has_visible_window, is_bar_empty, model_gauge_label,
    refresh_landed, refreshed_label, updated_label, Pending, RefreshButton,
};

const NOW: i64 = 1_800_000_000_000;

fn window(percent: u32) -> RateLimitWindow {
    RateLimitWindow {
        whole_percent: percent,
        started: percent > 0,
        resets_text: None,
        resets_at: None,
    }
}

#[test]
fn an_empty_bar_reads_as_in_flight_until_a_refresh_lands() {
    assert_eq!(empty_message(None, false), "Checking usage…");
    assert_eq!(empty_message(None, true), "Checking usage…");
    assert_eq!(empty_message(Some(NOW), true), "Checking usage…");
    assert_eq!(empty_message(Some(NOW), false), "No usage data");
}

#[test]
fn only_a_snapshot_from_after_the_click_retires_the_spinner() {
    let pending = Pending {
        generation: 1,
        clicked_at: NOW,
    };
    assert!(!refresh_landed(Some(pending), None));
    assert!(!refresh_landed(Some(pending), Some(NOW - 1)));
    assert!(refresh_landed(Some(pending), Some(NOW)));
    assert!(refresh_landed(Some(pending), Some(NOW + 5_000)));
    assert!(!refresh_landed(None, Some(NOW)));
}

#[test]
fn never_refreshed_says_so() {
    assert_eq!(refreshed_label(None, NOW), "Usage not refreshed yet");
}

#[test]
fn recent_refreshes_read_as_just_now() {
    let label = refreshed_label(Some(NOW - 10_000), NOW);
    assert!(label.starts_with("Updated just now ("), "{label}");
    assert!(label.ends_with(')'), "{label}");
}

#[test]
fn elapsed_time_is_bucketed() {
    for (ago_ms, expected) in [
        (3 * 60_000, "Updated 3 min ago ("),
        (2 * 3_600_000, "Updated 2h ago ("),
        (2 * 86_400_000, "Updated 2d ago ("),
    ] {
        let label = refreshed_label(Some(NOW - ago_ms), NOW);
        assert!(label.starts_with(expected), "{label}");
        assert!(label.ends_with(')'), "{label}");
    }
}

#[test]
fn a_future_timestamp_is_clamped_to_fresh() {
    let label = refreshed_label(Some(NOW + 60_000), NOW);
    assert!(label.starts_with("Updated just now ("), "{label}");
}

#[test]
fn a_per_model_weekly_cap_alone_still_shows_the_provider_segment() {
    let usage = ProviderUsage {
        session: None,
        weekly: None,
        weekly_model: Some(("Fable".into(), window(6))),
    };
    assert!(has_visible_window(&usage));

    let idle = ProviderUsage {
        session: None,
        weekly: None,
        weekly_model: Some(("Fable".into(), window(0))),
    };
    assert!(!has_visible_window(&idle));
}

#[test]
fn a_timestamp_without_a_date_is_never_refreshed() {
    assert_eq!(
        refreshed_label(Some(i64::MAX), NOW),
        "Usage not refreshed yet"
    );
    assert_eq!(fmt_time(i64::MIN), "");
    assert_eq!(fmt_time(8_210_266_876_800_000), "");
    assert!(!fmt_time(8_210_266_876_799_999).is_empty());
    assert!(!fmt_time(-8_334_601_228_800_000).is_empty());
    assert_eq!(fmt_time(-8_334_601_228_800_001), "");
}

#[test]
fn the_time_of_day_has_seconds() {
    let t = fmt_time(NOW);
    assert_eq!(t.len(), 8, "{t}");
    assert_eq!(t.matches(':').count(), 2, "{t}");
    let label = refreshed_label(Some(NOW), NOW);
    assert_eq!(label.len(), "Updated just now (12:34)".len(), "{label}");
    let older = refreshed_label(Some(NOW), NOW + 3 * 86_400_000);
    assert_eq!(older.len(), "Updated 3d ago (Jan 01, 12:34)".len(), "{older}");
}

#[test]
fn the_time_of_day_follows_the_zone() {
    assert_eq!(time_at(0, 0), "00:00:00");
    assert_eq!(time_at(-1, 0), "23:59:59");
    assert_eq!(time_at(1_700_000_000_999, 0), "22:13:20");
    assert_eq!(time_at(1_700_000_000_000, 19_800), "03:43:20");
    assert_eq!(time_at(1_700_000_000_000, -86_399), "22:13:21");
    assert_eq!(time_at(8_210_266_876_799_999, 86_399), "23:59:58");
    assert_eq!(time_at(0, 86_400), "");
    assert_eq!(time_at(i64::MAX, 0), "");
    let here = fmt_time(1_700_000_000_000);
    assert!((-86_399..86_400).any(|east| time_at(1_700_000_000_000, east) == here));
}

#[test]
fn the_tooltip_is_put_together() {
    assert_eq!(updated_label(59, "14:32"), "Updated just now (14:32)");
    assert_eq!(updated_label(60, "14:32"), "Updated 1 min ago (14:32)");
    assert_eq!(updated_label(3_599, "14:32"), "Updated 59 min ago (14:32)");
    assert_eq!(updated_label(86_399, "14:32"), "Updated 23h ago (14:32)");
    assert_eq!(
        updated_label(172_800, "Jan 01, 14:32"),
        "Updated 2d ago (Jan 01, 14:32)"
    );
}

#[test]
fn a_later_click_is_not_ended_by_an_earlier_one() {
    let mut b = RefreshButton::new();
    let first = b.click(100);
    let second = b.click(200);
    assert_eq!((first, second), (1, 2));
    b.timeout(first);
    b.snapshot(Some(150));
    assert!(b.pending.is_some());
    b.snapshot(Some(200));
    assert!(b.pending.is_none());
    b.click(300);
    b.timeout(3);
    assert!(b.pending.is_none());
}

#[test]
fn gauges_have_levels_and_resets() {
    assert_eq!(gauge(&window(49), 0).level, "ok");
    assert_eq!(gauge(&window(50), 0).level, "warn");
    assert_eq!(gauge(&window(80), 0).level, "high");
    assert_eq!(gauge(&window(250), 0).percent, 100);
    let mut w = window(10);
    assert_eq!(gauge(&w, 0).reset, None);
    w.resets_at = Some(2_700);
    assert_eq!(gauge(&w, 0).reset, Some("in 45m".into()));
    w.resets_text = Some("3pm".into());
    assert_eq!(gauge(&w, 0).reset, Some("3pm".into()));
    assert_eq!(model_gauge_label("Fable"), "7d Fable");
}

#[test]
fn the_countdown_is_in_two_units() {
    assert_eq!(countdown(2 * 86_400 + 4 * 3_600 + 59, 0), "in 2d 4h");
    assert_eq!(countdown(3 * 3_600 + 12 * 60, 0), "in 3h 12m");
    assert_eq!(countdown(3 * 3_600 + 2 * 60, 0), "in 3h 02m");
    assert_eq!(countdown(45 * 60, 0), "in 45m");
    assert_eq!(countdown(5, 10), "in 0m");
    assert_eq!(countdown(i64::MAX, i64::MIN), "in 213503982334601d 7h");
}

#[test]
fn a_bar_without_gauges_is_empty() {
    let idle = ProviderUsage {
        session: Some(window(0)),
        weekly: None,
        weekly_model: None,
    };
    let used = ProviderUsage {
        session: None,
        weekly: Some(window(1)),
        weekly_model: None,
    };
    assert!(is_bar_empty(&None, &None));
    assert!(is_bar_empty(&Some(idle.clone()), &None));
    assert!(!is_bar_empty(&Some(idle), &Some(used)));
}

#[test]
fn only_the_tail_of_a_transcript_is_drawn() {
    assert_eq!(tail_window(10, 0), 0);
    assert_eq!(tail_window(10, 500), 0);
    assert_eq!(tail_window(501, 500), 1);
    assert_eq!(tail_window(502, 500), 2);
}
