//! The keystroke harness.

use usine::stress::{
    check_line, churn, fix_a, flag, is_subsequence, judge, num, search_filtered, summary_of,
    transcript_cap, typed_span, value_of, SENTINEL,
};

#[test]
fn sentinel_is_80_chars_with_no_adjacent_repeats() {
    let chars: Vec<char> = SENTINEL.chars().collect();
    assert_eq!(chars.len(), 80);
    assert!(chars.windows(2).all(|w| w[0] != w[1]));
}

#[test]
fn subsequence_detects_a_rewind() {
    assert!(is_subsequence("the-quown-fox", SENTINEL));
    assert!(is_subsequence(SENTINEL, SENTINEL));
    assert!(!is_subsequence("zzz", SENTINEL));
}

#[test]
fn a_trial_is_judged_by_what_survived() {
    let intact = judge(&format!("2400:{SENTINEL}"), SENTINEL, SENTINEL).unwrap();
    assert_eq!(intact.typing_ms, 2400);
    assert!(intact.dom_match && intact.signal_match && intact.draft_match && intact.subsequence);
    assert_eq!(intact.dropped, 0);

    let rewound = judge("2500:the-quown-fox", "the-quown-fox", "").unwrap();
    assert_eq!(rewound.typed, 80);
    assert_eq!(rewound.dom_len, 13);
    assert_eq!(rewound.dropped, 67);
    assert!(!rewound.dom_match && !rewound.signal_match && !rewound.draft_match);
    assert!(rewound.subsequence);

    assert!(judge("__NOELEM__", "", "").is_none());
    let odd = judge("later:a:b", "", "").unwrap();
    assert_eq!(odd.typing_ms, 0);
    assert_eq!(odd.dom, "a:b");

    assert_eq!(summary_of(&vec![intact, rewound]), (1, 67, 1));
}

#[test]
fn switches_and_numbers() {
    assert!(flag(Some("1")));
    assert!(flag(Some("TRUE")));
    assert!(!flag(Some("yes")));
    assert!(!flag(None));
    assert!(fix_a(None));
    assert!(!fix_a(Some("true")));
    assert_eq!(num(Some("12"), 3), 12);
    assert_eq!(num(Some(" 12"), 3), 3);
    assert_eq!(num(None, 3), 3);
    assert_eq!(transcript_cap(None, None), 500);
    assert_eq!(transcript_cap(None, Some("20")), 20);
    assert_eq!(transcript_cap(Some("1"), Some("20")), 0);
    assert_eq!(typed_span(30), 2370);
}

#[test]
fn the_flood_churns_on_a_schedule() {
    assert_eq!(churn(0, 4, false), (true, true));
    assert_eq!(churn(2, 4, false), (true, false));
    assert_eq!(churn(3, 4, false), (false, false));
    assert_eq!(churn(8, 4, true), (true, false));
    assert_eq!(churn(8, 0, false), (false, false));
}

#[test]
fn readings_and_reports() {
    assert_eq!(value_of("=draft default=\"\""), "=draft");
    assert_eq!(value_of("=draft"), "=draft");
    assert_eq!(
        check_line("send clears", true, "ok"),
        format!("[check] {:<28} PASS  ok", "send clears")
    );
    let long = "a name that is longer than the column is wide";
    assert_eq!(
        check_line(long, false, ""),
        format!("[check] {long} FAIL  ")
    );
    assert!(search_filtered("5/1/5 typed=\"stress card 3\""));
    assert!(!search_filtered("5/2/5 typed=\"stress card 3\""));
    assert!(!search_filtered("1/1/1 typed=\"stress card 3\""));
    assert!(!search_filtered("5/1/4 typed=\"stress card 3\""));
    assert!(!search_filtered("5/1/5 typed=\"stress\""));
    assert!(!search_filtered("missing:card-search-input"));
}
