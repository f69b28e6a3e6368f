//! What queries ask for: ranges, screen options, waits.

use ptyctl::range::{fits, parse_range};
use ptyctl::screen::{build_screen_opts, screen_format, ScreenFormat, ScreenOpts, ScreenParams};
use ptyctl::wait::{plan_wait, wait_timeout, WaitCondition, WaitParams, WaitPlan};
use std::time::Duration;

#[test]
fn range_with_both_bounds() {
    assert_eq!(parse_range("1:5"), Some(1..5));
    assert_eq!(parse_range("5:2"), Some(std::ops::Range { start: 5, end: 2 }));
    assert_eq!(parse_range("0:0"), Some(0..0));
}

#[test]
fn range_open_at_the_end() {
    assert_eq!(parse_range("5:"), Some(5..usize::MAX));
}

#[test]
fn range_open_at_the_start() {
    assert_eq!(parse_range(":10"), Some(1..10));
}

#[test]
fn range_open_at_both_ends() {
    assert_eq!(parse_range(":"), Some(1..usize::MAX));
}

#[test]
fn range_of_a_single_number() {
    assert_eq!(parse_range("5"), Some(5..6));
    assert_eq!(parse_range("0"), Some(0..1));
    let below = format!("{}", usize::MAX - 1);
    assert_eq!(parse_range(&below), Some(usize::MAX - 1..usize::MAX));
}

#[test]
fn texts_that_are_no_range() {
    for s in [
        "", "a", "1:a", "a:1", "1:2:3", "::", "-1", "1 ", " 1", "1_000", "+", "++1", "1:+", "+:1",
        "1.5", "\u{663}", "1\u{ff1a}5",
    ] {
        assert_eq!(parse_range(s), None, "{s:?}");
    }
}

#[test]
fn numbers_may_have_a_plus_and_leading_zeros() {
    assert_eq!(parse_range("+5"), Some(5..6));
    assert_eq!(parse_range("+1:+05"), Some(1..5));
    let zeros = format!("{}7", "0".repeat(60));
    assert_eq!(parse_range(&zeros), Some(7..8));
}

#[test]
fn numbers_that_do_not_fit() {
    let largest = format!("{}", usize::MAX);
    let larger = format!("{}0", usize::MAX);
    let one_more = format!("{}", usize::MAX as u128 + 1);
    assert_eq!(parse_range(&format!("{largest}:{largest}")), Some(usize::MAX..usize::MAX));
    assert_eq!(parse_range(&larger), None);
    assert_eq!(parse_range(&one_more), None);
    assert_eq!(parse_range(&format!("1:{one_more}")), None);
}

#[test]
fn only_a_lone_largest_number_does_not_fit() {
    let largest = format!("{}", usize::MAX);
    assert!(!fits(&largest));
    assert!(!fits(&format!("+0{largest}")));
    assert!(fits(&format!("{largest}:")));
    assert!(fits(&format!("{largest}0")));
    assert!(fits("5"));
    assert!(fits("x"));
}

#[test]
fn numbers_are_read_as_std_reads_them() {
    for s in [
        "0", "7", "10", "+10", "007", "4294967295", "4294967296", "18446744073709551614",
        "18446744073709551615", "18446744073709551616", "99999999999999999999999", "", "+", "-0",
        "1a", "a1", "0x10", "1e3",
    ] {
        let expected = if s.is_empty() { Some(1) } else { s.parse::<usize>().ok() };
        let range = parse_range(&format!("{s}:9"));
        assert_eq!(range, expected.map(|start| start..9), "{s:?}");
    }
}

#[test]
fn written_ranges_read_back() {
    for start in [0usize, 1, 9, 10, 99, 100, 12345, usize::MAX] {
        for end in [0usize, 1, 10, 65536, usize::MAX] {
            assert_eq!(parse_range(&format!("{start}:{end}")), Some(start..end));
        }
        assert_eq!(parse_range(&format!("{start}:")), Some(start..usize::MAX));
        assert_eq!(parse_range(&format!(":{start}")), Some(1..start));
    }
}

#[test]
fn screen_options_by_default() {
    let params = ScreenParams::default();
    assert!(params.fits());
    assert_eq!(
        build_screen_opts(&params),
        ScreenOpts { rows: None, cols: None, cursor_char: None, include_empty: false }
    );
    assert_eq!(screen_format(&params), ScreenFormat::Text);
}

#[test]
fn screen_options_from_parameters() {
    let params = ScreenParams {
        rows: Some("1:5".to_string()),
        cols: Some("nonsense".to_string()),
        cursor: Some('#'),
        format: Some("styled".to_string()),
        full: Some(true),
    };
    assert!(params.fits());
    assert_eq!(
        build_screen_opts(&params),
        ScreenOpts { rows: Some(1..5), cols: None, cursor_char: Some('#'), include_empty: true }
    );
    assert_eq!(screen_format(&params), ScreenFormat::Styled);
    let params = ScreenParams { full: Some(false), cols: Some(":3".to_string()), ..params };
    assert!(!build_screen_opts(&params).include_empty);
    assert_eq!(build_screen_opts(&params).cols, Some(1..3));
}

#[test]
fn screen_parameters_that_do_not_fit() {
    let largest = format!("{}", usize::MAX);
    let rows = ScreenParams { rows: Some(largest.clone()), ..ScreenParams::default() };
    let cols = ScreenParams { cols: Some(largest), ..ScreenParams::default() };
    assert!(!rows.fits());
    assert!(!cols.fits());
}

#[test]
fn screen_formats() {
    for (name, format) in [
        ("text", ScreenFormat::Text),
        ("styled", ScreenFormat::Styled),
        ("html", ScreenFormat::Html),
        ("", ScreenFormat::Text),
        ("HTML", ScreenFormat::Text),
        ("styled ", ScreenFormat::Text),
        ("png", ScreenFormat::Text),
    ] {
        let params = ScreenParams { format: Some(name.to_string()), ..ScreenParams::default() };
        assert_eq!(screen_format(&params), format, "{name:?}");
    }
}

#[test]
fn wait_for_one_condition() {
    let text = WaitParams { text: Some("done".to_string()), ..WaitParams::default() };
    let regex = WaitParams { regex: Some("d.ne".to_string()), ..WaitParams::default() };
    let gone = WaitParams { gone: Some("busy".to_string()), ..WaitParams::default() };
    let stable = WaitParams { stable_ms: Some(250), ..WaitParams::default() };
    let plan = |condition| Some(WaitPlan { condition, timeout_ms: 10_000 });
    assert_eq!(plan_wait(text), plan(WaitCondition::Text("done".to_string())));
    assert_eq!(plan_wait(regex), plan(WaitCondition::Regex("d.ne".to_string())));
    assert_eq!(plan_wait(gone), plan(WaitCondition::Gone("busy".to_string())));
    assert_eq!(plan_wait(stable), plan(WaitCondition::StableMs(250)));
}

#[test]
fn wait_without_or_with_several_conditions() {
    assert_eq!(plan_wait(WaitParams::default()), None);
    let timeout_alone = WaitParams { timeout_ms: Some(5), ..WaitParams::default() };
    assert_eq!(plan_wait(timeout_alone), None);
    let two = WaitParams {
        text: Some("a".to_string()),
        gone: Some("b".to_string()),
        ..WaitParams::default()
    };
    assert_eq!(plan_wait(two), None);
    let all = WaitParams {
        text: Some("a".to_string()),
        regex: Some("b".to_string()),
        gone: Some("c".to_string()),
        stable_ms: Some(1),
        timeout_ms: None,
    };
    assert_eq!(plan_wait(all), None);
}

#[test]
fn wait_timeouts() {
    for (asked, granted) in [
        (None, 10_000),
        (Some(0), 0),
        (Some(30_000), 30_000),
        (Some(120_000), 120_000),
        (Some(120_001), 120_000),
        (Some(u64::MAX), 120_000),
    ] {
        let params =
            WaitParams { stable_ms: Some(1), timeout_ms: asked, ..WaitParams::default() };
        assert_eq!(plan_wait(params).map(|plan| plan.timeout_ms), Some(granted));
    }
    assert_eq!(wait_timeout(1500), Duration::new(1, 500_000_000));
    assert_eq!(wait_timeout(0), Duration::new(0, 0));
}
