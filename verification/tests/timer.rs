use txt_timer::stamp::{Delay, Stamp, TimePoint};
use txt_timer::timer::{compile_pattern, make_timer, AnyTimer, ChronoTimer, ConfigError, RegexTimer, Timer};

#[test]
fn time_parser() {
    let regex = compile_pattern(r"(?P<time>\d{4}-\d{2}-\d{2} \d{2}:\d{2}:\d{2}\.?\d*)").unwrap();
    let mut regex_timer = RegexTimer::new(regex, "%Y-%m-%d %H:%M:%S%.3f");

    let op1 = regex_timer.stamp("test 2021-12-03 08:19:00.000 something");
    let op2 = regex_timer.stamp("test 2021-12-03 08:19:01.000 something");
    let op3 = regex_timer.stamp("test 2021-12-03 08:19:01.100 something");

    assert_eq!(op1.expect("failed to extract").last, Delay { secs: 0, nanos: 0 });
    assert_eq!(op2.expect("failed to extract").last, Delay { secs: 1, nanos: 0 });
    assert_eq!(
        op3.expect("failed to extract").last,
        Delay { secs: 0, nanos: 100_000_000 }
    );
}

#[test]
fn extraction_failure_leaves_state() {
    let regex = compile_pattern(r"(?P<time>\d{4}-\d{2}-\d{2} \d{2}:\d{2}:\d{2})").unwrap();
    let mut t = RegexTimer::new(regex, "%Y-%m-%d %H:%M:%S");

    // A line with no reading before the epoch exists: declined, and the
    // epoch stays unset, so the next successful parse still reads zero.
    assert!(t.stamp("no timestamp here").is_none());
    let s1 = t.stamp("a 2021-01-01 00:00:10").expect("failed to extract");
    assert_eq!(s1.last, Delay { secs: 0, nanos: 0 });
    assert_eq!(s1.total, Delay { secs: 0, nanos: 0 });

    // A line with no reading in mid-stream: declined, and the previous
    // reading survives, so the next delay spans the gap.
    assert!(t.stamp("still no timestamp").is_none());
    let s2 = t.stamp("b 2021-01-01 00:00:13").expect("failed to extract");
    assert_eq!(s2.last, Delay { secs: 3, nanos: 0 });
    assert_eq!(s2.total, Delay { secs: 3, nanos: 0 });
}

#[test]
fn extraction_declines_backwards_time() {
    let regex = compile_pattern(r"(?P<time>\d{4}-\d{2}-\d{2} \d{2}:\d{2}:\d{2})").unwrap();
    let mut t = RegexTimer::new(regex, "%Y-%m-%d %H:%M:%S");

    assert!(t.stamp("a 2021-01-01 00:00:10").is_some());
    // An out-of-order reading degrades to "no reading"...
    assert!(t.stamp("b 2021-01-01 00:00:05").is_none());
    // ...and leaves the previous reading in place.
    let s = t.stamp("c 2021-01-01 00:00:12").expect("failed to extract");
    assert_eq!(s.last, Delay { secs: 2, nanos: 0 });
}

#[test]
fn wall_clock_always_stamps() {
    let mut t = ChronoTimer::new();
    let s1 = t.stamp("first\n").expect("wall clock never declines");
    let s2 = t.stamp("second\n").expect("wall clock never declines");
    assert!(s2.total.as_nanos() >= s1.total.as_nanos());
    assert!(s1.utc.is_some());
    assert!(s2.utc.is_some());
}

#[test]
fn stamp_order_by_last_then_total_then_utc() {
    let d = |secs: u64, nanos: u32| Delay { secs, nanos };
    let tp = |secs: i64| Some(TimePoint { secs, nanos: 0 });
    let a = Stamp { last: d(2, 0), total: d(5, 0), utc: tp(100) };
    let b = Stamp { last: d(1, 999_999_999), total: d(9, 0), utc: tp(200) };
    assert!(a.rank_gt(&b));
    assert!(!b.rank_gt(&a));

    let c = Stamp { last: d(2, 0), total: d(6, 0), utc: tp(50) };
    assert!(c.rank_gt(&a));

    let e = Stamp { last: d(2, 0), total: d(5, 0), utc: tp(101) };
    assert!(e.rank_gt(&a));
    assert!(!a.rank_gt(&a));
}

#[test]
fn delay_saturating_sub_carries_and_clamps() {
    let a = Delay { secs: 1, nanos: 100 };
    let b = Delay { secs: 0, nanos: 200_000_000 };
    assert_eq!(a.saturating_sub(&b), Delay { secs: 0, nanos: 800_000_100 });
    assert_eq!(b.saturating_sub(&a), Delay { secs: 0, nanos: 0 });
    assert_eq!(a.as_nanos(), 1_000_000_100);
}

#[test]
fn bad_regex() {
    let pattern = r"(?P<ime>[0-9: -]*\.\d{3})".to_string();
    let r = make_timer(Some(pattern), Some("%Y-%m-%d %H:%M:%S%.3f".to_string()), false);
    assert!(matches!(r, Err(ConfigError::MissingTimeGroup)));
}

#[test]
fn invalid_pattern_is_refused() {
    let r = make_timer(Some("(".to_string()), Some("%Y-%m-%d %H:%M:%S".to_string()), false);
    assert!(matches!(r, Err(ConfigError::InvalidPattern)));
    assert!(compile_pattern("(").is_none());
}

#[test]
fn bad_regex_combination() {
    let pattern = r"(?P<time>[0-9: -]*\.\d{3})".to_string();
    let fmt = "%Y-%m-%d %H:%M:%S%.3f".to_string();
    let r = make_timer(Some(pattern.clone()), Some(fmt.clone()), true);
    assert!(matches!(r, Err(ConfigError::MismatchedPatternFormat)));

    let r = make_timer(Some(pattern), None, false);
    assert!(matches!(r, Err(ConfigError::MismatchedPatternFormat)));

    let r = make_timer(None, Some(fmt), false);
    assert!(matches!(r, Err(ConfigError::MismatchedPatternFormat)));
}

#[test]
fn make_timer_selects_wall_clock() {
    let mut t = make_timer(None, None, false).expect("no options select the wall clock");
    assert!(matches!(t, AnyTimer::Wall(_)));
    assert!(t.stamp("anything\n").is_some());
}

#[test]
fn make_timer_selects_iso() {
    let mut t = make_timer(None, None, true).expect("the built-in ISO pattern compiles");
    assert!(matches!(t, AnyTimer::Extract(_)));
    assert!(t.stamp("boot 2021-12-03T08:19:00.000Z ok").is_some());
    let s = t
        .stamp("next 2021-12-03T08:19:02.500Z ok")
        .expect("failed to extract");
    assert_eq!(s.last, Delay { secs: 2, nanos: 500_000_000 });
    assert!(t.stamp("not a timestamp").is_none());
}

#[test]
fn make_timer_accepts_custom_pair() {
    let pattern = r"(?P<time>\d{4}-\d{2}-\d{2} \d{2}:\d{2}:\d{2})".to_string();
    let mut t = make_timer(Some(pattern), Some("%Y-%m-%d %H:%M:%S".to_string()), false)
        .expect("a pattern with a time group is accepted");
    assert!(matches!(t, AnyTimer::Extract(_)));
    assert!(t.stamp("a 2021-01-01 00:00:10").is_some());
}
