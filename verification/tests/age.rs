use tealdeer::age::TimeSpan;
use tealdeer::cache::Cache;
use tealdeer::error::TealdeerError;

fn span(secs: u64, nanos: u32) -> TimeSpan {
    TimeSpan::new(secs, nanos).unwrap()
}

fn located() -> Result<&'static str, TealdeerError> {
    Ok("/cache")
}

#[test]
fn spans_hold_less_than_a_second_of_nanoseconds() {
    assert!(TimeSpan::new(0, 0).is_some());
    assert!(TimeSpan::new(u64::MAX, 999_999_999).is_some());
    assert!(TimeSpan::new(0, 1_000_000_000).is_none());
    assert!(TimeSpan::new(5, u32::MAX).is_none());
    let s = span(12, 345);
    assert_eq!(s.secs(), 12);
    assert_eq!(s.subsec_nanos(), 345);
}

#[test]
fn time_between_two_points() {
    assert_eq!(span(10, 500).since(&span(4, 200)), Some(span(6, 300)));
    assert_eq!(span(10, 100).since(&span(9, 999_999_900)), Some(span(0, 200)));
    assert_eq!(span(10, 0).since(&span(10, 0)), Some(span(0, 0)));
    assert_eq!(span(10, 0).since(&span(10, 1)), None);
    assert_eq!(span(9, 999_999_999).since(&span(10, 0)), None);
    assert_eq!(span(u64::MAX, 999_999_999).since(&span(0, 0)), Some(span(u64::MAX, 999_999_999)));
    assert_eq!(span(u64::MAX, 0).since(&span(0, 1)), Some(span(u64::MAX - 1, 999_999_999)));
}

#[test]
fn no_age_without_a_cache() {
    let missing: Result<&str, TealdeerError> = Err(TealdeerError::CacheError("none".to_string()));
    assert_eq!(Cache::last_update(&missing, Some(span(1, 0)), span(2, 0)), None);
    assert_eq!(Cache::last_update(&missing, None, span(2, 0)), None);
}

#[test]
fn no_age_before_the_first_update() {
    assert_eq!(Cache::last_update(&located(), None, span(1_700_000_000, 0)), None);
}

#[test]
fn age_right_after_an_update() {
    let now = span(1_700_000_000, 123_456_789);
    assert_eq!(Cache::last_update(&located(), Some(now), now), Some(span(0, 0)));
}

#[test]
fn age_of_an_old_cache() {
    let modified = span(1_700_000_000, 900_000_000);
    let now = span(1_700_086_400, 100_000_000);
    assert_eq!(Cache::last_update(&located(), Some(modified), now), Some(span(86_399, 200_000_000)));
}

#[test]
fn no_age_for_a_change_in_the_future() {
    let now = span(1_700_000_000, 0);
    assert_eq!(Cache::last_update(&located(), Some(span(1_700_000_000, 1)), now), None);
}
