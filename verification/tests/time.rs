use lib::error::ErrorKind;
use lib::time::{Duration, SystemTime, Timespec};

fn ts(sec: i64, nsec: i64) -> Timespec {
    Timespec::new(sec, nsec).unwrap()
}

#[test]
fn timespec_new_keeps_fields() {
    let t = ts(-7, 999_999_999);
    assert_eq!(t.tv_sec(), -7);
    assert_eq!(t.tv_nsec(), 999_999_999);
}

#[test]
fn timespec_new_rejects_negative_nanos() {
    let e = Timespec::new(1, -1).unwrap_err();
    assert_eq!(e.kind(), ErrorKind::InvalidData);
    assert_eq!(e.message(), Some("invalid timestamp"));
}

#[test]
fn timespec_new_rejects_a_full_second_of_nanos() {
    let e = Timespec::new(1, 1_000_000_000).unwrap_err();
    assert_eq!(e.kind(), ErrorKind::InvalidData);
}

#[test]
fn timespec_zero_min_max() {
    assert_eq!(Timespec::zero(), ts(0, 0));
    assert_eq!(Timespec::max_value(), ts(i64::MAX, 999_999_999));
    assert_eq!(Timespec::min_value(), ts(i64::MIN, 0));
}

#[test]
fn sub_timespec_forward_borrows_a_second() {
    let d = ts(5, 100).sub_timespec(&ts(3, 200)).unwrap();
    assert_eq!(d.as_secs(), 1);
    assert_eq!(d.subsec_nanos(), 999_999_900);
}

#[test]
fn sub_timespec_backward_reports_err_with_the_span() {
    let d = ts(3, 200).sub_timespec(&ts(5, 100)).unwrap_err();
    assert_eq!(d, Duration::new(1, 999_999_900));
}

#[test]
fn sub_timespec_of_itself_is_zero() {
    let t = ts(42, 7);
    assert_eq!(t.sub_timespec(&t), Ok(Duration::new(0, 0)));
}

#[test]
fn sub_timespec_spans_the_whole_range() {
    let d = Timespec::max_value().sub_timespec(&Timespec::min_value()).unwrap();
    assert_eq!(d.as_secs(), u64::MAX);
    assert_eq!(d.subsec_nanos(), 999_999_999);
}

#[test]
fn sub_timespec_negative_seconds() {
    let d = ts(-1, 500_000_000).sub_timespec(&ts(-2, 700_000_000)).unwrap();
    assert_eq!(d, Duration::new(0, 800_000_000));
}

#[test]
fn checked_add_duration_carries() {
    let t = ts(1, 900_000_000).checked_add_duration(&Duration::new(0, 200_000_000)).unwrap();
    assert_eq!(t, ts(2, 100_000_000));
}

#[test]
fn checked_add_duration_overflows_to_none() {
    assert_eq!(Timespec::max_value().checked_add_duration(&Duration::new(0, 1)), None);
    assert_eq!(ts(i64::MAX, 0).checked_add_duration(&Duration::new(1, 0)), None);
}

#[test]
fn checked_add_duration_reaches_max() {
    let t = ts(i64::MAX - 1, 999_999_999).checked_add_duration(&Duration::new(1, 0)).unwrap();
    assert_eq!(t, Timespec::max_value());
}

#[test]
fn checked_sub_duration_borrows() {
    let t = ts(2, 100_000_000).checked_sub_duration(&Duration::new(0, 200_000_000)).unwrap();
    assert_eq!(t, ts(1, 900_000_000));
}

#[test]
fn checked_sub_duration_underflows_to_none() {
    assert_eq!(Timespec::min_value().checked_sub_duration(&Duration::new(0, 1)), None);
}

#[test]
fn add_then_sub_gives_the_span_back() {
    let t = ts(-3, 250);
    let d = Duration::new(7, 999_999_999);
    let u = t.checked_add_duration(&d).unwrap();
    assert_eq!(u.sub_timespec(&t), Ok(d));
    assert_eq!(u.checked_sub_duration(&d), Some(t));
}

#[test]
fn sub_then_measure_gives_the_span_back() {
    let t = ts(10, 5);
    let d = Duration::new(3, 6);
    let u = t.checked_sub_duration(&d).unwrap();
    assert_eq!(u, ts(6, 999_999_999));
    assert_eq!(t.sub_timespec(&u), Ok(d));
}

#[test]
fn ordering_follows_time() {
    assert!(ts(1, 5).ge(&ts(1, 4)));
    assert!(!ts(0, 999_999_999).ge(&ts(1, 0)));
    assert!(ts(-1, 0).ge(&ts(-1, 0)));
}

#[test]
fn to_timespec_copies_the_fields() {
    let c = ts(12, 34).to_timespec().unwrap();
    assert_eq!(c.tv_sec, 12);
    assert_eq!(c.tv_nsec, 34);
}

#[test]
fn duration_new_carries_nanos() {
    let d = Duration::new(1, 2_500_000_000);
    assert_eq!(d.as_secs(), 3);
    assert_eq!(d.subsec_nanos(), 500_000_000);
}

#[test]
fn system_time_new() {
    let s = SystemTime::new(100, 5).unwrap();
    assert_eq!(s.t, ts(100, 5));
    assert_eq!(SystemTime::new(100, -5).unwrap_err().kind(), ErrorKind::InvalidData);
}
