use activesupport::time::{Duration, TimeCalculation, TimeDuration, TimeRange, Timestamp};

#[test]
fn duration_works() {
    assert_eq!(60.seconds(), Duration::seconds((60).into()));
    assert_eq!(1.second(), Duration::seconds((1).into()));
    assert_eq!(60.minutes(), Duration::minutes((60).into()));
    assert_eq!(1.minute(), Duration::minutes((1).into()));
    assert_eq!(60.hours(), Duration::hours((60).into()));
    assert_eq!(1.hour(), Duration::hours((1).into()));
    assert_eq!(60.days(), Duration::days((60).into()));
    assert_eq!(1.day(), Duration::days((1).into()));
    assert_eq!(60.weeks(), Duration::weeks((60).into()));
    assert_eq!(1.week(), Duration::weeks((1).into()));
    assert_eq!(60.fortnights(), Duration::weeks((120).into()));
    assert_eq!(1.fortnight(), Duration::weeks((2).into()));
}

#[test]
fn range_works() {
    assert!(1.day().from_now() <= Timestamp::now().unwrap().checked_add_signed(1.day()));
    assert!(2.weeks().from_now() <= Timestamp::now().unwrap().checked_add_signed(2.weeks()));
    let combined = 4.days().checked_add(5.weeks()).unwrap();
    assert!(combined.from_now() <= Timestamp::now().unwrap().checked_add_signed(combined));

    assert!(1.day().ago() <= Timestamp::now().unwrap().checked_sub_signed(1.day()));
    assert!(2.weeks().ago() <= Timestamp::now().unwrap().checked_sub_signed(2.weeks()));
    assert!(combined.ago() <= Timestamp::now().unwrap().checked_sub_signed(combined));
}

#[test]
fn in_milliseconds_works() {
    assert!(1.in_milliseconds() <= Duration::milliseconds(1000));
}

#[test]
fn beginning_of_hour_works() {
    let a = Timestamp::now().unwrap().beginning_of_hour().unwrap();
    assert_eq!(a.second(), 0);
    assert_eq!(a.nanosecond(), 0);
}

#[test]
fn end_of_hour_works() {
    let a = Timestamp::now().unwrap().end_of_hour().unwrap();
    assert_eq!(a.second() % 60, 59);
    assert_eq!(a.nanosecond(), 999999999);
}

#[test]
fn beginning_of_minute_works() {
    let a = Timestamp::now().unwrap().beginning_of_minute().unwrap();
    assert_eq!(a.second(), 0);
    assert_eq!(a.nanosecond(), 0);
}

#[test]
fn end_of_minute_works() {
    let a = Timestamp::now().unwrap().end_of_minute().unwrap();
    assert_eq!(a.second(), 59);
    assert_eq!(a.nanosecond(), 999999999);
}

#[test]
fn unit_conversions_are_exact() {
    assert_eq!(1.seconds(), Duration::nanoseconds(1_000_000_000));
    assert_eq!(1.minutes(), Duration::nanoseconds(60_000_000_000));
    assert_eq!(1.hours(), Duration::nanoseconds(3_600_000_000_000));
    assert_eq!(1.days(), Duration::nanoseconds(86_400_000_000_000));
    assert_eq!(1.weeks(), Duration::nanoseconds(604_800_000_000_000));
    assert_eq!(1.fortnights(), Duration::nanoseconds(1_209_600_000_000_000));
    assert_eq!(7.minutes(), Duration::seconds(420));
    assert_eq!(2.hours(), Duration::seconds(7200));
    assert_eq!(3.days(), Duration::seconds(259_200));
    assert_eq!(2.weeks(), Duration::seconds(1_209_600));
    assert_eq!(60.fortnights(), Duration::seconds(72_576_000));
}

#[test]
fn in_milliseconds_is_a_span() {
    assert_eq!(2.in_milliseconds(), Duration::milliseconds(2000));
    assert_eq!(0.in_milliseconds(), Duration::milliseconds(0));
    assert_eq!((-3).in_milliseconds(), Duration::milliseconds(-3000));
}

#[test]
fn singular_equals_plural() {
    for n in [-7, -1, 0, 1, 42] {
        assert_eq!(n.second(), n.seconds());
        assert_eq!(n.minute(), n.minutes());
        assert_eq!(n.hour(), n.hours());
        assert_eq!(n.day(), n.days());
        assert_eq!(n.week(), n.weeks());
        assert_eq!(n.fortnight(), n.fortnights());
    }
}

#[test]
fn negative_magnitudes_preserve_sign() {
    assert_eq!((-2).days(), Duration::days(-2));
    assert_eq!((-2).days(), Duration::nanoseconds(-172_800_000_000_000));
    assert_eq!((-1).fortnights(), Duration::weeks(-2));
    assert_eq!(i32::MIN.fortnights(), Duration::weeks(2 * (i32::MIN as i64)));
}

#[test]
fn extreme_magnitudes_do_not_wrap() {
    assert_eq!(i32::MAX.fortnights(), Duration::weeks(2 * (i32::MAX as i64)));
    assert_eq!(i32::MIN.weeks(), Duration::weeks(i32::MIN as i64));
    assert_eq!(i32::MAX.in_milliseconds(), Duration::milliseconds(1000 * (i32::MAX as i64)));
}

#[test]
fn duration_addition_composes() {
    assert_eq!(4.days().checked_add(5.weeks()), Some(Duration::days(39)));
    assert_eq!(1.hours().checked_add((-60).minutes()), Some(Duration::seconds(0)));
    let a = 3.minutes();
    let b = 90.seconds();
    assert_eq!(a.checked_add(b), b.checked_add(a));
}

#[test]
fn duration_addition_overflows_to_none() {
    let mut d = Duration::weeks(i64::MAX);
    let mut overflowed = false;
    for _ in 0..32 {
        match d.checked_add(d) {
            Some(sum) => d = sum,
            None => {
                overflowed = true;
                break;
            }
        }
    }
    assert!(overflowed);
}

#[test]
fn from_now_is_bracketed_by_clock_reads() {
    let before = Timestamp::now().unwrap();
    let resolved = 5.minutes().from_now().unwrap();
    let after = Timestamp::now().unwrap();
    assert!(before.checked_add_signed(5.minutes()).unwrap() <= resolved);
    assert!(resolved <= after.checked_add_signed(5.minutes()).unwrap());
}

#[test]
fn ago_is_bracketed_by_clock_reads() {
    let before = Timestamp::now().unwrap();
    let resolved = 5.minutes().ago().unwrap();
    let after = Timestamp::now().unwrap();
    assert!(before.checked_sub_signed(5.minutes()).unwrap() <= resolved);
    assert!(resolved <= after.checked_sub_signed(5.minutes()).unwrap());
}

#[test]
fn combined_duration_from_now_is_bracketed() {
    let combined = 4.days().checked_add(5.weeks()).unwrap();
    let before = Timestamp::now().unwrap();
    let resolved = combined.from_now().unwrap();
    let after = Timestamp::now().unwrap();
    assert!(before.checked_add_signed(combined).unwrap() <= resolved);
    assert!(resolved <= after.checked_add_signed(combined).unwrap());
}

#[test]
fn range_synonyms_agree_in_kind() {
    let before = Timestamp::now().unwrap();
    let since = 1.hour().since().unwrap();
    let after_r = 1.hour().after().unwrap();
    let until = 1.hour().until().unwrap();
    let before_r = 1.hour().before().unwrap();
    assert!(since >= before);
    assert!(after_r >= before);
    assert!(until <= before.checked_add_signed(1.hour()).unwrap());
    assert!(before_r <= before.checked_add_signed(1.hour()).unwrap());
}

#[test]
fn clock_reads_after_the_epoch() {
    assert!(Timestamp::now().unwrap().as_nanos() >= 0);
}

#[test]
fn timestamp_arithmetic_is_exact() {
    let t = Timestamp::from_nanos(1_000);
    assert_eq!(t.checked_add_signed(Duration::nanoseconds(234)).unwrap().as_nanos(), 1_234);
    assert_eq!(t.checked_sub_signed(Duration::nanoseconds(1_001)).unwrap().as_nanos(), -1);
    assert_eq!(Timestamp::from_nanos(i64::MAX).checked_add_signed(Duration::nanoseconds(1)), None);
    assert_eq!(Timestamp::from_nanos(i64::MIN).checked_sub_signed(Duration::nanoseconds(1)), None);
}

#[test]
fn hour_bracket_is_exact() {
    let t = Timestamp::from_nanos(7_265_123_456_789);
    assert_eq!(t.minute(), 1);
    assert_eq!(t.second(), 5);
    assert_eq!(t.nanosecond(), 123_456_789);
    let b = t.beginning_of_hour().unwrap();
    let e = t.end_of_hour().unwrap();
    assert_eq!(b.as_nanos(), 7_200_000_000_000);
    assert_eq!(e.as_nanos(), 10_799_999_999_999);
    assert!(b <= t && t <= e);
    assert_eq!(b.minute(), 0);
    assert_eq!(e.minute(), 59);
}

#[test]
fn minute_bracket_is_exact() {
    let t = Timestamp::from_nanos(7_265_123_456_789);
    let b = t.beginning_of_minute().unwrap();
    let e = t.end_of_minute().unwrap();
    assert_eq!(b.as_nanos(), 7_260_000_000_000);
    assert_eq!(e.as_nanos(), 7_319_999_999_999);
    assert!(b <= t && t <= e);
    assert_eq!(b.second(), 0);
    assert_eq!(e.second(), 59);
}

#[test]
fn truncation_before_the_epoch() {
    let t = Timestamp::from_nanos(-1);
    assert_eq!(t.second(), 59);
    assert_eq!(t.nanosecond(), 999_999_999);
    assert_eq!(t.beginning_of_hour().unwrap().as_nanos(), -3_600_000_000_000);
    assert_eq!(t.beginning_of_minute().unwrap().as_nanos(), -60_000_000_000);
    assert_eq!(t.end_of_hour().unwrap().as_nanos(), -1);
    assert_eq!(t.end_of_minute().unwrap().as_nanos(), -1);
}

#[test]
fn truncation_overflows_to_none() {
    assert_eq!(Timestamp::from_nanos(i64::MIN).beginning_of_hour(), None);
    assert_eq!(Timestamp::from_nanos(i64::MIN).beginning_of_minute(), None);
    assert_eq!(Timestamp::from_nanos(i64::MAX).end_of_hour(), None);
    assert_eq!(Timestamp::from_nanos(i64::MAX).end_of_minute(), None);
}

#[test]
fn beginning_of_hour_is_idempotent() {
    let t = Timestamp::from_nanos(7_265_123_456_789);
    let b = t.beginning_of_hour().unwrap();
    assert_eq!(b.beginning_of_hour().unwrap(), b);
    let m = t.beginning_of_minute().unwrap();
    assert_eq!(m.beginning_of_minute().unwrap(), m);
}
