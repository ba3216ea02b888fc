use socket2::time::{dur2ms, ms2dur, INFINITE};
use socket2::{Duration, Error};

#[test]
fn no_timeout_is_zero() {
    assert_eq!(dur2ms(None), Ok(0));
}

#[test]
fn a_timeout_of_no_length_is_refused() {
    assert_eq!(dur2ms(Some(Duration::new(0, 0))), Err(Error::ZeroTimeout));
    assert_eq!(dur2ms(Some(Duration::from_secs(0))), Err(Error::ZeroTimeout));
    assert_eq!(dur2ms(Some(Duration::from_millis(0))), Err(Error::ZeroTimeout));
}

#[test]
fn the_refusal_of_a_timeout_is_an_invalid_input() {
    let err = dur2ms(Some(Duration::new(0, 0))).unwrap_err();
    assert!(err.is_invalid_input());
    assert_eq!(err.raw_os_error(), None);
    assert_eq!(err.message(), "cannot set a 0 duration timeout");
}

#[test]
fn whole_milliseconds_are_kept() {
    assert_eq!(dur2ms(Some(Duration::from_millis(1))), Ok(1));
    assert_eq!(dur2ms(Some(Duration::from_millis(1500))), Ok(1500));
    assert_eq!(dur2ms(Some(Duration::from_secs(3))), Ok(3000));
    assert_eq!(dur2ms(Some(Duration::new(2, 250_000_000))), Ok(2250));
}

#[test]
fn a_started_millisecond_counts_as_a_whole_one() {
    assert_eq!(dur2ms(Some(Duration::new(0, 1))), Ok(1));
    assert_eq!(dur2ms(Some(Duration::new(0, 999_999))), Ok(1));
    assert_eq!(dur2ms(Some(Duration::new(0, 1_000_000))), Ok(1));
    assert_eq!(dur2ms(Some(Duration::new(0, 1_000_001))), Ok(2));
    assert_eq!(dur2ms(Some(Duration::new(1, 1))), Ok(1001));
    assert_eq!(dur2ms(Some(Duration::new(0, 999_999_999))), Ok(1000));
    assert_eq!(dur2ms(Some(Duration::new(7, 500_000_001))), Ok(7501));
}

#[test]
fn a_timeout_that_the_count_cannot_hold_is_never() {
    assert_eq!(INFINITE, u32::MAX);
    // The largest count is 4294967.295 s.
    assert_eq!(dur2ms(Some(Duration::new(4_294_967, 294_000_000))), Ok(4_294_967_294));
    assert_eq!(dur2ms(Some(Duration::new(4_294_967, 295_000_000))), Ok(INFINITE));
    assert_eq!(dur2ms(Some(Duration::new(4_294_967, 294_000_001))), Ok(INFINITE));
    assert_eq!(dur2ms(Some(Duration::new(4_294_967, 296_000_000))), Ok(INFINITE));
    assert_eq!(dur2ms(Some(Duration::from_secs(4_294_968))), Ok(INFINITE));
    assert_eq!(dur2ms(Some(Duration::from_secs(u64::MAX / 1000))), Ok(INFINITE));
    assert_eq!(dur2ms(Some(Duration::from_secs(u64::MAX / 1000 + 1))), Ok(INFINITE));
    assert_eq!(dur2ms(Some(Duration::new(u64::MAX, 999_999_999))), Ok(INFINITE));
    assert_eq!(dur2ms(Some(Duration::from_secs(u64::MAX))), Ok(INFINITE));
}

#[test]
fn the_multiplication_may_fit_where_the_sum_does_not() {
    // 18446744073709551 s is the most whose milliseconds fit in 64 bits.
    assert_eq!(dur2ms(Some(Duration::new(18_446_744_073_709_551, 615_000_000))), Ok(INFINITE));
    assert_eq!(dur2ms(Some(Duration::new(18_446_744_073_709_551, 615_000_001))), Ok(INFINITE));
    assert_eq!(dur2ms(Some(Duration::new(18_446_744_073_709_551, 999_999_999))), Ok(INFINITE));
}

#[test]
fn zero_milliseconds_is_no_timeout() {
    assert_eq!(ms2dur(0), None);
}

#[test]
fn milliseconds_become_seconds_and_nanoseconds() {
    assert_eq!(ms2dur(1), Some(Duration::new(0, 1_000_000)));
    assert_eq!(ms2dur(999), Some(Duration::new(0, 999_000_000)));
    assert_eq!(ms2dur(1000), Some(Duration::from_secs(1)));
    assert_eq!(ms2dur(1500), Some(Duration::new(1, 500_000_000)));
    assert_eq!(ms2dur(u32::MAX), Some(Duration::new(4_294_967, 295_000_000)));
    let d = ms2dur(61_001).unwrap();
    assert_eq!(d.as_secs(), 61);
    assert_eq!(d.subsec_nanos(), 1_000_000);
}

#[test]
fn a_count_survives_decoding_and_encoding() {
    for ms in [0u32, 1, 2, 999, 1000, 1001, 60_000, 0x7fff_ffff, u32::MAX - 1, u32::MAX] {
        assert_eq!(dur2ms(ms2dur(ms)), Ok(ms));
    }
}

#[test]
fn a_timeout_of_whole_milliseconds_survives_encoding_and_decoding() {
    for d in [
        Duration::from_millis(1),
        Duration::from_millis(250),
        Duration::from_secs(30),
        Duration::new(4_294_967, 295_000_000),
    ] {
        assert_eq!(ms2dur(dur2ms(Some(d)).unwrap()), Some(d));
    }
}

#[test]
fn duration_carries_whole_seconds_over() {
    let d = Duration::new(1, 2_500_000_000);
    assert_eq!(d.as_secs(), 3);
    assert_eq!(d.subsec_nanos(), 500_000_000);
    assert_eq!(d, Duration::new(3, 500_000_000));
    let e = Duration::new(0, 1_000_000_000);
    assert_eq!(e, Duration::from_secs(1));
    let f = Duration::new(5, 999_999_999);
    assert_eq!((f.as_secs(), f.subsec_nanos()), (5, 999_999_999));
}

#[test]
fn duration_from_whole_units() {
    assert_eq!(Duration::from_secs(7).as_secs(), 7);
    assert_eq!(Duration::from_secs(7).subsec_nanos(), 0);
    assert_eq!(Duration::from_millis(2750), Duration::new(2, 750_000_000));
    assert_eq!(Duration::from_millis(u64::MAX).as_secs(), 18_446_744_073_709_551);
    assert_eq!(Duration::from_millis(u64::MAX).subsec_nanos(), 615_000_000);
}
