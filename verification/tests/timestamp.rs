use ntp_toolbox::timestamp::{NtpFracValue, NtpTimestamp};

fn seconds_between(a: &NtpTimestamp, b: &NtpTimestamp) -> f64 {
    a.ts.wrapping_sub(b.ts) as i64 as f64 / 4294967296.0
}

#[test]
fn unix_epoch_is_seventy_years_after_the_ntp_epoch() {
    assert_eq!(NtpTimestamp::from_unix(0, 0).ts, 2_208_988_800u64 << 32);
}

#[test]
fn half_a_second_is_half_the_fraction() {
    let t = NtpTimestamp::from_unix(1, 500_000_000);
    assert_eq!(t.ts, (2_208_988_801u64 << 32) + 0x8000_0000);
}

#[test]
fn seconds_wrap_at_the_end_of_the_era() {
    let last = (1u64 << 32) - 1 - 2_208_988_800;
    assert_eq!(NtpTimestamp::from_unix(last, 0).ts, 0xffff_ffff_0000_0000);
    assert_eq!(NtpTimestamp::from_unix(last + 1, 0).ts, 0);
    let gap = NtpTimestamp::from_unix(last + 1, 0).diff(&NtpTimestamp::from_unix(last, 0));
    assert_eq!(gap, 1i64 << 32);
}

#[test]
fn fractions_agree_with_floating_point() {
    let mut nanos: u32 = 0;
    while nanos < 1_000_000_000 {
        let t = NtpTimestamp::from_unix(0, nanos);
        assert_eq!(t.ts & 0xffff_ffff, (nanos as f64 * 4.294967296) as u64);
        nanos += 99_991;
    }
    let mut exact: u32 = 0;
    while exact < 1_000_000_000 {
        let t = NtpTimestamp::from_unix(0, exact);
        assert_eq!(t.ts & 0xffff_ffff, (exact as f64 * 4.294967296) as u64);
        exact += 1_953_125;
    }
    assert_eq!(NtpTimestamp::from_unix(0, 999_999_999).ts & 0xffff_ffff, 4_294_967_291);
}

#[test]
fn later_readings_of_an_era_have_larger_timestamps() {
    let a = NtpTimestamp::from_unix(1_700_000_000, 999_999_999);
    let b = NtpTimestamp::from_unix(1_700_000_001, 0);
    assert!(a.ts < b.ts);
    assert_eq!(b.diff(&a), 5);
    let c = NtpTimestamp::from_unix(1_700_000_001, 1);
    assert!(b.ts < c.ts);
}

#[test]
fn difference_goes_the_shorter_way_round() {
    let a = NtpTimestamp { ts: 5 };
    let b = NtpTimestamp { ts: u64::MAX };
    assert_eq!(a.diff(&b), 6);
    assert_eq!(b.diff(&a), -6);
    assert_eq!(a.diff(&a), 0);
}

#[test]
fn half_the_clock_is_its_own_opposite() {
    let a = NtpTimestamp { ts: 1 << 63 };
    let b = NtpTimestamp::zero();
    assert_eq!(a.diff(&b), i64::MIN);
    assert_eq!(b.diff(&a), i64::MIN);
}

#[test]
fn a_tenth_of_a_second_is_the_limit() {
    let base = NtpTimestamp { ts: 1 << 40 };
    let steps: [i64; 9] =
        [0, 1, -1, 429_496_729, -429_496_729, 429_496_730, -429_496_730, i64::MAX, i64::MIN];
    for step in steps {
        let moved = NtpTimestamp { ts: base.ts.wrapping_add(step as u64) };
        assert_eq!(moved.diff(&base), step);
        assert_eq!(moved.far_from(&base), seconds_between(&moved, &base).abs() > 0.1);
        assert_eq!(moved.far_from(&base), base.far_from(&moved));
    }
    assert!(!NtpTimestamp { ts: 429_496_729 }.far_from(&NtpTimestamp::zero()));
    assert!(NtpTimestamp { ts: 429_496_730 }.far_from(&NtpTimestamp::zero()));
}

#[test]
fn timestamps_are_big_endian() {
    let bytes: [u8; 9] = [1, 2, 3, 4, 5, 6, 7, 8, 9];
    assert_eq!(NtpTimestamp::read(&bytes).ts, 0x0102_0304_0506_0708);
    let mut buf = [0xffu8; 9];
    NtpTimestamp { ts: 0x0102_0304_0506_0708 }.write(&mut buf);
    assert_eq!(buf, [1, 2, 3, 4, 5, 6, 7, 8, 0xff]);
}

#[test]
fn short_values_are_big_endian() {
    let bytes: [u8; 5] = [0xde, 0xad, 0xbe, 0xef, 0];
    assert_eq!(NtpFracValue::read(&bytes).val, 0xdead_beef);
    let mut buf = [7u8; 5];
    NtpFracValue { val: 0xdead_beef }.write(&mut buf);
    assert_eq!(buf, [0xde, 0xad, 0xbe, 0xef, 7]);
    assert_eq!(NtpFracValue::zero().val, 0);
}

#[test]
fn written_values_read_back() {
    let mut buf = [0u8; 8];
    for ts in [0, 1, 255, 256, u64::MAX, 0x8000_0000_0000_0000] {
        NtpTimestamp { ts }.write(&mut buf);
        assert_eq!(NtpTimestamp::read(&buf), NtpTimestamp { ts });
    }
    for val in [0, 1, 255, 256, u32::MAX] {
        NtpFracValue { val }.write(&mut buf);
        assert_eq!(NtpFracValue::read(&buf), NtpFracValue { val });
    }
}
