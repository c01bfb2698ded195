//! NTP time values: 64-bit timestamps and 32-bit short values.

use crate::bytes::{
    be_bytes, be_value, lemma_be_range_values, lemma_read_of_write, read_u32, read_u64, write_u32,
    write_u64,
};
use vstd::prelude::*;

verus! {

/// Seconds from the NTP epoch (1900) to the Unix epoch (1970).
pub const UNIX_EPOCH_SECS: u64 = 2_208_988_800;

/// Fractions of a second in a timestamp: 2^32 of them make one second.
pub const UNITS_PER_SEC: u64 = 0x1_0000_0000;

/// Nanoseconds in a second.
pub const NANOS_PER_SEC: u32 = 1_000_000_000;

/// A point in time as a 32.32 fixed-point count of seconds since 1900, modulo 2^32
/// seconds.
#[derive(Debug, Copy, Clone, PartialEq, Eq, Structural)]
pub struct NtpTimestamp {
    pub ts: u64,
}

/// `nanos` nanoseconds in units of 2^-32 s, rounded down.
pub open spec fn nanos_to_units(nanos: int) -> int {
    nanos * UNITS_PER_SEC / NANOS_PER_SEC as int
}

/// The timestamp of `secs` seconds and `nanos` nanoseconds after the Unix epoch.
pub open spec fn unix_timestamp(secs: int, nanos: int) -> int {
    (secs + UNIX_EPOCH_SECS) % (UNITS_PER_SEC as int) * UNITS_PER_SEC + nanos_to_units(nanos)
}

/// `a - b` reduced modulo 2^64 into the range of `i64`: the way from `b` to `a`
/// around the clock, in units of 2^-32 s, the shorter way round.
pub open spec fn clock_difference(a: u64, b: u64) -> int {
    let d = a - b;
    if d < i64::MIN {
        d + 0x1_0000_0000_0000_0000
    } else if d > i64::MAX {
        d - 0x1_0000_0000_0000_0000
    } else {
        d
    }
}

/// Whether two timestamps are more than a tenth of a second apart, either way.
pub open spec fn over_tenth_apart(a: NtpTimestamp, b: NtpTimestamp) -> bool {
    let d = clock_difference(a.ts, b.ts);
    10 * d > UNITS_PER_SEC || 10 * d < -UNITS_PER_SEC
}

impl NtpTimestamp {
    /// The timestamp of a clock that reads `secs` seconds and `nanos` nanoseconds after the
    /// Unix epoch.
    pub fn from_unix(secs: u64, nanos: u32) -> (result: NtpTimestamp)
        requires
            secs + UNIX_EPOCH_SECS <= u64::MAX,
            nanos < NANOS_PER_SEC,
        ensures
            result.ts == unix_timestamp(secs as int, nanos as int),
    {
        let ntp_secs: u64 = secs + UNIX_EPOCH_SECS;
        let units: u64 = ((nanos as u64) * UNITS_PER_SEC) / (NANOS_PER_SEC as u64);
        assert(ntp_secs << 32 == (ntp_secs % 0x1_0000_0000) * 0x1_0000_0000) by (bit_vector);
        NtpTimestamp { ts: (ntp_secs << 32) + units }
    }

    /// The timestamp that stands for no time.
    pub fn zero() -> (result: NtpTimestamp)
        ensures
            result.ts == 0,
    {
        NtpTimestamp { ts: 0 }
    }

    /// The signed time from `ts` to `self` in units of 2^-32 s.
    pub fn diff(&self, ts: &NtpTimestamp) -> (units: i64)
        ensures
            units == clock_difference(self.ts, ts.ts),
    {
        let wrapped: u64 = self.ts.wrapping_sub(ts.ts);
        let units: i64 = wrapped as i64;
        assert(units == (if wrapped <= 0x7fff_ffff_ffff_ffff { wrapped as int } else {
            wrapped - 0x1_0000_0000_0000_0000
        })) by (bit_vector)
            requires
                units == wrapped as i64,
        ;
        units
    }

    /// Whether `self` and `ts` are more than a tenth of a second apart.
    pub fn far_from(&self, ts: &NtpTimestamp) -> (apart: bool)
        ensures
            apart == over_tenth_apart(*self, *ts),
    {
        let units: i64 = self.diff(ts);
        // A tenth of 2^32, rounded down.
        units > 429_496_729 || units < -429_496_729
    }

    /// Reads a timestamp off the front of `buf`.
    pub fn read(buf: &[u8]) -> (result: NtpTimestamp)
        requires
            buf@.len() >= 8,
        ensures
            result.ts == be_value(buf@.subrange(0, 8)),
    {
        NtpTimestamp { ts: read_u64(buf) }
    }

    /// Writes the timestamp over the first eight bytes of `buf`.
    pub fn write(&self, buf: &mut [u8])
        requires
            old(buf)@.len() >= 8,
        ensures
            final(buf)@ == be_bytes(self.ts as nat, 8) + old(buf)@.subrange(
                8,
                old(buf)@.len() as int,
            ),
    {
        write_u64(buf, self.ts)
    }
}

/// A short time value as a 16.16 fixed-point count of seconds.
#[derive(Debug, Copy, Clone, PartialEq, Eq, Structural)]
pub struct NtpFracValue {
    pub val: u32,
}

impl NtpFracValue {
    /// Reads a value off the front of `buf`.
    pub fn read(buf: &[u8]) -> (result: NtpFracValue)
        requires
            buf@.len() >= 4,
        ensures
            result.val == be_value(buf@.subrange(0, 4)),
    {
        NtpFracValue { val: read_u32(buf) }
    }

    /// Writes the value over the first four bytes of `buf`.
    pub fn write(&self, buf: &mut [u8])
        requires
            old(buf)@.len() >= 4,
        ensures
            final(buf)@ == be_bytes(self.val as nat, 4) + old(buf)@.subrange(
                4,
                old(buf)@.len() as int,
            ),
    {
        write_u32(buf, self.val)
    }

    pub fn zero() -> (result: NtpFracValue)
        ensures
            result.val == 0,
    {
        NtpFracValue { val: 0 }
    }
}

/// A timestamp that is written and read back is the same timestamp.
pub proof fn law_timestamp_round_trip(t: NtpTimestamp)
    ensures
        be_value(be_bytes(t.ts as nat, 8)) == t.ts,
{
    lemma_be_range_values();
    lemma_read_of_write(t.ts as nat, 8);
}

/// A short value that is written and read back is the same value.
pub proof fn law_frac_value_round_trip(v: NtpFracValue)
    ensures
        be_value(be_bytes(v.val as nat, 4)) == v.val,
{
    lemma_be_range_values();
    lemma_read_of_write(v.val as nat, 4);
}

/// A timestamp that is moved by `units` differs from the old one by `units`, wherever the
/// clock wraps.
pub proof fn law_difference_undoes_advance(t: u64, units: i64)
    ensures
        clock_difference(((t + units) % 0x1_0000_0000_0000_0000) as u64, t) == units,
{
}

/// The difference changes its sign when the timestamps change places, unless they are
/// exactly half the clock apart.
pub proof fn law_difference_antisymmetric(a: u64, b: u64)
    requires
        clock_difference(a, b) != i64::MIN,
    ensures
        clock_difference(b, a) == -clock_difference(a, b),
{
}

/// It does not matter which of two timestamps is asked whether they are a tenth of a second
/// apart.
pub proof fn law_apart_symmetric(a: NtpTimestamp, b: NtpTimestamp)
    ensures
        over_tenth_apart(a, b) == over_tenth_apart(b, a),
        !over_tenth_apart(a, a),
{
}

/// Clock readings less than 2^31 - 1 seconds apart (68 years) differ as timestamps by what
/// they differ as times, also where the timestamp's seconds wrap between them.
pub proof fn law_difference_of_clock_readings(secs1: int, nanos1: int, secs2: int, nanos2: int)
    requires
        0 <= nanos1 < NANOS_PER_SEC,
        0 <= nanos2 < NANOS_PER_SEC,
        -0x7fff_ffff < secs2 - secs1 < 0x7fff_ffff,
    ensures
        clock_difference(
            unix_timestamp(secs2, nanos2) as u64,
            unix_timestamp(secs1, nanos1) as u64,
        ) == (secs2 - secs1) * UNITS_PER_SEC + nanos_to_units(nanos2) - nanos_to_units(nanos1),
{
    let s1 = secs1 + UNIX_EPOCH_SECS;
    let s2 = secs2 + UNIX_EPOCH_SECS;
    let m = UNITS_PER_SEC as int;
    assert(0 <= nanos_to_units(nanos1) < m);
    assert(0 <= nanos_to_units(nanos2) < m);
    let gap = s2 % m - s1 % m - (s2 - s1);
    assert(gap == 0 || gap == m || gap == -m);
}

/// Later clock readings of one era have larger timestamps.
pub proof fn law_timestamps_follow_the_clock(secs1: int, nanos1: int, secs2: int, nanos2: int)
    requires
        0 <= nanos1 < NANOS_PER_SEC,
        0 <= nanos2 < NANOS_PER_SEC,
        secs1 < secs2 || (secs1 == secs2 && nanos1 < nanos2),
        (secs1 + UNIX_EPOCH_SECS) / (UNITS_PER_SEC as int) == (secs2 + UNIX_EPOCH_SECS) / (
        UNITS_PER_SEC as int),
    ensures
        unix_timestamp(secs1, nanos1) < unix_timestamp(secs2, nanos2),
{
    assert(0 <= nanos_to_units(nanos1) < UNITS_PER_SEC);
    assert(0 <= nanos_to_units(nanos2) < UNITS_PER_SEC);
}

/// The upper half of a timestamp counts the seconds since 1900, modulo 2^32, and the lower half
/// is the largest number of 2^-32 s that the nanoseconds hold.
pub proof fn law_timestamp_halves(secs: int, nanos: int)
    requires
        0 <= nanos < 1_000_000_000,
    ensures
        ({
            let ts = unix_timestamp(secs, nanos);
            let units = ts % 0x1_0000_0000;
            &&& 0 <= ts < 0x1_0000_0000_0000_0000
            &&& ts / 0x1_0000_0000 == (secs + 2_208_988_800) % 0x1_0000_0000
            &&& units * 1_000_000_000 <= nanos * 0x1_0000_0000 < (units + 1) * 1_000_000_000
        }),
{
    assert(0 <= nanos_to_units(nanos) < UNITS_PER_SEC);
    let s = (secs + 2_208_988_800) % 0x1_0000_0000;
    let ts = unix_timestamp(secs, nanos);
    assert(ts == s * 0x1_0000_0000 + nanos_to_units(nanos));
    assert(ts / 0x1_0000_0000 == s);
    assert(ts % 0x1_0000_0000 == nanos_to_units(nanos));
}

/// A timestamp that is moved by some time, either way, is far from where it was exactly when that
/// was more than a tenth of a second.
pub proof fn law_far_is_over_a_tenth(t: u64, units: i64)
    ensures
        over_tenth_apart(
            NtpTimestamp { ts: ((t + units) % 0x1_0000_0000_0000_0000) as u64 },
            NtpTimestamp { ts: t },
        ) <==> (10 * units > 0x1_0000_0000 || -10 * units > 0x1_0000_0000),
{
    law_difference_undoes_advance(t, units);
}

} // verus!
