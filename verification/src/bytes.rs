//! Big-endian integers in byte buffers.

use byteorder::{BigEndian, ByteOrder};
use vstd::prelude::*;

verus! {

/// The number that `s` spells in base 256, most significant byte first.
pub open spec fn be_value(s: Seq<u8>) -> nat
    decreases s.len(),
{
    if s.len() == 0 {
        0
    } else {
        256 * be_value(s.drop_last()) + s.last() as nat
    }
}

/// The last `width` base-256 digits of `n`, most significant first.
pub open spec fn be_bytes(n: nat, width: nat) -> Seq<u8>
    decreases width,
{
    if width == 0 {
        Seq::empty()
    } else {
        be_bytes(n / 256, (width - 1) as nat).push((n % 256) as u8)
    }
}

/// How many numbers `width` bytes can spell.
pub open spec fn be_range(width: nat) -> nat
    decreases width,
{
    if width == 0 {
        1
    } else {
        256 * be_range((width - 1) as nat)
    }
}

/// The number in the four bytes from `at` on, the first of them worth 2^24.
pub open spec fn quad_at(s: Seq<u8>, at: int) -> int {
    0x100_0000 * s[at] + 0x1_0000 * s[at + 1] + 0x100 * s[at + 2] + s[at + 3]
}

/// The number in the eight bytes from `at` on, the first four of them worth 2^32 times the
/// others.
pub open spec fn octet_at(s: Seq<u8>, at: int) -> int {
    0x1_0000_0000 * quad_at(s, at) + quad_at(s, at + 4)
}

/// Four bytes spell the numbers below 2^32 and eight those below 2^64.
pub proof fn lemma_be_range_values()
    ensures
        be_range(4) == 0x1_0000_0000,
        be_range(8) == 0x1_0000_0000_0000_0000,
{
    reveal_with_fuel(be_range, 9);
}

/// An encoding has the width that was asked for.
pub proof fn lemma_be_bytes_len(n: nat, width: nat)
    ensures
        be_bytes(n, width).len() == width,
    decreases width,
{
    if width > 0 {
        lemma_be_bytes_len(n / 256, (width - 1) as nat);
    }
}

/// A byte string spells a number that its length can hold.
pub proof fn lemma_be_value_bound(s: Seq<u8>)
    ensures
        be_value(s) < be_range(s.len()),
    decreases s.len(),
{
    if s.len() > 0 {
        lemma_be_value_bound(s.drop_last());
    }
}

/// Reading gives back every number that was written in enough bytes.
pub proof fn lemma_read_of_write(n: nat, width: nat)
    requires
        n < be_range(width),
    ensures
        be_value(be_bytes(n, width)) == n,
    decreases width,
{
    if width > 0 {
        let rest = (width - 1) as nat;
        lemma_read_of_write(n / 256, rest);
        let s = be_bytes(n, width);
        assert(s.drop_last() =~= be_bytes(n / 256, rest));
    }
}

/// Writing gives back every byte string that was read.
pub proof fn lemma_write_of_read(s: Seq<u8>)
    ensures
        be_bytes(be_value(s), s.len()) == s,
    decreases s.len(),
{
    if s.len() > 0 {
        lemma_write_of_read(s.drop_last());
        let n = be_value(s);
        assert(n / 256 == be_value(s.drop_last()));
        assert(n % 256 == s.last() as nat);
        assert(s =~= s.drop_last().push(s.last()));
    } else {
        assert(be_bytes(be_value(s), s.len()) =~= s);
    }
}

/// Calls `byteorder::BigEndian::read_u32`, trusted to return the number that the
/// first four bytes of `buf` spell. It panics on a shorter buffer.
#[verifier::external_body]
pub(crate) fn read_u32(buf: &[u8]) -> (value: u32)
    requires
        buf@.len() >= 4,
    ensures
        value == be_value(buf@.subrange(0, 4)),
{
    BigEndian::read_u32(buf)
}

/// Calls `byteorder::BigEndian::read_u64`, trusted to return the number that the
/// first eight bytes of `buf` spell. It panics on a shorter buffer.
#[verifier::external_body]
pub(crate) fn read_u64(buf: &[u8]) -> (value: u64)
    requires
        buf@.len() >= 8,
    ensures
        value == be_value(buf@.subrange(0, 8)),
{
    BigEndian::read_u64(buf)
}

/// Calls `byteorder::BigEndian::write_u32`, trusted to put the four base-256 digits of
/// `value` at the front of `buf` and to leave the rest alone. It panics on a shorter
/// buffer.
#[verifier::external_body]
pub(crate) fn write_u32(buf: &mut [u8], value: u32)
    requires
        old(buf)@.len() >= 4,
    ensures
        final(buf)@ == be_bytes(value as nat, 4) + old(buf)@.subrange(4, old(buf)@.len() as int),
{
    BigEndian::write_u32(buf, value)
}

/// Calls `byteorder::BigEndian::write_u64`, trusted to put the eight base-256 digits of
/// `value` at the front of `buf` and to leave the rest alone. It panics on a shorter
/// buffer.
#[verifier::external_body]
pub(crate) fn write_u64(buf: &mut [u8], value: u64)
    requires
        old(buf)@.len() >= 8,
    ensures
        final(buf)@ == be_bytes(value as nat, 8) + old(buf)@.subrange(8, old(buf)@.len() as int),
{
    BigEndian::write_u64(buf, value)
}

/// The bytes of a number weigh 256 times less from each to the next, and the last weighs one.
pub proof fn law_bytes_weigh_less_and_less(s: Seq<u8>, at: int)
    requires
        0 <= at,
    ensures
        at + 4 <= s.len() ==> be_value(s.subrange(at, at + 4)) == quad_at(s, at),
        at + 8 <= s.len() ==> be_value(s.subrange(at, at + 8)) == octet_at(s, at),
{
    if at + 4 <= s.len() {
        lemma_quad(s.subrange(at, at + 4));
    }
    if at + 8 <= s.len() {
        let t = s.subrange(at, at + 8);
        let t7 = t.drop_last();
        let t6 = t7.drop_last();
        let t5 = t6.drop_last();
        let t4 = t5.drop_last();
        lemma_quad(t4);
        assert(be_value(t5) == 256 * be_value(t4) + t[4]);
        assert(be_value(t6) == 256 * be_value(t5) + t[5]);
        assert(be_value(t7) == 256 * be_value(t6) + t[6]);
        assert(be_value(t) == 256 * be_value(t7) + t[7]);
    }
}

proof fn lemma_quad(s: Seq<u8>)
    requires
        s.len() == 4,
    ensures
        be_value(s) == quad_at(s, 0),
{
    let s3 = s.drop_last();
    let s2 = s3.drop_last();
    let s1 = s2.drop_last();
    let s0 = s1.drop_last();
    assert(be_value(s0) == 0);
    assert(be_value(s1) == s[0]);
    assert(be_value(s2) == 256 * be_value(s1) + s[1]);
    assert(be_value(s3) == 256 * be_value(s2) + s[2]);
    assert(be_value(s) == 256 * be_value(s3) + s[3]);
}

} // verus!
