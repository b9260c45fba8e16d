//! Little-endian bytes of integers, and writes that touch only the low bytes
//! of a 64-bit value.

use crate::instructions::Width;
use vstd::arithmetic::div_mod::{lemma_breakdown, lemma_div_denominator};
use vstd::prelude::*;

verus! {

/// 256 to the power `i`, for `i` from 0 to 8.
pub open spec fn pow256(i: int) -> int {
    if i <= 0 {
        1
    } else if i == 1 {
        0x100
    } else if i == 2 {
        0x1_0000
    } else if i == 3 {
        0x100_0000
    } else if i == 4 {
        0x1_0000_0000
    } else if i == 5 {
        0x100_0000_0000
    } else if i == 6 {
        0x1_0000_0000_0000
    } else if i == 7 {
        0x100_0000_0000_0000
    } else {
        0x1_0000_0000_0000_0000
    }
}

/// Byte `i` of the little-endian encoding of `value`.
pub open spec fn byte_of(value: int, i: int) -> u8 {
    ((value / pow256(i)) % 256) as u8
}

/// Bytes `start..=stop` of the little-endian encoding of `value`.
pub open spec fn le_slice(value: int, start: int, stop: int) -> Seq<u8> {
    Seq::new((stop - start + 1) as nat, |j: int| byte_of(value, start + j))
}

/// The first `n` bytes of the little-endian encoding of `value`.
pub open spec fn le_bytes(value: int, n: int) -> Seq<u8> {
    le_slice(value, 0, n - 1)
}

/// The number that `bytes` encode, least significant byte first.
pub open spec fn le_value(bytes: Seq<u8>) -> int
    decreases bytes.len(),
{
    if bytes.len() == 0 {
        0
    } else {
        bytes[0] + 256 * le_value(bytes.drop_first())
    }
}

/// The low bytes of `value` at width `w`, as a number.
pub open spec fn low(value: int, w: Width) -> int {
    value % w.modulus()
}

/// `old` with its low `w.bytes()` bytes replaced by those of `value`; the
/// bytes above them stay.
pub open spec fn write_low(old: u64, value: int, w: Width) -> u64 {
    (old as int - (old as int) % w.modulus() + value % w.modulus()) as u64
}

/// The bytes of a number below 256 to the `n` encode that number.
pub proof fn le_value_of_le_bytes(value: int, n: int)
    requires
        0 <= n <= 8,
        0 <= value,
    ensures
        le_value(le_bytes(value, n)) == value % pow256(n),
    decreases n,
{
    let bytes = le_bytes(value, n);
    if n == 0 {
    } else {
        let rest = le_bytes(value / 256, n - 1);
        assert(bytes.drop_first() =~= rest) by {
            assert forall|j: int| 0 <= j < n - 1 implies bytes.drop_first()[j] == rest[j] by {
                assert(bytes.drop_first()[j] == byte_of(value, j + 1));
                byte_of_shifted(value, j);
            }
        }
        le_value_of_le_bytes(value / 256, n - 1);
        let p = pow256(n - 1);
        lemma_breakdown(value, 256, p);
    }
}

/// Byte `i + 1` of a number is byte `i` of the number divided by 256.
pub proof fn byte_of_shifted(value: int, i: int)
    requires
        0 <= value,
        0 <= i < 8,
    ensures
        byte_of(value, i + 1) == byte_of(value / 256, i),
{
    let p = pow256(i);
    lemma_div_denominator(value, 256, p);
}

/// What `bytes` encode is below 256 to the power of their count.
pub proof fn le_value_bound(bytes: Seq<u8>)
    requires
        bytes.len() <= 8,
    ensures
        0 <= le_value(bytes) < pow256(bytes.len() as int),
    decreases bytes.len(),
{
    if bytes.len() > 0 {
        le_value_bound(bytes.drop_first());
    }
}

/// A write at width `w` leaves the bytes above the width as they were and
/// makes the low bytes those of `value`.
pub proof fn write_low_keeps_high(old: u64, value: int, w: Width)
    ensures
        write_low(old, value, w) as int / w.modulus() == old as int / w.modulus(),
        write_low(old, value, w) as int % w.modulus() == value % w.modulus(),
        forall|i: int|
            w.bytes() <= i < 8 ==> byte_of(write_low(old, value, w) as int, i) == byte_of(
                old as int,
                i,
            ),
{
    let m = w.modulus();
    let new = write_low(old, value, w);
    assert(new as int / m == old as int / m && new as int % m == value % m);
    assert forall|i: int| w.bytes() <= i < 8 implies byte_of(new as int, i) == byte_of(
        old as int,
        i,
    ) by {
        high_byte_from_quotient(new as int, w, i);
        high_byte_from_quotient(old as int, w, i);
    }
}

/// A byte at or above the width is a byte of the quotient by the modulus.
proof fn high_byte_from_quotient(value: int, w: Width, i: int)
    requires
        0 <= value,
        w.bytes() <= i < 8,
    ensures
        byte_of(value, i) == byte_of(value / w.modulus(), i - w.bytes()),
{
    let m = w.modulus();
    let p = pow256(i - w.bytes());
    assert(pow256(i) == m * p);
    lemma_div_denominator(value, m, p);
}

/// Byte `index` of the little-endian encoding of `value`.
pub fn byte_at(value: u64, index: u8) -> (b: u8)
    requires
        index < 8,
    ensures
        b == byte_of(value as int, index as int),
{
    let mut rest: u64 = value;
    let mut i: u8 = 0;
    while i < index
        invariant
            i <= index < 8,
            rest == value as int / pow256(i as int),
        decreases index - i,
    {
        proof {
            let p = pow256(i as int);
            lemma_div_denominator(value as int, p, 256);
        }
        rest = rest / 256;
        i += 1;
    }
    (rest % 256) as u8
}

/// The number that the `w.bytes()` bytes of `bytes` from `at` on encode.
pub fn read_le(bytes: &Vec<u8>, at: usize, w: Width) -> (value: u64)
    requires
        at + w.bytes() <= bytes.len(),
    ensures
        value == le_value(bytes@.subrange(at as int, at + w.bytes())),
        value < w.modulus(),
{
    let n = w.size();
    let mut value: u64 = 0;
    let mut i: usize = n;
    let ghost all = bytes@.subrange(at as int, at + n);
    while i > 0
        invariant
            n == w.bytes(),
            i <= n,
            at + n <= bytes.len(),
            all == bytes@.subrange(at as int, at + n),
            value == le_value(all.subrange(i as int, n as int)),
        decreases i,
    {
        proof {
            let tail = all.subrange(i as int, n as int);
            let next = all.subrange(i - 1, n as int);
            le_value_bound(tail);
            assert(next.drop_first() =~= tail);
        }
        i -= 1;
        value = value * 256 + bytes[at + i] as u64;
    }
    proof {
        assert(all.subrange(0, n as int) =~= all);
        le_value_bound(all);
    }
    value
}

/// `bytes` with the `n` bytes from `at` on replaced by the first `n` bytes of
/// `value`.
pub open spec fn spec_write_le(bytes: Seq<u8>, at: int, n: int, value: int) -> Seq<u8> {
    Seq::new(
        bytes.len(),
        |i: int|
            if at <= i < at + n {
                byte_of(value, i - at)
            } else {
                bytes[i]
            },
    )
}

/// Replaces the `w.bytes()` bytes of `bytes` from `at` on by the low bytes of
/// `value`.
pub fn write_le(bytes: &mut Vec<u8>, at: usize, w: Width, value: u64)
    requires
        at + w.bytes() <= old(bytes).len(),
    ensures
        final(bytes)@ == spec_write_le(old(bytes)@, at as int, w.bytes(), value as int),
{
    let n = w.size();
    let mut i: usize = 0;
    while i < n
        invariant
            n == w.bytes(),
            i <= n,
            at + n <= bytes.len(),
            bytes@ =~= spec_write_le(old(bytes)@, at as int, i as int, value as int),
        decreases n - i,
    {
        bytes[at + i] = byte_at(value, i as u8);
        i += 1;
    }
}

/// The low bytes of `value` at width `w`.
pub fn truncate(value: u64, w: Width) -> (r: u64)
    ensures
        r == low(value as int, w),
{
    match w {
        Width::Byte => value % 0x100,
        Width::Short => value % 0x1_0000,
        Width::Int => value % 0x1_0000_0000,
        Width::Long => value,
    }
}

/// `old` with its low bytes at width `w` replaced by those of `value`.
pub fn merge_low(old: u64, value: u64, w: Width) -> (r: u64)
    ensures
        r == write_low(old, value as int, w),
{
    match w {
        Width::Byte => old - old % 0x100 + value % 0x100,
        Width::Short => old - old % 0x1_0000 + value % 0x1_0000,
        Width::Int => old - old % 0x1_0000_0000 + value % 0x1_0000_0000,
        Width::Long => value,
    }
}

} // verus!
