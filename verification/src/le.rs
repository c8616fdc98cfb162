//! Little-endian two's-complement encoding of the two integer widths that
//! occur in a wave file: 16-bit and 32-bit signed integers.
//!
//! The byte sequences are specified arithmetically. With Euclidean division,
//! `(v / 256^k) % 256` is digit `k` of `v` in base 256 for a non-negative `v`,
//! and digit `k` of `v + 2^n` for a negative `v` of width `n`, which is its
//! two's-complement representation.

use vstd::prelude::*;

verus! {

/// The two bytes of `v`, least significant first.
pub open spec fn le_bytes_i16(v: i16) -> Seq<u8> {
    seq![(v as int % 256) as u8, (v as int / 256 % 256) as u8]
}

/// The four bytes of `v`, least significant first.
pub open spec fn le_bytes_i32(v: i32) -> Seq<u8> {
    seq![
        (v as int % 256) as u8,
        (v as int / 256 % 256) as u8,
        (v as int / 65536 % 256) as u8,
        (v as int / 16777216 % 256) as u8,
    ]
}

/// The signed 16-bit integer whose little-endian bytes are `s[0], s[1]`.
pub open spec fn le_value_i16(s: Seq<u8>) -> int
    recommends
        s.len() == 2,
{
    let u = s[0] as int + 256 * (s[1] as int);
    if u >= 32768 {
        u - 65536
    } else {
        u
    }
}

/// The signed 32-bit integer whose little-endian bytes are `s[0], .., s[3]`.
pub open spec fn le_value_i32(s: Seq<u8>) -> int
    recommends
        s.len() == 4,
{
    let u = s[0] as int + 256 * (s[1] as int) + 65536 * (s[2] as int) + 16777216 * (s[3] as int);
    if u >= 2147483648 {
        u - 4294967296
    } else {
        u
    }
}

/// Adding 2^32 to a negative 32-bit value leaves its four low base-256
/// digits unchanged.
proof fn lemma_offset_keeps_digits(x: int, u: int)
    requires
        i32::MIN <= x < 0,
        u == x + 4294967296,
    ensures
        u % 256 == x % 256,
        u / 256 % 256 == x / 256 % 256,
        u / 65536 % 256 == x / 65536 % 256,
        u / 16777216 % 256 == x / 16777216 % 256,
{
    assert(u / 256 == x / 256 + 16777216);
    assert(u / 65536 == x / 65536 + 65536);
    assert(u / 16777216 == x / 16777216 + 256);
}

/// A number below 2^32 is the sum of its four base-256 digits, each times
/// its weight.
proof fn lemma_sum_of_digits(u: int)
    requires
        0 <= u < 4294967296,
    ensures
        u == u % 256 + 256 * (u / 256 % 256) + 65536 * (u / 65536 % 256) + 16777216 * (u
            / 16777216 % 256),
{
    assert(u / 65536 == u / 256 / 256);
    assert(u / 16777216 == u / 65536 / 256);
}

/// The four base-256 digits of a sum of weighted bytes are those bytes.
proof fn lemma_digits_of_sum(b0: int, b1: int, b2: int, b3: int)
    requires
        0 <= b0 < 256,
        0 <= b1 < 256,
        0 <= b2 < 256,
        0 <= b3 < 256,
    ensures
        ({
            let u = b0 + 256 * b1 + 65536 * b2 + 16777216 * b3;
            &&& 0 <= u < 4294967296
            &&& u % 256 == b0
            &&& u / 256 % 256 == b1
            &&& u / 65536 % 256 == b2
            &&& u / 16777216 % 256 == b3
        }),
{
    let u = b0 + 256 * b1 + 65536 * b2 + 16777216 * b3;
    assert(u / 256 == b1 + 256 * b2 + 65536 * b3);
    assert(u / 65536 == b2 + 256 * b3);
    assert(u / 16777216 == b3);
}

/// Decoding undoes encoding, for every 16-bit value.
pub proof fn lemma_i16_value_of_bytes(v: i16)
    ensures
        le_bytes_i16(v).len() == 2,
        le_value_i16(le_bytes_i16(v)) == v,
{
}

/// Encoding undoes decoding, for every pair of bytes.
pub proof fn lemma_i16_bytes_of_value(s: Seq<u8>)
    requires
        s.len() == 2,
    ensures
        i16::MIN <= le_value_i16(s) <= i16::MAX,
        le_bytes_i16(le_value_i16(s) as i16) == s,
{
}

/// Decoding undoes encoding, for every 32-bit value.
pub proof fn lemma_i32_value_of_bytes(v: i32)
    ensures
        le_bytes_i32(v).len() == 4,
        le_value_i32(le_bytes_i32(v)) == v,
{
    let x = v as int;
    if x < 0 {
        let u = x + 4294967296;
        lemma_offset_keeps_digits(x, u);
        lemma_sum_of_digits(u);
    } else {
        lemma_sum_of_digits(x);
    }
}

/// Encoding undoes decoding, for every four bytes.
pub proof fn lemma_i32_bytes_of_value(s: Seq<u8>)
    requires
        s.len() == 4,
    ensures
        i32::MIN <= le_value_i32(s) <= i32::MAX,
        le_bytes_i32(le_value_i32(s) as i32) == s,
{
    let u = s[0] as int + 256 * (s[1] as int) + 65536 * (s[2] as int) + 16777216 * (s[3] as int);
    lemma_digits_of_sum(s[0] as int, s[1] as int, s[2] as int, s[3] as int);
    if u >= 2147483648 {
        lemma_offset_keeps_digits(u - 4294967296, u);
    }
}

/// Encodes `v` as two little-endian bytes.
pub fn encode_i16(v: i16) -> (out: [u8; 2])
    ensures
        out@ == le_bytes_i16(v),
{
    let w: i32 = v as i32;
    let u: i32 = if w < 0 {
        w + 65536
    } else {
        w
    };
    [(u % 256) as u8, (u / 256) as u8]
}

/// Encodes `v` as four little-endian bytes.
pub fn encode_i32(v: i32) -> (out: [u8; 4])
    ensures
        out@ == le_bytes_i32(v),
{
    let w: i64 = v as i64;
    let u: i64 = if w < 0 {
        w + 4294967296
    } else {
        w
    };
    proof {
        if w < 0 {
            lemma_offset_keeps_digits(v as int, u as int);
        }
    }
    let b0: u8 = (u % 256) as u8;
    let b1: u8 = (u / 256 % 256) as u8;
    let b2: u8 = (u / 65536 % 256) as u8;
    let b3: u8 = (u / 16777216 % 256) as u8;
    [b0, b1, b2, b3]
}

/// Appends the two little-endian bytes of `v` to `out`.
pub fn put_i16(out: &mut Vec<u8>, v: i16)
    ensures
        final(out)@ == old(out)@ + le_bytes_i16(v),
{
    let b = encode_i16(v);
    out.push(b[0]);
    out.push(b[1]);
    assert(out@ =~= old(out)@ + le_bytes_i16(v));
}

/// Appends the four little-endian bytes of `v` to `out`.
pub fn put_i32(out: &mut Vec<u8>, v: i32)
    ensures
        final(out)@ == old(out)@ + le_bytes_i32(v),
{
    let b = encode_i32(v);
    out.push(b[0]);
    out.push(b[1]);
    out.push(b[2]);
    out.push(b[3]);
    assert(out@ =~= old(out)@ + le_bytes_i32(v));
}

/// The 16-bit value whose little-endian bytes are `bytes`.
pub fn decode_i16(bytes: [u8; 2]) -> (v: i16)
    ensures
        v == le_value_i16(bytes@),
{
    let u: i32 = bytes[0] as i32 + 256 * (bytes[1] as i32);
    if u >= 32768 {
        (u - 65536) as i16
    } else {
        u as i16
    }
}

/// The 32-bit value whose little-endian bytes are `bytes`.
pub fn decode_i32(bytes: [u8; 4]) -> (v: i32)
    ensures
        v == le_value_i32(bytes@),
{
    let u: i64 = bytes[0] as i64 + 256 * (bytes[1] as i64) + 65536 * (bytes[2] as i64) + 16777216
        * (bytes[3] as i64);
    if u >= 2147483648 {
        (u - 4294967296) as i32
    } else {
        u as i32
    }
}

} // verus!
