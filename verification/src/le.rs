//! Little-endian integers of two, four and six bytes.
//!
//! The spec functions speak of plain arithmetic: a little-endian number is the sum of its
//! bytes, each times a power of 256.  An encoder keeps the low bytes of a wider value.

use vstd::prelude::*;

verus! {

/// The number that the first two bytes of `s` hold.
pub open spec fn u16_from_le(s: Seq<u8>) -> int
    recommends
        s.len() >= 2,
{
    s[0] as int + 0x100 * (s[1] as int)
}

/// The number that the first four bytes of `s` hold.
pub open spec fn u32_from_le(s: Seq<u8>) -> int
    recommends
        s.len() >= 4,
{
    s[0] as int + 0x100 * (s[1] as int) + 0x1_0000 * (s[2] as int) + 0x100_0000 * (s[3] as int)
}

/// The number that the first six bytes of `s` hold.
pub open spec fn u48_from_le(s: Seq<u8>) -> int
    recommends
        s.len() >= 6,
{
    s[0] as int + 0x100 * (s[1] as int) + 0x1_0000 * (s[2] as int) + 0x100_0000 * (s[3] as int)
        + 0x1_0000_0000 * (s[4] as int) + 0x100_0000_0000 * (s[5] as int)
}

/// The byte of `v` at position `k`, counted from the low end.
pub open spec fn byte_of(v: int, k: nat) -> u8 {
    if k == 0 {
        (v % 0x100) as u8
    } else if k == 1 {
        ((v / 0x100) % 0x100) as u8
    } else if k == 2 {
        (((v / 0x100) / 0x100) % 0x100) as u8
    } else if k == 3 {
        ((((v / 0x100) / 0x100) / 0x100) % 0x100) as u8
    } else if k == 4 {
        (((((v / 0x100) / 0x100) / 0x100) / 0x100) % 0x100) as u8
    } else {
        ((((((v / 0x100) / 0x100) / 0x100) / 0x100) / 0x100) % 0x100) as u8
    }
}

/// The two low bytes of `v`, low byte first.
pub open spec fn u16_to_le(v: int) -> Seq<u8> {
    seq![byte_of(v, 0), byte_of(v, 1)]
}

/// The four low bytes of `v`, low byte first.
pub open spec fn u32_to_le(v: int) -> Seq<u8> {
    seq![byte_of(v, 0), byte_of(v, 1), byte_of(v, 2), byte_of(v, 3)]
}

/// The six low bytes of `v`, low byte first.
pub open spec fn u48_to_le(v: int) -> Seq<u8> {
    seq![byte_of(v, 0), byte_of(v, 1), byte_of(v, 2), byte_of(v, 3), byte_of(v, 4), byte_of(v, 5)]
}

/// Reads the two bytes of `raw` that start at `at`.
pub fn read_u16(raw: &[u8], at: usize) -> (r: u16)
    requires
        at + 2 <= raw.len(),
    ensures
        r == u16_from_le(raw@.subrange(at as int, at + 2)),
{
    let b0: u16 = raw[at] as u16;
    let b1: u16 = raw[at + 1] as u16;
    b0 + 0x100 * b1
}

/// Reads the four bytes of `raw` that start at `at`.
pub fn read_u32(raw: &[u8], at: usize) -> (r: u32)
    requires
        at + 4 <= raw.len(),
    ensures
        r == u32_from_le(raw@.subrange(at as int, at + 4)),
{
    let b0: u32 = raw[at] as u32;
    let b1: u32 = raw[at + 1] as u32;
    let b2: u32 = raw[at + 2] as u32;
    let b3: u32 = raw[at + 3] as u32;
    b0 + 0x100 * b1 + 0x1_0000 * b2 + 0x100_0000 * b3
}

/// Reads the six bytes of `raw` that start at `at`.
pub fn read_u48(raw: &[u8], at: usize) -> (r: u64)
    requires
        at + 6 <= raw.len(),
    ensures
        r == u48_from_le(raw@.subrange(at as int, at + 6)),
        r < 0x1_0000_0000_0000,
{
    let b0: u64 = raw[at] as u64;
    let b1: u64 = raw[at + 1] as u64;
    let b2: u64 = raw[at + 2] as u64;
    let b3: u64 = raw[at + 3] as u64;
    let b4: u64 = raw[at + 4] as u64;
    let b5: u64 = raw[at + 5] as u64;
    b0 + 0x100 * b1 + 0x1_0000 * b2 + 0x100_0000 * b3 + 0x1_0000_0000 * b4 + 0x100_0000_0000 * b5
}

/// Appends the two low bytes of `v` to `out`.
pub fn push_u16(out: &mut Vec<u8>, v: u16)
    ensures
        final(out)@ == old(out)@ + u16_to_le(v as int),
{
    out.push((v % 0x100) as u8);
    out.push(((v / 0x100) % 0x100) as u8);
    assert(out@ =~= old(out)@ + u16_to_le(v as int));
}

/// Appends the four low bytes of `v` to `out`.
pub fn push_u32(out: &mut Vec<u8>, v: u64)
    ensures
        final(out)@ == old(out)@ + u32_to_le(v as int),
{
    let v1: u64 = v / 0x100;
    let v2: u64 = v1 / 0x100;
    let v3: u64 = v2 / 0x100;
    out.push((v % 0x100) as u8);
    out.push((v1 % 0x100) as u8);
    out.push((v2 % 0x100) as u8);
    out.push((v3 % 0x100) as u8);
    assert(out@ =~= old(out)@ + u32_to_le(v as int));
}

/// Appends the six low bytes of `v` to `out`.
pub fn push_u48(out: &mut Vec<u8>, v: u64)
    ensures
        final(out)@ == old(out)@ + u48_to_le(v as int),
{
    let v1: u64 = v / 0x100;
    let v2: u64 = v1 / 0x100;
    let v3: u64 = v2 / 0x100;
    let v4: u64 = v3 / 0x100;
    let v5: u64 = v4 / 0x100;
    out.push((v % 0x100) as u8);
    out.push((v1 % 0x100) as u8);
    out.push((v2 % 0x100) as u8);
    out.push((v3 % 0x100) as u8);
    out.push((v4 % 0x100) as u8);
    out.push((v5 % 0x100) as u8);
    assert(out@ =~= old(out)@ + u48_to_le(v as int));
}

/// Two bytes written and read again are the number they were written from.
pub proof fn lemma_u16_round_trip(v: int)
    requires
        0 <= v < 0x1_0000,
    ensures
        u16_to_le(v).len() == 2,
        u16_from_le(u16_to_le(v)) == v,
{
}

/// Four bytes written and read again are the number they were written from.
pub proof fn lemma_u32_round_trip(v: int)
    requires
        0 <= v < 0x1_0000_0000,
    ensures
        u32_to_le(v).len() == 4,
        u32_from_le(u32_to_le(v)) == v,
{
}

/// Six bytes written and read again are the number they were written from.
pub proof fn lemma_u48_round_trip(v: int)
    requires
        0 <= v < 0x1_0000_0000_0000,
    ensures
        u48_to_le(v).len() == 6,
        u48_from_le(u48_to_le(v)) == v,
{
}

/// Taking a remainder by a multiple of 256 changes neither the low byte nor, but for the
/// same remainder one level up, what is left above it.
proof fn lemma_low_byte_of_remainder(v: int, m: int)
    requires
        0 <= v,
        0 < m,
    ensures
        (v % (0x100 * m)) % 0x100 == v % 0x100,
        (v % (0x100 * m)) / 0x100 == (v / 0x100) % m,
{
    let q = v / (0x100 * m);
    let w = v % (0x100 * m);
    assert(v == (0x100 * m) * q + w && 0 <= w < 0x100 * m) by (nonlinear_arith)
        requires
            0 <= v,
            0 < m,
            q == v / (0x100 * m),
            w == v % (0x100 * m),
    ;
    let wq = w / 0x100;
    let wr = w % 0x100;
    assert(0 <= wq < m);
    assert(v == 0x100 * (m * q + wq) + wr) by (nonlinear_arith)
        requires
            v == (0x100 * m) * q + w,
            w == 0x100 * wq + wr,
    ;
    assert(v / 0x100 == m * q + wq && v % 0x100 == wr);
    assert((m * q + wq) % m == wq) by (nonlinear_arith)
        requires
            0 <= wq < m,
    ;
}

/// Writing keeps the low bytes only: a value and its remainder encode alike.
pub proof fn lemma_u32_truncates(v: int)
    requires
        0 <= v,
    ensures
        u32_to_le(v) == u32_to_le(v % 0x1_0000_0000),
{
    let v1 = v / 0x100;
    let v2 = v1 / 0x100;
    let v3 = v2 / 0x100;
    lemma_low_byte_of_remainder(v, 0x100_0000);
    lemma_low_byte_of_remainder(v1, 0x1_0000);
    lemma_low_byte_of_remainder(v2, 0x100);
    lemma_low_byte_of_remainder(v3, 1);
    assert(u32_to_le(v) =~= u32_to_le(v % 0x1_0000_0000));
}

/// Writing keeps the low bytes only: a value and its remainder encode alike.
pub proof fn lemma_u48_truncates(v: int)
    requires
        0 <= v,
    ensures
        u48_to_le(v) == u48_to_le(v % 0x1_0000_0000_0000),
{
    let v1 = v / 0x100;
    let v2 = v1 / 0x100;
    let v3 = v2 / 0x100;
    let v4 = v3 / 0x100;
    let v5 = v4 / 0x100;
    lemma_low_byte_of_remainder(v, 0x100_0000_0000);
    lemma_low_byte_of_remainder(v1, 0x1_0000_0000);
    lemma_low_byte_of_remainder(v2, 0x100_0000);
    lemma_low_byte_of_remainder(v3, 0x1_0000);
    lemma_low_byte_of_remainder(v4, 0x100);
    lemma_low_byte_of_remainder(v5, 1);
    assert(u48_to_le(v) =~= u48_to_le(v % 0x1_0000_0000_0000));
}

/// Bytes read and written again are the bytes that were read.
pub proof fn lemma_u32_bytes_round_trip(s: Seq<u8>)
    requires
        s.len() == 4,
    ensures
        u32_to_le(u32_from_le(s)) == s,
{
    let t2 = s[2] as int + 0x100 * (s[3] as int);
    let t1 = s[1] as int + 0x100 * t2;
    let v = s[0] as int + 0x100 * t1;
    assert(v == u32_from_le(s));
    assert(v / 0x100 == t1);
    assert(t1 / 0x100 == t2);
    assert(t2 / 0x100 == s[3] as int);
    assert(u32_to_le(v) =~= s);
}

/// Bytes read and written again are the bytes that were read.
pub proof fn lemma_u48_bytes_round_trip(s: Seq<u8>)
    requires
        s.len() == 6,
    ensures
        u48_to_le(u48_from_le(s)) == s,
{
    let t4 = s[4] as int + 0x100 * (s[5] as int);
    let t3 = s[3] as int + 0x100 * t4;
    let t2 = s[2] as int + 0x100 * t3;
    let t1 = s[1] as int + 0x100 * t2;
    let v = s[0] as int + 0x100 * t1;
    assert(v == u48_from_le(s));
    assert(v / 0x100 == t1);
    assert(t1 / 0x100 == t2);
    assert(t2 / 0x100 == t3);
    assert(t3 / 0x100 == t4);
    assert(t4 / 0x100 == s[5] as int);
    assert(u48_to_le(v) =~= s);
}

} // verus!
