//! Fixed-width little-endian integers, as the persisted records hold them.

use vstd::prelude::*;

verus! {

/// The number that four little-endian bytes stand for.
pub open spec fn le_u32(s: Seq<u8>) -> int
    recommends
        s.len() == 4,
{
    s[0] + 0x100 * (s[1] + 0x100 * (s[2] + 0x100 * s[3]))
}

/// The number that eight little-endian bytes stand for.
pub open spec fn le_u64(s: Seq<u8>) -> int
    recommends
        s.len() == 8,
{
    s[0] + 0x100 * (s[1] + 0x100 * (s[2] + 0x100 * (s[3] + 0x100 * (s[4] + 0x100 * (s[5] + 0x100
        * (s[6] + 0x100 * s[7]))))))
}

/// The four little-endian bytes of `v`: each is the remainder by 256 of what
/// the bytes before it left over.
pub open spec fn u32_le(v: u32) -> Seq<u8> {
    let q1 = v / 0x100;
    let q2 = q1 / 0x100;
    let q3 = q2 / 0x100;
    seq![(v % 0x100) as u8, (q1 % 0x100) as u8, (q2 % 0x100) as u8, (q3 % 0x100) as u8]
}

/// The eight little-endian bytes of `v`: each is the remainder by 256 of what
/// the bytes before it left over.
pub open spec fn u64_le(v: u64) -> Seq<u8> {
    let q1 = v / 0x100;
    let q2 = q1 / 0x100;
    let q3 = q2 / 0x100;
    let q4 = q3 / 0x100;
    let q5 = q4 / 0x100;
    let q6 = q5 / 0x100;
    let q7 = q6 / 0x100;
    seq![
        (v % 0x100) as u8,
        (q1 % 0x100) as u8,
        (q2 % 0x100) as u8,
        (q3 % 0x100) as u8,
        (q4 % 0x100) as u8,
        (q5 % 0x100) as u8,
        (q6 % 0x100) as u8,
        (q7 % 0x100) as u8,
    ]
}

/// Reading back what was written gives the number again.
pub proof fn u32_round_trip(v: u32)
    ensures
        u32_le(v).len() == 4,
        le_u32(u32_le(v)) == v,
{
}

/// Reading back what was written gives the number again.
pub proof fn u64_round_trip(v: u64)
    ensures
        u64_le(v).len() == 8,
        le_u64(u64_le(v)) == v,
{
    let q1 = v / 0x100;
    let q2 = q1 / 0x100;
    let q3 = q2 / 0x100;
    let q4 = q3 / 0x100;
    let q5 = q4 / 0x100;
    let q6 = q5 / 0x100;
    let q7 = q6 / 0x100;
    assert(q7 < 0x100);
    assert(q6 == q6 % 0x100 + 0x100 * q7);
    assert(q5 == q5 % 0x100 + 0x100 * q6);
    assert(q4 == q4 % 0x100 + 0x100 * q5);
    assert(q3 == q3 % 0x100 + 0x100 * q4);
    assert(q2 == q2 % 0x100 + 0x100 * q3);
    assert(q1 == q1 % 0x100 + 0x100 * q2);
    assert(v == v % 0x100 + 0x100 * q1);
}

/// A byte in front of a number comes off again by division.
proof fn byte_in_front(b: int, rest: int)
    requires
        0 <= b < 0x100,
    ensures
        (b + 0x100 * rest) / 0x100 == rest,
        (b + 0x100 * rest) % 0x100 == b,
{
}

/// Four bytes are the encoding of exactly the number they stand for.
pub proof fn u32_bytes_unique(s: Seq<u8>)
    requires
        s.len() == 4,
    ensures
        0 <= le_u32(s) <= u32::MAX,
        u32_le(le_u32(s) as u32) == s,
{
    let r3 = s[3] as int;
    let r2 = s[2] + 0x100 * r3;
    let r1 = s[1] + 0x100 * r2;
    byte_in_front(s[2] as int, r3);
    byte_in_front(s[1] as int, r2);
    byte_in_front(s[0] as int, r1);
    assert(u32_le(le_u32(s) as u32) =~= s);
}

/// Eight bytes are the encoding of exactly the number they stand for.
pub proof fn u64_bytes_unique(s: Seq<u8>)
    requires
        s.len() == 8,
    ensures
        0 <= le_u64(s) <= u64::MAX,
        u64_le(le_u64(s) as u64) == s,
{
    let r7 = s[7] as int;
    let r6 = s[6] + 0x100 * r7;
    let r5 = s[5] + 0x100 * r6;
    let r4 = s[4] + 0x100 * r5;
    let r3 = s[3] + 0x100 * r4;
    let r2 = s[2] + 0x100 * r3;
    let r1 = s[1] + 0x100 * r2;
    let v = s[0] + 0x100 * r1;
    assert(v == le_u64(s));
    assert(0 <= v <= u64::MAX);
    byte_in_front(s[6] as int, r7);
    byte_in_front(s[5] as int, r6);
    byte_in_front(s[4] as int, r5);
    byte_in_front(s[3] as int, r4);
    byte_in_front(s[2] as int, r3);
    byte_in_front(s[1] as int, r2);
    byte_in_front(s[0] as int, r1);
    let e = u64_le(v as u64);
    assert(e[0] == s[0]);
    assert(e[1] == s[1]);
    assert(e[2] == s[2]);
    assert(e[3] == s[3]);
    assert(e[4] == s[4]);
    assert(e[5] == s[5]);
    assert(e[6] == s[6]);
    assert(e[7] == s[7]);
    assert(e =~= s);
}

/// Reads the `u32` that starts at `at`.
pub fn read_u32(data: &[u8], at: usize) -> (v: u32)
    requires
        at + 4 <= data@.len(),
    ensures
        v == le_u32(data@.subrange(at as int, at + 4)),
{
    let b0: u32 = data[at] as u32;
    let b1: u32 = data[at + 1] as u32;
    let b2: u32 = data[at + 2] as u32;
    let b3: u32 = data[at + 3] as u32;
    b0 + 0x100 * (b1 + 0x100 * (b2 + 0x100 * b3))
}

/// Reads the `u64` that starts at `at`.
pub fn read_u64(data: &[u8], at: usize) -> (v: u64)
    requires
        at + 8 <= data@.len(),
    ensures
        v == le_u64(data@.subrange(at as int, at + 8)),
{
    let b0: u64 = data[at] as u64;
    let b1: u64 = data[at + 1] as u64;
    let b2: u64 = data[at + 2] as u64;
    let b3: u64 = data[at + 3] as u64;
    let b4: u64 = data[at + 4] as u64;
    let b5: u64 = data[at + 5] as u64;
    let b6: u64 = data[at + 6] as u64;
    let b7: u64 = data[at + 7] as u64;
    b0 + 0x100 * (b1 + 0x100 * (b2 + 0x100 * (b3 + 0x100 * (b4 + 0x100 * (b5 + 0x100 * (b6 + 0x100
        * b7))))))
}

/// Appends the four little-endian bytes of `v`.
pub fn write_u32(out: &mut Vec<u8>, v: u32)
    ensures
        final(out)@ == old(out)@ + u32_le(v),
{
    out.push((v % 0x100) as u8);
    let q1: u32 = v / 0x100;
    out.push((q1 % 0x100) as u8);
    let q2: u32 = q1 / 0x100;
    out.push((q2 % 0x100) as u8);
    let q3: u32 = q2 / 0x100;
    out.push((q3 % 0x100) as u8);
    assert(out@ =~= old(out)@ + u32_le(v));
}

/// Appends the eight little-endian bytes of `v`.
pub fn write_u64(out: &mut Vec<u8>, v: u64)
    ensures
        final(out)@ == old(out)@ + u64_le(v),
{
    out.push((v % 0x100) as u8);
    let q1: u64 = v / 0x100;
    out.push((q1 % 0x100) as u8);
    let q2: u64 = q1 / 0x100;
    out.push((q2 % 0x100) as u8);
    let q3: u64 = q2 / 0x100;
    out.push((q3 % 0x100) as u8);
    let q4: u64 = q3 / 0x100;
    out.push((q4 % 0x100) as u8);
    let q5: u64 = q4 / 0x100;
    out.push((q5 % 0x100) as u8);
    let q6: u64 = q5 / 0x100;
    out.push((q6 % 0x100) as u8);
    let q7: u64 = q6 / 0x100;
    out.push((q7 % 0x100) as u8);
    assert(out@ =~= old(out)@ + u64_le(v));
}

} // verus!
