//! Byte-level building blocks: fixed-width integer encodings, concatenation and
//! exact comparison of byte strings.

use vstd::prelude::*;

verus! {

/// The eight bytes of `x`, least significant first.
pub open spec fn u64_le_bytes(x: u64) -> Seq<u8> {
    let x1 = x / 256;
    let x2 = x1 / 256;
    let x3 = x2 / 256;
    let x4 = x3 / 256;
    let x5 = x4 / 256;
    let x6 = x5 / 256;
    let x7 = x6 / 256;
    seq![
        (x % 256) as u8,
        (x1 % 256) as u8,
        (x2 % 256) as u8,
        (x3 % 256) as u8,
        (x4 % 256) as u8,
        (x5 % 256) as u8,
        (x6 % 256) as u8,
        (x7 % 256) as u8,
    ]
}

/// The eight bytes of `x`, most significant first.
pub open spec fn u64_be_bytes(x: u64) -> Seq<u8> {
    u64_le_bytes(x).reverse()
}

/// The four bytes of `x`, least significant first.
pub open spec fn u32_le_bytes(x: u32) -> Seq<u8> {
    let x1 = x / 256;
    let x2 = x1 / 256;
    let x3 = x2 / 256;
    seq![(x % 256) as u8, (x1 % 256) as u8, (x2 % 256) as u8, (x3 % 256) as u8]
}

/// The number that the first eight bytes of `s` spell, least significant first.
pub open spec fn u64_from_le(s: Seq<u8>) -> int
    recommends
        s.len() >= 8,
{
    s[0] + 256 * (s[1] + 256 * (s[2] + 256 * (s[3] + 256 * (s[4] + 256 * (s[5] + 256 * (s[6] + 256
        * s[7]))))))
}

/// The number that the first four bytes of `s` spell, least significant first.
pub open spec fn u32_from_le(s: Seq<u8>) -> int
    recommends
        s.len() >= 4,
{
    s[0] + 256 * (s[1] + 256 * (s[2] + 256 * s[3]))
}

/// Decoding the little-endian bytes of a 64-bit value gives the value back.
pub proof fn lemma_u64_le_roundtrip(x: u64)
    ensures
        u64_le_bytes(x).len() == 8,
        u64_from_le(u64_le_bytes(x)) == x,
{
}

/// Encoding what eight bytes spell gives the same eight bytes back.
pub proof fn lemma_u64_le_unique(s: Seq<u8>)
    requires
        s.len() == 8,
    ensures
        0 <= u64_from_le(s) <= u64::MAX,
        u64_le_bytes(u64_from_le(s) as u64) == s,
{
    let v7: int = s[7] as int;
    let v6: int = s[6] + 256 * v7;
    let v5: int = s[5] + 256 * v6;
    let v4: int = s[4] + 256 * v5;
    let v3: int = s[3] + 256 * v4;
    let v2: int = s[2] + 256 * v3;
    let v1: int = s[1] + 256 * v2;
    let v0: int = s[0] + 256 * v1;
    assert(v0 == u64_from_le(s));
    assert(v6 / 256 == v7 && v6 % 256 == s[6]);
    assert(v5 / 256 == v6 && v5 % 256 == s[5]);
    assert(v4 / 256 == v5 && v4 % 256 == s[4]);
    assert(v3 / 256 == v4 && v3 % 256 == s[3]);
    assert(v2 / 256 == v3 && v2 % 256 == s[2]);
    assert(v1 / 256 == v2 && v1 % 256 == s[1]);
    assert(v0 / 256 == v1 && v0 % 256 == s[0]);
    assert(0 <= v0 <= u64::MAX);
    let x = v0 as u64;
    assert(x / 256 == v1);
    assert(u64_le_bytes(x) =~= s);
}

/// Decoding the little-endian bytes of a 32-bit value gives the value back.
pub proof fn lemma_u32_le_roundtrip(x: u32)
    ensures
        u32_le_bytes(x).len() == 4,
        u32_from_le(u32_le_bytes(x)) == x,
{
}

/// Encoding what four bytes spell gives the same four bytes back.
pub proof fn lemma_u32_le_unique(s: Seq<u8>)
    requires
        s.len() == 4,
    ensures
        0 <= u32_from_le(s) <= u32::MAX,
        u32_le_bytes(u32_from_le(s) as u32) == s,
{
    assert(u32_le_bytes(u32_from_le(s) as u32) =~= s);
}

/// Appends the bytes of `s` to `buf`.
pub fn extend(buf: &mut Vec<u8>, s: &[u8])
    ensures
        final(buf)@ == old(buf)@ + s@,
{
    let mut i: usize = 0;
    while i < s.len()
        invariant
            i <= s.len(),
            buf@ == old(buf)@ + s@.take(i as int),
        decreases s.len() - i,
    {
        buf.push(s[i]);
        i += 1;
        assert(buf@ =~= old(buf)@ + s@.take(i as int));
    }
    assert(s@.take(i as int) =~= s@);
}

/// Appends the eight bytes of `x`, least significant first.
pub fn put_u64_le(buf: &mut Vec<u8>, x: u64)
    ensures
        final(buf)@ == old(buf)@ + u64_le_bytes(x),
{
    let x1 = x / 256;
    let x2 = x1 / 256;
    let x3 = x2 / 256;
    let x4 = x3 / 256;
    let x5 = x4 / 256;
    let x6 = x5 / 256;
    let x7 = x6 / 256;
    buf.push((x % 256) as u8);
    buf.push((x1 % 256) as u8);
    buf.push((x2 % 256) as u8);
    buf.push((x3 % 256) as u8);
    buf.push((x4 % 256) as u8);
    buf.push((x5 % 256) as u8);
    buf.push((x6 % 256) as u8);
    buf.push((x7 % 256) as u8);
    assert(buf@ =~= old(buf)@ + u64_le_bytes(x));
}

/// Appends the eight bytes of `x`, most significant first.
pub fn put_u64_be(buf: &mut Vec<u8>, x: u64)
    ensures
        final(buf)@ == old(buf)@ + u64_be_bytes(x),
{
    let x1 = x / 256;
    let x2 = x1 / 256;
    let x3 = x2 / 256;
    let x4 = x3 / 256;
    let x5 = x4 / 256;
    let x6 = x5 / 256;
    let x7 = x6 / 256;
    buf.push((x7 % 256) as u8);
    buf.push((x6 % 256) as u8);
    buf.push((x5 % 256) as u8);
    buf.push((x4 % 256) as u8);
    buf.push((x3 % 256) as u8);
    buf.push((x2 % 256) as u8);
    buf.push((x1 % 256) as u8);
    buf.push((x % 256) as u8);
    assert(buf@ =~= old(buf)@ + u64_be_bytes(x));
}

/// Whether two byte strings have the same length and the same byte at every place.
pub fn bytes_eq(a: &[u8], b: &[u8]) -> (same: bool)
    ensures
        same == (a@ == b@),
{
    if a.len() != b.len() {
        return false;
    }
    let mut i: usize = 0;
    while i < a.len()
        invariant
            a.len() == b.len(),
            i <= a.len(),
            forall|j: int| 0 <= j < i ==> a@[j] == b@[j],
        decreases a.len() - i,
    {
        if a[i] != b[i] {
            return false;
        }
        i += 1;
    }
    assert(a@ =~= b@);
    true
}

/// Whether two arrays of bytes are the same array.
pub fn array_eq<const N: usize>(a: &[u8; N], b: &[u8; N]) -> (same: bool)
    ensures
        same == (*a == *b),
        same == (a@ == b@),
{
    let same = bytes_eq(a, b);
    assert(same ==> *a =~= *b);
    same
}

/// Whether every byte of `bytes` is zero.
pub open spec fn all_zero(bytes: Seq<u8>) -> bool {
    forall|i: int| 0 <= i < bytes.len() ==> bytes[i] == 0
}

/// Whether every byte of `a` is zero.
pub fn is_zero<const N: usize>(a: &[u8; N]) -> (zero: bool)
    ensures
        zero == all_zero(a@),
{
    let mut i: usize = 0;
    while i < N
        invariant
            i <= N,
            forall|j: int| 0 <= j < i ==> a@[j] == 0,
        decreases N - i,
    {
        if a[i] != 0 {
            return false;
        }
        i += 1;
    }
    true
}

} // verus!
