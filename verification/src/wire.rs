//! Big-endian byte layouts of 16- and 32-bit integers, as frames and payloads carry them.
use vstd::prelude::*;

verus! {

/// Why payload bytes do not decode.
#[derive(Clone, Copy, Debug, PartialEq, Eq, Structural)]
pub enum WireCodecError {
    Truncated,
    Malformed,
}

/// The two big-endian bytes of `x`.
pub open spec fn be16(x: u16) -> Seq<u8> {
    seq![(x >> 8u16) as u8, x as u8]
}

/// The four big-endian bytes of `x`.
pub open spec fn be32(x: u32) -> Seq<u8> {
    seq![(x >> 24u32) as u8, (x >> 16u32) as u8, (x >> 8u32) as u8, x as u8]
}

/// The eight big-endian bytes of `x`.
pub open spec fn be64(x: u64) -> Seq<u8> {
    seq![(x >> 56u64) as u8, (x >> 48u64) as u8, (x >> 40u64) as u8, (x >> 32u64) as u8,
        (x >> 24u64) as u8, (x >> 16u64) as u8, (x >> 8u64) as u8, x as u8]
}

/// The 16-bit integer whose big-endian bytes start at `at`.
pub open spec fn read_be16(s: Seq<u8>, at: int) -> u16 {
    (((s[at] as u16) << 8u16) | (s[at + 1] as u16)) as u16
}

/// The 32-bit integer whose big-endian bytes start at `at`.
pub open spec fn read_be32(s: Seq<u8>, at: int) -> u32 {
    (((s[at] as u32) << 24u32) | ((s[at + 1] as u32) << 16u32) | ((s[at + 2] as u32) << 8u32) | (s[at + 3] as u32)) as u32
}

/// The 64-bit integer whose big-endian bytes start at `at`.
pub open spec fn read_be64(s: Seq<u8>, at: int) -> u64 {
    (((s[at] as u64) << 56u64) | ((s[at + 1] as u64) << 48u64) | ((s[at + 2] as u64) << 40u64)
        | ((s[at + 3] as u64) << 32u64) | ((s[at + 4] as u64) << 24u64) | ((s[at + 5] as u64) << 16u64)
        | ((s[at + 6] as u64) << 8u64) | (s[at + 7] as u64)) as u64
}

pub proof fn lemma_be64_round_trip(x: u64)
    ensures
        read_be64(be64(x), 0) == x,
{
    let b0 = (x >> 56u64) as u8;
    let b1 = (x >> 48u64) as u8;
    let b2 = (x >> 40u64) as u8;
    let b3 = (x >> 32u64) as u8;
    let b4 = (x >> 24u64) as u8;
    let b5 = (x >> 16u64) as u8;
    let b6 = (x >> 8u64) as u8;
    let b7 = x as u8;
    assert((((b0 as u64) << 56u64) | ((b1 as u64) << 48u64) | ((b2 as u64) << 40u64) | ((b3 as u64) << 32u64)
        | ((b4 as u64) << 24u64) | ((b5 as u64) << 16u64) | ((b6 as u64) << 8u64) | (b7 as u64)) as u64 == x)
        by (bit_vector)
        requires
            b0 == (x >> 56u64) as u8,
            b1 == (x >> 48u64) as u8,
            b2 == (x >> 40u64) as u8,
            b3 == (x >> 32u64) as u8,
            b4 == (x >> 24u64) as u8,
            b5 == (x >> 16u64) as u8,
            b6 == (x >> 8u64) as u8,
            b7 == x as u8,
    ;
}

pub proof fn lemma_read_be64_at(s: Seq<u8>, at: int, x: u64)
    requires
        0 <= at,
        at + 8 <= s.len(),
        s.subrange(at, at + 8) == be64(x),
    ensures
        read_be64(s, at) == x,
{
    let t = s.subrange(at, at + 8);
    assert(s[at] == t[0] && s[at + 1] == t[1] && s[at + 2] == t[2] && s[at + 3] == t[3]);
    assert(s[at + 4] == t[4] && s[at + 5] == t[5] && s[at + 6] == t[6] && s[at + 7] == t[7]);
    lemma_be64_round_trip(x);
}

pub fn read_u64_be(s: &[u8], at: usize) -> (out: u64)
    requires
        at + 8 <= s@.len(),
    ensures
        out == read_be64(s@, at as int),
{
    (((s[at] as u64) << 56u64) | ((s[at + 1] as u64) << 48u64) | ((s[at + 2] as u64) << 40u64)
        | ((s[at + 3] as u64) << 32u64) | ((s[at + 4] as u64) << 24u64) | ((s[at + 5] as u64) << 16u64)
        | ((s[at + 6] as u64) << 8u64) | (s[at + 7] as u64)) as u64
}

/// Appends the big-endian bytes of `x`.
pub fn push_be16(v: &mut Vec<u8>, x: u16)
    ensures
        final(v)@ == old(v)@ + be16(x),
{
    v.push((x >> 8u16) as u8);
    v.push(x as u8);
    assert(v@ =~= old(v)@ + be16(x));
}

/// Appends the big-endian bytes of `x`.
pub fn push_be32(v: &mut Vec<u8>, x: u32)
    ensures
        final(v)@ == old(v)@ + be32(x),
{
    v.push((x >> 24u32) as u8);
    v.push((x >> 16u32) as u8);
    v.push((x >> 8u32) as u8);
    v.push(x as u8);
    assert(v@ =~= old(v)@ + be32(x));
}

/// Appends the big-endian bytes of `x`.
pub fn push_be64(v: &mut Vec<u8>, x: u64)
    ensures
        final(v)@ == old(v)@ + be64(x),
{
    v.push((x >> 56u64) as u8);
    v.push((x >> 48u64) as u8);
    v.push((x >> 40u64) as u8);
    v.push((x >> 32u64) as u8);
    v.push((x >> 24u64) as u8);
    v.push((x >> 16u64) as u8);
    v.push((x >> 8u64) as u8);
    v.push(x as u8);
    assert(v@ =~= old(v)@ + be64(x));
}

/// Appends `src`.
pub fn push_bytes(v: &mut Vec<u8>, src: &[u8])
    ensures
        final(v)@ == old(v)@ + src@,
{
    let ghost orig = v@;
    let n = src.len();
    let mut k: usize = 0;
    while k < n
        invariant
            n == src@.len(),
            k <= n,
            v@ == orig + src@.subrange(0, k as int),
        decreases n - k,
    {
        v.push(src[k]);
        assert(v@ =~= orig + src@.subrange(0, k + 1int));
        k = k + 1;
    }
    assert(src@.subrange(0, n as int) =~= src@);
}

pub proof fn lemma_be16_round_trip(x: u16)
    ensures
        read_be16(be16(x), 0) == x,
{
    let b0 = (x >> 8u16) as u8;
    let b1 = x as u8;
    assert((((b0 as u16) << 8u16) | (b1 as u16)) as u16 == x) by (bit_vector)
        requires
            b0 == (x >> 8u16) as u8,
            b1 == x as u8,
    ;
}

pub proof fn lemma_be32_round_trip(x: u32)
    ensures
        read_be32(be32(x), 0) == x,
{
    let b0 = (x >> 24u32) as u8;
    let b1 = (x >> 16u32) as u8;
    let b2 = (x >> 8u32) as u8;
    let b3 = x as u8;
    assert((((b0 as u32) << 24u32) | ((b1 as u32) << 16u32) | ((b2 as u32) << 8u32) | (b3 as u32)) as u32 == x)
        by (bit_vector)
        requires
            b0 == (x >> 24u32) as u8,
            b1 == (x >> 16u32) as u8,
            b2 == (x >> 8u32) as u8,
            b3 == x as u8,
    ;
}

/// Reading at an offset of a longer sequence reads the same bytes.
pub proof fn lemma_read_be16_at(s: Seq<u8>, at: int, x: u16)
    requires
        0 <= at,
        at + 2 <= s.len(),
        s.subrange(at, at + 2) == be16(x),
    ensures
        read_be16(s, at) == x,
{
    assert(s[at] == s.subrange(at, at + 2)[0]);
    assert(s[at + 1] == s.subrange(at, at + 2)[1]);
    lemma_be16_round_trip(x);
}

pub proof fn lemma_read_be32_at(s: Seq<u8>, at: int, x: u32)
    requires
        0 <= at,
        at + 4 <= s.len(),
        s.subrange(at, at + 4) == be32(x),
    ensures
        read_be32(s, at) == x,
{
    assert(s[at] == s.subrange(at, at + 4)[0]);
    assert(s[at + 1] == s.subrange(at, at + 4)[1]);
    assert(s[at + 2] == s.subrange(at, at + 4)[2]);
    assert(s[at + 3] == s.subrange(at, at + 4)[3]);
    lemma_be32_round_trip(x);
}

pub fn read_u16_be(s: &[u8], at: usize) -> (out: u16)
    requires
        at + 2 <= s@.len(),
    ensures
        out == read_be16(s@, at as int),
{
    (((s[at] as u16) << 8u16) | (s[at + 1] as u16)) as u16
}

pub fn read_u32_be(s: &[u8], at: usize) -> (out: u32)
    requires
        at + 4 <= s@.len(),
    ensures
        out == read_be32(s@, at as int),
{
    (((s[at] as u32) << 24u32) | ((s[at + 1] as u32) << 16u32) | ((s[at + 2] as u32) << 8u32) | (s[at + 3] as u32)) as u32
}

/// Writes the big-endian bytes of `x` at `at`.
pub fn write_u16_be(out: &mut [u8], at: usize, x: u16)
    requires
        at + 2 <= old(out)@.len(),
    ensures
        final(out)@ == old(out)@.subrange(0, at as int) + be16(x) + old(out)@.subrange(at + 2, old(out)@.len() as int),
{
    out[at] = (x >> 8u16) as u8;
    out[at + 1] = x as u8;
    assert(out@ =~= old(out)@.subrange(0, at as int) + be16(x) + old(out)@.subrange(at + 2, old(out)@.len() as int));
}

/// Writes the big-endian bytes of `x` at `at`.
pub fn write_u32_be(out: &mut [u8], at: usize, x: u32)
    requires
        at + 4 <= old(out)@.len(),
    ensures
        final(out)@ == old(out)@.subrange(0, at as int) + be32(x) + old(out)@.subrange(at + 4, old(out)@.len() as int),
{
    out[at] = (x >> 24u32) as u8;
    out[at + 1] = (x >> 16u32) as u8;
    out[at + 2] = (x >> 8u32) as u8;
    out[at + 3] = x as u8;
    assert(out@ =~= old(out)@.subrange(0, at as int) + be32(x) + old(out)@.subrange(at + 4, old(out)@.len() as int));
}

/// Writes `b` at `at`.
pub fn write_u8(out: &mut [u8], at: usize, b: u8)
    requires
        at + 1 <= old(out)@.len(),
    ensures
        final(out)@ == old(out)@.subrange(0, at as int) + seq![b] + old(out)@.subrange(at + 1, old(out)@.len() as int),
{
    out[at] = b;
    assert(out@ =~= old(out)@.subrange(0, at as int) + seq![b] + old(out)@.subrange(at + 1, old(out)@.len() as int));
}

/// Copies `src` into `out` at `at`.
pub fn write_bytes(out: &mut [u8], at: usize, src: &[u8])
    requires
        at + src@.len() <= old(out)@.len(),
    ensures
        final(out)@ == old(out)@.subrange(0, at as int) + src@
            + old(out)@.subrange(at + src@.len(), old(out)@.len() as int),
{
    let ghost orig = out@;
    let ol = out.len();
    let n = src.len();
    let mut k: usize = 0;
    while k < n
        invariant
            n == src@.len(),
            ol == orig.len(),
            at + n <= orig.len(),
            k <= n,
            out@ == orig.subrange(0, at as int) + src@.subrange(0, k as int)
                + orig.subrange(at + k, orig.len() as int),
        decreases n - k,
    {
        out[at + k] = src[k];
        assert(out@ =~= orig.subrange(0, at as int) + src@.subrange(0, k + 1int)
            + orig.subrange(at + k + 1, orig.len() as int));
        k = k + 1;
    }
    assert(src@.subrange(0, n as int) =~= src@);
}

} // verus!
