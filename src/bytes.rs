//! Big- and little-endian integers in byte sequences.
use vstd::prelude::*;

verus! {

/// The big-endian `u16` at offset `i` of `s`.
pub open spec fn be_u16(s: Seq<u8>, i: int) -> u16 {
    (s[i] as int * 256 + s[i + 1] as int) as u16
}

/// The big-endian 24-bit value at offset `i` of `s`.
pub open spec fn be_u24(s: Seq<u8>, i: int) -> u32 {
    (s[i] as int * 65536 + s[i + 1] as int * 256 + s[i + 2] as int) as u32
}

/// The big-endian `u32` at offset `i` of `s`.
pub open spec fn be_u32(s: Seq<u8>, i: int) -> u32 {
    (s[i] as int * 16777216 + s[i + 1] as int * 65536 + s[i + 2] as int * 256
        + s[i + 3] as int) as u32
}

/// The little-endian `u16` at offset `i` of `s`.
pub open spec fn le_u16(s: Seq<u8>, i: int) -> u16 {
    (s[i + 1] as int * 256 + s[i] as int) as u16
}

pub open spec fn u16_be(x: u16) -> Seq<u8> {
    seq![(x / 256) as u8, (x % 256) as u8]
}

pub open spec fn u16_le(x: u16) -> Seq<u8> {
    seq![(x % 256) as u8, (x / 256) as u8]
}

/// The low 24 bits of `x`, big-endian.
pub open spec fn u24_be(x: u32) -> Seq<u8> {
    seq![((x / 65536) % 256) as u8, ((x / 256) % 256) as u8, (x % 256) as u8]
}

pub open spec fn u32_be(x: u32) -> Seq<u8> {
    seq![(x / 16777216) as u8, ((x / 65536) % 256) as u8, ((x / 256) % 256) as u8, (x % 256) as u8]
}

pub proof fn lemma_u16_be(x: u16, s: Seq<u8>, i: int)
    requires
        0 <= i,
        i + 2 <= s.len(),
        s.subrange(i, i + 2) == u16_be(x),
    ensures
        be_u16(s, i) == x,
{
    assert(s[i] == u16_be(x)[0]);
    assert(s[i + 1] == u16_be(x)[1]);
}

pub proof fn lemma_u16_le(x: u16, s: Seq<u8>, i: int)
    requires
        0 <= i,
        i + 2 <= s.len(),
        s.subrange(i, i + 2) == u16_le(x),
    ensures
        le_u16(s, i) == x,
{
    assert(s[i] == u16_le(x)[0]);
    assert(s[i + 1] == u16_le(x)[1]);
}

pub proof fn lemma_u24_be(x: u32, s: Seq<u8>, i: int)
    requires
        0 <= i,
        i + 3 <= s.len(),
        s.subrange(i, i + 3) == u24_be(x),
        x < 0x100_0000,
    ensures
        be_u24(s, i) == x,
{
    assert(s[i] == u24_be(x)[0]);
    assert(s[i + 1] == u24_be(x)[1]);
    assert(s[i + 2] == u24_be(x)[2]);
}

pub proof fn lemma_u32_be(x: u32, s: Seq<u8>, i: int)
    requires
        0 <= i,
        i + 4 <= s.len(),
        s.subrange(i, i + 4) == u32_be(x),
    ensures
        be_u32(s, i) == x,
{
    assert(s[i] == u32_be(x)[0]);
    assert(s[i + 1] == u32_be(x)[1]);
    assert(s[i + 2] == u32_be(x)[2]);
    assert(s[i + 3] == u32_be(x)[3]);
}

pub fn read_u16_be(s: &[u8], i: usize) -> (r: u16)
    requires
        i + 2 <= s@.len(),
    ensures
        r == be_u16(s@, i as int),
{
    // The slice length bounds the index arithmetic below.
    let _len = s.len();
    (s[i] as u16) * 256 + (s[i + 1] as u16)
}

pub fn read_u16_le(s: &[u8], i: usize) -> (r: u16)
    requires
        i + 2 <= s@.len(),
    ensures
        r == le_u16(s@, i as int),
{
    // The slice length bounds the index arithmetic below.
    let _len = s.len();
    (s[i + 1] as u16) * 256 + (s[i] as u16)
}

pub fn read_u24_be(s: &[u8], i: usize) -> (r: u32)
    requires
        i + 3 <= s@.len(),
    ensures
        r == be_u24(s@, i as int),
        r < 0x100_0000,
{
    // The slice length bounds the index arithmetic below.
    let _len = s.len();
    (s[i] as u32) * 65536 + (s[i + 1] as u32) * 256 + (s[i + 2] as u32)
}

pub fn read_u32_be(s: &[u8], i: usize) -> (r: u32)
    requires
        i + 4 <= s@.len(),
    ensures
        r == be_u32(s@, i as int),
{
    // The slice length bounds the index arithmetic below.
    let _len = s.len();
    (s[i] as u32) * 16777216 + (s[i + 1] as u32) * 65536 + (s[i + 2] as u32) * 256 + (s[i
        + 3] as u32)
}

pub fn push_u16_be(out: &mut Vec<u8>, x: u16)
    ensures
        final(out)@ == old(out)@ + u16_be(x),
{
    out.push((x / 256) as u8);
    out.push((x % 256) as u8);
    assert(final(out)@ =~= old(out)@ + u16_be(x));
}

pub fn push_u16_le(out: &mut Vec<u8>, x: u16)
    ensures
        final(out)@ == old(out)@ + u16_le(x),
{
    out.push((x % 256) as u8);
    out.push((x / 256) as u8);
    assert(final(out)@ =~= old(out)@ + u16_le(x));
}

pub fn push_u24_be(out: &mut Vec<u8>, x: u32)
    ensures
        final(out)@ == old(out)@ + u24_be(x),
{
    out.push(((x / 65536) % 256) as u8);
    out.push(((x / 256) % 256) as u8);
    out.push((x % 256) as u8);
    assert(final(out)@ =~= old(out)@ + u24_be(x));
}

pub fn push_u32_be(out: &mut Vec<u8>, x: u32)
    ensures
        final(out)@ == old(out)@ + u32_be(x),
{
    out.push((x / 16777216) as u8);
    out.push(((x / 65536) % 256) as u8);
    out.push(((x / 256) % 256) as u8);
    out.push((x % 256) as u8);
    assert(final(out)@ =~= old(out)@ + u32_be(x));
}

} // verus!

verus! {

/// Appends every byte of `s`.
pub fn push_all(out: &mut Vec<u8>, s: &[u8])
    ensures
        final(out)@ == old(out)@ + s@,
{
    let n = s.len();
    let ghost start = out@;
    let mut i: usize = 0;
    while i < n
        invariant
            n == s@.len(),
            i <= n,
            out@ == start + s@.subrange(0, i as int),
        decreases n - i,
    {
        out.push(s[i]);
        i = i + 1;
        assert(out@ =~= start + s@.subrange(0, i as int));
    }
    assert(s@.subrange(0, n as int) =~= s@);
}

} // verus!
