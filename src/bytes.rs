//! Little-endian byte encodings of fixed-width integers.
use vstd::prelude::*;

verus! {

/// The two little-endian bytes of `v`.
pub open spec fn le16(v: u16) -> Seq<u8> {
    seq![(v & 0xff) as u8, ((v >> 8u16) & 0xff) as u8]
}

/// The four little-endian bytes of `v`.
pub open spec fn le32(v: u32) -> Seq<u8> {
    seq![
        (v & 0xff) as u8,
        ((v >> 8u32) & 0xff) as u8,
        ((v >> 16u32) & 0xff) as u8,
        ((v >> 24u32) & 0xff) as u8,
    ]
}

/// The eight little-endian bytes of `v`.
pub open spec fn le64(v: u64) -> Seq<u8> {
    le32((v & 0xffff_ffff) as u32) + le32((v >> 32u64) as u32)
}

/// `n` zero bytes.
pub open spec fn zeros(n: nat) -> Seq<u8> {
    Seq::new(n, |i: int| 0u8)
}

/// The value of four little-endian bytes starting at `at`.
pub open spec fn read32(b: Seq<u8>, at: int) -> u32 {
    (b[at] as u32) | ((b[at + 1] as u32) << 8u32) | ((b[at + 2] as u32) << 16u32) | ((
    b[at + 3] as u32) << 24u32)
}

/// The value of eight little-endian bytes starting at `at`.
pub open spec fn read64(b: Seq<u8>, at: int) -> u64 {
    (read32(b, at) as u64) | ((read32(b, at + 4) as u64) << 32u64)
}

pub fn push_u8(out: &mut Vec<u8>, v: u8)
    ensures
        final(out)@ == old(out)@ + seq![v],
{
    out.push(v);
    assert(out@ =~= old(out)@ + seq![v]);
}

pub fn push_u16(out: &mut Vec<u8>, v: u16)
    ensures
        final(out)@ == old(out)@ + le16(v),
{
    out.push((v & 0xff) as u8);
    out.push(((v >> 8u16) & 0xff) as u8);
    assert(out@ =~= old(out)@ + le16(v));
}

pub fn push_u32(out: &mut Vec<u8>, v: u32)
    ensures
        final(out)@ == old(out)@ + le32(v),
{
    out.push((v & 0xff) as u8);
    out.push(((v >> 8u32) & 0xff) as u8);
    out.push(((v >> 16u32) & 0xff) as u8);
    out.push(((v >> 24u32) & 0xff) as u8);
    assert(out@ =~= old(out)@ + le32(v));
}

pub fn push_u64(out: &mut Vec<u8>, v: u64)
    ensures
        final(out)@ == old(out)@ + le64(v),
{
    push_u32(out, (v & 0xffff_ffff) as u32);
    push_u32(out, (v >> 32u64) as u32);
    assert(out@ =~= old(out)@ + le64(v));
}

/// Appends zero bytes until `out` holds `len` bytes.
pub fn pad_to(out: &mut Vec<u8>, len: usize)
    requires
        old(out)@.len() <= len,
    ensures
        final(out)@ == old(out)@ + zeros((len - old(out)@.len()) as nat),
{
    let start: usize = out.len();
    while out.len() < len
        invariant
            start == old(out)@.len(),
            start <= out@.len() <= len,
            out@ == old(out)@ + zeros((out@.len() - start) as nat),
        decreases len - out@.len(),
    {
        out.push(0u8);
        assert(out@ =~= old(out)@ + zeros((out@.len() - start) as nat));
    }
}

/// Reads four little-endian bytes of `b` starting at `at`.
pub fn get_u32(b: &[u8], at: usize) -> (r: u32)
    requires
        at + 4 <= b@.len(),
    ensures
        r == read32(b@, at as int),
{
    (b[at] as u32) | ((b[at + 1] as u32) << 8u32) | ((b[at + 2] as u32) << 16u32) | ((b[at
        + 3] as u32) << 24u32)
}

/// Reads eight little-endian bytes of `b` starting at `at`.
pub fn get_u64(b: &[u8], at: usize) -> (r: u64)
    requires
        at + 8 <= b@.len(),
    ensures
        r == read64(b@, at as int),
{
    // `at + 4` stays below the slice's length, which fits in usize.
    let len: usize = b.len();
    let hi_at: usize = len - (len - at - 4);
    (get_u32(b, at) as u64) | ((get_u32(b, hi_at) as u64) << 32u64)
}

/// The encoding of zero is all zero bytes.
pub proof fn lemma_le_zero()
    ensures
        le16(0) == zeros(2),
        le32(0) == zeros(4),
        le64(0) == zeros(8),
{
    assert((0u16 & 0xff) == 0u16 && ((0u16 >> 8u16) & 0xff) == 0u16) by (bit_vector);
    assert((0u32 & 0xff) == 0u32 && ((0u32 >> 8u32) & 0xff) == 0u32 && ((0u32 >> 16u32) & 0xff)
        == 0u32 && ((0u32 >> 24u32) & 0xff) == 0u32) by (bit_vector);
    assert((0u64 & 0xffff_ffff) == 0u64 && (0u64 >> 32u64) == 0u64) by (bit_vector);
    assert(le16(0) =~= zeros(2));
    assert(le32(0) =~= zeros(4));
    assert(le64(0) =~= zeros(8));
}

} // verus!
