//! Big-endian integer encodings shared by every wire format of the protocol.

use vstd::prelude::*;

verus! {

/// Two-byte big-endian encoding of `v`.
pub open spec fn be_u16(v: u16) -> Seq<u8> {
    seq![(v / 256) as u8, (v % 256) as u8]
}

/// Value of the two big-endian bytes `hi`, `lo`.
pub open spec fn u16_of(hi: u8, lo: u8) -> u16 {
    (hi as int * 256 + lo as int) as u16
}

/// Four-byte big-endian encoding of `v`.
pub open spec fn be_u32(v: u32) -> Seq<u8> {
    be_u16((v / 0x10000) as u16) + be_u16((v % 0x10000) as u16)
}

/// Value of the first four bytes of `s`, read big-endian.
pub open spec fn u32_of(s: Seq<u8>) -> u32 {
    (u16_of(s[0], s[1]) as int * 0x10000 + u16_of(s[2], s[3]) as int) as u32
}

/// Eight-byte big-endian encoding of `v`.
pub open spec fn be_u64(v: u64) -> Seq<u8> {
    be_u32((v / 0x1_0000_0000) as u32) + be_u32((v % 0x1_0000_0000) as u32)
}

/// Value of the first eight bytes of `s`, read big-endian.
pub open spec fn u64_of(s: Seq<u8>) -> u64 {
    (u32_of(s) as int * 0x1_0000_0000 + u32_of(s.subrange(4, 8)) as int) as u64
}

pub proof fn lemma_u16_roundtrip(v: u16)
    ensures
        be_u16(v).len() == 2,
        u16_of(be_u16(v)[0], be_u16(v)[1]) == v,
{
}

pub proof fn lemma_u16_bytes_roundtrip(hi: u8, lo: u8)
    ensures
        be_u16(u16_of(hi, lo)) == seq![hi, lo],
{
    assert(be_u16(u16_of(hi, lo)) =~= seq![hi, lo]);
}

pub proof fn lemma_u32_roundtrip(v: u32)
    ensures
        be_u32(v).len() == 4,
        u32_of(be_u32(v)) == v,
{
    lemma_u16_roundtrip((v / 0x10000) as u16);
    lemma_u16_roundtrip((v % 0x10000) as u16);
}

pub proof fn lemma_u32_bytes_roundtrip(d: Seq<u8>)
    requires
        d.len() >= 4,
    ensures
        be_u32(u32_of(d)) == d.subrange(0, 4),
{
    let hi = u16_of(d[0], d[1]);
    let lo = u16_of(d[2], d[3]);
    lemma_u16_bytes_roundtrip(d[0], d[1]);
    lemma_u16_bytes_roundtrip(d[2], d[3]);
    assert(u32_of(d) as int == hi as int * 0x10000 + lo as int);
    assert((u32_of(d) / 0x10000) as u16 == hi);
    assert((u32_of(d) % 0x10000) as u16 == lo);
    assert(be_u32(u32_of(d)) =~= d.subrange(0, 4));
}

pub proof fn lemma_u64_roundtrip(v: u64)
    ensures
        be_u64(v).len() == 8,
        u64_of(be_u64(v)) == v,
{
    let hi = (v / 0x1_0000_0000) as u32;
    let lo = (v % 0x1_0000_0000) as u32;
    lemma_u32_roundtrip(hi);
    lemma_u32_roundtrip(lo);
    let s = be_u64(v);
    assert(s.subrange(4, 8) =~= be_u32(lo));
    assert(s.subrange(0, 4) =~= be_u32(hi));
    assert(u32_of(s) == u32_of(be_u32(hi)));
}

/// Appends the big-endian encoding of `v` to `buf`.
pub fn push_u16(buf: &mut Vec<u8>, v: u16)
    ensures
        final(buf)@ == old(buf)@ + be_u16(v),
{
    buf.push((v / 256) as u8);
    buf.push((v % 256) as u8);
    assert(final(buf)@ =~= old(buf)@ + be_u16(v));
}

/// Appends the big-endian encoding of `v` to `buf`.
pub fn push_u32(buf: &mut Vec<u8>, v: u32)
    ensures
        final(buf)@ == old(buf)@ + be_u32(v),
{
    push_u16(buf, (v / 0x10000) as u16);
    push_u16(buf, (v % 0x10000) as u16);
    assert(final(buf)@ =~= old(buf)@ + be_u32(v));
}

/// Appends the big-endian encoding of `v` to `buf`.
pub fn push_u64(buf: &mut Vec<u8>, v: u64)
    ensures
        final(buf)@ == old(buf)@ + be_u64(v),
{
    push_u32(buf, (v / 0x1_0000_0000) as u32);
    push_u32(buf, (v % 0x1_0000_0000) as u32);
    assert(final(buf)@ =~= old(buf)@ + be_u64(v));
}

/// Appends every byte of `src` to `buf`.
pub fn push_slice(buf: &mut Vec<u8>, src: &[u8])
    ensures
        final(buf)@ == old(buf)@ + src@,
{
    let ghost start = buf@;
    let mut i: usize = 0;
    while i < src.len()
        invariant
            i <= src@.len(),
            buf@ == start + src@.subrange(0, i as int),
        decreases src@.len() - i,
    {
        buf.push(src[i]);
        i = i + 1;
        assert(buf@ =~= start + src@.subrange(0, i as int));
    }
    assert(src@.subrange(0, i as int) =~= src@);
}

/// Copies `data[start..end]` into a fresh vector.
pub fn copy_range(data: &[u8], start: usize, end: usize) -> (out: Vec<u8>)
    requires
        start <= end <= data@.len(),
    ensures
        out@ == data@.subrange(start as int, end as int),
{
    let mut out: Vec<u8> = Vec::with_capacity(end - start);
    let mut i: usize = start;
    while i < end
        invariant
            start <= i <= end <= data@.len(),
            out@ == data@.subrange(start as int, i as int),
        decreases end - i,
    {
        out.push(data[i]);
        i = i + 1;
        assert(out@ =~= data@.subrange(start as int, i as int));
    }
    out
}

/// A fresh copy of `data`.
pub fn to_vec(data: &[u8]) -> (out: Vec<u8>)
    ensures
        out@ == data@,
{
    let out = copy_range(data, 0, data.len());
    assert(data@.subrange(0, data@.len() as int) =~= data@);
    out
}

/// Reads the big-endian `u16` stored at `data[pos..pos + 2]`.
pub fn get_u16(data: &[u8], pos: usize) -> (v: u16)
    requires
        pos + 2 <= data@.len(),
    ensures
        v == u16_of(data@[pos as int], data@[pos + 1]),
{
    (data[pos] as u16) * 256 + (data[pos + 1] as u16)
}

/// Reads the big-endian `u32` stored at `data[pos..pos + 4]`.
pub fn get_u32(data: &[u8], pos: usize) -> (v: u32)
    requires
        pos + 4 <= data@.len(),
    ensures
        v == u32_of(data@.subrange(pos as int, pos + 4)),
{
    let len = data.len();
    let hi = get_u16(data, pos);
    let lo = get_u16(data, pos + 2);
    (hi as u32) * 0x10000 + (lo as u32)
}

/// Reads the big-endian `u64` stored at `data[pos..pos + 8]`.
pub fn get_u64(data: &[u8], pos: usize) -> (v: u64)
    requires
        pos + 8 <= data@.len(),
    ensures
        v == u64_of(data@.subrange(pos as int, pos + 8)),
{
    let len = data.len();
    let hi = get_u32(data, pos);
    let lo = get_u32(data, pos + 4);
    assert(data@.subrange(pos as int, pos + 8).subrange(4, 8) =~= data@.subrange(pos + 4, pos + 8));
    assert(data@.subrange(pos as int, pos + 8).subrange(0, 4) =~= data@.subrange(pos as int, pos + 4));
    (hi as u64) * 0x1_0000_0000 + (lo as u64)
}

} // verus!
