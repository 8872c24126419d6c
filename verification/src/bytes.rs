//! Little-endian integer encodings over byte sequences.
use vstd::prelude::*;
use vstd::slice::SliceAdditionalExecFns;

verus! {

/// The `u16` whose little-endian encoding is `b0 b1`.
pub open spec fn u16_from_bytes(b0: u8, b1: u8) -> u16 {
    ((b0 as u16) | ((b1 as u16) << 8u16)) as u16
}

/// The `u32` whose little-endian encoding is `b0 b1 b2 b3`.
pub open spec fn u32_from_bytes(b0: u8, b1: u8, b2: u8, b3: u8) -> u32 {
    ((b0 as u32) | ((b1 as u32) << 8u32) | ((b2 as u32) << 16u32) | ((b3 as u32) << 24u32)) as u32
}

/// The little-endian `u16` stored at `off` in `s`.
pub open spec fn le16(s: Seq<u8>, off: int) -> u16 {
    u16_from_bytes(s[off], s[off + 1])
}

/// The little-endian `u32` stored at `off` in `s`.
pub open spec fn le32(s: Seq<u8>, off: int) -> u32 {
    u32_from_bytes(s[off], s[off + 1], s[off + 2], s[off + 3])
}

/// The little-endian `u64` stored at `off` in `s`.
pub open spec fn le64(s: Seq<u8>, off: int) -> u64 {
    ((le32(s, off) as u64) | ((le32(s, off + 4) as u64) << 32u64)) as u64
}

/// The little-endian encoding of `v`.
pub open spec fn le16_bytes(v: u16) -> Seq<u8> {
    seq![(v & 0xff) as u8, ((v >> 8u16) & 0xff) as u8]
}

/// The little-endian encoding of `v`.
pub open spec fn le32_bytes(v: u32) -> Seq<u8> {
    seq![
        (v & 0xff) as u8,
        ((v >> 8u32) & 0xff) as u8,
        ((v >> 16u32) & 0xff) as u8,
        ((v >> 24u32) & 0xff) as u8,
    ]
}

/// `s` with the bytes from `off` on replaced by `w` (`s` keeps its length).
pub open spec fn splice(s: Seq<u8>, off: int, w: Seq<u8>) -> Seq<u8> {
    s.take(off) + w + s.skip(off + w.len())
}

/// Decoding an encoded `u32` gives it back.
pub proof fn lemma_le32_roundtrip(v: u32)
    ensures
        le32_bytes(v).len() == 4,
        le32(le32_bytes(v), 0) == v,
{
    let b = le32_bytes(v);
    let b0 = b[0];
    let b1 = b[1];
    let b2 = b[2];
    let b3 = b[3];
    assert(b0 == (v & 0xff) as u8);
    assert(u32_from_bytes(
        (v & 0xff) as u8,
        ((v >> 8u32) & 0xff) as u8,
        ((v >> 16u32) & 0xff) as u8,
        ((v >> 24u32) & 0xff) as u8,
    ) == v) by (bit_vector);
}

/// Decoding an encoded `u16` gives it back.
pub proof fn lemma_le16_roundtrip(v: u16)
    ensures
        le16_bytes(v).len() == 2,
        le16(le16_bytes(v), 0) == v,
{
    assert(u16_from_bytes((v & 0xff) as u8, ((v >> 8u16) & 0xff) as u8) == v) by (bit_vector);
}

/// Reading a word back after writing it gives the word written, and
/// writing back a word just read leaves the bytes as they were.
pub proof fn law_le32_write_read(s: Seq<u8>, off: int, v: u32)
    requires
        0 <= off,
        off + 4 <= s.len(),
    ensures
        le32(splice(s, off, le32_bytes(v)), off) == v,
        splice(s, off, le32_bytes(le32(s, off))) == s,
{
    lemma_le32_roundtrip(v);
    let w = splice(s, off, le32_bytes(v));
    assert(w.subrange(off, off + 4) =~= le32_bytes(v));
    assert(le32(w, off) == le32(le32_bytes(v), 0));
    let b0 = s[off];
    let b1 = s[off + 1];
    let b2 = s[off + 2];
    let b3 = s[off + 3];
    let x = u32_from_bytes(b0, b1, b2, b3);
    assert(
        (x & 0xff) as u8 == b0 && ((x >> 8u32) & 0xff) as u8 == b1 && ((x >> 16u32) & 0xff) as u8
            == b2 && ((x >> 24u32) & 0xff) as u8 == b3) by (bit_vector)
        requires
            x == u32_from_bytes(b0, b1, b2, b3),
    ;
    assert(le32_bytes(le32(s, off)) =~= s.subrange(off, off + 4));
    assert(splice(s, off, le32_bytes(le32(s, off))) =~= s);
}

/// Reads the little-endian `u16` at `off`.
pub fn read_le16(data: &[u8], off: usize) -> (r: u16)
    requires
        off + 2 <= data@.len(),
    ensures
        r == le16(data@, off as int),
{
    let _len = data.len();
    ((data[off] as u16) | ((data[off + 1] as u16) << 8u16)) as u16
}

/// Reads the little-endian `u32` at `off`.
pub fn read_le32(data: &[u8], off: usize) -> (r: u32)
    requires
        off + 4 <= data@.len(),
    ensures
        r == le32(data@, off as int),
{
    let _len = data.len();
    (data[off] as u32) | ((data[off + 1] as u32) << 8u32) | ((data[off + 2] as u32) << 16u32) | ((
    data[off + 3] as u32) << 24u32)
}

/// Reads the little-endian `u64` at `off`.
pub fn read_le64(data: &[u8], off: usize) -> (r: u64)
    requires
        off + 8 <= data@.len(),
    ensures
        r == le64(data@, off as int),
{
    let _len = data.len();
    let lo = read_le32(data, off);
    let hi = read_le32(data, off + 4);
    (lo as u64) | ((hi as u64) << 32u64)
}

/// Writes `v` little-endian at `off`.
pub fn write_le32(buf: &mut [u8], off: usize, v: u32)
    requires
        off + 4 <= old(buf)@.len(),
    ensures
        final(buf)@ == splice(old(buf)@, off as int, le32_bytes(v)),
{
    let _len = buf.len();
    buf.set(off, (v & 0xff) as u8);
    buf.set(off + 1, ((v >> 8u32) & 0xff) as u8);
    buf.set(off + 2, ((v >> 16u32) & 0xff) as u8);
    buf.set(off + 3, ((v >> 24u32) & 0xff) as u8);
    assert(buf@ =~= splice(old(buf)@, off as int, le32_bytes(v)));
}

/// Writes `v` little-endian at `off`.
pub fn write_le16(buf: &mut [u8], off: usize, v: u16)
    requires
        off + 2 <= old(buf)@.len(),
    ensures
        final(buf)@ == splice(old(buf)@, off as int, le16_bytes(v)),
{
    let _len = buf.len();
    buf.set(off, (v & 0xff) as u8);
    buf.set(off + 1, ((v >> 8u16) & 0xff) as u8);
    assert(buf@ =~= splice(old(buf)@, off as int, le16_bytes(v)));
}

} // verus!
