//! Little-endian integer encodings and the error type shared by every packed wire type.
use vstd::prelude::*;

verus! {

/// Errors produced when packing or unpacking values to/from raw bytes.
#[derive(Debug, Clone, Copy, PartialEq, Eq)]
pub enum WireError {
    /// The buffer was too short to read a value from.
    ReadBufferTooShort,
    /// The buffer was too short to write a value into.
    WriteBufferTooShort,
    /// A decoded value was not valid for the target type.
    InvalidValue,
}

/// The little-endian `u16` stored at byte offset `i` of `s`.
pub open spec fn le_u16_at(s: Seq<u8>, i: int) -> u16 {
    (s[i] as int + 256 * (s[i + 1] as int)) as u16
}

/// The little-endian `u32` stored at byte offset `i` of `s`.
pub open spec fn le_u32_at(s: Seq<u8>, i: int) -> u32 {
    (le_u16_at(s, i) as int + 65536 * (le_u16_at(s, i + 2) as int)) as u32
}

/// The little-endian `u64` stored at byte offset `i` of `s`.
pub open spec fn le_u64_at(s: Seq<u8>, i: int) -> u64 {
    (le_u32_at(s, i) as int + 0x1_0000_0000 * (le_u32_at(s, i + 4) as int)) as u64
}

/// Little-endian bytes of a `u16`.
pub open spec fn u16_le_bytes(v: u16) -> Seq<u8> {
    seq![(v % 256) as u8, (v / 256) as u8]
}

/// Little-endian bytes of a `u32`.
pub open spec fn u32_le_bytes(v: u32) -> Seq<u8> {
    u16_le_bytes((v % 65536) as u16) + u16_le_bytes((v / 65536) as u16)
}

/// Little-endian bytes of a `u64`.
pub open spec fn u64_le_bytes(v: u64) -> Seq<u8> {
    u32_le_bytes((v % 0x1_0000_0000) as u32) + u32_le_bytes((v / 0x1_0000_0000) as u32)
}

/// Decoding the encoding of a `u16` gives the value back, wherever the bytes stand.
pub proof fn lemma_u16_roundtrip(v: u16, pre: Seq<u8>, post: Seq<u8>)
    ensures
        le_u16_at(pre + u16_le_bytes(v) + post, pre.len() as int) == v,
{
    let s = pre + u16_le_bytes(v) + post;
    assert(s[pre.len() as int] == (v % 256) as u8);
    assert(s[pre.len() as int + 1] == (v / 256) as u8);
}

/// Encoding the decoded bytes gives the bytes back.
pub proof fn lemma_u16_bytes_roundtrip(s: Seq<u8>, i: int)
    requires
        0 <= i,
        i + 2 <= s.len(),
    ensures
        u16_le_bytes(le_u16_at(s, i)) =~= s.subrange(i, i + 2),
{
}

/// Decoding the encoding of a `u32` gives the value back, wherever the bytes stand.
pub proof fn lemma_u32_roundtrip(v: u32, pre: Seq<u8>, post: Seq<u8>)
    ensures
        le_u32_at(pre + u32_le_bytes(v) + post, pre.len() as int) == v,
{
    let lo = (v % 65536) as u16;
    let hi = (v / 65536) as u16;
    lemma_u16_roundtrip(lo, pre, u16_le_bytes(hi) + post);
    lemma_u16_roundtrip(hi, pre + u16_le_bytes(lo), post);
    assert(pre + u32_le_bytes(v) + post =~= pre + u16_le_bytes(lo) + (u16_le_bytes(hi) + post));
    assert(pre + u32_le_bytes(v) + post =~= (pre + u16_le_bytes(lo)) + u16_le_bytes(hi) + post);
}

/// Decoding the encoding of a `u64` gives the value back, wherever the bytes stand.
pub proof fn lemma_u64_roundtrip(v: u64, pre: Seq<u8>, post: Seq<u8>)
    ensures
        le_u64_at(pre + u64_le_bytes(v) + post, pre.len() as int) == v,
{
    let lo = (v % 0x1_0000_0000) as u32;
    let hi = (v / 0x1_0000_0000) as u32;
    lemma_u32_roundtrip(lo, pre, u32_le_bytes(hi) + post);
    lemma_u32_roundtrip(hi, pre + u32_le_bytes(lo), post);
    assert(pre + u64_le_bytes(v) + post =~= pre + u32_le_bytes(lo) + (u32_le_bytes(hi) + post));
    assert(pre + u64_le_bytes(v) + post =~= (pre + u32_le_bytes(lo)) + u32_le_bytes(hi) + post);
}

/// The byte with bits 0 to 7 set as the eight flags say.
pub open spec fn pack_flags(
    b0: bool,
    b1: bool,
    b2: bool,
    b3: bool,
    b4: bool,
    b5: bool,
    b6: bool,
    b7: bool,
) -> u8 {
    (if b0 { 1u8 } else { 0u8 }) | (if b1 { 2u8 } else { 0u8 }) | (if b2 { 4u8 } else { 0u8 }) | (
    if b3 {
        8u8
    } else {
        0u8
    }) | (if b4 { 16u8 } else { 0u8 }) | (if b5 { 32u8 } else { 0u8 }) | (if b6 {
        64u8
    } else {
        0u8
    }) | (if b7 { 128u8 } else { 0u8 })
}

/// Whether the bit of value `d` (a power of two) is set in `b`.
pub open spec fn bit_set(b: u8, d: u8) -> bool {
    (b / d) % 2 == 1
}

/// Each flag packed by [`pack_flags`] is read back from its bit.
pub proof fn lemma_pack_flags(
    b0: bool,
    b1: bool,
    b2: bool,
    b3: bool,
    b4: bool,
    b5: bool,
    b6: bool,
    b7: bool,
)
    by (bit_vector)
    ensures
        ((pack_flags(b0, b1, b2, b3, b4, b5, b6, b7) / 1) % 2 == 1) == b0,
        ((pack_flags(b0, b1, b2, b3, b4, b5, b6, b7) / 2) % 2 == 1) == b1,
        ((pack_flags(b0, b1, b2, b3, b4, b5, b6, b7) / 4) % 2 == 1) == b2,
        ((pack_flags(b0, b1, b2, b3, b4, b5, b6, b7) / 8) % 2 == 1) == b3,
        ((pack_flags(b0, b1, b2, b3, b4, b5, b6, b7) / 16) % 2 == 1) == b4,
        ((pack_flags(b0, b1, b2, b3, b4, b5, b6, b7) / 32) % 2 == 1) == b5,
        ((pack_flags(b0, b1, b2, b3, b4, b5, b6, b7) / 64) % 2 == 1) == b6,
        ((pack_flags(b0, b1, b2, b3, b4, b5, b6, b7) / 128) % 2 == 1) == b7,
{
}

/// Pack eight flags into a byte, bit 0 first.
pub fn pack_flags_exec(
    b0: bool,
    b1: bool,
    b2: bool,
    b3: bool,
    b4: bool,
    b5: bool,
    b6: bool,
    b7: bool,
) -> (r: u8)
    ensures
        r == pack_flags(b0, b1, b2, b3, b4, b5, b6, b7),
{
    (if b0 { 1u8 } else { 0u8 }) | (if b1 { 2u8 } else { 0u8 }) | (if b2 { 4u8 } else { 0u8 }) | (
    if b3 {
        8u8
    } else {
        0u8
    }) | (if b4 { 16u8 } else { 0u8 }) | (if b5 { 32u8 } else { 0u8 }) | (if b6 {
        64u8
    } else {
        0u8
    }) | (if b7 { 128u8 } else { 0u8 })
}

/// Copy a byte slice into a new vector.
pub fn bytes_to_vec(s: &[u8]) -> (r: Vec<u8>)
    ensures
        r@ == s@,
{
    let mut v: Vec<u8> = Vec::new();
    let mut i: usize = 0;
    while i < s.len()
        invariant
            i <= s@.len(),
            v@ == s@.subrange(0, i as int),
        decreases s@.len() - i,
    {
        v.push(s[i]);
        i = i + 1;
        assert(v@ =~= s@.subrange(0, i as int));
    }
    assert(s@.subrange(0, s@.len() as int) =~= s@);
    v
}

/// Read a little-endian `u16` at byte offset `i`.
pub fn read_u16(buf: &[u8], i: usize) -> (r: u16)
    requires
        i + 2 <= buf.len(),
    ensures
        r == le_u16_at(buf@, i as int),
{
    (buf[i] as u16) + 256 * (buf[i + 1] as u16)
}

/// Read a little-endian `u32` at byte offset `i`.
pub fn read_u32(buf: &[u8], i: usize) -> (r: u32)
    requires
        i + 4 <= buf.len(),
    ensures
        r == le_u32_at(buf@, i as int),
{
    (read_u16(buf, i) as u32) + 65536 * (read_u16(buf, i + 2) as u32)
}

/// Read a little-endian `u64` at byte offset `i`.
pub fn read_u64(buf: &[u8], i: usize) -> (r: u64)
    requires
        i + 8 <= buf.len(),
    ensures
        r == le_u64_at(buf@, i as int),
{
    (read_u32(buf, i) as u64) + 0x1_0000_0000 * (read_u32(buf, i + 4) as u64)
}

/// Little-endian bytes of a `u16`.
pub fn u16_to_le(v: u16) -> (r: [u8; 2])
    ensures
        r@ == u16_le_bytes(v),
{
    let r = [(v % 256) as u8, (v / 256) as u8];
    assert(r@ =~= u16_le_bytes(v));
    r
}

/// Little-endian bytes of a `u32`.
pub fn u32_to_le(v: u32) -> (r: [u8; 4])
    ensures
        r@ == u32_le_bytes(v),
{
    let lo = u16_to_le((v % 65536) as u16);
    let hi = u16_to_le((v / 65536) as u16);
    let r = [lo[0], lo[1], hi[0], hi[1]];
    assert(r@ =~= u32_le_bytes(v));
    r
}

/// Little-endian bytes of a `u64`.
pub fn u64_to_le(v: u64) -> (r: [u8; 8])
    ensures
        r@ == u64_le_bytes(v),
{
    let lo = u32_to_le((v % 0x1_0000_0000) as u32);
    let hi = u32_to_le((v / 0x1_0000_0000) as u32);
    let r = [lo[0], lo[1], lo[2], lo[3], hi[0], hi[1], hi[2], hi[3]];
    assert(r@ =~= u64_le_bytes(v));
    r
}

} // verus!
