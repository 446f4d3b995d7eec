//! Little-endian integers inside a byte sequence, as the format stores them.

use vstd::prelude::*;

verus! {

/// The unsigned 16-bit integer stored at `pos`.
pub open spec fn le_u16_at(bytes: Seq<u8>, pos: int) -> int {
    bytes[pos] as int + 0x100 * (bytes[pos + 1] as int)
}

/// The unsigned 32-bit integer stored at `pos`.
pub open spec fn le_u32_at(bytes: Seq<u8>, pos: int) -> int {
    le_u16_at(bytes, pos) + 0x1_0000 * le_u16_at(bytes, pos + 2)
}

/// The unsigned 64-bit integer stored at `pos`.
pub open spec fn le_u64_at(bytes: Seq<u8>, pos: int) -> int {
    le_u32_at(bytes, pos) + 0x1_0000_0000 * le_u32_at(bytes, pos + 4)
}

/// The signed 16-bit integer stored at `pos`, in two's complement.
pub open spec fn le_i16_at(bytes: Seq<u8>, pos: int) -> int {
    let u = le_u16_at(bytes, pos);
    if u >= 0x8000 {
        u - 0x1_0000
    } else {
        u
    }
}

/// The signed 32-bit integer stored at `pos`, in two's complement.
pub open spec fn le_i32_at(bytes: Seq<u8>, pos: int) -> int {
    let u = le_u32_at(bytes, pos);
    if u >= 0x8000_0000 {
        u - 0x1_0000_0000
    } else {
        u
    }
}

/// The signed 64-bit integer stored at `pos`, in two's complement.
pub open spec fn le_i64_at(bytes: Seq<u8>, pos: int) -> int {
    let u = le_u64_at(bytes, pos);
    if u >= 0x8000_0000_0000_0000 {
        u - 0x1_0000_0000_0000_0000
    } else {
        u
    }
}

/// The unsigned number with the same 64 bits as `value`.
pub open spec fn unsigned_64(value: int) -> int {
    if value < 0 {
        value + 0x1_0000_0000_0000_0000
    } else {
        value
    }
}

/// The two bytes that store `u`, lowest first.
pub open spec fn le_bytes_u16(u: int) -> Seq<u8> {
    seq![(u % 0x100) as u8, (u / 0x100) as u8]
}

/// The four bytes that store `u`, lowest first.
pub open spec fn le_bytes_u32(u: int) -> Seq<u8> {
    le_bytes_u16(u % 0x1_0000) + le_bytes_u16(u / 0x1_0000)
}

/// The eight bytes that store `u`, lowest first.
pub open spec fn le_bytes_u64(u: int) -> Seq<u8> {
    le_bytes_u32(u % 0x1_0000_0000) + le_bytes_u32(u / 0x1_0000_0000)
}

/// The eight bytes that store `value` in two's complement, lowest first.
pub open spec fn le_bytes_i64(value: i64) -> Seq<u8> {
    le_bytes_u64(unsigned_64(value as int))
}

/// Whether `size` bytes from `pos` on lie inside a sequence of `len` bytes.
pub open spec fn span_inside(len: int, pos: int, size: int) -> bool {
    0 <= pos && 0 <= size && pos + size <= len
}

proof fn lemma_le_u16_stored(bytes: Seq<u8>, pos: int, u: int)
    requires
        0 <= u < 0x1_0000,
        span_inside(bytes.len() as int, pos, 2),
        bytes.subrange(pos, pos + 2) == le_bytes_u16(u),
    ensures
        le_u16_at(bytes, pos) == u,
{
    let part = bytes.subrange(pos, pos + 2);
    assert(part[0] == bytes[pos] && part[1] == bytes[pos + 1]);
}

proof fn lemma_le_u32_stored(bytes: Seq<u8>, pos: int, u: int)
    requires
        0 <= u < 0x1_0000_0000,
        span_inside(bytes.len() as int, pos, 4),
        bytes.subrange(pos, pos + 4) == le_bytes_u32(u),
    ensures
        le_u32_at(bytes, pos) == u,
{
    let part = bytes.subrange(pos, pos + 4);
    assert(bytes.subrange(pos, pos + 2) =~= part.subrange(0, 2));
    assert(bytes.subrange(pos + 2, pos + 4) =~= part.subrange(2, 4));
    assert(part.subrange(0, 2) =~= le_bytes_u16(u % 0x1_0000));
    assert(part.subrange(2, 4) =~= le_bytes_u16(u / 0x1_0000));
    lemma_le_u16_stored(bytes, pos, u % 0x1_0000);
    lemma_le_u16_stored(bytes, pos + 2, u / 0x1_0000);
}

proof fn lemma_le_u64_stored(bytes: Seq<u8>, pos: int, u: int)
    requires
        0 <= u < 0x1_0000_0000_0000_0000,
        span_inside(bytes.len() as int, pos, 8),
        bytes.subrange(pos, pos + 8) == le_bytes_u64(u),
    ensures
        le_u64_at(bytes, pos) == u,
{
    let part = bytes.subrange(pos, pos + 8);
    assert(le_bytes_u32(u % 0x1_0000_0000).len() == 4);
    assert(le_bytes_u32(u / 0x1_0000_0000).len() == 4);
    assert(bytes.subrange(pos, pos + 4) =~= part.subrange(0, 4));
    assert(bytes.subrange(pos + 4, pos + 8) =~= part.subrange(4, 8));
    assert(part.subrange(0, 4) =~= le_bytes_u32(u % 0x1_0000_0000));
    assert(part.subrange(4, 8) =~= le_bytes_u32(u / 0x1_0000_0000));
    lemma_le_u32_stored(bytes, pos, u % 0x1_0000_0000);
    lemma_le_u32_stored(bytes, pos + 4, u / 0x1_0000_0000);
}

/// Reading back what `le_bytes_i64` stored gives the number again, wherever
/// the eight bytes stand.
pub proof fn lemma_le_i64_round_trip(bytes: Seq<u8>, pos: int, value: i64)
    requires
        span_inside(bytes.len() as int, pos, 8),
        bytes.subrange(pos, pos + 8) == le_bytes_i64(value),
    ensures
        le_i64_at(bytes, pos) == value,
{
    lemma_le_u64_stored(bytes, pos, unsigned_64(value as int));
}

/// `le_bytes_i64` gives eight bytes.
pub proof fn lemma_le_bytes_i64_len(value: i64)
    ensures
        le_bytes_i64(value).len() == 8,
{
    let u = unsigned_64(value as int);
    assert(le_bytes_u32(u % 0x1_0000_0000).len() == 4);
    assert(le_bytes_u32(u / 0x1_0000_0000).len() == 4);
}

/// The unsigned 16-bit integer at `pos`.
pub(crate) fn read_u16(bytes: &[u8], pos: usize) -> (value: u16)
    requires
        span_inside(bytes@.len() as int, pos as int, 2),
    ensures
        value == le_u16_at(bytes@, pos as int),
{
    let _ = bytes.len();
    let b0: u16 = bytes[pos] as u16;
    let b1: u16 = bytes[pos + 1] as u16;
    b0 + 0x100 * b1
}

/// The unsigned 32-bit integer at `pos`.
pub(crate) fn read_u32(bytes: &[u8], pos: usize) -> (value: u32)
    requires
        span_inside(bytes@.len() as int, pos as int, 4),
    ensures
        value == le_u32_at(bytes@, pos as int),
{
    let _ = bytes.len();
    let lo: u32 = read_u16(bytes, pos) as u32;
    let hi: u32 = read_u16(bytes, pos + 2) as u32;
    lo + 0x1_0000 * hi
}

/// The unsigned 64-bit integer at `pos`.
pub(crate) fn read_u64(bytes: &[u8], pos: usize) -> (value: u64)
    requires
        span_inside(bytes@.len() as int, pos as int, 8),
    ensures
        value == le_u64_at(bytes@, pos as int),
{
    let _ = bytes.len();
    let lo: u64 = read_u32(bytes, pos) as u64;
    let hi: u64 = read_u32(bytes, pos + 4) as u64;
    lo + 0x1_0000_0000 * hi
}

/// The signed 16-bit integer at `pos`.
pub(crate) fn read_i16(bytes: &[u8], pos: usize) -> (value: i16)
    requires
        span_inside(bytes@.len() as int, pos as int, 2),
    ensures
        value == le_i16_at(bytes@, pos as int),
{
    let u: u16 = read_u16(bytes, pos);
    if u >= 0x8000 {
        let low: i16 = (u - 0x8000) as i16;
        low + i16::MIN
    } else {
        u as i16
    }
}

/// The signed 32-bit integer at `pos`.
pub(crate) fn read_i32(bytes: &[u8], pos: usize) -> (value: i32)
    requires
        span_inside(bytes@.len() as int, pos as int, 4),
    ensures
        value == le_i32_at(bytes@, pos as int),
{
    let u: u32 = read_u32(bytes, pos);
    if u >= 0x8000_0000 {
        let low: i32 = (u - 0x8000_0000) as i32;
        low + i32::MIN
    } else {
        u as i32
    }
}

/// The signed 64-bit integer at `pos`.
pub(crate) fn read_i64(bytes: &[u8], pos: usize) -> (value: i64)
    requires
        span_inside(bytes@.len() as int, pos as int, 8),
    ensures
        value == le_i64_at(bytes@, pos as int),
{
    let u: u64 = read_u64(bytes, pos);
    if u >= 0x8000_0000_0000_0000 {
        let low: i64 = (u - 0x8000_0000_0000_0000) as i64;
        low + i64::MIN
    } else {
        u as i64
    }
}

/// The unsigned number with the same 64 bits as `value`: the number itself
/// where it is not negative, and 2^64 more where it is.
pub fn to_unsigned_64(value: i64) -> (u: u64)
    ensures
        u == unsigned_64(value as int),
{
    if value >= 0 {
        value as u64
    } else {
        let low: u64 = (value - i64::MIN) as u64;
        low + 0x8000_0000_0000_0000
    }
}

fn push_u16(out: &mut Vec<u8>, u: u16)
    ensures
        final(out)@ == old(out)@ + le_bytes_u16(u as int),
{
    let ghost before = out@;
    out.push((u % 0x100) as u8);
    out.push((u / 0x100) as u8);
    assert(out@ =~= before + le_bytes_u16(u as int));
}

fn push_u32(out: &mut Vec<u8>, u: u32)
    ensures
        final(out)@ == old(out)@ + le_bytes_u32(u as int),
{
    let ghost before = out@;
    push_u16(out, (u % 0x1_0000) as u16);
    push_u16(out, (u / 0x1_0000) as u16);
    assert(out@ =~= before + le_bytes_u32(u as int));
}

/// Appends the eight bytes of `value`, lowest first.
pub fn push_i64(out: &mut Vec<u8>, value: i64)
    ensures
        final(out)@ == old(out)@ + le_bytes_i64(value),
{
    let u: u64 = to_unsigned_64(value);
    let ghost before = out@;
    push_u32(out, (u % 0x1_0000_0000) as u32);
    push_u32(out, (u / 0x1_0000_0000) as u32);
    assert(out@ =~= before + le_bytes_i64(value));
}

} // verus!
