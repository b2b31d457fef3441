//! The primitive field reader: fixed-width little-endian values and raw
//! float bits read from a byte buffer at a cursor position. This is the
//! only place raw byte arithmetic occurs; every decoder above it speaks
//! of the `*_at` spec functions defined here.

use vstd::bytes::{spec_u16_from_le_bytes, spec_u32_from_le_bytes, spec_u64_from_le_bytes};
use vstd::bytes::{u16_from_le_bytes, u32_from_le_bytes, u64_from_le_bytes};
use vstd::prelude::*;
use vstd::slice::{slice_index_get, slice_subrange, slice_to_vec};

use crate::error::UnpackError;
use crate::generic::RawFloat;

verus! {

/// The byte at position `p`.
pub open spec fn u8_at(s: Seq<u8>, p: int) -> u8 {
    s[p]
}

/// The byte at position `p` reinterpreted as a signed byte.
pub open spec fn i8_at(s: Seq<u8>, p: int) -> i8 {
    s[p] as i8
}

/// The little-endian 16-bit value at positions `p..p+2`.
pub open spec fn u16_at(s: Seq<u8>, p: int) -> u16 {
    spec_u16_from_le_bytes(s.subrange(p, p + 2))
}

/// The little-endian 32-bit value at positions `p..p+4`.
pub open spec fn u32_at(s: Seq<u8>, p: int) -> u32 {
    spec_u32_from_le_bytes(s.subrange(p, p + 4))
}

/// The little-endian 64-bit value at positions `p..p+8`.
pub open spec fn u64_at(s: Seq<u8>, p: int) -> u64 {
    spec_u64_from_le_bytes(s.subrange(p, p + 8))
}

/// The raw bits of the IEEE-754 value at positions `p..p+4`.
pub open spec fn f32_at(s: Seq<u8>, p: int) -> RawFloat {
    RawFloat { bits: u32_at(s, p) }
}

/// Reads one byte and advances the cursor.
pub fn read_u8(buf: &[u8], pos: &mut usize) -> (r: u8)
    requires
        *old(pos) + 1 <= buf@.len(),
    ensures
        *final(pos) == *old(pos) + 1,
        r == u8_at(buf@, *old(pos) as int),
{
    proof {
        vstd::slice::axiom_spec_len(buf);
    }
    let b = *slice_index_get(buf, *pos);
    *pos = *pos + 1;
    b
}

/// Reads one signed byte and advances the cursor.
pub fn read_i8(buf: &[u8], pos: &mut usize) -> (r: i8)
    requires
        *old(pos) + 1 <= buf@.len(),
    ensures
        *final(pos) == *old(pos) + 1,
        r == i8_at(buf@, *old(pos) as int),
{
    read_u8(buf, pos) as i8
}

/// Reads a little-endian 16-bit value and advances the cursor.
pub fn read_u16(buf: &[u8], pos: &mut usize) -> (r: u16)
    requires
        *old(pos) + 2 <= buf@.len(),
    ensures
        *final(pos) == *old(pos) + 2,
        r == u16_at(buf@, *old(pos) as int),
{
    proof {
        vstd::slice::axiom_spec_len(buf);
    }
    let sub = slice_subrange(buf, *pos, *pos + 2);
    let v = u16_from_le_bytes(sub);
    *pos = *pos + 2;
    v
}

/// Reads a little-endian 32-bit value and advances the cursor.
pub fn read_u32(buf: &[u8], pos: &mut usize) -> (r: u32)
    requires
        *old(pos) + 4 <= buf@.len(),
    ensures
        *final(pos) == *old(pos) + 4,
        r == u32_at(buf@, *old(pos) as int),
{
    proof {
        vstd::slice::axiom_spec_len(buf);
    }
    let sub = slice_subrange(buf, *pos, *pos + 4);
    let v = u32_from_le_bytes(sub);
    *pos = *pos + 4;
    v
}

/// Reads a little-endian 64-bit value and advances the cursor.
pub fn read_u64(buf: &[u8], pos: &mut usize) -> (r: u64)
    requires
        *old(pos) + 8 <= buf@.len(),
    ensures
        *final(pos) == *old(pos) + 8,
        r == u64_at(buf@, *old(pos) as int),
{
    proof {
        vstd::slice::axiom_spec_len(buf);
    }
    let sub = slice_subrange(buf, *pos, *pos + 8);
    let v = u64_from_le_bytes(sub);
    *pos = *pos + 8;
    v
}

/// Reads the raw bits of a 32-bit IEEE-754 value and advances the cursor.
pub fn read_f32(buf: &[u8], pos: &mut usize) -> (r: RawFloat)
    requires
        *old(pos) + 4 <= buf@.len(),
    ensures
        *final(pos) == *old(pos) + 4,
        r == f32_at(buf@, *old(pos) as int),
{
    RawFloat { bits: read_u32(buf, pos) }
}

/// Reads a fixed-length byte array and advances the cursor; used for
/// the fixed-width name and per-wheel fields.
pub fn read_bytes(buf: &[u8], pos: &mut usize, n: usize) -> (r: Vec<u8>)
    requires
        *old(pos) + n <= buf@.len(),
    ensures
        *final(pos) == *old(pos) + n,
        r@ == buf@.subrange(*old(pos) as int, *old(pos) + n),
{
    proof {
        vstd::slice::axiom_spec_len(buf);
    }
    let sub = slice_subrange(buf, *pos, *pos + n);
    let v = slice_to_vec(sub);
    *pos = *pos + n;
    v
}

/// Reads one byte, or fails with `Truncated` when no byte remains.
pub fn try_read_u8(buf: &[u8], pos: &mut usize) -> (r: Result<u8, UnpackError>)
    requires
        *old(pos) <= buf@.len(),
    ensures
        match r {
            Ok(v) => *old(pos) + 1 <= buf@.len() && *final(pos) == *old(pos) + 1 && v == u8_at(
                buf@,
                *old(pos) as int,
            ),
            Err(e) => *old(pos) + 1 > buf@.len() && *final(pos) == *old(pos) && e
                == (UnpackError::Truncated { needed: 1, available: (buf@.len() - *old(pos)) as usize }),
        },
{
    if *pos < buf.len() {
        Ok(read_u8(buf, pos))
    } else {
        Err(UnpackError::Truncated { needed: 1, available: buf.len() - *pos })
    }
}

/// Reads a little-endian 16-bit value, or fails with `Truncated` when
/// fewer than two bytes remain.
pub fn try_read_u16(buf: &[u8], pos: &mut usize) -> (r: Result<u16, UnpackError>)
    requires
        *old(pos) <= buf@.len(),
    ensures
        match r {
            Ok(v) => *old(pos) + 2 <= buf@.len() && *final(pos) == *old(pos) + 2 && v == u16_at(
                buf@,
                *old(pos) as int,
            ),
            Err(e) => *old(pos) + 2 > buf@.len() && *final(pos) == *old(pos) && e
                == (UnpackError::Truncated { needed: 2, available: (buf@.len() - *old(pos)) as usize }),
        },
{
    if buf.len() - *pos >= 2 {
        Ok(read_u16(buf, pos))
    } else {
        Err(UnpackError::Truncated { needed: 2, available: buf.len() - *pos })
    }
}

} // verus!
