//! Little-endian numbers in a byte sequence.

use vstd::prelude::*;
use crate::registers::Width;

verus! {

/// The unsigned number that the four bytes from `pos` on hold, least
/// significant byte first.
pub open spec fn dword_at(bytes: Seq<u8>, pos: int) -> int {
    bytes[pos] + 0x100 * bytes[pos + 1] + 0x1_0000 * bytes[pos + 2] + 0x100_0000 * bytes[pos + 3]
}

/// The unsigned number that the `width` bytes from `pos` on hold, least
/// significant byte first.
pub open spec fn unsigned_at(bytes: Seq<u8>, pos: int, width: Width) -> int {
    match width {
        Width::Byte => bytes[pos] as int,
        Width::Word => bytes[pos] + 0x100 * bytes[pos + 1],
        Width::Dword => dword_at(bytes, pos),
        Width::Qword => dword_at(bytes, pos) + 0x1_0000_0000 * dword_at(bytes, pos + 4),
    }
}

/// The number of values that `width` bytes can hold.
pub open spec fn modulus(width: Width) -> int {
    match width {
        Width::Byte => 0x100,
        Width::Word => 0x1_0000,
        Width::Dword => 0x1_0000_0000,
        Width::Qword => 0x1_0000_0000_0000_0000,
    }
}

/// The two's-complement reading of the unsigned number `v` of `width` bytes.
pub open spec fn as_signed(v: int, width: Width) -> int {
    if 2 * v >= modulus(width) {
        v - modulus(width)
    } else {
        v
    }
}

/// Whether `width` bytes lie in `bytes` from `pos` on.
pub open spec fn in_bounds(bytes: Seq<u8>, pos: int, width: Width) -> bool {
    0 <= pos && pos + width.byte_count() <= bytes.len()
}

/// The unsigned number at `pos`, or `None` where the bytes end before it does.
pub open spec fn read_unsigned_spec(bytes: Seq<u8>, pos: int, width: Width) -> Option<int> {
    if in_bounds(bytes, pos, width) {
        Some(unsigned_at(bytes, pos, width))
    } else {
        None
    }
}

/// The signed number at `pos`, or `None` where the bytes end before it does.
pub open spec fn read_signed_spec(bytes: Seq<u8>, pos: int, width: Width) -> Option<int> {
    if in_bounds(bytes, pos, width) {
        Some(as_signed(unsigned_at(bytes, pos, width), width))
    } else {
        None
    }
}

/// An unsigned number of `width` bytes is below the modulus of that width.
pub proof fn lemma_unsigned_at_bounds(bytes: Seq<u8>, pos: int, width: Width)
    ensures
        0 <= unsigned_at(bytes, pos, width) < modulus(width),
{
}

/// Reading from a shortened input gives the same number where the number
/// lies before the cut, and nothing where it does not.
pub proof fn lemma_read_truncated(bytes: Seq<u8>, cut: int, pos: int, width: Width)
    requires
        0 <= cut <= bytes.len(),
    ensures
        read_unsigned_spec(bytes.take(cut), pos, width) == if pos + width.byte_count() <= cut {
            read_unsigned_spec(bytes, pos, width)
        } else {
            None
        },
        read_signed_spec(bytes.take(cut), pos, width) == if pos + width.byte_count() <= cut {
            read_signed_spec(bytes, pos, width)
        } else {
            None
        },
{
}

/// Reads the byte at `pos`.
pub fn read_byte(bytes: &[u8], pos: usize) -> (r: Option<u8>)
    ensures
        r == if pos < bytes@.len() {
            Some(bytes@[pos as int])
        } else {
            None
        },
{
    if pos < bytes.len() {
        Some(bytes[pos])
    } else {
        None
    }
}

/// Reads the unsigned number of `width` bytes at `pos`.
pub fn read_unsigned(bytes: &[u8], pos: usize, width: Width) -> (r: Option<u64>)
    ensures
        match r {
            Some(v) => read_unsigned_spec(bytes@, pos as int, width) == Some(v as int),
            None => read_unsigned_spec(bytes@, pos as int, width) is None,
        },
        r is Some ==> pos + width.byte_count() <= bytes@.len() <= usize::MAX,
{
    let n = width.bytes();
    if pos > bytes.len() || bytes.len() - pos < n {
        return None;
    }
    proof {
        }
    let v: u64 = match width {
        Width::Byte => bytes[pos] as u64,
        Width::Word => bytes[pos] as u64 + 0x100 * (bytes[pos + 1] as u64),
        Width::Dword => read_dword(bytes, pos),
        Width::Qword => {
            let low = read_dword(bytes, pos);
            let high = read_dword(bytes, pos + 4);
            low + 0x1_0000_0000 * high
        },
    };
    Some(v)
}

fn read_dword(bytes: &[u8], pos: usize) -> (v: u64)
    requires
        pos + 4 <= bytes@.len(),
    ensures
        v == dword_at(bytes@, pos as int),
        v < 0x1_0000_0000,
{
    bytes[pos] as u64 + 0x100 * (bytes[pos + 1] as u64) + 0x1_0000 * (bytes[pos + 2] as u64)
        + 0x100_0000 * (bytes[pos + 3] as u64)
}

/// The two's-complement reading of `v`, an unsigned number of `width` bytes.
pub fn to_signed(v: u64, width: Width) -> (s: i64)
    requires
        v < modulus(width),
    ensures
        s == as_signed(v as int, width),
{
    match width {
        Width::Byte => if v >= 0x80 {
            v as i64 - 0x100
        } else {
            v as i64
        },
        Width::Word => if v >= 0x8000 {
            v as i64 - 0x1_0000
        } else {
            v as i64
        },
        Width::Dword => if v >= 0x8000_0000 {
            v as i64 - 0x1_0000_0000
        } else {
            v as i64
        },
        Width::Qword => if v >= 0x8000_0000_0000_0000 {
            (v - 0x8000_0000_0000_0000) as i64 + i64::MIN
        } else {
            v as i64
        },
    }
}

/// Reads the signed number of `width` bytes at `pos`.
pub fn read_signed(bytes: &[u8], pos: usize, width: Width) -> (r: Option<i64>)
    ensures
        match r {
            Some(v) => read_signed_spec(bytes@, pos as int, width) == Some(v as int),
            None => read_signed_spec(bytes@, pos as int, width) is None,
        },
        r is Some ==> pos + width.byte_count() <= bytes@.len() <= usize::MAX,
{
    match read_unsigned(bytes, pos, width) {
        Some(v) => {
            proof {
                lemma_unsigned_at_bounds(bytes@, pos as int, width);
            }
            Some(to_signed(v, width))
        },
        None => None,
    }
}

} // verus!
