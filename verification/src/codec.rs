//! Byte-level helpers shared by the fixed-layout record codecs.
use vstd::bytes::{spec_u32_from_le_bytes, spec_u32_to_le_bytes, spec_u64_from_le_bytes,
    spec_u64_to_le_bytes, u32_from_le_bytes, u32_to_le_bytes, u64_from_le_bytes, u64_to_le_bytes};
use vstd::prelude::*;

verus! {

/// The byte a boolean flag is stored as.
pub open spec fn spec_bool_byte(b: bool) -> u8 {
    if b {
        1
    } else {
        0
    }
}

/// Relies on `char::from_u32` of std: it returns `Some` exactly for Unicode
/// scalar values (code points outside the surrogate range and at most
/// 0x10FFFF), and the character it returns has the given code point.
pub assume_specification[ char::from_u32 ](x: u32) -> (r: Option<char>)
    ensures
        r is Some <==> vstd::utf8::is_scalar(x),
        r is Some ==> r->Some_0 as u32 == x,
;

/// Read the little-endian `u64` stored at byte offset `off`.
pub fn read_u64_le(src: &[u8], off: usize) -> (x: u64)
    requires
        off + 8 <= src@.len(),
    ensures
        x == spec_u64_from_le_bytes(src@.subrange(off as int, off as int + 8)),
{
    let n: usize = src.len();
    let mut buf: Vec<u8> = Vec::new();
    let mut i: usize = 0;
    while i < 8
        invariant
            i <= 8,
            off + 8 <= n == src@.len(),
            buf@ == src@.subrange(off as int, off as int + i as int),
        decreases 8 - i,
    {
        buf.push(src[off + i]);
        proof {
            assert(src@.subrange(off as int, off as int + i as int + 1) =~= src@.subrange(
                off as int,
                off as int + i as int,
            ).push(src@[off + i]));
        }
        i += 1;
    }
    u64_from_le_bytes(buf.as_slice())
}

/// Read the little-endian `u32` stored at byte offset `off`.
pub fn read_u32_le(src: &[u8], off: usize) -> (x: u32)
    requires
        off + 4 <= src@.len(),
    ensures
        x == spec_u32_from_le_bytes(src@.subrange(off as int, off as int + 4)),
{
    let n: usize = src.len();
    let mut buf: Vec<u8> = Vec::new();
    let mut i: usize = 0;
    while i < 4
        invariant
            i <= 4,
            off + 4 <= n == src@.len(),
            buf@ == src@.subrange(off as int, off as int + i as int),
        decreases 4 - i,
    {
        buf.push(src[off + i]);
        proof {
            assert(src@.subrange(off as int, off as int + i as int + 1) =~= src@.subrange(
                off as int,
                off as int + i as int,
            ).push(src@[off + i]));
        }
        i += 1;
    }
    u32_from_le_bytes(buf.as_slice())
}

/// Append `x` to `out` as 8 little-endian bytes.
pub fn write_u64_le(out: &mut Vec<u8>, x: u64)
    ensures
        final(out)@ == old(out)@ + spec_u64_to_le_bytes(x),
{
    let mut b = u64_to_le_bytes(x);
    out.append(&mut b);
}

/// Append `x` to `out` as 4 little-endian bytes.
pub fn write_u32_le(out: &mut Vec<u8>, x: u32)
    ensures
        final(out)@ == old(out)@ + spec_u32_to_le_bytes(x),
{
    let mut b = u32_to_le_bytes(x);
    out.append(&mut b);
}

} // verus!
