//! Byte-level helpers shared by the packet codec: little-endian integer
//! fields and range copies out of a datagram buffer.

use vstd::prelude::*;

verus! {

use vstd::bytes::{
    spec_u16_from_le_bytes, spec_u16_to_le_bytes, spec_u32_from_le_bytes, spec_u32_to_le_bytes,
    u16_from_le_bytes, u16_to_le_bytes, u32_from_le_bytes, u32_to_le_bytes,
};
use vstd::slice::{slice_index_get, slice_subrange};

/// Reads the byte at `pos`.
pub fn read_u8(b: &[u8], pos: usize) -> (x: u8)
    requires
        pos < b@.len(),
    ensures
        x == b@[pos as int],
{
    *slice_index_get(b, pos)
}

/// Reads a little-endian `u16` starting at `pos`.
pub fn read_u16_le(b: &[u8], pos: usize) -> (x: u16)
    requires
        pos + 2 <= b@.len(),
    ensures
        x == spec_u16_from_le_bytes(b@.subrange(pos as int, pos + 2)),
{
    let n = b.len();
    proof {
        // pos + 2 cannot overflow: it is bounded by the buffer's length.
        assert(pos + 2 <= n);
    }
    let s = slice_subrange(b, pos, pos + 2);
    u16_from_le_bytes(s)
}

/// Reads a little-endian `u32` starting at `pos`.
pub fn read_u32_le(b: &[u8], pos: usize) -> (x: u32)
    requires
        pos + 4 <= b@.len(),
    ensures
        x == spec_u32_from_le_bytes(b@.subrange(pos as int, pos + 4)),
{
    let n = b.len();
    proof {
        // pos + 4 cannot overflow: it is bounded by the buffer's length.
        assert(pos + 4 <= n);
    }
    let s = slice_subrange(b, pos, pos + 4);
    u32_from_le_bytes(s)
}

/// Appends the two little-endian bytes of `x` to `out`.
pub fn push_u16_le(out: &mut Vec<u8>, x: u16)
    ensures
        final(out)@ == old(out)@ + spec_u16_to_le_bytes(x),
{
    let mut bytes = u16_to_le_bytes(x);
    out.append(&mut bytes);
}

/// Appends the four little-endian bytes of `x` to `out`.
pub fn push_u32_le(out: &mut Vec<u8>, x: u32)
    ensures
        final(out)@ == old(out)@ + spec_u32_to_le_bytes(x),
{
    let mut bytes = u32_to_le_bytes(x);
    out.append(&mut bytes);
}

/// Appends `src[from..to]` to `out`.
pub fn push_range(out: &mut Vec<u8>, src: &[u8], from: usize, to: usize)
    requires
        from <= to <= src@.len(),
    ensures
        final(out)@ == old(out)@ + src@.subrange(from as int, to as int),
{
    let mut i: usize = from;
    while i < to
        invariant
            from <= i <= to <= src@.len(),
            out@ == old(out)@ + src@.subrange(from as int, i as int),
        decreases to - i,
    {
        let x = *slice_index_get(src, i);
        out.push(x);
        proof {
            assert(out@ =~= old(out)@ + src@.subrange(from as int, i + 1));
        }
        i = i + 1;
    }
}

/// Copies `src[from..to]` into a fresh vector.
pub fn copy_range(src: &[u8], from: usize, to: usize) -> (r: Vec<u8>)
    requires
        from <= to <= src@.len(),
    ensures
        r@ == src@.subrange(from as int, to as int),
{
    let mut out: Vec<u8> = Vec::new();
    push_range(&mut out, src, from, to);
    out
}

} // verus!
