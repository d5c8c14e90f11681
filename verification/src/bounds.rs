//! The bounds-checked view over the packet buffer.
//!
//! Every header access goes through a range check against the buffer
//! length before any byte of that header is read or written; a range that
//! does not fit is the one error the library knows.

use vstd::prelude::*;

use crate::frame::be16;

verus! {

/// A requested header view would read or write past the buffer boundary.
#[derive(Clone, Copy, Debug, PartialEq, Eq, Structural)]
pub struct RangeError;

/// Admits the `size`-byte region of `buf` starting at `offset` exactly
/// when it lies inside the buffer.
pub fn check_range(buf: &Vec<u8>, offset: usize, size: usize) -> (r: Result<(), RangeError>)
    ensures
        r is Ok <==> offset + size <= buf@.len(),
{
    if offset <= buf.len() && size <= buf.len() - offset {
        Ok(())
    } else {
        Err(RangeError)
    }
}

/// Reads the big-endian 16-bit word at `i`.
pub fn read_be16(buf: &Vec<u8>, i: usize) -> (r: u16)
    requires
        i + 2 <= buf@.len(),
    ensures
        r == be16(buf@, i as int),
{
    proof {
        assert(buf.len() == buf@.len());
    }
    (buf[i] as u16) * 0x100 + (buf[i + 1] as u16)
}

/// Writes `v` at `i` as a big-endian 16-bit word; no other byte moves.
pub fn write_be16(buf: &mut Vec<u8>, i: usize, v: u16)
    requires
        i + 2 <= old(buf)@.len(),
    ensures
        final(buf)@.len() == old(buf)@.len(),
        final(buf)@[i as int] == (v / 0x100) as u8,
        final(buf)@[i as int + 1] == (v % 0x100) as u8,
        be16(final(buf)@, i as int) == v,
        forall|j: int|
            0 <= j < old(buf)@.len() && j != i && j != i + 1 ==> #[trigger] final(buf)@[j] == old(buf)@[j],
{
    proof {
        assert(buf.len() == buf@.len());
    }
    let hi: u16 = v / 0x100;
    let lo: u16 = v % 0x100;
    buf[i] = hi as u8;
    buf[i + 1] = lo as u8;
    proof {
        assert(v == (v / 0x100) * 0x100 + v % 0x100) by (nonlinear_arith);
    }
}

/// Swaps the `n`-byte region at `a` with the disjoint `n`-byte region at
/// `b`, byte for byte; every byte outside the two regions keeps its value.
pub fn swap_range(buf: &mut Vec<u8>, a: usize, b: usize, n: usize)
    requires
        a + n <= b || b + n <= a,
        a + n <= old(buf)@.len(),
        b + n <= old(buf)@.len(),
    ensures
        final(buf)@.len() == old(buf)@.len(),
        forall|j: int| a <= j < a + n ==> #[trigger] final(buf)@[j] == old(buf)@[j - a + b],
        forall|j: int| b <= j < b + n ==> #[trigger] final(buf)@[j] == old(buf)@[j - b + a],
        forall|j: int|
            0 <= j < old(buf)@.len() && !(a <= j < a + n) && !(b <= j < b + n)
                ==> #[trigger] final(buf)@[j] == old(buf)@[j],
{
    proof {
        assert(buf.len() == buf@.len());
    }
    let mut k: usize = 0;
    while k < n
        invariant
            k <= n,
            a + n <= b || b + n <= a,
            a + n <= buf@.len(),
            b + n <= buf@.len(),
            buf@.len() <= usize::MAX,
            buf@.len() == old(buf)@.len(),
            forall|j: int| a <= j < a + k ==> #[trigger] buf@[j] == old(buf)@[j - a + b],
            forall|j: int| b <= j < b + k ==> #[trigger] buf@[j] == old(buf)@[j - b + a],
            forall|j: int|
                0 <= j < buf@.len() && !(a <= j < a + k) && !(b <= j < b + k)
                    ==> #[trigger] buf@[j] == old(buf)@[j],
        decreases n - k,
    {
        let tmp: u8 = buf[a + k];
        buf[a + k] = buf[b + k];
        buf[b + k] = tmp;
        k = k + 1;
    }
}

} // verus!
