//! Helpers for walking through a buffer that is being filled.
use vstd::prelude::*;

verus! {

/// The part of `buf` after its first `len` bytes, to be written in place; empty when `buf` is
/// shorter. The skipped bytes stay as they were.
pub fn skip(len: usize, buf: &mut [u8]) -> (r: &mut [u8])
    ensures
        ({
            let n = if len <= old(buf)@.len() {
                len as int
            } else {
                old(buf)@.len() as int
            };
            &&& r@ == old(buf)@.subrange(n, old(buf)@.len() as int)
            &&& final(buf)@ == old(buf)@.subrange(0, n) + final(r)@
        }),
{
    let len = if len <= buf.len() {
        len
    } else {
        buf.len()
    };
    let (_skipped, rest) = buf.split_at_mut(len);
    rest
}

} // verus!
