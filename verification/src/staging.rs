//! Moving the bytes of one read attempt into the caller's buffer.

use vstd::prelude::*;

verus! {

/// The size of the scratch buffer that receives the bytes of one read attempt:
/// a read attempt never asks the operating system for more.
pub const SCRATCH_SIZE: usize = 1024;

/// Appends `src` to `dst` by `bytes::BufMut::put_slice`, as `bytes` implements
/// it for `Vec<u8>`.
///
/// Trusted, not proved. `put_slice` panics where the destination has less room
/// left than `src` is long, and a `Vec<u8>` reports `usize::MAX - len` as its
/// room: the precondition leaves those inputs out. It then copies `src` in
/// order behind the bytes that are there and grows the vector by its length,
/// which is what the postcondition claims.
#[verifier::external_body]
pub(crate) fn put_slice(dst: &mut Vec<u8>, src: &[u8])
    requires
        old(dst)@.len() + src@.len() <= usize::MAX,
    ensures
        final(dst)@ == old(dst)@ + src@,
{
    bytes::BufMut::put_slice(dst, src)
}

/// Copies the first `count` bytes of `scratch` behind the bytes of `buf`.
pub fn stage(scratch: &[u8], count: usize, buf: &mut Vec<u8>)
    requires
        count <= scratch@.len(),
        old(buf)@.len() + count <= usize::MAX,
    ensures
        final(buf)@ == old(buf)@ + scratch@.take(count as int),
{
    let received = vstd::slice::slice_subrange(scratch, 0, count);
    assert(received@ == scratch@.take(count as int));
    put_slice(buf, received);
}

} // verus!
