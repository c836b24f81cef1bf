//! A specialized byte-range copy routine for small-to-medium buffers.
//!
//! `slice_copy` copies the bytes of a source range into a destination range
//! of the same length, choosing a copy strategy from the length: overlapping
//! constant-size window copies for short lengths, and a plain bulk copy for
//! large ones. Both ranges must have the same length; otherwise the call
//! fails with [`LengthMismatch`] before any byte is written.

use vstd::prelude::*;

verus! {

/// The single error: the two ranges' lengths differ. Carries both lengths.
#[derive(Clone, Copy, Debug, PartialEq, Eq, Structural)]
pub struct LengthMismatch {
    pub dst_len: usize,
    pub src_len: usize,
}

/// The destination contents after a call of `slice_copy`: the source bytes
/// when the lengths agree, the old destination untouched when they differ.
pub open spec fn copy_result(src: Seq<u8>, dst: Seq<u8>) -> Seq<u8> {
    if src.len() == dst.len() {
        src
    } else {
        dst
    }
}

/// Copying twice with the same inputs leaves the destination exactly as one
/// copy does: a second `slice_copy` of the same source is a no-op.
pub proof fn lemma_copy_idempotent(src: Seq<u8>, dst: Seq<u8>)
    ensures
        copy_result(src, copy_result(src, dst)) == copy_result(src, dst),
{
}

/// Copies `count` bytes from `src[start..start + count]` into the same
/// positions of `dst`, leaving every other destination byte unchanged.
fn copy_range(src: &[u8], dst: &mut [u8], start: usize, count: usize)
    requires
        start + count <= src@.len(),
        start + count <= old(dst)@.len(),
    ensures
        final(dst)@.len() == old(dst)@.len(),
        forall|i: int|
            0 <= i < old(dst)@.len() ==> final(dst)@[i] == (if start <= i < start + count {
                src@[i]
            } else {
                old(dst)@[i]
            }),
{
    let src_len: usize = src.len();
    let mut k: usize = 0;
    while k < count
        invariant
            k <= count,
            start + count <= src_len,
            src_len == src@.len(),
            start + count <= dst@.len(),
            dst@.len() == old(dst)@.len(),
            forall|i: int|
                0 <= i < dst@.len() ==> dst@[i] == (if start <= i < start + k {
                    src@[i]
                } else {
                    old(dst)@[i]
                }),
        decreases count - k,
    {
        dst[start + k] = src[start + k];
        k = k + 1;
    }
}

/// The double copy trick: two fixed-size window copies of `SIZE` bytes, one
/// at the start and one flush with the end of the range. Together they cover
/// every position when `len <= 2 * SIZE`; where they overlap, both write the
/// same source byte, so the overlap is harmless.
fn double_copy_trick<const SIZE: usize>(src: &[u8], dst: &mut [u8])
    requires
        SIZE >= 1,
        SIZE <= src@.len(),
        src@.len() == old(dst)@.len(),
    ensures
        final(dst)@.len() == old(dst)@.len(),
        forall|i: int|
            0 <= i < old(dst)@.len() ==> final(dst)@[i] == (if i < SIZE || i >= old(
                dst,
            )@.len() - SIZE {
                src@[i]
            } else {
                old(dst)@[i]
            }),
        old(dst)@.len() <= 2 * SIZE ==> final(dst)@ == src@,
{
    let len: usize = src.len();
    copy_range(src, dst, 0, SIZE);
    copy_range(src, dst, len - SIZE, SIZE);
    assert(dst@.len() <= 2 * SIZE ==> dst@ =~= src@);
}

/// Copies ranges of length 1 through 7 with at most two unconditional
/// constant-size copies: window 4 for lengths 4..=7, else one leading byte
/// and, for lengths 2 and 3, an overlapping window-2 pair.
fn short_copy(src: &[u8], dst: &mut [u8])
    requires
        1 <= src@.len() <= 7,
        src@.len() == old(dst)@.len(),
    ensures
        final(dst)@ == src@,
{
    let len: usize = src.len();
    if len >= 4 {
        double_copy_trick::<4>(src, dst);
    } else {
        dst[0] = src[0];
        if len >= 2 {
            double_copy_trick::<2>(src, dst);
        }
    }
    assert(final(dst)@ =~= src@);
}

/// Copies the whole range with one plain bulk pass, for lengths past the
/// specialized brackets.
fn bulk_copy(src: &[u8], dst: &mut [u8])
    requires
        src@.len() == old(dst)@.len(),
    ensures
        final(dst)@ == src@,
{
    let len: usize = src.len();
    copy_range(src, dst, 0, len);
    assert(final(dst)@ =~= src@);
}

/// Copies the bytes of `src` into `dst`, which must have the same length.
///
/// Dispatches by length: lengths 0..=7 take the short path, 8..=16 the
/// double copy trick with window 8, 17..=32 with window 16, and anything
/// larger the bulk copy. When the lengths differ, returns
/// [`LengthMismatch`] with both lengths and leaves `dst` untouched.
pub fn slice_copy(src: &[u8], dst: &mut [u8]) -> (r: Result<(), LengthMismatch>)
    ensures
        final(dst)@ == copy_result(src@, old(dst)@),
        src@.len() == old(dst)@.len() ==> r == Ok::<(), LengthMismatch>(()) && final(dst)@ == src@,
        src@.len() != old(dst)@.len() ==> final(dst)@ == old(dst)@ && r == Err::<(),
        LengthMismatch>(
            LengthMismatch { dst_len: old(dst)@.len() as usize, src_len: src@.len() as usize },
        ),
{
    if src.len() != dst.len() {
        return Err(LengthMismatch { dst_len: dst.len(), src_len: src.len() });
    }
    let len: usize = src.len();

    if len == 0 {
        return Ok(());
    }
    if len < 8 {
        short_copy(src, dst);
        return Ok(());
    }
    if len <= 16 {
        double_copy_trick::<8>(src, dst);
        return Ok(());
    }
    if len <= 32 {
        double_copy_trick::<16>(src, dst);
        return Ok(());
    }
    bulk_copy(src, dst);
    Ok(())
}

} // verus!
