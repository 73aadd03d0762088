//! Byte-layout arithmetic for the target interpreter's C structures.
//!
//! The newest releases park the current frame behind a second structure: the
//! thread state points at a small per-thread anchor whose `current_frame`
//! field must be read through one more fetch. The byte offset of that field
//! is *computed* from the sizes of the fields declared before it, never
//! hard-coded, so a padding change in the anchor moves the computed offset
//! with it.

use vstd::prelude::*;

verus! {

/// Width of a pointer in the target process, in bytes. The structures read
/// here belong to 64-bit interpreter builds.
pub const TARGET_POINTER_BYTES: u64 = 8;

/// The least multiple of `align` that is at or above `offset`.
pub open spec fn spec_align_up(offset: int, align: int) -> int {
    offset + ((align - offset % align) % align)
}

/// `spec_align_up` lands on a multiple of `align` inside `[offset, offset + align)`.
pub proof fn lemma_align_up(offset: int, align: int)
    requires
        0 < align,
        0 <= offset,
    ensures
        spec_align_up(offset, align) % align == 0,
        offset <= spec_align_up(offset, align) < offset + align,
        offset % align == 0 ==> spec_align_up(offset, align) == offset,
        offset % align != 0 ==> spec_align_up(offset, align) == offset + align - offset % align,
{
    let r = offset % align;
    assert(0 <= r < align) by (nonlinear_arith)
        requires
            0 < align,
            r == offset % align,
    ;
    if r == 0 {
        assert((align - r) % align == 0) by (nonlinear_arith)
            requires
                0 < align,
                r == 0,
        ;
    } else {
        assert((align - r) % align == align - r) by (nonlinear_arith)
            requires
                0 < align,
                0 < r < align,
        ;
        assert((offset + (align - r)) % align == 0) by (nonlinear_arith)
            requires
                0 < align,
                r == offset % align,
                0 < r < align,
        ;
    }
}

/// Rounds `offset` up to the next multiple of `align`.
pub fn align_up(offset: u64, align: u64) -> (r: u64)
    requires
        0 < align,
        offset + align <= u64::MAX,
    ensures
        r == spec_align_up(offset as int, align as int),
        r % align == 0,
        offset <= r < offset + align,
{
    proof {
        lemma_align_up(offset as int, align as int);
    }
    let remainder = offset % align;
    if remainder == 0 {
        offset
    } else {
        offset + (align - remainder)
    }
}

/// Byte offset of the frame-anchor structure's `current_frame` field,
/// computed from the bytes of the fields declared before it: the field is a
/// pointer, so it sits at the first pointer-aligned offset past them.
pub open spec fn spec_current_frame_offset(leading_bytes: u64) -> int {
    spec_align_up(leading_bytes as int, TARGET_POINTER_BYTES as int)
}

/// Computes where the frame anchor keeps its `current_frame` pointer, given
/// how many bytes of fields the anchor declares before it. One release opens
/// the anchor with a one-byte tracing flag; the next removes it, and the
/// computed offset follows the declaration rather than a constant.
pub fn current_frame_offset(leading_bytes: u64) -> (r: u64)
    requires
        leading_bytes + TARGET_POINTER_BYTES <= u64::MAX,
    ensures
        r == spec_current_frame_offset(leading_bytes),
        r % TARGET_POINTER_BYTES == 0,
        leading_bytes <= r < leading_bytes + TARGET_POINTER_BYTES,
{
    align_up(leading_bytes, TARGET_POINTER_BYTES)
}

} // verus!
