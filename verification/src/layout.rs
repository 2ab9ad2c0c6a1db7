//! Size, alignment and padding arithmetic for a composite region that holds a
//! header at offset zero and a tail at the next offset aligned for it.

use vstd::arithmetic::div_mod::{
    lemma_fundamental_div_mod, lemma_mod_bound, lemma_mod_multiples_vanish, lemma_mod_self_0,
    lemma_small_mod,
};
use vstd::arithmetic::power2::is_pow2;
use vstd::prelude::*;

verus! {

/// An alignment requirement is a power of two, so in particular positive.
pub proof fn lemma_pow2_positive(n: int)
    requires
        is_pow2(n),
    ensures
        n >= 1,
{
    reveal(is_pow2);
}

/// The padding inserted between a header of `size` bytes and a tail whose
/// alignment requirement is `align`.
pub open spec fn pad_for(size: int, align: int) -> int
    recommends
        align >= 1,
{
    (align - size % align) % align
}

/// The total size of a composite region: header, padding, tail.
pub open spec fn composite_size(header_size: int, tail_align: int, tail_size: int) -> int
    recommends
        tail_align >= 1,
{
    header_size + pad_for(header_size, tail_align) + tail_size
}

/// Padding is minimal and does its job: it is smaller than the tail's
/// alignment, and the tail's offset (header size plus padding) lands on a
/// multiple of that alignment.
pub proof fn lemma_pad_bounds(size: int, align: int)
    requires
        size >= 0,
        align >= 1,
    ensures
        0 <= pad_for(size, align) < align,
        (size + pad_for(size, align)) % align == 0,
{
    lemma_mod_bound(size, align);
    let r = size % align;
    if r == 0 {
        lemma_mod_self_0(align);
        assert(pad_for(size, align) == 0);
        assert((size + 0) % align == 0);
    } else {
        lemma_small_mod((align - r) as nat, align as nat);
        assert(pad_for(size, align) == align - r);
        lemma_fundamental_div_mod(size, align);
        lemma_mod_multiples_vanish(size / align + 1, 0, align);
        assert((size + (align - r)) % align == ((size / align + 1) * align + 0) % align)
            by (nonlinear_arith)
            requires
                size == align * (size / align) + r,
        ;
    }
}

/// Computes the padding between a header of `size` bytes and a tail aligned
/// to `align` bytes.
pub fn padding_for(size: usize, align: usize) -> (r: usize)
    requires
        align >= 1,
    ensures
        r == pad_for(size as int, align as int),
        r < align,
{
    let rem: usize = size % align;
    if rem == 0 {
        proof {
            lemma_mod_self_0(align as int);
        }
        0
    } else {
        proof {
            lemma_mod_bound(size as int, align as int);
            lemma_small_mod((align - rem) as nat, align as nat);
        }
        align - rem
    }
}

/// The size law: a composite takes exactly the header's bytes, then the
/// padding that aligns the tail, then the tail's bytes.
pub proof fn lemma_size_law(header_size: int, tail_align: int, tail_size: int)
    requires
        header_size >= 0,
        tail_size >= 0,
        tail_align >= 1,
    ensures
        composite_size(header_size, tail_align, tail_size) == header_size + pad_for(
            header_size,
            tail_align,
        ) + tail_size,
        composite_size(header_size, tail_align, tail_size) >= header_size + tail_size,
        (header_size + pad_for(header_size, tail_align)) % tail_align == 0,
{
    lemma_pad_bounds(header_size, tail_align);
}

/// A composite of an empty header and an empty tail has size zero: no padding
/// is owed, and no allocation is needed.
pub proof fn lemma_zero_size(tail_align: int)
    requires
        tail_align >= 1,
    ensures
        composite_size(0, tail_align, 0) == 0,
{
    lemma_pad_bounds(0, tail_align);
    lemma_small_mod(0, tail_align as nat);
    lemma_mod_self_0(tail_align);
}

} // verus!
