//! A one-shot transfer wrapper for a dynamically-sized tail value.
//!
//! A [`DynArg`] stands for a value that its owner has handed over: the value's
//! bytes, its alignment requirement, and the shape descriptor that a consumer
//! needs to re-form a typed view of those bytes. It is consumed at most once:
//! [`DynArg::write_into`] takes it by value, so a second consumption does not
//! type-check.

use vstd::arithmetic::power2::is_pow2;
use vstd::prelude::*;

verus! {

/// The dynamic-shape descriptor that travels with a captured value: the
/// metadata a consumer needs to interpret a byte region as that value.
#[derive(Clone, Copy, PartialEq, Eq, Structural, Debug)]
pub enum ShapeMeta {
    /// A value of statically known size: no extra metadata.
    Fixed,
    /// A variable-length sequence: its element count.
    ElemCount(usize),
    /// An interface-typed value: an identifier of its behavior table.
    Behavior(usize),
}

/// The mathematical content of a [`DynArg`]: the captured bytes, the captured
/// value's alignment, and its shape descriptor.
pub ghost struct DynArgView {
    pub bytes: Seq<u8>,
    pub align: nat,
    pub meta: ShapeMeta,
}

impl DynArgView {
    /// A captured value's alignment is a power of two.
    pub open spec fn wf(self) -> bool {
        is_pow2(self.align as int)
    }
}

/// A captured tail value, removed from its owner's control: its bytes, its
/// alignment, and its shape descriptor.
pub struct DynArg {
    bytes: Vec<u8>,
    align: usize,
    meta: ShapeMeta,
}

impl View for DynArg {
    type V = DynArgView;

    closed spec fn view(&self) -> DynArgView {
        DynArgView { bytes: self.bytes@, align: self.align as nat, meta: self.meta }
    }
}

impl DynArg {
    /// Captures a value given in raw form: its bytes, its alignment and its
    /// shape descriptor. The wrapper owns the bytes from here on.
    pub fn from_raw(bytes: Vec<u8>, align: usize, meta: ShapeMeta) -> (r: Self)
        requires
            is_pow2(align as int),
        ensures
            r@ == (DynArgView { bytes: bytes@, align: align as nat, meta }),
            r@.wf(),
    {
        DynArg { bytes, align, meta }
    }

    /// Access to the captured value's bytes without consuming the wrapper.
    pub fn as_ptr(&self) -> (r: &Vec<u8>)
        ensures
            r@ == self@.bytes,
    {
        &self.bytes
    }

    /// The captured value's size in bytes.
    pub fn size(&self) -> (r: usize)
        ensures
            r == self@.bytes.len(),
    {
        self.bytes.len()
    }

    /// The captured value's alignment requirement.
    pub fn align(&self) -> (r: usize)
        ensures
            r == self@.align,
    {
        self.align
    }

    /// The captured value's shape descriptor.
    pub fn metadata(&self) -> (r: ShapeMeta)
        ensures
            r == self@.meta,
    {
        self.meta
    }

    /// The one-shot consumption: copies the captured bytes into `dst`,
    /// starting at `offset`, and leaves every other byte of `dst` alone. The
    /// wrapper is taken by value, so it cannot be consumed a second time.
    pub fn write_into(self, dst: &mut Vec<u8>, offset: usize)
        requires
            offset + self@.bytes.len() <= old(dst)@.len(),
        ensures
            final(dst)@ == written(old(dst)@, offset as int, self@.bytes),
    {
        let n: usize = self.bytes.len();
        let dst_len: usize = dst.len();
        let mut i: usize = 0;
        while i < n
            invariant
                n == self@.bytes.len(),
                i <= n,
                offset + n <= dst_len,
                dst@.len() == dst_len,
                dst@.len() == old(dst)@.len(),
                forall|j: int| 0 <= j < i ==> dst@[offset + j] == self@.bytes[j],
                forall|j: int|
                    0 <= j < dst@.len() && !(offset <= j < offset + i) ==> dst@[j] == old(
                        dst,
                    )@[j],
            decreases n - i,
        {
            let b: u8 = self.bytes[i];
            dst[offset + i] = b;
            i = i + 1;
        }
        proof {
            assert(dst@ =~= written(old(dst)@, offset as int, self@.bytes));
        }
    }

    /// Widening conversion: a wrapper over a concrete, statically sized value
    /// becomes a wrapper over a variable-length sequence of `count` elements
    /// of `elem_size` bytes each. No bytes move and the alignment is kept.
    pub fn widen_to_slice(self, count: usize, elem_size: usize) -> (r: DynArg)
        requires
            self@.meta is Fixed,
            count * elem_size == self@.bytes.len(),
        ensures
            r@.bytes == self@.bytes,
            r@.align == self@.align,
            r@.meta == ShapeMeta::ElemCount(count),
    {
        DynArg { bytes: self.bytes, align: self.align, meta: ShapeMeta::ElemCount(count) }
    }

    /// Widening conversion: a wrapper over a concrete value becomes a wrapper
    /// over an interface-typed view of it, carrying the identifier of the
    /// behavior table for that interface. No bytes move and the alignment is
    /// kept.
    pub fn widen_to_iface(self, table: usize) -> (r: DynArg)
        requires
            self@.meta is Fixed,
        ensures
            r@.bytes == self@.bytes,
            r@.align == self@.align,
            r@.meta == ShapeMeta::Behavior(table),
    {
        DynArg { bytes: self.bytes, align: self.align, meta: ShapeMeta::Behavior(table) }
    }
}

/// The byte region `dst` after `bytes` has been copied into it at `offset`:
/// the prefix before `offset` and the suffix after the copy are unchanged.
pub open spec fn written(dst: Seq<u8>, offset: int, bytes: Seq<u8>) -> Seq<u8> {
    dst.take(offset) + bytes + dst.skip(offset + bytes.len())
}

/// Widening preserves consumption: two wrappers that hold the same bytes
/// write the same region wherever they are consumed, so consuming a widened
/// wrapper copies byte-identical data to consuming the concrete one directly.
pub proof fn lemma_widening_preserves_consumption(
    a: DynArgView,
    b: DynArgView,
    dst: Seq<u8>,
    offset: int,
)
    requires
        b.bytes == a.bytes,
    ensures
        written(dst, offset, b.bytes) == written(dst, offset, a.bytes),
{
}

} // verus!
