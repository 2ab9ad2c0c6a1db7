//! Composite values with a fixed-size header followed by a variable-length
//! tail, held in one contiguous byte region.
//!
//! A caller captures a tail value as a [`DynArg`](dyn_arg::DynArg): its bytes,
//! its alignment, and a shape descriptor. [`DynStruct::new`] then lays the
//! header and the tail out in a single region, with just enough padding
//! between them to align the tail, and returns the sole owning handle.

use vstd::prelude::*;

pub mod dyn_arg;
pub mod layout;

use crate::dyn_arg::{DynArg, ShapeMeta};
use crate::layout::{composite_size, lemma_pow2_positive, pad_for, padding_for};
use vstd::arithmetic::power2::is_pow2;
use vstd::math::max;

verus! {

/// The mathematical content of a [`DynStruct`]: the bytes of the whole
/// region, where the header ends and the tail begins within it, the region's
/// alignment, the tail's shape descriptor, and whether an allocation backs
/// the region.
pub ghost struct DynStructView {
    pub data: Seq<u8>,
    pub header_size: nat,
    pub padding: nat,
    pub align: nat,
    pub meta: ShapeMeta,
    pub allocated: bool,
}

impl DynStructView {
    /// The header's bytes: the first `header_size` bytes of the region.
    pub open spec fn header_bytes(self) -> Seq<u8> {
        self.data.take(self.header_size as int)
    }

    /// The tail's bytes: everything past the header and the padding.
    pub open spec fn tail_bytes(self) -> Seq<u8> {
        self.data.skip(self.header_size + self.padding as int)
    }

    /// The size of the whole region.
    pub open spec fn total_size(self) -> nat {
        self.data.len()
    }

    /// Well-formedness: the alignment is a power of two, the header and the
    /// padding fit inside the region, and an allocation backs the region
    /// exactly when it is not empty (a zero-size composite wraps a sentinel
    /// address instead).
    pub open spec fn wf(self) -> bool {
        &&& is_pow2(self.align as int)
        &&& self.header_size + self.padding <= self.data.len()
        &&& self.allocated == (self.data.len() != 0)
    }
}

/// A composite value in one contiguous region: a fixed-size header at offset
/// zero, padding enough to align the tail, then the tail's bytes. The handle
/// is the sole owner of the region.
pub struct DynStruct {
    data: Vec<u8>,
    header_size: usize,
    padding: usize,
    align: usize,
    meta: ShapeMeta,
    allocated: bool,
}

impl View for DynStruct {
    type V = DynStructView;

    closed spec fn view(&self) -> DynStructView {
        DynStructView {
            data: self.data@,
            header_size: self.header_size as nat,
            padding: self.padding as nat,
            align: self.align as nat,
            meta: self.meta,
            allocated: self.allocated,
        }
    }
}

impl DynStruct {
    /// The alignment of a composite whose header needs `header_align` and
    /// whose tail is the captured value: the larger of the two requirements.
    pub fn align(header_align: usize, tail: &DynArg) -> (r: usize)
        ensures
            r == max(header_align as int, tail@.align as int),
    {
        let tail_align: usize = tail.align();
        if header_align >= tail_align {
            header_align
        } else {
            tail_align
        }
    }

    /// The total size of a composite whose header takes `header_size` bytes
    /// and whose tail is the captured value: header, padding, tail.
    pub fn size(header_size: usize, tail: &DynArg) -> (r: usize)
        requires
            tail@.wf(),
            composite_size(header_size as int, tail@.align as int, tail@.bytes.len() as int)
                <= usize::MAX,
        ensures
            r == composite_size(header_size as int, tail@.align as int, tail@.bytes.len() as int),
    {
        let tail_size: usize = tail.size();
        let tail_align: usize = tail.align();
        proof {
            lemma_pow2_positive(tail_align as int);
        }
        let padding: usize = padding_for(header_size, tail_align);
        header_size + padding + tail_size
    }

    /// Builds a composite from a header, given as its bytes and its alignment
    /// requirement, and a captured tail. The header lands at offset zero, the
    /// tail at the next offset aligned for it, and the tail's shape
    /// descriptor becomes the composite's. A composite of total size zero
    /// wraps a sentinel instead of a backing allocation.
    pub fn new(header: Vec<u8>, header_align: usize, tail: DynArg) -> (r: DynStruct)
        requires
            is_pow2(header_align as int),
            tail@.wf(),
            composite_size(header@.len() as int, tail@.align as int, tail@.bytes.len() as int)
                <= usize::MAX,
        ensures
            r@.wf(),
            r@.header_bytes() == header@,
            r@.tail_bytes() == tail@.bytes,
            r@.total_size() == composite_size(
                header@.len() as int,
                tail@.align as int,
                tail@.bytes.len() as int,
            ),
            r@.header_size == header@.len(),
            r@.padding == pad_for(header@.len() as int, tail@.align as int),
            r@.align == max(header_align as int, tail@.align as int),
            r@.meta == tail@.meta,
            r@.allocated <==> r@.total_size() != 0,
    {
        let header_size: usize = header.len();
        let tail_size: usize = tail.size();
        let tail_align: usize = tail.align();
        proof {
            lemma_pow2_positive(tail_align as int);
        }
        let padding: usize = padding_for(header_size, tail_align);
        let total: usize = header_size + padding + tail_size;
        let align: usize = DynStruct::align(header_align, &tail);
        let meta: ShapeMeta = tail.metadata();

        if total == 0 {
            let r = DynStruct {
                data: Vec::new(),
                header_size,
                padding,
                align,
                meta,
                allocated: false,
            };
            proof {
                assert(r@.header_bytes() =~= header@);
                assert(r@.tail_bytes() =~= tail@.bytes);
            }
            r
        } else {
            let mut data: Vec<u8> = header;
            let mut k: usize = 0;
            let fill: usize = padding + tail_size;
            while k < fill
                invariant
                    k <= fill,
                    total == header_size + fill,
                    data@.len() == header_size + k,
                    data@.take(header_size as int) == header@,
                decreases fill - k,
            {
                data.push(0u8);
                proof {
                    assert(data@.take(header_size as int) =~= header@);
                }
                k = k + 1;
            }
            tail.write_into(&mut data, header_size + padding);
            let r = DynStruct { data, header_size, padding, align, meta, allocated: true };
            proof {
                assert(r@.header_bytes() =~= header@);
                assert(r@.tail_bytes() =~= tail@.bytes);
            }
            r
        }
    }

    /// Checked reinterpretation: re-types the handle as a composite type with
    /// a byte-identical layout and the same shape-descriptor representation.
    /// Ownership moves to the returned handle; nothing about the region, its
    /// layout or its descriptor changes.
    pub fn transmute(self) -> (r: DynStruct)
        ensures
            r@ == self@,
    {
        self
    }

    /// Unchecked reinterpretation, the escape hatch: re-types the handle and
    /// replaces the shape descriptor with the caller's claim `meta`, with
    /// nothing holding that claim to the tail's bytes. The caller alone
    /// answers for `meta` describing the tail correctly; everything else
    /// about the region is kept.
    pub fn more_unsafe_transmute(self, meta: ShapeMeta) -> (r: DynStruct)
        ensures
            r@ == (DynStructView { meta, ..self@ }),
    {
        DynStruct {
            data: self.data,
            header_size: self.header_size,
            padding: self.padding,
            align: self.align,
            meta,
            allocated: self.allocated,
        }
    }

    /// A copy of the header's bytes.
    pub fn read_header(&self) -> (r: Vec<u8>)
        requires
            self@.wf(),
        ensures
            r@ == self@.header_bytes(),
    {
        let mut out: Vec<u8> = Vec::new();
        let mut i: usize = 0;
        while i < self.header_size
            invariant
                i <= self.header_size,
                self@.header_size + self@.padding <= self@.data.len(),
                out@ == self@.data.take(i as int),
            decreases self.header_size - i,
        {
            let b: u8 = self.data[i];
            out.push(b);
            proof {
                assert(out@ =~= self@.data.take(i + 1));
            }
            i = i + 1;
        }
        out
    }

    /// A copy of the tail's bytes.
    pub fn read_tail(&self) -> (r: Vec<u8>)
        requires
            self@.wf(),
        ensures
            r@ == self@.tail_bytes(),
    {
        let len: usize = self.data.len();
        let start: usize = self.header_size + self.padding;
        let mut out: Vec<u8> = Vec::new();
        let mut i: usize = start;
        while i < len
            invariant
                start <= i <= len,
                len == self@.data.len(),
                start == self@.header_size + self@.padding,
                out@ == self@.data.subrange(start as int, i as int),
            decreases len - i,
        {
            let b: u8 = self.data[i];
            out.push(b);
            proof {
                assert(out@ =~= self@.data.subrange(start as int, i + 1));
            }
            i = i + 1;
        }
        proof {
            assert(out@ =~= self@.tail_bytes());
        }
        out
    }

    /// The size of the whole region in bytes.
    pub fn total_size(&self) -> (r: usize)
        ensures
            r == self@.total_size(),
    {
        self.data.len()
    }

    /// The size of the header in bytes.
    pub fn header_size(&self) -> (r: usize)
        ensures
            r == self@.header_size,
    {
        self.header_size
    }

    /// The padding between the header and the tail, in bytes.
    pub fn padding(&self) -> (r: usize)
        ensures
            r == self@.padding,
    {
        self.padding
    }

    /// The region's alignment requirement.
    pub fn alignment(&self) -> (r: usize)
        ensures
            r == self@.align,
    {
        self.align
    }

    /// The composite's shape descriptor: the tail's, since the header
    /// contributes no shape metadata.
    pub fn metadata(&self) -> (r: ShapeMeta)
        ensures
            r == self@.meta,
    {
        self.meta
    }

    /// Whether an allocation backs the region. False exactly for the
    /// zero-size composite, which wraps a sentinel instead.
    pub fn is_allocated(&self) -> (r: bool)
        ensures
            r == self@.allocated,
    {
        self.allocated
    }
}

} // verus!
