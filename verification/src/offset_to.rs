//! Element distances between typed buffer addresses.
//!
//! The draw pipeline hands vertex data to the GPU as byte offsets into a
//! buffer whose elements have a fixed stride. `OffsetTo` turns the byte
//! distance between two such addresses into an element count, with the
//! two's-complement reading a pointer subtraction would give when the
//! second address lies before the first.

use vstd::prelude::*;

verus! {

/// Distance, in elements, from one address to another of the same stride.
pub trait OffsetTo: Sized {
    /// The byte address.
    spec fn spec_addr(self) -> nat;

    /// The byte stride of the elements addressed.
    spec fn spec_stride(self) -> nat;

    /// The number of whole elements from `self` up to `other`, or `None`
    /// for zero-sized elements. When `other` lies before `self`, the
    /// count is the two's-complement value of the negated reverse
    /// distance, as a pointer subtraction would give.
    fn ptr_offset_to(self, other: Self) -> (r: Option<usize>)
        requires
            self.spec_stride() == other.spec_stride(),
            self.spec_stride() != 0 ==> self.spec_stride() <= isize::MAX as nat,
        ensures
            r is Some <==> self.spec_stride() != 0,
            self.spec_stride() != 0 && other.spec_addr() >= self.spec_addr() ==> r == Some(
                (((other.spec_addr() - self.spec_addr()) as int) / (
                self.spec_stride() as int)) as usize,
            ),
            self.spec_stride() != 0 && other.spec_addr() < self.spec_addr() ==> r == Some(
                {
                    let back = ((self.spec_addr() - other.spec_addr()) as int) / (
                    self.spec_stride() as int);
                    if back == 0 {
                        0usize
                    } else {
                        (usize::MAX - back + 1) as usize
                    }
                },
            ),
    ;
}

/// An address into a byte buffer, together with the byte stride of the
/// elements it points at.
#[derive(Clone, Copy, PartialEq, Eq, Structural, Debug)]
pub struct BufferPtr {
    pub addr: usize,
    pub stride: usize,
}

impl OffsetTo for BufferPtr {
    open spec fn spec_addr(self) -> nat {
        self.addr as nat
    }

    open spec fn spec_stride(self) -> nat {
        self.stride as nat
    }

    fn ptr_offset_to(self, other: Self) -> (r: Option<usize>) {
        if self.stride == 0 {
            None
        } else if other.addr >= self.addr {
            Some((other.addr - self.addr) / self.stride)
        } else {
            let back: usize = (self.addr - other.addr) / self.stride;
            if back == 0 {
                Some(0)
            } else {
                Some(usize::MAX - back + 1)
            }
        }
    }
}

} // verus!
