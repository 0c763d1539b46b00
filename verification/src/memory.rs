//! Bounds-checked access to the guest's exported linear memory.
//!
//! Guest memory can grow, and its backing storage can move, between host
//! calls; every access therefore re-validates its address/size pair
//! against the current extent before any byte is copied.  No raw address
//! is ever cached across calls, and an out-of-range access is reported
//! instead of performed — the boundary must resist an adversarial guest.

use vstd::prelude::*;
use vstd::pervasive::VecAdditionalExecFns;

verus! {

/// A guest's linear memory region, addressed with 32-bit offsets.
pub struct GuestMemory {
    data: Vec<u8>,
}

impl View for GuestMemory {
    type V = Seq<u8>;

    closed spec fn view(&self) -> Seq<u8> {
        self.data@
    }
}

impl GuestMemory {
    /// Wraps existing bytes as a guest memory region.
    pub fn from_bytes(data: Vec<u8>) -> (m: Self)
        ensures
            m@ == data@,
    {
        GuestMemory { data }
    }

    /// A zero-filled region of the given byte size.
    pub fn zeroed(size: usize) -> (m: Self)
        ensures
            m@.len() == size,
            forall|i: int| 0 <= i < size ==> m@[i] == 0u8,
    {
        let mut data: Vec<u8> = Vec::new();
        let mut i: usize = 0;
        while i < size
            invariant
                i <= size,
                data@.len() == i,
                forall|j: int| 0 <= j < i ==> data@[j] == 0u8,
            decreases size - i,
        {
            data.push(0u8);
            i = i + 1;
        }
        GuestMemory { data }
    }

    /// The current extent of the region, in bytes.
    pub fn size(&self) -> (r: usize)
        ensures
            r == self@.len(),
    {
        self.data.len()
    }

    /// Whether the `size` bytes starting at `address` lie inside the
    /// current extent.
    pub open spec fn spec_in_bounds(self, address: u32, size: int) -> bool {
        address + size <= self@.len()
    }

    /// Validates an address/size pair against the current extent.
    pub fn in_bounds(&self, address: u32, size: u32) -> (r: bool)
        ensures
            r == self.spec_in_bounds(address, size as int),
    {
        (address as u64) + (size as u64) <= (self.data.len() as u64)
    }

    /// Copies `size` bytes starting at `address` out of the region, if
    /// the whole range is in bounds.
    pub fn read_bytes(&self, address: u32, size: u32) -> (r: Option<Vec<u8>>)
        ensures
            r is Some <==> self.spec_in_bounds(address, size as int),
            r matches Some(v) ==> v@ == self@.subrange(address as int, address + size),
    {
        if self.in_bounds(address, size) {
            let base: usize = address as usize;
            let count: usize = size as usize;
            let extent: usize = self.data.len();
            let mut out: Vec<u8> = Vec::new();
            let mut i: usize = 0;
            while i < count
                invariant
                    i <= count,
                    extent == self.data@.len(),
                    base + count <= extent,
                    out@ =~= self@.subrange(base as int, base + i),
                decreases count - i,
            {
                out.push(self.data[base + i]);
                proof {
                    assert(self@.subrange(base as int, base + i + 1) =~= self@.subrange(
                        base as int,
                        base + i,
                    ).push(self@[base + i]));
                }
                i = i + 1;
            }
            Some(out)
        } else {
            None
        }
    }

    /// Writes `bytes` at `address` if the whole range is in bounds,
    /// leaving every byte outside the range untouched; reports whether
    /// the write happened.  An out-of-bounds request changes nothing.
    pub fn write_bytes(&mut self, address: u32, bytes: &[u8]) -> (ok: bool)
        ensures
            ok <==> address + bytes@.len() <= old(self)@.len(),
            final(self)@.len() == old(self)@.len(),
            ok ==> final(self)@ == old(self)@.subrange(0, address as int) + bytes@ + old(
                self,
            )@.subrange(address + bytes@.len(), old(self)@.len() as int),
            !ok ==> final(self)@ == old(self)@,
    {
        let count: usize = bytes.len();
        let extent: usize = self.data.len();
        if (address as u128) + (count as u128) <= (extent as u128) {
            let base: usize = address as usize;
            let mut i: usize = 0;
            while i < count
                invariant
                    i <= count,
                    count == bytes@.len(),
                    base == address as int,
                    extent == self.data@.len(),
                    base + count <= extent,
                    self.data@.len() == old(self)@.len(),
                    forall|j: int| 0 <= j < base ==> self.data@[j] == old(self)@[j],
                    forall|j: int| base <= j < base + i ==> self.data@[j] == bytes@[j - base],
                    forall|j: int|
                        base + i <= j < self.data@.len() ==> self.data@[j] == old(self)@[j],
                decreases count - i,
            {
                self.data.set(base + i, bytes[i]);
                i = i + 1;
            }
            proof {
                assert(self@ =~= old(self)@.subrange(0, address as int) + bytes@ + old(
                    self,
                )@.subrange(address + bytes@.len(), old(self)@.len() as int));
            }
            true
        } else {
            false
        }
    }
}

} // verus!
