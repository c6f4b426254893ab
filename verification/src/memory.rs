//! Virtual memory and heap bootstrap: the offset mapping that makes every
//! physical address reachable, and the heap region carved out of it.
//!
//! The offset is fixed for the remainder of execution; the heap region is
//! installed exactly once, strictly after the offset mapping exists, and
//! must lie entirely within memory the mapping reaches.

use vstd::prelude::*;
use crate::boot::MemoryRegion;

verus! {

/// The offset mapping of the virtual memory bootstrap: physical address
/// `p` is reachable at virtual address `p + offset`.  Immutable once
/// created; no remapping occurs after bootstrap.
#[derive(PartialEq, Eq, Structural, Clone, Copy, Debug)]
pub struct OffsetMapping {
    pub offset: u64,
}

impl OffsetMapping {
    /// Record the physical-to-virtual offset chosen by the boot stage.
    pub fn new(offset: u64) -> (m: OffsetMapping)
        ensures
            m.offset == offset,
    {
        OffsetMapping { offset }
    }

    /// The virtual address at which physical address `phys` is reachable,
    /// or nothing if the sum leaves the address space.
    pub fn virt_of(&self, phys: u64) -> (r: Option<u64>)
        ensures
            phys + self.offset <= u64::MAX ==> r == Some((phys + self.offset) as u64),
            phys + self.offset > u64::MAX ==> r is None,
    {
        if phys <= u64::MAX - self.offset {
            Some(phys + self.offset)
        } else {
            None
        }
    }
}

/// The dynamic-allocation arena: a virtual address range carved out of
/// mapped physical memory during bootstrap.
#[derive(PartialEq, Eq, Structural, Clone, Copy, Debug)]
pub struct HeapRegion {
    pub base: u64,
    pub size: u64,
}

impl HeapRegion {
    /// The heap lies entirely within the image of `region` under the
    /// offset mapping, so every address of the arena is reachable.
    pub open spec fn within(self, m: OffsetMapping, region: MemoryRegion) -> bool {
        &&& self.base == region.start + m.offset
        &&& self.base + self.size <= region.end + m.offset
    }

    /// Carve a heap of `size` bytes out of the start of the mapped image
    /// of `region`; nothing is produced if the region is smaller than the
    /// requested arena or its image leaves the address space.
    pub fn new(m: &OffsetMapping, region: MemoryRegion, size: u64) -> (r: Option<HeapRegion>)
        ensures
            r matches Some(h) ==> ({
                &&& h.base == region.start + m.offset
                &&& h.size == size
                &&& h.within(*m, region)
            }),
            r is Some <==> region.start + size <= region.end && region.end + m.offset <= u64::MAX,
    {
        if region.end <= u64::MAX - m.offset && region.start <= region.end && size <= region.end
            - region.start {
            Some(HeapRegion { base: region.start + m.offset, size })
        } else {
            None
        }
    }
}

} // verus!
