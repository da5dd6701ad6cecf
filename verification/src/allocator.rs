//! A model of the system-wide MMIO address allocator the transport asks for
//! BAR windows.  The allocation service itself is outside this crate's scope;
//! this model hands out page-aligned, non-overlapping ranges from a fixed
//! window, which is all the transport relies on.

use vstd::prelude::*;

verus! {

/// Alignment of every handed-out range.
pub const MMIO_ALIGN: u64 = 0x1000;

/// `n` rounded up to the next multiple of `MMIO_ALIGN`.
pub open spec fn spec_align_up(n: int) -> int {
    ((n + MMIO_ALIGN - 1) / (MMIO_ALIGN as int)) * (MMIO_ALIGN as int)
}

/// Hands out MMIO address ranges from `[next, end)`, never the same byte
/// twice.
pub struct SystemAllocator {
    /// First address not yet handed out.
    pub next: u64,
    /// One past the last address of the window.
    pub end: u64,
}

impl SystemAllocator {
    pub open spec fn wf(self) -> bool {
        self.next <= self.end
    }

    /// An allocator over the window `[base, base + size)`.
    pub fn new(base: u64, size: u64) -> (r: SystemAllocator)
        requires
            base + size <= u64::MAX,
        ensures
            r.wf(),
            r.next == base,
            r.end == base + size,
    {
        SystemAllocator { next: base, end: base + size }
    }

    /// Whether a fresh request succeeds: either the caller picked an aligned
    /// address inside what is left of the window, or an aligned range of the
    /// requested size still fits.
    pub open spec fn spec_can_allocate(self, requested: Option<u64>, size: u64) -> bool {
        match requested {
            Some(addr) => size > 0 && addr >= self.next && addr % MMIO_ALIGN == 0 && addr + size
                <= self.end,
            None => size > 0 && spec_align_up(self.next as int) + size <= self.end,
        }
    }

    /// The address a successful request returns.
    pub open spec fn spec_allocated_addr(self, requested: Option<u64>) -> int {
        match requested {
            Some(addr) => addr as int,
            None => spec_align_up(self.next as int),
        }
    }

    /// Hands out a range of `size` bytes, at the requested address when one
    /// is given; `None` exactly when the window has no room.
    pub fn allocate_mmio_addresses(&mut self, requested: Option<u64>, size: u64) -> (r: Option<u64>)
        requires
            old(self).wf(),
        ensures
            final(self).wf(),
            final(self).end == old(self).end,
            r is Some <==> old(self).spec_can_allocate(requested, size),
            r matches Some(addr) ==> {
                &&& addr == old(self).spec_allocated_addr(requested)
                &&& addr % MMIO_ALIGN == 0
                &&& addr >= old(self).next
                &&& addr + size <= old(self).end
                &&& final(self).next == addr + size
            },
            r is None ==> *final(self) == *old(self),
    {
        if size == 0 {
            return None;
        }
        match requested {
            Some(addr) => {
                if addr >= self.next && addr % MMIO_ALIGN == 0 && addr <= u64::MAX - size
                    && addr + size <= self.end {
                    self.next = addr + size;
                    Some(addr)
                } else {
                    proof {
                        assert(!old(self).spec_can_allocate(requested, size));
                    }
                    None
                }
            },
            None => {
                if self.next > u64::MAX - (MMIO_ALIGN - 1) {
                    proof {
                        assert(spec_align_up(self.next as int) >= self.next as int);
                        assert(!old(self).spec_can_allocate(requested, size));
                    }
                    return None;
                }
                let aligned = ((self.next + (MMIO_ALIGN - 1)) / MMIO_ALIGN) * MMIO_ALIGN;
                proof {
                    assert(aligned == spec_align_up(old(self).next as int));
                }
                if aligned <= u64::MAX - size && aligned + size <= self.end {
                    self.next = aligned + size;
                    Some(aligned)
                } else {
                    None
                }
            },
        }
    }
}

} // verus!
