//! The transport's view of a virtqueue.
//!
//! The descriptor-ring machinery itself lives outside this crate; the
//! transport only configures a queue's registers, checks that a configured
//! queue lies inside guest memory before activation, and resets queues to
//! their disabled defaults on device reset.

use crate::ext::{mem_address_in_range, mem_valid_addrs};
use vm_memory::GuestMemoryMmap;
use vstd::prelude::*;

verus! {

/// True when the first and last byte of `[addr, addr + len)` lie inside the
/// guest memory mapping: the endpoint check the transport runs before
/// activation.  Over a mapping with holes between regions, interior bytes are
/// not checked.
pub open spec fn spec_range_in_mem(mem: GuestMemoryMmap, addr: u64, len: int) -> bool {
    &&& len > 0
    &&& addr + len - 1 <= u64::MAX
    &&& mem_valid_addrs(mem).contains(addr)
    &&& mem_valid_addrs(mem).contains((addr + len - 1) as u64)
}

/// Checks that `[addr, addr + len)` lies inside the guest memory mapping.
pub fn range_in_mem(mem: &GuestMemoryMmap, addr: u64, len: u64) -> (r: bool)
    ensures
        r == spec_range_in_mem(*mem, addr, len as int),
{
    if len == 0 {
        return false;
    }
    let last = addr.checked_add(len - 1);
    match last {
        Some(last) => mem_address_in_range(mem, addr) && mem_address_in_range(mem, last),
        None => false,
    }
}

/// One virtqueue's register state, as the guest configures it through the
/// common-config region.
#[derive(Clone, Copy, PartialEq, Eq, Structural, Debug)]
pub struct Queue {
    /// The largest ring size the device supports for this queue.
    pub max_size: u16,
    /// The ring size the driver selected.
    pub size: u16,
    /// Whether the driver enabled the queue.
    pub ready: bool,
    /// Guest address of the descriptor table.
    pub desc_table: u64,
    /// Guest address of the available ring.
    pub avail_ring: u64,
    /// Guest address of the used ring.
    pub used_ring: u64,
}

impl Queue {
    /// A queue's disabled default state for the given maximum size.
    pub open spec fn spec_new(max_size: u16) -> Queue {
        Queue { max_size, size: max_size, ready: false, desc_table: 0, avail_ring: 0, used_ring: 0 }
    }

    pub fn new(max_size: u16) -> (r: Queue)
        ensures
            r == Queue::spec_new(max_size),
    {
        Queue { max_size, size: max_size, ready: false, desc_table: 0, avail_ring: 0, used_ring: 0 }
    }

    /// Returns the queue to its disabled default, keeping its maximum size.
    pub fn reset(&mut self)
        ensures
            *final(self) == Queue::spec_new(old(self).max_size),
    {
        self.size = self.max_size;
        self.ready = false;
        self.desc_table = 0;
        self.avail_ring = 0;
        self.used_ring = 0;
    }

    /// A queue is live when the driver enabled it, chose a power-of-two ring
    /// size within the device's bound, and placed all three rings inside
    /// guest memory.
    pub open spec fn spec_is_valid(self, mem: GuestMemoryMmap) -> bool {
        &&& self.ready
        &&& 0 < self.size <= self.max_size
        &&& self.size & (self.size - 1) as u16 == 0
        &&& spec_range_in_mem(mem, self.desc_table, 16 * self.size as u64)
        &&& spec_range_in_mem(mem, self.avail_ring, 6 + 2 * self.size as u64)
        &&& spec_range_in_mem(mem, self.used_ring, 6 + 8 * self.size as u64)
    }

    /// The liveness check run before activation.
    pub fn is_valid(&self, mem: &GuestMemoryMmap) -> (r: bool)
        ensures
            r == self.spec_is_valid(*mem),
    {
        if !self.ready {
            return false;
        }
        if self.size == 0 || self.size > self.max_size {
            return false;
        }
        if self.size & (self.size - 1) != 0 {
            return false;
        }
        range_in_mem(mem, self.desc_table, 16 * (self.size as u64)) && range_in_mem(
            mem,
            self.avail_ring,
            6 + 2 * (self.size as u64),
        ) && range_in_mem(mem, self.used_ring, 6 + 8 * (self.size as u64))
    }
}

} // verus!
