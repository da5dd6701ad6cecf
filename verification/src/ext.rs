//! Declarations and wrappers for the outside handles the transport owns: the
//! guest memory mapping (`vm-memory`) and event signal handles
//! (`vmm-sys-util`).  Verus believes the contracts stated here; each doc
//! comment names the outside function relied on.

use std::sync::atomic::AtomicUsize;
use std::sync::Arc;
use vm_memory::GuestMemoryBackend;
use vstd::prelude::*;

verus! {

#[verifier::external_type_specification]
#[verifier::external_body]
#[verifier::reject_recursive_types(R)]
pub struct ExGuestRegionCollection<R>(vm_memory::GuestRegionCollection<R>);

#[verifier::external_type_specification]
#[verifier::external_body]
#[verifier::reject_recursive_types(B)]
pub struct ExGuestRegionMmap<B>(vm_memory::GuestRegionMmap<B>);

#[verifier::external_type_specification]
#[verifier::external_body]
pub struct ExEventFd(vmm_sys_util::eventfd::EventFd);

/// The set of guest-physical addresses a memory mapping holds: the contents of
/// the mapping's region collection, as far as this transport reads them.
pub uninterp spec fn mem_valid_addrs(m: vm_memory::GuestMemoryMmap) -> Set<u64>;

/// Relies on `GuestMemoryBackend::address_in_range`: true exactly when some
/// region of the collection contains the address.
#[verifier::external_body]
pub fn mem_address_in_range(m: &vm_memory::GuestMemoryMmap, a: u64) -> (r: bool)
    ensures
        r == mem_valid_addrs(*m).contains(a),
{
    m.address_in_range(vm_memory::GuestAddress(a))
}

/// Relies on `GuestRegionCollection::clone`: the clone shares the same
/// regions, so it holds the same addresses.
#[verifier::external_body]
pub fn mem_clone(m: &vm_memory::GuestMemoryMmap) -> (r: vm_memory::GuestMemoryMmap)
    ensures
        mem_valid_addrs(r) == mem_valid_addrs(*m),
{
    m.clone()
}

/// Relies on `EventFd::new` with `EFD_NONBLOCK`: asks the kernel for a fresh
/// event handle; `None` when the kernel refuses.
#[verifier::external_body]
pub fn eventfd_new() -> (r: Option<vmm_sys_util::eventfd::EventFd>) {
    vmm_sys_util::eventfd::EventFd::new(libc::EFD_NONBLOCK).ok()
}

/// Relies on `Arc::clone`: the clone is a handle to the same allocation.
#[verifier::external_body]
pub fn arc_clone(a: &Arc<AtomicUsize>) -> (r: Arc<AtomicUsize>)
    ensures
        r == *a,
{
    a.clone()
}

} // verus!
