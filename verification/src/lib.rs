//! PCI transport for virtio devices.
//!
//! Exposes a virtio device's control, status and queue state to a guest
//! through PCI configuration-space capabilities and a set of memory-mapped
//! register regions, and drives the activation/reset lifecycle the virtio
//! specification mandates.

pub mod allocator;
pub mod caps;
pub mod common_config;
pub mod device;
pub mod ext;
pub mod pci_config;
pub mod pci_device;
pub mod queue;
