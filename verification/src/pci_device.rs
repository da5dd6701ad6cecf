//! The PCI transport object: builds the capability records pointing guest
//! drivers at the register regions, dispatches guest memory-mapped accesses
//! to the right region, and runs the activation/reset state machine that
//! hands the signal handles back and forth across the device boundary.

use crate::allocator::SystemAllocator;
use crate::caps::{PciCapabilityType, VirtioPciCap, VirtioPciNotifyCap};
use crate::common_config::VirtioPciCommonConfig;
use crate::device::VirtioDevice;
use crate::ext::{arc_clone, eventfd_new, mem_clone, mem_valid_addrs};
use crate::pci_config::{PciBarConfiguration, PciClassCode, PciConfigError, PciConfiguration, PciHeaderType, PciInterruptPin, PciSubclass};
use crate::queue::Queue;
use std::sync::atomic::{AtomicUsize, Ordering};
use std::sync::Arc;
use vm_memory::GuestMemoryMmap;
use vmm_sys_util::eventfd::EventFd;
use vstd::prelude::*;

verus! {

// Driver status flags, as the driver writes them into the status register.
pub const DEVICE_INIT: u8 = 0;

pub const DEVICE_ACKNOWLEDGE: u8 = 1;

pub const DEVICE_DRIVER: u8 = 2;

pub const DEVICE_FEATURES_OK: u8 = 4;

pub const DEVICE_DRIVER_OK: u8 = 8;

pub const DEVICE_FAILED: u8 = 128;

// One BAR holds the four register regions the capability records point at.
pub const COMMON_CONFIG_BAR_OFFSET: u64 = 0x0000;

pub const COMMON_CONFIG_SIZE: u64 = 56;

pub const ISR_CONFIG_BAR_OFFSET: u64 = 0x1000;

pub const ISR_CONFIG_SIZE: u64 = 1;

pub const DEVICE_CONFIG_BAR_OFFSET: u64 = 0x2000;

pub const DEVICE_CONFIG_SIZE: u64 = 0x1000;

pub const NOTIFICATION_BAR_OFFSET: u64 = 0x3000;

pub const NOTIFICATION_SIZE: u64 = 0x1000;

pub const CAPABILITY_BAR_SIZE: u64 = 0x4000;

/// A dword per notification address.
pub const NOTIFY_OFF_MULTIPLIER: u32 = 4;

pub const VIRTIO_PCI_VENDOR_ID: u16 = 0x1af4;

/// Added to the device type to form the PCI device id.
pub const VIRTIO_PCI_DEVICE_ID_BASE: u16 = 0x1040;

/// The virtio PCI subclass: a non-transitional device.
#[derive(Clone, Copy, PartialEq, Eq, Structural, Debug)]
pub enum PciVirtioSubclass {
    NonTransitionalBase,
}

impl PciSubclass for PciVirtioSubclass {
    open spec fn spec_register_value(&self) -> u8 {
        0xff
    }

    fn get_register_value(&self) -> (r: u8) {
        0xff
    }
}

/// Construction failure: the kernel refused a queue signal handle.
#[derive(Clone, Copy, PartialEq, Eq, Structural, Debug)]
pub enum VirtioPciError {
    EventFdCreate,
}

/// BAR allocation failure.
#[derive(Clone, Copy, PartialEq, Eq, Structural, Debug)]
pub enum PciDeviceError {
    /// The capability list rejected a record.
    CapabilitiesSetup(PciConfigError),
    /// The address space had no room for a region of the given size.
    IoAllocationFailed(u64),
    /// Registering a BAR at the given address conflicted.
    IoRegistrationFailed(u64, PciConfigError),
}

/// The register region a BAR-relative byte offset falls in.
#[derive(Clone, Copy, PartialEq, Eq, Structural, Debug)]
pub enum BarRegion {
    CommonConfig,
    Isr,
    DeviceConfig,
    Notification,
    Unmapped,
}

/// Classifies a BAR-relative offset into the region map.
pub open spec fn region_of(o: u64) -> BarRegion {
    if o < COMMON_CONFIG_BAR_OFFSET + COMMON_CONFIG_SIZE {
        BarRegion::CommonConfig
    } else if ISR_CONFIG_BAR_OFFSET <= o < ISR_CONFIG_BAR_OFFSET + ISR_CONFIG_SIZE {
        BarRegion::Isr
    } else if DEVICE_CONFIG_BAR_OFFSET <= o < DEVICE_CONFIG_BAR_OFFSET + DEVICE_CONFIG_SIZE {
        BarRegion::DeviceConfig
    } else if NOTIFICATION_BAR_OFFSET <= o < NOTIFICATION_BAR_OFFSET + NOTIFICATION_SIZE {
        BarRegion::Notification
    } else {
        BarRegion::Unmapped
    }
}

/// Every offset inside the BAR falls in exactly one region, and the regions
/// are exactly the advertised ranges: dispatch routes each access to one
/// handler, or to none outside the four ranges.
pub proof fn lemma_region_partition(o: u64)
    ensures
        (region_of(o) == BarRegion::CommonConfig) <==> o < 0x38,
        (region_of(o) == BarRegion::Isr) <==> (0x1000 <= o < 0x1001),
        (region_of(o) == BarRegion::DeviceConfig) <==> (0x2000 <= o < 0x3000),
        (region_of(o) == BarRegion::Notification) <==> (0x3000 <= o < 0x4000),
        (region_of(o) == BarRegion::Unmapped) <==> ((0x38 <= o < 0x1000) || (0x1001 <= o < 0x2000)
            || o >= 0x4000),
{
}

/// Driver status that hands the device over: all four handshake flags set and
/// `FAILED` clear.
pub open spec fn spec_ready(status: u8) -> bool {
    &&& status == DEVICE_ACKNOWLEDGE | DEVICE_DRIVER | DEVICE_DRIVER_OK | DEVICE_FEATURES_OK
    &&& status & DEVICE_FAILED == 0
}

/// Every queue passes its liveness check against the attached memory; false
/// without a memory handle.
pub open spec fn spec_queues_valid(queues: Seq<Queue>, memory: Option<GuestMemoryMmap>) -> bool {
    match memory {
        Some(m) => forall|i: int| 0 <= i < queues.len() ==> queues[i].spec_is_valid(m),
        None => false,
    }
}

/// The PCI device id a virtio device type maps to.
pub open spec fn spec_device_id(device_type: u32) -> u16 {
    ((VIRTIO_PCI_DEVICE_ID_BASE + (device_type & 0xffff)) % 0x10000) as u16
}

/// The PCI transport for one virtio device.
pub struct VirtioPciDevice<D: VirtioDevice> {
    /// PCI configuration registers.
    pub configuration: PciConfiguration,
    /// The transport-held common-config register state.
    pub common_config: VirtioPciCommonConfig,
    /// The pluggable virtio device.
    pub device: D,
    /// Whether the device currently owns the session.
    pub device_activated: bool,
    /// Pending interrupt causes, shared with the activated device.
    pub interrupt_status: Arc<AtomicUsize>,
    /// The interrupt-trigger signal, while the transport owns it.
    pub interrupt_evt: Option<EventFd>,
    /// One queue state per virtqueue the device declares.
    pub queues: Vec<Queue>,
    /// One notification signal per queue, while the transport owns them.
    pub queue_evts: Vec<EventFd>,
    /// The guest memory handle.
    pub memory: Option<GuestMemoryMmap>,
    /// Which BAR slot holds the register regions.
    pub settings_bar: u8,
}

impl<D: VirtioDevice> VirtioPciDevice<D> {
    /// Shape every transport operation preserves.
    pub open spec fn wf(self) -> bool {
        &&& self.configuration.wf()
        &&& self.device.inv()
        &&& self.queues@.len() == self.device.queue_max_sizes_spec().len()
        &&& self.queues@.len() <= 0xffff
        &&& self.queue_evts@.len() == self.queues@.len() || self.queue_evts@.len() == 0
        &&& self.device_activated ==> self.queue_evts@.len() == 0 && self.memory is Some
    }

    /// Constructs a new PCI transport for the given virtio device: one queue
    /// and one notification signal per declared queue, the identity
    /// registers filled in, everything inactive.  Fails only when the kernel
    /// refuses a signal handle.
    pub fn new(memory: GuestMemoryMmap, device: D) -> (r: Result<Self, VirtioPciError>)
        requires
            device.inv(),
            device.queue_max_sizes_spec().len() <= 0xffff,
        ensures
            r matches Err(e) ==> e == VirtioPciError::EventFdCreate,
            device.queue_max_sizes_spec().len() == 0 ==> r is Ok,
            r matches Ok(t) ==> {
                &&& t.wf()
                &&& !t.device_activated
                &&& t.device == device
                &&& t.memory == Some(memory)
                &&& t.interrupt_evt is None
                &&& t.settings_bar == 0
                &&& t.queues@.len() == device.queue_max_sizes_spec().len()
                &&& forall|i: int|
                    0 <= i < t.queues@.len() ==> t.queues@[i] == Queue::spec_new(
                        device.queue_max_sizes_spec()[i],
                    )
                &&& t.queue_evts@.len() == t.queues@.len()
                &&& t.common_config == (VirtioPciCommonConfig {
                    driver_status: 0,
                    config_generation: 0,
                    device_feature_select: 0,
                    driver_feature_select: 0,
                    queue_select: 0,
                })
                &&& t.configuration.registers@ == PciConfiguration::spec_new_registers(
                    VIRTIO_PCI_VENDOR_ID,
                    spec_device_id(device.device_type_spec()),
                    PciClassCode::Other,
                    0xff,
                    PciHeaderType::Device,
                    VIRTIO_PCI_VENDOR_ID,
                    spec_device_id(device.device_type_spec()),
                )
                &&& t.configuration.capabilities@.len() == 0
                &&& t.configuration.next_cap_offset == crate::pci_config::FIRST_CAPABILITY_OFFSET
                &&& forall|i: int| 0 <= i < 6 ==> !t.configuration.bar_used@[i]
            },
    {
        let sizes = device.queue_max_sizes();
        let mut queue_evts: Vec<EventFd> = Vec::new();
        let mut queues: Vec<Queue> = Vec::new();
        let n = sizes.len();
        for i in 0..n
            invariant
                n == sizes@.len(),
                n == device.queue_max_sizes_spec().len(),
                queue_evts@.len() == i,
                queues@.len() == i,
                forall|j: int| 0 <= j < i ==> queues@[j] == Queue::spec_new(sizes@[j]),
        {
            match eventfd_new() {
                Some(evt) => queue_evts.push(evt),
                None => {
                    return Err(VirtioPciError::EventFdCreate);
                },
            }
            queues.push(Queue::new(sizes[i]));
        }

        let dt = device.device_type();
        let low = dt & 0xffff;
        proof {
            assert(dt & 0xffff <= 0xffff) by (bit_vector);
        }
        let id32: u32 = 0x1040u32 + low;
        let pci_device_id: u16 = (id32 % 0x10000) as u16;

        let configuration = PciConfiguration::new(
            VIRTIO_PCI_VENDOR_ID,
            pci_device_id,
            PciClassCode::Other,
            &PciVirtioSubclass::NonTransitionalBase,
            PciHeaderType::Device,
            VIRTIO_PCI_VENDOR_ID,
            pci_device_id,
        );

        Ok(
            VirtioPciDevice {
                configuration,
                common_config: VirtioPciCommonConfig {
                    driver_status: 0,
                    config_generation: 0,
                    device_feature_select: 0,
                    driver_feature_select: 0,
                    queue_select: 0,
                },
                device,
                device_activated: false,
                interrupt_status: Arc::new(AtomicUsize::new(0)),
                interrupt_evt: None,
                queues,
                queue_evts,
                memory: Some(memory),
                settings_bar: 0,
            },
        )
    }

    /// The notification signal handles, one per queue, to be triggered when
    /// the guest writes the matching queue index past the notification
    /// offset.
    pub fn queue_evts(&self) -> (r: &[EventFd])
        ensures
            r@ == self.queue_evts@,
    {
        self.queue_evts.as_slice()
    }

    /// The signal this device uses to interrupt the guest, while the
    /// transport owns it.
    pub fn interrupt_evt(&self) -> (r: Option<&EventFd>)
        ensures
            r is Some <==> self.interrupt_evt is Some,
            r matches Some(e) ==> *e == self.interrupt_evt->Some_0,
    {
        self.interrupt_evt.as_ref()
    }

    /// Whether the driver wrote the full ready handshake.
    pub fn is_driver_ready(&self) -> (r: bool)
        ensures
            r == spec_ready(self.common_config.driver_status),
    {
        let ready_bits = DEVICE_ACKNOWLEDGE | DEVICE_DRIVER | DEVICE_DRIVER_OK | DEVICE_FEATURES_OK;
        self.common_config.driver_status == ready_bits && self.common_config.driver_status
            & DEVICE_FAILED == 0
    }

    /// Whether the driver requested the device (re)init / reset itself.
    pub fn is_driver_init(&self) -> (r: bool)
        ensures
            r == (self.common_config.driver_status == DEVICE_INIT),
    {
        self.common_config.driver_status == DEVICE_INIT
    }

    /// Whether every queue passes its liveness check against the attached
    /// memory.
    pub fn are_queues_valid(&self) -> (r: bool)
        ensures
            r == spec_queues_valid(self.queues@, self.memory),
    {
        match &self.memory {
            Some(mem) => {
                let n = self.queues.len();
                for i in 0..n
                    invariant
                        n == self.queues@.len(),
                        self.memory matches Some(m) && *mem == m,
                        forall|j: int| 0 <= j < i ==> self.queues@[j].spec_is_valid(*mem),
                {
                    if !self.queues[i].is_valid(mem) {
                        return false;
                    }
                }
                true
            },
            None => false,
        }
    }
}

/// The generic capability record for one register region.
pub open spec fn spec_cap(cfg_type: PciCapabilityType, bar: u8, offset: u32, length: u32) -> VirtioPciCap {
    VirtioPciCap {
        cap_len: crate::caps::VIRTIO_PCI_CAPABILITY_BYTES,
        cfg_type: cfg_type.spec_byte(),
        pci_bar: bar,
        offset,
        length,
    }
}

/// The notify capability record for the notification region.
pub open spec fn spec_notify_cap(bar: u8) -> VirtioPciNotifyCap {
    VirtioPciNotifyCap {
        cap: VirtioPciCap {
            cap_len: crate::caps::VIRTIO_PCI_NOTIFY_CAPABILITY_BYTES,
            cfg_type: PciCapabilityType::NotifyConfig.spec_byte(),
            pci_bar: bar,
            offset: NOTIFICATION_BAR_OFFSET as u32,
            length: NOTIFICATION_SIZE as u32,
        },
        notify_off_multiplier: NOTIFY_OFF_MULTIPLIER,
    }
}

/// The outcome of allocating and registering the device-specific BARs, one
/// after the other: each wants an aligned range of its declared size from the
/// allocator, then its slot in the BAR table; the first refusal aborts with
/// the matching error, and nothing already handed out is released.
pub open spec fn spec_alloc_device_bars(
    a: SystemAllocator,
    used: Seq<bool>,
    bars: Seq<PciBarConfiguration>,
) -> Result<Seq<(u64, u64)>, PciDeviceError>
    decreases bars.len(),
{
    if bars.len() == 0 {
        Ok(Seq::empty())
    } else {
        let size = bars[0].size;
        if !a.spec_can_allocate(None, size) {
            Err(PciDeviceError::IoAllocationFailed(size))
        } else {
            let addr = a.spec_allocated_addr(None);
            let idx = bars[0].reg_idx;
            if idx >= crate::pci_config::NUM_BAR_SLOTS {
                Err(PciDeviceError::IoRegistrationFailed(addr as u64, PciConfigError::BarInvalid))
            } else if used[idx as int] {
                Err(PciDeviceError::IoRegistrationFailed(addr as u64, PciConfigError::BarInUse))
            } else {
                match spec_alloc_device_bars(
                    SystemAllocator { next: (addr + size) as u64, end: a.end },
                    used.update(idx as int, true),
                    bars.skip(1),
                ) {
                    Ok(rest) => Ok(seq![(addr as u64, size)] + rest),
                    Err(e) => Err(e),
                }
            }
        }
    }
}

impl<D: VirtioDevice> VirtioPciDevice<D> {
    /// Registers the five capability records pointing at the register
    /// regions inside the settings BAR: common-config, ISR, device-config,
    /// notify (with its multiplier), and the zero-sized PCI config access
    /// placeholder.  Fails exactly when the capability list runs out of
    /// room; on a fresh register file it always succeeds.
    pub fn add_pci_capabilities(&mut self, settings_bar: u8) -> (r: Result<(), PciDeviceError>)
        requires
            old(self).wf(),
        ensures
            final(self).wf(),
            final(self).configuration.registers == old(self).configuration.registers,
            final(self).configuration.bar_used == old(self).configuration.bar_used,
            final(self).configuration.bar_addr == old(self).configuration.bar_addr,
            final(self).configuration.bar_size == old(self).configuration.bar_size,
            final(self).common_config == old(self).common_config,
            final(self).device == old(self).device,
            final(self).device_activated == old(self).device_activated,
            final(self).interrupt_evt == old(self).interrupt_evt,
            final(self).queues == old(self).queues,
            final(self).queue_evts == old(self).queue_evts,
            final(self).memory == old(self).memory,
            r matches Err(e) ==> e == PciDeviceError::CapabilitiesSetup(
                PciConfigError::CapabilitySpaceFull,
            ) && final(self).settings_bar == old(self).settings_bar,
            r is Err ==> {
                let caps = final(self).configuration.capabilities@;
                let prior = old(self).configuration.capabilities@;
                &&& prior.len() <= caps.len() < prior.len() + 5
                &&& caps.subrange(0, prior.len() as int) =~= prior
            },
            old(self).configuration.next_cap_offset == crate::pci_config::FIRST_CAPABILITY_OFFSET
                ==> r is Ok,
            r is Ok ==> {
                let caps = final(self).configuration.capabilities@;
                let prior = old(self).configuration.capabilities@;
                &&& final(self).settings_bar == settings_bar
                &&& caps.len() == prior.len() + 5
                &&& caps.subrange(0, prior.len() as int) =~= prior
                &&& caps[prior.len() as int].bytes@ == spec_cap(
                    PciCapabilityType::CommonConfig,
                    settings_bar,
                    COMMON_CONFIG_BAR_OFFSET as u32,
                    COMMON_CONFIG_SIZE as u32,
                ).spec_bytes()
                &&& caps[prior.len() as int + 1].bytes@ == spec_cap(
                    PciCapabilityType::IsrConfig,
                    settings_bar,
                    ISR_CONFIG_BAR_OFFSET as u32,
                    ISR_CONFIG_SIZE as u32,
                ).spec_bytes()
                &&& caps[prior.len() as int + 2].bytes@ == spec_cap(
                    PciCapabilityType::DeviceConfig,
                    settings_bar,
                    DEVICE_CONFIG_BAR_OFFSET as u32,
                    DEVICE_CONFIG_SIZE as u32,
                ).spec_bytes()
                &&& caps[prior.len() as int + 3].bytes@ == spec_notify_cap(settings_bar).spec_bytes()
                &&& caps[prior.len() as int + 4].bytes@ == spec_cap(
                    PciCapabilityType::PciConfig,
                    0,
                    0,
                    0,
                ).spec_bytes()
                &&& forall|i: int|
                    prior.len() <= i < caps.len() ==> caps[i].id
                        == crate::pci_config::PciCapabilityID::VendorSpecific.spec_byte()
            },
    {
        proof {
            vstd::bytes::lemma_auto_spec_u32_to_from_le_bytes();
        }
        let common_cap = VirtioPciCap::new(
            PciCapabilityType::CommonConfig,
            settings_bar,
            COMMON_CONFIG_BAR_OFFSET as u32,
            COMMON_CONFIG_SIZE as u32,
        );
        match self.configuration.add_capability(&common_cap) {
            Ok(_) => (),
            Err(e) => {
                return Err(PciDeviceError::CapabilitiesSetup(e));
            },
        }

        let isr_cap = VirtioPciCap::new(
            PciCapabilityType::IsrConfig,
            settings_bar,
            ISR_CONFIG_BAR_OFFSET as u32,
            ISR_CONFIG_SIZE as u32,
        );
        match self.configuration.add_capability(&isr_cap) {
            Ok(_) => (),
            Err(e) => {
                return Err(PciDeviceError::CapabilitiesSetup(e));
            },
        }

        let device_cap = VirtioPciCap::new(
            PciCapabilityType::DeviceConfig,
            settings_bar,
            DEVICE_CONFIG_BAR_OFFSET as u32,
            DEVICE_CONFIG_SIZE as u32,
        );
        match self.configuration.add_capability(&device_cap) {
            Ok(_) => (),
            Err(e) => {
                return Err(PciDeviceError::CapabilitiesSetup(e));
            },
        }

        let notify_cap = VirtioPciNotifyCap::new(
            PciCapabilityType::NotifyConfig,
            settings_bar,
            NOTIFICATION_BAR_OFFSET as u32,
            NOTIFICATION_SIZE as u32,
            NOTIFY_OFF_MULTIPLIER,
        );
        match self.configuration.add_capability(&notify_cap) {
            Ok(_) => (),
            Err(e) => {
                return Err(PciDeviceError::CapabilitiesSetup(e));
            },
        }

        let configuration_cap = VirtioPciCap::new(PciCapabilityType::PciConfig, 0, 0, 0);
        match self.configuration.add_capability(&configuration_cap) {
            Ok(_) => (),
            Err(e) => {
                return Err(PciDeviceError::CapabilitiesSetup(e));
            },
        }

        self.settings_bar = settings_bar;
        Ok(())
    }

    /// Hands the transport the interrupt-trigger signal and records the
    /// interrupt line and pin in the header registers.
    pub fn assign_irq(&mut self, irq_evt: EventFd, irq_num: u32, irq_pin: PciInterruptPin)
        requires
            old(self).wf(),
        ensures
            final(self).wf(),
            final(self).interrupt_evt == Some(irq_evt),
            final(self).configuration.registers@ == old(self).configuration.registers@.update(
                0x3c,
                (irq_num % 256) as u8,
            ).update(0x3d, irq_pin.spec_byte()),
            final(self).common_config == old(self).common_config,
            final(self).device == old(self).device,
            final(self).device_activated == old(self).device_activated,
            final(self).queues == old(self).queues,
            final(self).queue_evts == old(self).queue_evts,
            final(self).memory == old(self).memory,
            final(self).settings_bar == old(self).settings_bar,
            final(self).interrupt_status == old(self).interrupt_status,
            final(self).configuration.capabilities == old(self).configuration.capabilities,
            final(self).configuration.bar_used == old(self).configuration.bar_used,
            final(self).configuration.bar_addr == old(self).configuration.bar_addr,
            final(self).configuration.bar_size == old(self).configuration.bar_size,
            final(self).configuration.next_cap_offset == old(self).configuration.next_cap_offset,
    {
        self.configuration.set_irq((irq_num % 256) as u8, irq_pin);
        self.interrupt_evt = Some(irq_evt);
    }

    /// The configuration registers.
    pub fn config_registers(&self) -> (r: &PciConfiguration)
        ensures
            r == self.configuration,
    {
        &self.configuration
    }

    /// Mutable access to the configuration registers.
    pub fn config_registers_mut(&mut self) -> (r: &mut PciConfiguration)
        ensures
            *r == old(self).configuration,
            final(self).configuration == *final(r),
            final(self).common_config == old(self).common_config,
            final(self).device == old(self).device,
            final(self).device_activated == old(self).device_activated,
            final(self).interrupt_status == old(self).interrupt_status,
            final(self).interrupt_evt == old(self).interrupt_evt,
            final(self).queues == old(self).queues,
            final(self).queue_evts == old(self).queue_evts,
            final(self).memory == old(self).memory,
            final(self).settings_bar == old(self).settings_bar,
    {
        &mut self.configuration
    }

    /// The notification mapping the bus layer arms: one entry per queue,
    /// `(signal handle, BAR base + notification offset + 4 * index, index)`.
    pub fn ioeventfds(&self) -> (r: Vec<(&EventFd, u64, u64)>)
        requires
            self.wf(),
            self.settings_bar < crate::pci_config::NUM_BAR_SLOTS as u8,
            self.configuration.bar_addr@[self.settings_bar as int] + NOTIFICATION_BAR_OFFSET + 4
                * self.queue_evts@.len() <= u64::MAX,
        ensures
            r@.len() == self.queue_evts@.len(),
            forall|i: int|
                0 <= i < r@.len() ==> {
                    &&& *(#[trigger] r@[i]).0 == self.queue_evts@[i]
                    &&& r@[i].1 == self.configuration.bar_addr@[self.settings_bar as int]
                        + NOTIFICATION_BAR_OFFSET + 4 * i
                    &&& r@[i].2 == i
                },
    {
        let bar0 = self.configuration.get_bar64_addr(self.settings_bar as usize);
        let notify_base = bar0 + NOTIFICATION_BAR_OFFSET;
        let mut r: Vec<(&EventFd, u64, u64)> = Vec::new();
        let n = self.queue_evts.len();
        for i in 0..n
            invariant
                n == self.queue_evts@.len(),
                self.wf(),
                self.settings_bar < crate::pci_config::NUM_BAR_SLOTS as u8,
                notify_base == self.configuration.bar_addr@[self.settings_bar as int]
                    + NOTIFICATION_BAR_OFFSET,
                notify_base + 4 * n <= u64::MAX,
                r@.len() == i,
                forall|j: int|
                    0 <= j < i ==> {
                        &&& *(#[trigger] r@[j]).0 == self.queue_evts@[j]
                        &&& r@[j].1 == notify_base + 4 * j
                        &&& r@[j].2 == j
                    },
        {
            let evt: &EventFd = &self.queue_evts[i];
            r.push((evt, notify_base + 4 * (i as u64), i as u64));
        }
        r
    }

    /// Requests the capability BAR from the allocator, registers it as BAR 0,
    /// registers the capability records, then allocates and registers every
    /// device-specific BAR.  Returns the consumed `(address, size)` ranges.
    /// Fails with `IoAllocationFailed` when the allocator has no room, with
    /// `IoRegistrationFailed` on a BAR slot conflict, and with
    /// `CapabilitiesSetup` when the capability list rejects a record; nothing
    /// already allocated is released.
    pub fn allocate_bars(&mut self, allocator: &mut SystemAllocator) -> (r: Result<
        Vec<(u64, u64)>,
        PciDeviceError,
    >)
        requires
            old(self).wf(),
            old(allocator).wf(),
        ensures
            final(self).wf(),
            final(allocator).wf(),
            final(self).common_config == old(self).common_config,
            final(self).device == old(self).device,
            final(self).device_activated == old(self).device_activated,
            final(self).interrupt_evt == old(self).interrupt_evt,
            final(self).queues == old(self).queues,
            final(self).queue_evts == old(self).queue_evts,
            final(self).memory == old(self).memory,
            !old(allocator).spec_can_allocate(None, CAPABILITY_BAR_SIZE) ==> r == Err::<
                Vec<(u64, u64)>,
                PciDeviceError,
            >(PciDeviceError::IoAllocationFailed(CAPABILITY_BAR_SIZE)) && *final(self) == *old(self)
                && *final(allocator) == *old(allocator),
            old(allocator).spec_can_allocate(None, CAPABILITY_BAR_SIZE) && old(
                self,
            ).configuration.bar_used@[0] ==> r == Err::<Vec<(u64, u64)>, PciDeviceError>(
                PciDeviceError::IoRegistrationFailed(
                    old(allocator).spec_allocated_addr(None) as u64,
                    PciConfigError::BarInUse,
                ),
            ),
            r matches Ok(ranges) ==> ranges@.len() == 1 + old(
                self,
            ).device.device_bars_spec().len(),
            r matches Ok(ranges) ==> ({
                let addr0 = old(allocator).spec_allocated_addr(None);
                let dev = spec_alloc_device_bars(
                    SystemAllocator { next: (addr0 + CAPABILITY_BAR_SIZE) as u64, end: old(allocator).end },
                    old(self).configuration.bar_used@.update(0, true),
                    old(self).device.device_bars_spec(),
                );
                dev matches Ok(lst) && ranges@ == seq![(addr0 as u64, CAPABILITY_BAR_SIZE)] + lst
            }),
            ({
                let addr0 = old(allocator).spec_allocated_addr(None);
                let dev = spec_alloc_device_bars(
                    SystemAllocator { next: (addr0 + CAPABILITY_BAR_SIZE) as u64, end: old(allocator).end },
                    old(self).configuration.bar_used@.update(0, true),
                    old(self).device.device_bars_spec(),
                );
                old(allocator).spec_can_allocate(None, CAPABILITY_BAR_SIZE) && !old(
                    self,
                ).configuration.bar_used@[0] && old(self).configuration.next_cap_offset
                    == crate::pci_config::FIRST_CAPABILITY_OFFSET ==> {
                    &&& (r is Ok <==> dev is Ok)
                    &&& (r matches Err(e) ==> dev == Err::<Seq<(u64, u64)>, PciDeviceError>(e))
                }
            }),
            r matches Ok(ranges) ==> {
                &&& ranges@.len() >= 1
                &&& ranges@[0].0 == old(allocator).spec_allocated_addr(None)
                &&& ranges@[0].1 == CAPABILITY_BAR_SIZE
                &&& final(self).settings_bar == 0
                &&& final(self).configuration.bar_used@[0]
                &&& final(self).configuration.bar_addr@[0] == ranges@[0].0
                &&& final(self).configuration.bar_size@[0] == CAPABILITY_BAR_SIZE
                &&& final(self).configuration.capabilities@.len() == old(
                    self,
                ).configuration.capabilities@.len() + 5
                &&& forall|i: int|
                    1 <= i < ranges@.len() ==> (#[trigger] ranges@[i]).0 % crate::allocator::MMIO_ALIGN
                        == 0 && ranges@[i].1 > 0
            },
            r is Ok && old(self).configuration.capabilities@.len() == 0 ==> {
                let caps = final(self).configuration.capabilities@;
                &&& caps[0].bytes@ == spec_cap(
                    PciCapabilityType::CommonConfig,
                    0,
                    COMMON_CONFIG_BAR_OFFSET as u32,
                    COMMON_CONFIG_SIZE as u32,
                ).spec_bytes()
                &&& caps[1].bytes@ == spec_cap(
                    PciCapabilityType::IsrConfig,
                    0,
                    ISR_CONFIG_BAR_OFFSET as u32,
                    ISR_CONFIG_SIZE as u32,
                ).spec_bytes()
                &&& caps[2].bytes@ == spec_cap(
                    PciCapabilityType::DeviceConfig,
                    0,
                    DEVICE_CONFIG_BAR_OFFSET as u32,
                    DEVICE_CONFIG_SIZE as u32,
                ).spec_bytes()
                &&& caps[3].bytes@ == spec_notify_cap(0).spec_bytes()
                &&& caps[4].bytes@ == spec_cap(PciCapabilityType::PciConfig, 0, 0, 0).spec_bytes()
            },
            old(allocator).spec_can_allocate(None, CAPABILITY_BAR_SIZE) && !old(
                self,
            ).configuration.bar_used@[0] && old(self).configuration.next_cap_offset
                == crate::pci_config::FIRST_CAPABILITY_OFFSET && old(
                self,
            ).device.device_bars_spec().len() == 0 ==> r is Ok,
    {
        let mut ranges: Vec<(u64, u64)> = Vec::new();

        // The virtio-pci capability BAR.
        let virtio_pci_bar_addr = match allocator.allocate_mmio_addresses(
            None,
            CAPABILITY_BAR_SIZE,
        ) {
            Some(a) => a,
            None => {
                return Err(PciDeviceError::IoAllocationFailed(CAPABILITY_BAR_SIZE));
            },
        };
        let config = PciBarConfiguration::default().set_register_index(0).set_address(
            virtio_pci_bar_addr,
        ).set_size(CAPABILITY_BAR_SIZE);
        let virtio_pci_bar = match self.configuration.add_pci_bar(&config) {
            Ok(idx) => idx as u8,
            Err(e) => {
                return Err(PciDeviceError::IoRegistrationFailed(virtio_pci_bar_addr, e));
            },
        };

        ranges.push((virtio_pci_bar_addr, CAPABILITY_BAR_SIZE));

        // Once the BAR is allocated, the capability records can point at it.
        match self.add_pci_capabilities(virtio_pci_bar) {
            Ok(()) => (),
            Err(e) => {
                return Err(e);
            },
        }

        // The device-specific BARs.
        let ghost caps_after: Seq<crate::pci_config::AddedCapability> =
            self.configuration.capabilities@;
        let device_bars = self.device.get_device_bars();
        let ghost bars = device_bars@;
        let ghost dev = spec_alloc_device_bars(*allocator, self.configuration.bar_used@, bars);
        proof {
            assert(bars.skip(0) =~= bars);
            assert(ranges@.skip(1) =~= Seq::<(u64, u64)>::empty());
            if dev is Ok {
                assert(Seq::<(u64, u64)>::empty() + dev->Ok_0 =~= dev->Ok_0);
            }
        }
        let n = device_bars.len();
        for i in 0..n
            invariant
                n == device_bars@.len(),
                n == old(self).device.device_bars_spec().len(),
                bars == device_bars@,
                bars == old(self).device.device_bars_spec(),
                self.configuration.capabilities@ == caps_after,
                old(allocator).spec_can_allocate(None, CAPABILITY_BAR_SIZE),
                !old(self).configuration.bar_used@[0],
                dev == spec_alloc_device_bars(
                    SystemAllocator {
                        next: (old(allocator).spec_allocated_addr(None) + CAPABILITY_BAR_SIZE) as u64,
                        end: old(allocator).end,
                    },
                    old(self).configuration.bar_used@.update(0, true),
                    old(self).device.device_bars_spec(),
                ),
                (dev is Ok <==> spec_alloc_device_bars(
                    *allocator,
                    self.configuration.bar_used@,
                    bars.skip(i as int),
                ) is Ok),
                dev is Err ==> spec_alloc_device_bars(
                    *allocator,
                    self.configuration.bar_used@,
                    bars.skip(i as int),
                ) == dev,
                dev matches Ok(lst) ==> (spec_alloc_device_bars(
                    *allocator,
                    self.configuration.bar_used@,
                    bars.skip(i as int),
                ) matches Ok(rest) && lst =~= ranges@.skip(1) + rest),
                self.wf(),
                allocator.wf(),
                ranges@.len() == i + 1,
                ranges@[0].0 == virtio_pci_bar_addr,
                virtio_pci_bar_addr == old(allocator).spec_allocated_addr(None),
                ranges@[0].1 == CAPABILITY_BAR_SIZE,
                forall|j: int|
                    1 <= j < ranges@.len() ==> (#[trigger] ranges@[j]).0
                        % crate::allocator::MMIO_ALIGN == 0 && ranges@[j].1 > 0,
                self.settings_bar == virtio_pci_bar,
                self.configuration.bar_used@[0],
                self.configuration.bar_addr@[0] == virtio_pci_bar_addr,
                self.configuration.bar_size@[0] == CAPABILITY_BAR_SIZE,
                self.configuration.capabilities@.len() == old(
                    self,
                ).configuration.capabilities@.len() + 5,
                self.common_config == old(self).common_config,
                self.device == old(self).device,
                self.device_activated == old(self).device_activated,
                self.interrupt_evt == old(self).interrupt_evt,
                self.queues == old(self).queues,
                self.queue_evts == old(self).queue_evts,
                self.memory == old(self).memory,
        {
            let ghost alloc_at = *allocator;
            let ghost used_at = self.configuration.bar_used@;
            let ghost ranges_at = ranges@;
            let ghost cur_at = spec_alloc_device_bars(alloc_at, used_at, bars.skip(i as int));
            proof {
                assert(bars.skip(i as int)[0] == bars[i as int]);
                assert(bars.skip(i as int).skip(1) =~= bars.skip(i as int + 1));
            }
            let bar = device_bars[i];
            let size = bar.get_size();
            let device_bar_addr = match allocator.allocate_mmio_addresses(None, size) {
                Some(a) => a,
                None => {
                    proof {
                        assert(cur_at == Err::<Seq<(u64, u64)>, PciDeviceError>(
                            PciDeviceError::IoAllocationFailed(size),
                        ));
                    }
                    return Err(PciDeviceError::IoAllocationFailed(size));
                },
            };
            let bar = bar.set_address(device_bar_addr);
            match self.configuration.add_pci_bar(&bar) {
                Ok(_) => (),
                Err(e) => {
                    proof {
                        assert(cur_at == Err::<Seq<(u64, u64)>, PciDeviceError>(
                            PciDeviceError::IoRegistrationFailed(device_bar_addr, e),
                        ));
                    }
                    return Err(PciDeviceError::IoRegistrationFailed(device_bar_addr, e));
                },
            }
            ranges.push((device_bar_addr, size));
            proof {
                let rec = spec_alloc_device_bars(
                    *allocator,
                    self.configuration.bar_used@,
                    bars.skip(i as int + 1),
                );
                assert(cur_at == (match rec {
                    Ok(rest) => Ok::<Seq<(u64, u64)>, PciDeviceError>(
                        seq![(device_bar_addr, size)] + rest,
                    ),
                    Err(e) => Err::<Seq<(u64, u64)>, PciDeviceError>(e),
                }));
                if cur_at is Ok {
                    assert(ranges@.skip(1) =~= ranges_at.skip(1).push((device_bar_addr, size)));
                    assert(ranges_at.skip(1) + (seq![(device_bar_addr, size)] + rec->Ok_0)
                        =~= ranges@.skip(1) + rec->Ok_0);
                }
            }
        }

        proof {
            assert(bars.skip(n as int) =~= Seq::<PciBarConfiguration>::empty());
            assert(spec_alloc_device_bars(
                *allocator,
                self.configuration.bar_used@,
                bars.skip(n as int),
            ) == Ok::<Seq<(u64, u64)>, PciDeviceError>(Seq::empty()));
            assert(dev->Ok_0 =~= ranges@.skip(1) + Seq::<(u64, u64)>::empty());
            assert(dev->Ok_0 =~= ranges@.skip(1));
            assert(ranges@ =~= seq![(virtio_pci_bar_addr, CAPABILITY_BAR_SIZE)] + dev->Ok_0);
        }
        Ok(ranges)
    }

    /// Translates a narrow configuration-space access into a register write:
    /// a byte, word or dword inside the addressed 32-bit register.  Accesses
    /// that would cross the register boundary, or of another width, are
    /// ignored.
    pub fn write_config_register(&mut self, reg_idx: usize, offset: u64, data: &[u8])
        requires
            old(self).wf(),
        ensures
            final(self).wf(),
            final(self).common_config == old(self).common_config,
            final(self).device == old(self).device,
            final(self).device_activated == old(self).device_activated,
            final(self).interrupt_evt == old(self).interrupt_evt,
            final(self).queues == old(self).queues,
            final(self).queue_evts == old(self).queue_evts,
            final(self).memory == old(self).memory,
            final(self).settings_bar == old(self).settings_bar,
            final(self).configuration.capabilities == old(self).configuration.capabilities,
            final(self).configuration.bar_used == old(self).configuration.bar_used,
            final(self).configuration.bar_addr == old(self).configuration.bar_addr,
            final(self).configuration.bar_size == old(self).configuration.bar_size,
            final(self).configuration.registers@ == if offset < 4 && offset + data@.len() <= 4
                && reg_idx < crate::pci_config::CONFIG_SPACE_BYTES / 4 && (data@.len() == 1
                || data@.len() == 2 || data@.len() == 4) {
                crate::pci_config::spec_write_bytes(
                    old(self).configuration.registers@,
                    reg_idx * 4 + offset as int,
                    data@,
                )
            } else {
                old(self).configuration.registers@
            },
    {
        if offset >= 4 {
            return ;
        }
        if data.len() > 4 - (offset as usize) {
            return ;
        }
        if reg_idx >= crate::pci_config::CONFIG_SPACE_BYTES / 4 {
            return ;
        }

        if data.len() == 1 {
            self.configuration.write_byte(reg_idx * 4 + offset as usize, data[0]);
            proof {
                assert(self.configuration.registers@ =~= crate::pci_config::spec_write_bytes(
                    old(self).configuration.registers@,
                    reg_idx * 4 + offset as int,
                    data@,
                ));
            }
        } else if data.len() == 2 {
            let v = vstd::bytes::u16_from_le_bytes(data);
            self.configuration.write_word(reg_idx * 4 + offset as usize, v);
            proof {
                vstd::bytes::lemma_auto_spec_u16_to_from_le_bytes();
                assert(self.configuration.registers@ =~= crate::pci_config::spec_write_bytes(
                    old(self).configuration.registers@,
                    reg_idx * 4 + offset as int,
                    data@,
                ));
            }
        } else if data.len() == 4 {
            let v = vstd::bytes::u32_from_le_bytes(data);
            self.configuration.write_reg(reg_idx, v);
            proof {
                vstd::bytes::lemma_auto_spec_u32_to_from_le_bytes();
                assert(offset == 0);
                assert(self.configuration.registers@ =~= crate::pci_config::spec_write_bytes(
                    old(self).configuration.registers@,
                    reg_idx * 4 + offset as int,
                    data@,
                ));
            }
        }
    }

    /// Reads the full 32-bit register at a register index.
    pub fn read_config_register(&self, reg_idx: usize) -> (r: u32)
        requires
            self.wf(),
        ensures
            r == self.configuration.spec_read_reg(reg_idx as int),
    {
        self.config_registers().read_reg(reg_idx)
    }

    /// The common-config state and queue set after the dispatch step of a
    /// write: the common-config write semantics inside that region, unchanged
    /// outside it.
    pub open spec fn spec_mid_cc(pre: Self, offset: u64, data: Seq<u8>) -> VirtioPciCommonConfig {
        if region_of(offset) == BarRegion::CommonConfig {
            pre.common_config.spec_write(pre.queues@, offset, data).0
        } else {
            pre.common_config
        }
    }

    pub open spec fn spec_mid_queues(pre: Self, offset: u64, data: Seq<u8>) -> Seq<Queue> {
        if region_of(offset) == BarRegion::CommonConfig {
            pre.common_config.spec_write(pre.queues@, offset, data).1
        } else {
            pre.queues@
        }
    }

    /// After the dispatch step of a write, the state machine hands the device
    /// over exactly when it was inactive, the driver status is the ready
    /// handshake, every queue is live in the attached memory, and the
    /// transport still holds the interrupt trigger and the full notification
    /// signal set.
    pub open spec fn spec_wants_activate(pre: Self, offset: u64, data: Seq<u8>) -> bool {
        &&& !pre.device_activated
        &&& spec_ready(Self::spec_mid_cc(pre, offset, data).driver_status)
        &&& spec_queues_valid(Self::spec_mid_queues(pre, offset, data), pre.memory)
        &&& pre.queue_evts@.len() == pre.queues@.len()
        &&& pre.interrupt_evt is Some
    }

    /// After the dispatch step of a write, the state machine resets exactly
    /// when the device was activated and the driver status is INIT.
    pub open spec fn spec_wants_reset(pre: Self, offset: u64, data: Seq<u8>) -> bool {
        &&& pre.device_activated
        &&& Self::spec_mid_cc(pre, offset, data).driver_status == DEVICE_INIT
    }

    /// Dispatches a guest read to the region the offset falls in: the
    /// common-config view, the ISR byte (read-clears the aggregator), or the
    /// device's config bytes; notification-range and unmapped reads leave the
    /// buffer untouched.
    pub fn read_bar(&mut self, offset: u64, data: &mut Vec<u8>)
        requires
            old(self).wf(),
        ensures
            final(self).wf(),
            *final(self) == *old(self),
            final(data)@.len() == old(data)@.len(),
            region_of(offset) == BarRegion::CommonConfig ==> final(data)@ == old(
                self,
            ).common_config.spec_read(old(self).queues@, offset, old(data)@),
            region_of(offset) == BarRegion::Isr ==> (old(data)@.len() == 0 ==> final(data)@ == old(
                data,
            )@) && (old(data)@.len() > 0 ==> final(data)@ == old(data)@.update(
                0,
                final(data)@[0],
            )),
            region_of(offset) == BarRegion::DeviceConfig ==> final(data)@
                == crate::device::spec_config_read(
                old(self).device.config_space_spec(),
                (offset - DEVICE_CONFIG_BAR_OFFSET) as u64,
                old(data)@,
            ),
            region_of(offset) == BarRegion::Notification || region_of(offset)
                == BarRegion::Unmapped ==> final(data)@ == old(data)@,
    {
        proof {
            vstd::bytes::lemma_auto_spec_u16_to_from_le_bytes();
            vstd::bytes::lemma_auto_spec_u32_to_from_le_bytes();
        }
        if offset < COMMON_CONFIG_BAR_OFFSET + COMMON_CONFIG_SIZE {
            self.common_config.read(offset, data, &self.queues);
        } else if ISR_CONFIG_BAR_OFFSET <= offset && offset < ISR_CONFIG_BAR_OFFSET
            + ISR_CONFIG_SIZE {
            if data.len() >= 1 {
                // Reading this register resets it to 0.
                let v = self.interrupt_status.swap(0, Ordering::SeqCst);
                data.set(0, (v % 256) as u8);
            }
        } else if DEVICE_CONFIG_BAR_OFFSET <= offset && offset < DEVICE_CONFIG_BAR_OFFSET
            + DEVICE_CONFIG_SIZE {
            self.device.read_config(offset - DEVICE_CONFIG_BAR_OFFSET, data);
        } else {
            // Notification-range reads and unmapped offsets are no-ops; queue
            // notification is intercepted out of band via `ioeventfds`.
        }
    }

    /// Dispatches a guest write to the region the offset falls in (ISR writes
    /// clear exactly the acknowledged bits; notification-range and unmapped
    /// writes are no-ops), then consults the activation/reset state machine.
    ///
    /// Activation hands the device the memory handle, the interrupt trigger,
    /// the shared aggregator, the queue states and the whole notification
    /// signal set; if the device refuses, the driver status is forced to
    /// FAILED and the transport stays inactive.  Reset takes the handles
    /// back, returns every queue to its disabled default and clears queue
    /// selection; a device that cannot reset forces FAILED and stays
    /// activated.
    pub fn write_bar(&mut self, offset: u64, data: &[u8])
        requires
            old(self).wf(),
        ensures
            final(self).wf(),
            final(self).configuration == old(self).configuration,
            final(self).settings_bar == old(self).settings_bar,
            final(self).interrupt_status == old(self).interrupt_status,
            final(self).memory == old(self).memory,
            final(self).queues@.len() == old(self).queues@.len(),
            ({
                let pre = *old(self);
                let cc = Self::spec_mid_cc(pre, offset, data@);
                let qs = Self::spec_mid_queues(pre, offset, data@);
                !Self::spec_wants_activate(pre, offset, data@) && !Self::spec_wants_reset(
                    pre,
                    offset,
                    data@,
                ) ==> {
                    &&& final(self).common_config == cc
                    &&& final(self).queues@ == qs
                    &&& final(self).device_activated == pre.device_activated
                    &&& final(self).queue_evts@ == pre.queue_evts@
                    &&& final(self).interrupt_evt == pre.interrupt_evt
                }
            }),
            ({
                let pre = *old(self);
                let cc = Self::spec_mid_cc(pre, offset, data@);
                let qs = Self::spec_mid_queues(pre, offset, data@);
                Self::spec_wants_activate(pre, offset, data@) ==> {
                    &&& final(self).queue_evts@.len() == 0
                    &&& final(self).interrupt_evt is None
                    &&& final(self).queues@ == qs
                    &&& ((final(self).device_activated && final(self).common_config == cc) || (
                    !final(self).device_activated && final(self).common_config
                        == (VirtioPciCommonConfig { driver_status: DEVICE_FAILED, ..cc })))
                }
            }),
            ({
                let pre = *old(self);
                let cc = Self::spec_mid_cc(pre, offset, data@);
                let qs = Self::spec_mid_queues(pre, offset, data@);
                Self::spec_wants_reset(pre, offset, data@) ==> {
                    ||| {
                        &&& !final(self).device_activated
                        &&& final(self).interrupt_evt is Some
                        &&& final(self).queue_evts@.len() == pre.queues@.len()
                        &&& final(self).queues@ == Seq::new(
                            qs.len(),
                            |i: int| Queue::spec_new(qs[i].max_size),
                        )
                        &&& final(self).common_config == (VirtioPciCommonConfig {
                            queue_select: 0,
                            ..cc
                        })
                    }
                    ||| {
                        &&& final(self).device_activated
                        &&& final(self).common_config == (VirtioPciCommonConfig {
                            driver_status: DEVICE_FAILED,
                            ..cc
                        })
                        &&& final(self).queues@ == qs
                        &&& final(self).queue_evts@ == pre.queue_evts@
                        &&& final(self).interrupt_evt == pre.interrupt_evt
                    }
                }
            }),
            ({
                let pre = *old(self);
                region_of(offset) == BarRegion::DeviceConfig
                    ==> final(self).device.config_space_spec()
                    == crate::device::spec_config_write(
                    pre.device.config_space_spec(),
                    (offset - DEVICE_CONFIG_BAR_OFFSET) as u64,
                    data@,
                )
            }),
            ({
                let pre = *old(self);
                region_of(offset) != BarRegion::DeviceConfig && !Self::spec_wants_activate(
                    pre,
                    offset,
                    data@,
                ) && !Self::spec_wants_reset(pre, offset, data@) ==> final(self).device
                    == pre.device
            }),
    {
        proof {
            crate::common_config::lemma_spec_write_queue_shape(
                old(self).common_config,
                old(self).queues@,
                offset,
                data@,
            );
            assert(1u8 | 2u8 | 8u8 | 4u8 == 15u8) by (bit_vector);
        }
        if offset < COMMON_CONFIG_BAR_OFFSET + COMMON_CONFIG_SIZE {
            self.common_config.write(offset, data, &mut self.queues);
        } else if ISR_CONFIG_BAR_OFFSET <= offset && offset < ISR_CONFIG_BAR_OFFSET
            + ISR_CONFIG_SIZE {
            if data.len() >= 1 {
                // Clear exactly the acknowledged interrupt causes.
                let v = data[0];
                let mask = !(v as usize);
                self.interrupt_status.fetch_and(mask, Ordering::SeqCst);
            }
        } else if DEVICE_CONFIG_BAR_OFFSET <= offset && offset < DEVICE_CONFIG_BAR_OFFSET
            + DEVICE_CONFIG_SIZE {
            self.device.write_config(offset - DEVICE_CONFIG_BAR_OFFSET, data);
        } else {
            // Notification-range writes arrive out of band via `ioeventfds`;
            // other offsets are unmapped.
        }

        // Hand the device over once the driver reports ready with live
        // queues and the transport still holds every signal handle.
        if !self.device_activated && self.is_driver_ready() && self.are_queues_valid()
            && self.queue_evts.len() == self.queues.len() && self.interrupt_evt.is_some() {
            let mut evt_opt: Option<EventFd> = None;
            core::mem::swap(&mut self.interrupt_evt, &mut evt_opt);
            match evt_opt {
                Some(interrupt_evt) => {
                    let mem = clone_mem_opt(&self.memory);
                    let queues_copy = clone_queues(&self.queues);
                    let evts = self.queue_evts.split_off(0);
                    let status = arc_clone(&self.interrupt_status);
                    match self.device.activate(mem, interrupt_evt, status, queues_copy, evts) {
                        Ok(()) => {
                            self.device_activated = true;
                        },
                        Err(_) => {
                            self.common_config.driver_status = DEVICE_FAILED;
                        },
                    }
                },
                None => {},
            }
        }

        // The driver requested a reset.
        if self.device_activated && self.is_driver_init() {
            match self.device.reset() {
                Some(pair) => {
                    // The device returns the interrupt trigger and the
                    // notification signal set; the transport reabsorbs them
                    // and re-arms for a new session.
                    let (interrupt_evt, queue_evts) = pair;
                    self.interrupt_evt = Some(interrupt_evt);
                    self.queue_evts = queue_evts;
                    self.device_activated = false;
                    let ghost qmid = self.queues@;
                    let ghost pre_reset = *self;
                    let n = self.queues.len();
                    for i in 0..n
                        invariant
                            n == self.queues@.len(),
                            n == qmid.len(),
                            *self == (VirtioPciDevice { queues: self.queues, ..pre_reset }),
                            forall|j: int|
                                0 <= j < i ==> self.queues@[j] == Queue::spec_new(
                                    qmid[j].max_size,
                                ),
                            forall|j: int| i <= j < n ==> self.queues@[j] == qmid[j],
                    {
                        let m = self.queues[i].max_size;
                        self.queues.set(i, Queue::new(m));
                    }
                    proof {
                        assert(self.queues@ =~= Seq::new(
                            qmid.len(),
                            |i: int| Queue::spec_new(qmid[i].max_size),
                        ));
                    }
                    self.common_config.queue_select = 0;
                },
                None => {
                    // The device does not support reset: surface the failure
                    // to the guest and keep running.
                    self.common_config.driver_status = DEVICE_FAILED;
                },
            }
        }
    }
}

impl<D: VirtioDevice> VirtioPciDevice<D> {
    /// A guest memory-mapped read, as the bus delivers it.
    pub fn read(&mut self, offset: u64, data: &mut Vec<u8>)
        requires
            old(self).wf(),
        ensures
            final(self).wf(),
            *final(self) == *old(self),
            final(data)@.len() == old(data)@.len(),
            region_of(offset) == BarRegion::CommonConfig ==> final(data)@ == old(
                self,
            ).common_config.spec_read(old(self).queues@, offset, old(data)@),
            region_of(offset) == BarRegion::Isr ==> (old(data)@.len() == 0 ==> final(data)@ == old(
                data,
            )@) && (old(data)@.len() > 0 ==> final(data)@ == old(data)@.update(
                0,
                final(data)@[0],
            )),
            region_of(offset) == BarRegion::DeviceConfig ==> final(data)@
                == crate::device::spec_config_read(
                old(self).device.config_space_spec(),
                (offset - DEVICE_CONFIG_BAR_OFFSET) as u64,
                old(data)@,
            ),
            region_of(offset) == BarRegion::Notification || region_of(offset)
                == BarRegion::Unmapped ==> final(data)@ == old(data)@,
    {
        self.read_bar(offset, data)
    }

    /// A guest memory-mapped write, as the bus delivers it: dispatched to its
    /// region, then run through the activation/reset state machine.
    pub fn write(&mut self, offset: u64, data: &[u8])
        requires
            old(self).wf(),
        ensures
            final(self).wf(),
            final(self).configuration == old(self).configuration,
            final(self).settings_bar == old(self).settings_bar,
            final(self).interrupt_status == old(self).interrupt_status,
            final(self).memory == old(self).memory,
            final(self).queues@.len() == old(self).queues@.len(),
            ({
                let pre = *old(self);
                let cc = Self::spec_mid_cc(pre, offset, data@);
                let qs = Self::spec_mid_queues(pre, offset, data@);
                !Self::spec_wants_activate(pre, offset, data@) && !Self::spec_wants_reset(
                    pre,
                    offset,
                    data@,
                ) ==> {
                    &&& final(self).common_config == cc
                    &&& final(self).queues@ == qs
                    &&& final(self).device_activated == pre.device_activated
                    &&& final(self).queue_evts@ == pre.queue_evts@
                    &&& final(self).interrupt_evt == pre.interrupt_evt
                }
            }),
            ({
                let pre = *old(self);
                let cc = Self::spec_mid_cc(pre, offset, data@);
                let qs = Self::spec_mid_queues(pre, offset, data@);
                Self::spec_wants_activate(pre, offset, data@) ==> {
                    &&& final(self).queue_evts@.len() == 0
                    &&& final(self).interrupt_evt is None
                    &&& final(self).queues@ == qs
                    &&& ((final(self).device_activated && final(self).common_config == cc) || (
                    !final(self).device_activated && final(self).common_config
                        == (VirtioPciCommonConfig { driver_status: DEVICE_FAILED, ..cc })))
                }
            }),
            ({
                let pre = *old(self);
                let cc = Self::spec_mid_cc(pre, offset, data@);
                let qs = Self::spec_mid_queues(pre, offset, data@);
                Self::spec_wants_reset(pre, offset, data@) ==> {
                    ||| {
                        &&& !final(self).device_activated
                        &&& final(self).interrupt_evt is Some
                        &&& final(self).queue_evts@.len() == pre.queues@.len()
                        &&& final(self).queues@ == Seq::new(
                            qs.len(),
                            |i: int| Queue::spec_new(qs[i].max_size),
                        )
                        &&& final(self).common_config == (VirtioPciCommonConfig {
                            queue_select: 0,
                            ..cc
                        })
                    }
                    ||| {
                        &&& final(self).device_activated
                        &&& final(self).common_config == (VirtioPciCommonConfig {
                            driver_status: DEVICE_FAILED,
                            ..cc
                        })
                        &&& final(self).queues@ == qs
                        &&& final(self).queue_evts@ == pre.queue_evts@
                        &&& final(self).interrupt_evt == pre.interrupt_evt
                    }
                }
            }),
            ({
                let pre = *old(self);
                region_of(offset) == BarRegion::DeviceConfig
                    ==> final(self).device.config_space_spec()
                    == crate::device::spec_config_write(
                    pre.device.config_space_spec(),
                    (offset - DEVICE_CONFIG_BAR_OFFSET) as u64,
                    data@,
                )
            }),
            ({
                let pre = *old(self);
                region_of(offset) != BarRegion::DeviceConfig && !Self::spec_wants_activate(
                    pre,
                    offset,
                    data@,
                ) && !Self::spec_wants_reset(pre, offset, data@) ==> final(self).device
                    == pre.device
            }),
    {
        self.write_bar(offset, data)
    }
}

/// A copy of the queue states, handed to the device on activation.
fn clone_queues(qs: &Vec<Queue>) -> (r: Vec<Queue>)
    ensures
        r@ == qs@,
{
    let mut r: Vec<Queue> = Vec::new();
    let n = qs.len();
    for i in 0..n
        invariant
            n == qs@.len(),
            r@ =~= qs@.subrange(0, i as int),
    {
        r.push(qs[i]);
    }
    proof {
        assert(r@ =~= qs@);
    }
    r
}

/// A clone of the attached memory handle.
fn clone_mem_opt(m: &Option<GuestMemoryMmap>) -> (r: GuestMemoryMmap)
    requires
        m is Some,
    ensures
        mem_valid_addrs(r) == mem_valid_addrs(m->Some_0),
{
    match m {
        Some(mm) => mem_clone(mm),
        None => vstd::pervasive::unreached(),
    }
}

} // verus!
