//! Configuration-space tests: identity registers, the narrow-write shim, BAR
//! registration and the capability list.

use virtio_pci::allocator::SystemAllocator;
use virtio_pci::caps::{VirtioPciCap, VirtioPciNotifyCap};
use virtio_pci::device::StubDevice;
use virtio_pci::pci_config::{PciBarConfiguration, PciConfigError};
use virtio_pci::pci_device::{PciDeviceError, VirtioPciDevice};
use vm_memory::{GuestAddress, GuestMemoryMmap};

fn guest_memory() -> GuestMemoryMmap {
    GuestMemoryMmap::from_ranges(&[(GuestAddress(0), 0x10000)]).unwrap()
}

fn transport(device_type: u32) -> VirtioPciDevice<StubDevice> {
    let device = StubDevice::new(device_type, vec![256], Vec::new());
    VirtioPciDevice::new(guest_memory(), device).unwrap()
}

#[test]
fn identity_registers() {
    // Vendor 0x1af4, device 0x1040 + type; subsystem ids mirror them.
    let t = transport(1);
    assert_eq!(t.read_config_register(0), 0x1041_1af4);
    // Class "Other" (0xff), subclass 0xff at register 2's high half.
    assert_eq!(t.read_config_register(2) >> 16, 0xffff);
    // Subsystem vendor and id at register 11.
    assert_eq!(t.read_config_register(11), 0x1041_1af4);
}

#[test]
fn shim_writes_by_width() {
    let mut t = transport(1);
    t.write_config_register(16, 0, &[0x78, 0x56, 0x34, 0x12]);
    assert_eq!(t.read_config_register(16), 0x1234_5678);
    t.write_config_register(16, 1, &[0xab]);
    assert_eq!(t.read_config_register(16), 0x1234_ab78);
    t.write_config_register(16, 2, &[0xcd, 0xef]);
    assert_eq!(t.read_config_register(16), 0xefcd_ab78);
}

#[test]
fn shim_ignores_boundary_crossing_and_odd_widths() {
    let mut t = transport(1);
    t.write_config_register(16, 0, &[0x78, 0x56, 0x34, 0x12]);
    // Crossing the 4-byte register boundary is ignored.
    t.write_config_register(16, 3, &[0xaa, 0xbb]);
    assert_eq!(t.read_config_register(16), 0x1234_5678);
    // So is a 3-byte access.
    t.write_config_register(16, 0, &[1, 2, 3]);
    assert_eq!(t.read_config_register(16), 0x1234_5678);
    // And an offset past the register.
    t.write_config_register(16, 4, &[0xaa]);
    assert_eq!(t.read_config_register(16), 0x1234_5678);
}

#[test]
fn read_out_of_range_register() {
    let t = transport(1);
    assert_eq!(t.read_config_register(64), 0xffff_ffff);
}

#[test]
fn capability_list_after_allocation() {
    let mut t = transport(1);
    let mut allocator = SystemAllocator::new(0x1_0000_0000, 0x1000_0000);
    t.allocate_bars(&mut allocator).unwrap();
    let caps = &t.configuration.capabilities;
    assert_eq!(caps.len(), 5);
    // Every record is vendor-specific.
    for c in caps.iter() {
        assert_eq!(c.id, 0x09);
    }
    // The records decode back to the advertised region map.
    let common = VirtioPciCap::parse(&caps[0].bytes).unwrap();
    assert_eq!((common.cfg_type, common.pci_bar, common.offset, common.length), (1, 0, 0, 56));
    let isr = VirtioPciCap::parse(&caps[1].bytes).unwrap();
    assert_eq!((isr.cfg_type, isr.offset, isr.length), (3, 0x1000, 1));
    let dev = VirtioPciCap::parse(&caps[2].bytes).unwrap();
    assert_eq!((dev.cfg_type, dev.offset, dev.length), (4, 0x2000, 0x1000));
    let notify = VirtioPciNotifyCap::parse(&caps[3].bytes).unwrap();
    assert_eq!(
        (notify.cap.cfg_type, notify.cap.offset, notify.cap.length, notify.notify_off_multiplier),
        (2, 0x3000, 0x1000, 4)
    );
    let pcicfg = VirtioPciCap::parse(&caps[4].bytes).unwrap();
    assert_eq!((pcicfg.cfg_type, pcicfg.pci_bar, pcicfg.offset, pcicfg.length), (5, 0, 0, 0));
}

#[test]
fn allocation_failure_surfaces() {
    let mut t = transport(1);
    // A window too small for the 0x4000-byte capability BAR.
    let mut allocator = SystemAllocator::new(0x1_0000_0000, 0x2000);
    match t.allocate_bars(&mut allocator) {
        Err(PciDeviceError::IoAllocationFailed(size)) => assert_eq!(size, 0x4000),
        other => panic!("expected allocation failure, got {:?}", other.is_ok()),
    }
}

#[test]
fn registration_conflict_surfaces() {
    let mut t = transport(1);
    // Occupy BAR slot 0 beforehand: registering the capability BAR conflicts.
    let prior = PciBarConfiguration::default().set_register_index(0).set_address(0x8000_0000).set_size(0x1000);
    t.configuration.add_pci_bar(&prior).unwrap();
    let mut allocator = SystemAllocator::new(0x1_0000_0000, 0x1000_0000);
    match t.allocate_bars(&mut allocator) {
        Err(PciDeviceError::IoRegistrationFailed(_, e)) => {
            assert_eq!(e, PciConfigError::BarInUse)
        },
        other => panic!("expected registration failure, got {:?}", other.is_ok()),
    }
}

#[test]
fn device_bars_are_allocated_and_registered() {
    let device = StubDevice {
        device_bars: vec![
            PciBarConfiguration { reg_idx: 1, addr: 0, size: 0x2000 },
            PciBarConfiguration { reg_idx: 2, addr: 0, size: 0x1000 },
        ],
        ..StubDevice::new(1, vec![256], Vec::new())
    };
    let mut t = VirtioPciDevice::new(guest_memory(), device).unwrap();
    let mut allocator = SystemAllocator::new(0x1_0000_0000, 0x1000_0000);
    let ranges = t.allocate_bars(&mut allocator).unwrap();
    assert_eq!(ranges.len(), 3);
    assert_eq!(ranges[0].1, 0x4000);
    assert_eq!(ranges[1], (ranges[0].0 + 0x4000, 0x2000));
    assert_eq!(ranges[2], (ranges[1].0 + 0x2000, 0x1000));
    assert_eq!(t.configuration.get_bar64_addr(1), ranges[1].0);
    assert_eq!(t.configuration.get_bar64_addr(2), ranges[2].0);
}

#[test]
fn device_bar_allocation_failure_surfaces() {
    let device = StubDevice {
        device_bars: vec![PciBarConfiguration { reg_idx: 1, addr: 0, size: 0x2000 }],
        ..StubDevice::new(1, vec![256], Vec::new())
    };
    let mut t = VirtioPciDevice::new(guest_memory(), device).unwrap();
    // Room for the capability BAR only.
    let mut allocator = SystemAllocator::new(0x1_0000_0000, 0x4000);
    match t.allocate_bars(&mut allocator) {
        Err(PciDeviceError::IoAllocationFailed(size)) => assert_eq!(size, 0x2000),
        other => panic!("expected allocation failure, got {:?}", other.is_ok()),
    }
}

#[test]
fn device_bar_registration_conflict_surfaces() {
    // A device asking for the slot the capability BAR already took.
    let device = StubDevice {
        device_bars: vec![PciBarConfiguration { reg_idx: 0, addr: 0, size: 0x1000 }],
        ..StubDevice::new(1, vec![256], Vec::new())
    };
    let mut t = VirtioPciDevice::new(guest_memory(), device).unwrap();
    let mut allocator = SystemAllocator::new(0x1_0000_0000, 0x1000_0000);
    match t.allocate_bars(&mut allocator) {
        Err(PciDeviceError::IoRegistrationFailed(addr, e)) => {
            assert_eq!(addr, 0x1_0000_4000);
            assert_eq!(e, PciConfigError::BarInUse);
        },
        other => panic!("expected registration failure, got {:?}", other.is_ok()),
    }
}

#[test]
fn bar_slot_errors() {
    let mut t = transport(1);
    let bad = PciBarConfiguration::default().set_register_index(6);
    assert_eq!(t.configuration.add_pci_bar(&bad), Err(PciConfigError::BarInvalid));
    let ok = PciBarConfiguration::default().set_register_index(1).set_address(0x9000_0000).set_size(0x1000);
    assert_eq!(t.configuration.add_pci_bar(&ok), Ok(1));
    assert_eq!(t.configuration.add_pci_bar(&ok), Err(PciConfigError::BarInUse));
    assert_eq!(t.configuration.get_bar64_addr(1), 0x9000_0000);
}

#[test]
fn capability_space_exhausts() {
    let mut t = transport(1);
    // Each round adds five records; the 256-byte space fills up and the
    // failure is CapabilitySpaceFull.
    let mut saw_full = false;
    for _ in 0..10 {
        match t.add_pci_capabilities(0) {
            Ok(()) => (),
            Err(PciDeviceError::CapabilitiesSetup(e)) => {
                assert_eq!(e, PciConfigError::CapabilitySpaceFull);
                saw_full = true;
                break;
            },
            Err(_) => panic!("unexpected error kind"),
        }
    }
    assert!(saw_full);
}

#[test]
fn irq_assignment_lands_in_header() {
    let mut t = transport(1);
    let irq = vmm_sys_util::eventfd::EventFd::new(0).unwrap();
    t.assign_irq(irq, 5, virtio_pci::pci_config::PciInterruptPin::IntA);
    // Register 15 holds the interrupt line (byte 0x3c) and pin (byte 0x3d).
    assert_eq!(t.read_config_register(15) & 0xffff, 0x0105);
    assert!(t.interrupt_evt().is_some());
}

#[test]
fn allocator_hands_out_aligned_disjoint_ranges() {
    let mut a = SystemAllocator::new(0x1_0000_0100, 0x10000);
    let first = a.allocate_mmio_addresses(None, 0x4000).unwrap();
    assert_eq!(first % 0x1000, 0);
    let second = a.allocate_mmio_addresses(None, 0x1000).unwrap();
    assert!(second >= first + 0x4000);
    assert_eq!(a.allocate_mmio_addresses(None, 0x1_0000_0000), None);
    assert_eq!(a.allocate_mmio_addresses(None, 0), None);
}
