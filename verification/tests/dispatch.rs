//! Region-map dispatch tests, boundary offsets included, plus the
//! notification mapping and the end-to-end scenario.

use std::sync::atomic::Ordering;
use virtio_pci::allocator::SystemAllocator;
use virtio_pci::device::StubDevice;
use virtio_pci::pci_device::VirtioPciDevice;
use vm_memory::{GuestAddress, GuestMemoryMmap};
use vmm_sys_util::eventfd::EventFd;

fn guest_memory() -> GuestMemoryMmap {
    GuestMemoryMmap::from_ranges(&[(GuestAddress(0), 0x10000)]).unwrap()
}

fn transport(queue_sizes: Vec<u16>) -> VirtioPciDevice<StubDevice> {
    let device = StubDevice::new(1, queue_sizes, vec![0xaa, 0xbb, 0xcc, 0xdd]);
    VirtioPciDevice::new(guest_memory(), device).unwrap()
}

fn write_u16(t: &mut VirtioPciDevice<StubDevice>, offset: u64, v: u16) {
    t.write_bar(offset, &v.to_le_bytes());
}

fn write_u32(t: &mut VirtioPciDevice<StubDevice>, offset: u64, v: u32) {
    t.write_bar(offset, &v.to_le_bytes());
}

fn setup_queue(t: &mut VirtioPciDevice<StubDevice>, idx: u16) {
    write_u16(t, 0x16, idx);
    write_u16(t, 0x18, 256);
    let base = 0x1000u32 + 0x3000 * idx as u32;
    write_u32(t, 0x20, base);
    write_u32(t, 0x24, 0);
    write_u32(t, 0x28, base + 0x1000);
    write_u32(t, 0x2c, 0);
    write_u32(t, 0x30, base + 0x2000);
    write_u32(t, 0x34, 0);
    write_u16(t, 0x1c, 1);
}

#[test]
fn common_config_boundary() {
    let mut t = transport(vec![256]);
    // 0x34 (queue used-ring high half) is the last common-config register; a
    // read there is served, a read at 0x38 is not.
    write_u16(&mut t, 0x16, 0);
    write_u32(&mut t, 0x30, 0x3000);
    write_u32(&mut t, 0x34, 0x1);
    let mut buf = vec![0xffu8; 4];
    t.read_bar(0x34, &mut buf);
    assert_eq!(buf, vec![1, 0, 0, 0]);
    let mut buf2 = vec![0xffu8; 4];
    t.read_bar(0x38, &mut buf2);
    assert_eq!(buf2, vec![0xff; 4]);
    // 0x37 still falls in the common-config region, 0x38 does not; neither
    // maps a register, so single-byte accesses there change nothing.
    let before = t.common_config;
    let mut one = vec![0x5au8];
    t.read_bar(0x37, &mut one);
    assert_eq!(one[0], 0x5a);
    t.write_bar(0x37, &[1]);
    t.write_bar(0x38, &[1]);
    assert_eq!(t.common_config, before);
}

#[test]
fn isr_boundary() {
    let mut t = transport(vec![256]);
    t.interrupt_status.fetch_or(0b11, Ordering::SeqCst);
    // 0xfff is unmapped: the buffer stays and nothing clears.
    let mut buf = vec![0x55u8];
    t.read_bar(0xfff, &mut buf);
    assert_eq!(buf[0], 0x55);
    assert_eq!(t.interrupt_status.load(Ordering::SeqCst), 0b11);
    // 0x1001 is unmapped too.
    t.read_bar(0x1001, &mut buf);
    assert_eq!(buf[0], 0x55);
    assert_eq!(t.interrupt_status.load(Ordering::SeqCst), 0b11);
    // 0x1000 is the ISR byte: it reads and clears.
    t.read_bar(0x1000, &mut buf);
    assert_eq!(buf[0], 0b11);
    assert_eq!(t.interrupt_status.load(Ordering::SeqCst), 0);
}

#[test]
fn device_config_boundary() {
    let mut t = transport(vec![256]);
    // 0x1fff is unmapped; 0x2000 reads the device's first config byte.
    let mut buf = vec![0u8];
    t.read_bar(0x1fff, &mut buf);
    assert_eq!(buf[0], 0);
    t.read_bar(0x2000, &mut buf);
    assert_eq!(buf[0], 0xaa);
    // 0x2003 reads the last configured byte; past the config space the
    // buffer is left alone.
    let mut buf2 = vec![0x99u8];
    t.read_bar(0x2003, &mut buf2);
    assert_eq!(buf2[0], 0xdd);
    let mut buf3 = vec![0x99u8];
    t.read_bar(0x2004, &mut buf3);
    assert_eq!(buf3[0], 0x99);
}

#[test]
fn device_config_write_lands_in_device() {
    let mut t = transport(vec![256]);
    t.write_bar(0x2001, &[0x11, 0x22]);
    assert_eq!(t.device.config_space, vec![0xaa, 0x11, 0x22, 0xdd]);
}

#[test]
fn notification_boundary_is_noop() {
    let mut t = transport(vec![256]);
    // 0x2fff is the last device-config byte offset; 0x3000 through 0x3fff is
    // the notification range, handled out of band: reads and writes are
    // no-ops; 0x4000 is outside the BAR.
    let mut buf = vec![0x77u8];
    t.read_bar(0x3000, &mut buf);
    assert_eq!(buf[0], 0x77);
    t.read_bar(0x3fff, &mut buf);
    assert_eq!(buf[0], 0x77);
    t.read_bar(0x4000, &mut buf);
    assert_eq!(buf[0], 0x77);
    t.write_bar(0x3000, &[1]);
    t.write_bar(0x3fff, &[1]);
    t.write_bar(0x4000, &[1]);
    assert_eq!(t.device.config_space, vec![0xaa, 0xbb, 0xcc, 0xdd]);
}

#[test]
fn notification_mapping_per_queue() {
    let mut t = transport(vec![256, 256]);
    let mut allocator = SystemAllocator::new(0x1_0000_0000, 0x1000_0000);
    let ranges = t.allocate_bars(&mut allocator).unwrap();
    let base = ranges[0].0;
    let mapping = t.ioeventfds();
    assert_eq!(mapping.len(), 2);
    assert_eq!(mapping[0].1, base + 0x3000);
    assert_eq!(mapping[0].2, 0);
    assert_eq!(mapping[1].1, base + 0x3004);
    assert_eq!(mapping[1].2, 1);
}

#[test]
fn end_to_end_lifecycle() {
    // A device declaring 2 queues of max size 256 and no extra BARs.
    let mut t = transport(vec![256, 256]);
    let mut allocator = SystemAllocator::new(0x1_0000_0000, 0x1000_0000);
    let ranges = t.allocate_bars(&mut allocator).unwrap();
    assert_eq!(ranges.len(), 1);
    assert_eq!(ranges[0].1, 0x4000);

    let irq = EventFd::new(0).unwrap();
    t.assign_irq(irq, 5, virtio_pci::pci_config::PciInterruptPin::IntA);
    setup_queue(&mut t, 0);
    setup_queue(&mut t, 1);

    for status in [0x1u8, 0x3, 0x7] {
        t.write_bar(0x14, &[status]);
        assert!(!t.device_activated);
    }
    t.write_bar(0x14, &[0xf]);
    assert!(t.device_activated);

    t.write_bar(0x14, &[0x0]);
    assert!(!t.device_activated);
    for q in t.queues.iter() {
        assert!(!q.ready);
    }
}
