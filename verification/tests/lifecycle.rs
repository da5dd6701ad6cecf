//! Activation and reset lifecycle tests, driven through guest-visible writes.

use std::sync::atomic::Ordering;
use virtio_pci::device::StubDevice;
use virtio_pci::pci_device::VirtioPciDevice;
use vm_memory::{GuestAddress, GuestMemoryMmap};
use vmm_sys_util::eventfd::EventFd;

fn guest_memory() -> GuestMemoryMmap {
    GuestMemoryMmap::from_ranges(&[(GuestAddress(0), 0x10000)]).unwrap()
}

fn transport(queue_sizes: Vec<u16>) -> VirtioPciDevice<StubDevice> {
    let device = StubDevice::new(1, queue_sizes, vec![0xaa, 0xbb, 0xcc, 0xdd]);
    VirtioPciDevice::new(guest_memory(), device).unwrap()
}

fn write_u16(t: &mut VirtioPciDevice<StubDevice>, offset: u64, v: u16) {
    t.write_bar(offset, &v.to_le_bytes());
}

fn write_u32(t: &mut VirtioPciDevice<StubDevice>, offset: u64, v: u32) {
    t.write_bar(offset, &v.to_le_bytes());
}

fn write_status(t: &mut VirtioPciDevice<StubDevice>, status: u8) {
    t.write_bar(0x14, &[status]);
}

/// Configures queue `idx` with size 256 and rings inside guest memory, then
/// enables it.
fn setup_queue(t: &mut VirtioPciDevice<StubDevice>, idx: u16) {
    write_u16(t, 0x16, idx);
    write_u16(t, 0x18, 256);
    let base = 0x1000u32 + 0x3000 * idx as u32;
    write_u32(t, 0x20, base);
    write_u32(t, 0x24, 0);
    write_u32(t, 0x28, base + 0x1000);
    write_u32(t, 0x2c, 0);
    write_u32(t, 0x30, base + 0x2000);
    write_u32(t, 0x34, 0);
    write_u16(t, 0x1c, 1);
}

fn arm(t: &mut VirtioPciDevice<StubDevice>) {
    let irq = EventFd::new(0).unwrap();
    t.assign_irq(irq, 5, virtio_pci::pci_config::PciInterruptPin::IntA);
    setup_queue(t, 0);
    setup_queue(t, 1);
}

#[test]
fn activation_only_at_full_handshake() {
    let mut t = transport(vec![256, 256]);
    arm(&mut t);
    write_status(&mut t, 0x1);
    assert!(!t.device_activated);
    write_status(&mut t, 0x3);
    assert!(!t.device_activated);
    write_status(&mut t, 0x7);
    assert!(!t.device_activated);
    write_status(&mut t, 0xf);
    assert!(t.device_activated);
    assert_eq!(t.device.activate_calls, 1);
}

#[test]
fn activation_happens_exactly_once() {
    let mut t = transport(vec![256, 256]);
    arm(&mut t);
    write_status(&mut t, 0xf);
    assert!(t.device_activated);
    assert_eq!(t.device.activate_calls, 1);
    write_status(&mut t, 0xf);
    assert!(t.device_activated);
    assert_eq!(t.device.activate_calls, 1);
}

#[test]
fn activation_transfers_signal_handles() {
    let mut t = transport(vec![256, 256]);
    arm(&mut t);
    assert!(t.interrupt_evt().is_some());
    assert_eq!(t.queue_evts().len(), 2);
    write_status(&mut t, 0xf);
    assert!(t.device_activated);
    assert!(t.interrupt_evt().is_none());
    assert_eq!(t.queue_evts().len(), 0);
    assert!(t.device.interrupt_evt.is_some());
    assert_eq!(t.device.queue_evts.len(), 2);
}

#[test]
fn activation_needs_valid_queues() {
    let mut t = transport(vec![256, 256]);
    let irq = EventFd::new(0).unwrap();
    t.assign_irq(irq, 5, virtio_pci::pci_config::PciInterruptPin::IntA);
    setup_queue(&mut t, 0);
    // Queue 1 is never enabled.
    write_status(&mut t, 0xf);
    assert!(!t.device_activated);
    assert_eq!(t.device.activate_calls, 0);
}

#[test]
fn activation_rejects_bad_queue_size() {
    let mut t = transport(vec![256]);
    let irq = EventFd::new(0).unwrap();
    t.assign_irq(irq, 5, virtio_pci::pci_config::PciInterruptPin::IntA);
    setup_queue(&mut t, 0);
    // A non-power-of-two ring size leaves the queue invalid.
    write_u16(&mut t, 0x16, 0);
    write_u16(&mut t, 0x18, 200);
    write_status(&mut t, 0xf);
    assert!(!t.device_activated);
    // Restoring a power-of-two size makes it live again.
    write_u16(&mut t, 0x18, 128);
    write_status(&mut t, 0xf);
    assert!(t.device_activated);
}

#[test]
fn reset_round_trip() {
    let mut t = transport(vec![256, 256]);
    arm(&mut t);
    write_status(&mut t, 0xf);
    assert!(t.device_activated);

    write_status(&mut t, 0x0);
    assert!(!t.device_activated);
    assert!(t.interrupt_evt().is_some());
    assert_eq!(t.queue_evts().len(), 2);
    assert_eq!(t.common_config.queue_select, 0);
    for q in t.queues.iter() {
        assert!(!q.ready);
        assert_eq!(q.size, q.max_size);
        assert_eq!(q.desc_table, 0);
        assert_eq!(q.avail_ring, 0);
        assert_eq!(q.used_ring, 0);
    }
}

#[test]
fn aggregator_is_shared_with_activated_device() {
    let mut t = transport(vec![256, 256]);
    arm(&mut t);
    write_status(&mut t, 0xf);
    assert!(t.device_activated);
    // The device holds a handle to the same aggregator: bits it raises show
    // up in the transport's ISR byte, and the read clears them for both.
    let dev_side = t.device.interrupt_status.as_ref().unwrap().clone();
    dev_side.fetch_or(0b1, Ordering::SeqCst);
    let mut buf = vec![0u8];
    t.read_bar(0x1000, &mut buf);
    assert_eq!(buf[0], 0b1);
    assert_eq!(dev_side.load(Ordering::SeqCst), 0);
    // The notification handles the device received are live kernel handles.
    t.device.queue_evts[0].write(1).unwrap();
    assert_eq!(t.device.queue_evts[0].read().unwrap(), 1);
}

#[test]
fn isr_read_clears() {
    let mut t = transport(vec![256]);
    t.interrupt_status.fetch_or(0b101, Ordering::SeqCst);
    let mut buf = vec![0u8];
    t.read_bar(0x1000, &mut buf);
    assert_eq!(buf[0], 0b101);
    let mut buf2 = vec![0xffu8];
    t.read_bar(0x1000, &mut buf2);
    assert_eq!(buf2[0], 0);
}

#[test]
fn isr_write_clears_acknowledged_bits() {
    let mut t = transport(vec![256]);
    t.interrupt_status.fetch_or(0b101, Ordering::SeqCst);
    t.write_bar(0x1000, &[0b001]);
    assert_eq!(t.interrupt_status.load(Ordering::SeqCst), 0b100);
}
