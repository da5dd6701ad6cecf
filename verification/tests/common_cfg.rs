//! Common-config register view tests and queue liveness checks.

use virtio_pci::device::StubDevice;
use virtio_pci::pci_device::VirtioPciDevice;
use virtio_pci::queue::Queue;
use vm_memory::{GuestAddress, GuestMemoryMmap};

fn guest_memory() -> GuestMemoryMmap {
    GuestMemoryMmap::from_ranges(&[(GuestAddress(0), 0x10000)]).unwrap()
}

fn transport(queue_sizes: Vec<u16>) -> VirtioPciDevice<StubDevice> {
    let device = StubDevice::new(1, queue_sizes, Vec::new());
    VirtioPciDevice::new(guest_memory(), device).unwrap()
}

fn read_vec(t: &mut VirtioPciDevice<StubDevice>, offset: u64, len: usize) -> Vec<u8> {
    let mut buf = vec![0u8; len];
    t.read_bar(offset, &mut buf);
    buf
}

#[test]
fn status_write_and_read_back() {
    let mut t = transport(vec![64]);
    t.write_bar(0x14, &[0x3]);
    assert_eq!(read_vec(&mut t, 0x14, 1), vec![0x3]);
    assert_eq!(t.common_config.driver_status, 0x3);
}

#[test]
fn num_queues_and_queue_select() {
    let mut t = transport(vec![64, 128, 256]);
    assert_eq!(read_vec(&mut t, 0x12, 2), vec![3, 0]);
    t.write_bar(0x16, &2u16.to_le_bytes());
    assert_eq!(read_vec(&mut t, 0x16, 2), vec![2, 0]);
    // The notify offset mirrors the queue index.
    assert_eq!(read_vec(&mut t, 0x1e, 2), vec![2, 0]);
    // The selected queue's size reads back.
    assert_eq!(read_vec(&mut t, 0x18, 2), vec![0, 1]);
}

#[test]
fn queue_size_write_applies_to_selected_queue() {
    let mut t = transport(vec![256, 256]);
    t.write_bar(0x16, &1u16.to_le_bytes());
    t.write_bar(0x18, &64u16.to_le_bytes());
    assert_eq!(t.queues[0].size, 256);
    assert_eq!(t.queues[1].size, 64);
}

#[test]
fn out_of_range_queue_select_is_ignored() {
    let mut t = transport(vec![256]);
    t.write_bar(0x16, &7u16.to_le_bytes());
    t.write_bar(0x18, &64u16.to_le_bytes());
    assert_eq!(t.queues[0].size, 256);
    // Reads of the selected queue's registers come back zero.
    assert_eq!(read_vec(&mut t, 0x18, 2), vec![0, 0]);
    assert_eq!(read_vec(&mut t, 0x1c, 2), vec![0, 0]);
}

#[test]
fn ring_addresses_assemble_from_halves() {
    let mut t = transport(vec![256]);
    t.write_bar(0x16, &0u16.to_le_bytes());
    t.write_bar(0x20, &0x1234_5678u32.to_le_bytes());
    t.write_bar(0x24, &0x0000_00abu32.to_le_bytes());
    assert_eq!(t.queues[0].desc_table, 0x0000_00ab_1234_5678);
    assert_eq!(read_vec(&mut t, 0x20, 4), 0x1234_5678u32.to_le_bytes().to_vec());
    assert_eq!(read_vec(&mut t, 0x24, 4), 0x0000_00abu32.to_le_bytes().to_vec());
}

#[test]
fn misaligned_or_mis_sized_accesses_are_ignored() {
    let mut t = transport(vec![256]);
    t.write_bar(0x15, &[9]);
    assert_eq!(t.common_config.config_generation, 0);
    t.write_bar(0x14, &[1, 2]);
    assert_eq!(t.common_config.driver_status, 0);
    let before = t.queues[0];
    t.write_bar(0x21, &0u32.to_le_bytes());
    assert_eq!(t.queues[0], before);
}

#[test]
fn queue_liveness_against_memory() {
    let mem = guest_memory();
    let mut q = Queue::new(256);
    // Disabled queues are never live.
    assert!(!q.is_valid(&mem));
    q.ready = true;
    q.desc_table = 0x1000;
    q.avail_ring = 0x2000;
    q.used_ring = 0x3000;
    assert!(q.is_valid(&mem));
    // A ring outside the mapping makes the queue invalid.
    q.used_ring = 0x2_0000;
    assert!(!q.is_valid(&mem));
    q.used_ring = 0x3000;
    // So does a ring that only starts inside it.
    q.desc_table = 0xff80;
    assert!(!q.is_valid(&mem));
    q.desc_table = 0x1000;
    // And a zero or oversized or non-power-of-two ring size.
    q.size = 0;
    assert!(!q.is_valid(&mem));
    q.size = 300;
    assert!(!q.is_valid(&mem));
    q.size = 192;
    assert!(!q.is_valid(&mem));
    q.size = 256;
    assert!(q.is_valid(&mem));
}

#[test]
fn queue_reset_restores_defaults() {
    let mut q = Queue::new(128);
    q.size = 32;
    q.ready = true;
    q.desc_table = 0x1000;
    q.reset();
    assert_eq!(q, Queue::new(128));
}
