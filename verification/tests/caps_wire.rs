//! Wire-format tests for the capability records.

use virtio_pci::caps::{PciCapabilityType, VirtioPciCap, VirtioPciNotifyCap};
use virtio_pci::pci_config::PciCapability;

#[test]
fn generic_cap_exact_bytes() {
    let cap = VirtioPciCap::new(PciCapabilityType::CommonConfig, 0, 0, 56);
    let bytes = PciCapability::bytes(&cap);
    assert_eq!(
        bytes,
        vec![16u8, 1, 0, 0, 0, 0, 0, 0, 0, 0, 56, 0, 0, 0]
    );
}

#[test]
fn generic_cap_round_trip() {
    let cap = VirtioPciCap::new(PciCapabilityType::DeviceConfig, 3, 0x2000, 0x1000);
    let bytes = PciCapability::bytes(&cap);
    let parsed = VirtioPciCap::parse(&bytes).unwrap();
    assert_eq!(parsed.cfg_type, 4);
    assert_eq!(parsed.pci_bar, 3);
    assert_eq!(parsed.offset, 0x2000);
    assert_eq!(parsed.length, 0x1000);
    assert_eq!(parsed, cap);
}

#[test]
fn notify_cap_round_trip() {
    let cap = VirtioPciNotifyCap::new(PciCapabilityType::NotifyConfig, 0, 0x3000, 0x1000, 4);
    let bytes = PciCapability::bytes(&cap);
    assert_eq!(bytes.len(), 18);
    let parsed = VirtioPciNotifyCap::parse(&bytes).unwrap();
    assert_eq!(parsed.cap.cap_len, 20);
    assert_eq!(parsed.cap.cfg_type, 2);
    assert_eq!(parsed.cap.pci_bar, 0);
    assert_eq!(parsed.cap.offset, 0x3000);
    assert_eq!(parsed.cap.length, 0x1000);
    assert_eq!(parsed.notify_off_multiplier, 4);
    assert_eq!(parsed, cap);
}

#[test]
fn notify_cap_exact_bytes() {
    let cap = VirtioPciNotifyCap::new(PciCapabilityType::NotifyConfig, 2, 0x3000, 0x1000, 4);
    let bytes = PciCapability::bytes(&cap);
    assert_eq!(
        bytes,
        vec![20u8, 2, 2, 0, 0, 0, 0, 0x30, 0, 0, 0, 0x10, 0, 0, 4, 0, 0, 0]
    );
}

#[test]
fn cap_parse_rejects_bad_sizes() {
    assert!(VirtioPciCap::parse(&[0u8; 13]).is_none());
    assert!(VirtioPciCap::parse(&[0u8; 15]).is_none());
    assert!(VirtioPciNotifyCap::parse(&[0u8; 17]).is_none());
}

#[test]
fn cap_type_wire_ids() {
    assert_eq!(PciCapabilityType::CommonConfig.to_byte(), 1);
    assert_eq!(PciCapabilityType::NotifyConfig.to_byte(), 2);
    assert_eq!(PciCapabilityType::IsrConfig.to_byte(), 3);
    assert_eq!(PciCapabilityType::DeviceConfig.to_byte(), 4);
    assert_eq!(PciCapabilityType::PciConfig.to_byte(), 5);
    assert_eq!(PciCapabilityType::from_byte(3), Some(PciCapabilityType::IsrConfig));
    assert_eq!(PciCapabilityType::from_byte(0), None);
    assert_eq!(PciCapabilityType::from_byte(6), None);
}
