//! Virtio PCI capability records.
//!
//! Each record describes where one register region lives inside a BAR, in the
//! fixed little-endian layout the virtio 1.0 wire format mandates.  The two
//! leading generic bytes of an on-wire PCI capability (vendor id and next
//! pointer) are supplied by the configuration-space register file when the
//! record is registered, so the record body itself starts at the length byte.

use crate::pci_config::{PciCapability, PciCapabilityID};
use vstd::bytes::*;
use vstd::prelude::*;
use vstd::slice::slice_subrange;

verus! {

/// On-wire length of a generic capability, counting the two generic header
/// bytes the register file prepends.
pub const VIRTIO_PCI_CAPABILITY_BYTES: u8 = 16;

/// Serialized length of the generic record body (without the two-byte header).
pub const CAP_BODY_BYTES: usize = 14;

/// On-wire length of the notify capability, counting the two generic header
/// bytes the register file prepends.
pub const VIRTIO_PCI_NOTIFY_CAPABILITY_BYTES: u8 = 20;

/// Serialized length of the notify record body (without the two-byte header).
pub const NOTIFY_CAP_BODY_BYTES: usize = 18;

/// Which register region a virtio PCI capability points at.
#[derive(Clone, Copy, PartialEq, Eq, Structural, Debug)]
pub enum PciCapabilityType {
    CommonConfig,
    NotifyConfig,
    IsrConfig,
    DeviceConfig,
    PciConfig,
}

impl PciCapabilityType {
    /// Wire identifier of the region kind (virtio 1.0: 1 through 5).
    pub open spec fn spec_byte(self) -> u8 {
        match self {
            PciCapabilityType::CommonConfig => 1,
            PciCapabilityType::NotifyConfig => 2,
            PciCapabilityType::IsrConfig => 3,
            PciCapabilityType::DeviceConfig => 4,
            PciCapabilityType::PciConfig => 5,
        }
    }

    /// Region kind decoded from its wire identifier.
    pub open spec fn spec_from_byte(b: u8) -> Option<PciCapabilityType> {
        if b == 1 {
            Some(PciCapabilityType::CommonConfig)
        } else if b == 2 {
            Some(PciCapabilityType::NotifyConfig)
        } else if b == 3 {
            Some(PciCapabilityType::IsrConfig)
        } else if b == 4 {
            Some(PciCapabilityType::DeviceConfig)
        } else if b == 5 {
            Some(PciCapabilityType::PciConfig)
        } else {
            None
        }
    }

    pub fn to_byte(self) -> (r: u8)
        ensures
            r == self.spec_byte(),
    {
        match self {
            PciCapabilityType::CommonConfig => 1,
            PciCapabilityType::NotifyConfig => 2,
            PciCapabilityType::IsrConfig => 3,
            PciCapabilityType::DeviceConfig => 4,
            PciCapabilityType::PciConfig => 5,
        }
    }

    pub fn from_byte(b: u8) -> (r: Option<PciCapabilityType>)
        ensures
            r == PciCapabilityType::spec_from_byte(b),
    {
        if b == 1 {
            Some(PciCapabilityType::CommonConfig)
        } else if b == 2 {
            Some(PciCapabilityType::NotifyConfig)
        } else if b == 3 {
            Some(PciCapabilityType::IsrConfig)
        } else if b == 4 {
            Some(PciCapabilityType::DeviceConfig)
        } else if b == 5 {
            Some(PciCapabilityType::PciConfig)
        } else {
            None
        }
    }

    /// Every region kind decodes back from its own wire identifier.
    pub proof fn lemma_byte_round_trip(self)
        ensures
            PciCapabilityType::spec_from_byte(self.spec_byte()) == Some(self),
    {
    }
}

/// A generic virtio PCI capability record: points a guest driver at one
/// register region inside a BAR.
#[derive(Clone, Copy, PartialEq, Eq, Structural, Debug)]
pub struct VirtioPciCap {
    /// Generic PCI field: on-wire capability length.
    pub cap_len: u8,
    /// Identifies the structure (a `PciCapabilityType` wire id).
    pub cfg_type: u8,
    /// Where to find it.
    pub pci_bar: u8,
    /// Offset within the BAR.
    pub offset: u32,
    /// Length of the region, in bytes.
    pub length: u32,
}

impl VirtioPciCap {
    /// The serialized record body: length, type and BAR bytes, three bytes of
    /// padding to a full dword, then offset and length, little-endian.
    pub open spec fn spec_bytes(self) -> Seq<u8> {
        seq![self.cap_len, self.cfg_type, self.pci_bar, 0u8, 0u8, 0u8]
            + spec_u32_to_le_bytes(self.offset) + spec_u32_to_le_bytes(self.length)
    }

    /// The record body decoded back into a record; `None` when the buffer has
    /// the wrong size or a nonzero padding byte.
    pub open spec fn spec_parse(s: Seq<u8>) -> Option<VirtioPciCap> {
        if s.len() == CAP_BODY_BYTES && s[3] == 0 && s[4] == 0 && s[5] == 0 {
            Some(
                VirtioPciCap {
                    cap_len: s[0],
                    cfg_type: s[1],
                    pci_bar: s[2],
                    offset: spec_u32_from_le_bytes(s.subrange(6, 10)),
                    length: spec_u32_from_le_bytes(s.subrange(10, 14)),
                },
            )
        } else {
            None
        }
    }

    pub fn new(cfg_type: PciCapabilityType, pci_bar: u8, offset: u32, length: u32) -> (r:
        VirtioPciCap)
        ensures
            r == (VirtioPciCap {
                cap_len: VIRTIO_PCI_CAPABILITY_BYTES,
                cfg_type: cfg_type.spec_byte(),
                pci_bar,
                offset,
                length,
            }),
    {
        VirtioPciCap {
            cap_len: VIRTIO_PCI_CAPABILITY_BYTES,
            cfg_type: cfg_type.to_byte(),
            pci_bar,
            offset,
            length,
        }
    }

    /// Deserializes a record body.
    pub fn parse(s: &[u8]) -> (r: Option<VirtioPciCap>)
        ensures
            r == VirtioPciCap::spec_parse(s@),
    {
        if s.len() != CAP_BODY_BYTES {
            return None;
        }
        if s[3] != 0 || s[4] != 0 || s[5] != 0 {
            return None;
        }
        let offset = u32_from_le_bytes(slice_subrange(s, 6, 10));
        let length = u32_from_le_bytes(slice_subrange(s, 10, 14));
        Some(VirtioPciCap { cap_len: s[0], cfg_type: s[1], pci_bar: s[2], offset, length })
    }

    /// Serializing a record and parsing the bytes back recovers the record,
    /// field for field.
    pub proof fn lemma_round_trip(self)
        ensures
            VirtioPciCap::spec_parse(self.spec_bytes()) == Some(self),
    {
        vstd::bytes::lemma_auto_spec_u32_to_from_le_bytes();
        let s = self.spec_bytes();
        assert(s.subrange(6, 10) =~= spec_u32_to_le_bytes(self.offset));
        assert(s.subrange(10, 14) =~= spec_u32_to_le_bytes(self.length));
    }
}

/// The notify-region capability record: the generic record extended with the
/// per-queue notify offset multiplier.
#[derive(Clone, Copy, PartialEq, Eq, Structural, Debug)]
pub struct VirtioPciNotifyCap {
    pub cap: VirtioPciCap,
    pub notify_off_multiplier: u32,
}

impl VirtioPciNotifyCap {
    /// The serialized record body: the generic body followed by the
    /// multiplier, little-endian.
    pub open spec fn spec_bytes(self) -> Seq<u8> {
        self.cap.spec_bytes() + spec_u32_to_le_bytes(self.notify_off_multiplier)
    }

    /// The notify record body decoded back into a record.
    pub open spec fn spec_parse(s: Seq<u8>) -> Option<VirtioPciNotifyCap> {
        if s.len() == NOTIFY_CAP_BODY_BYTES {
            match VirtioPciCap::spec_parse(s.subrange(0, 14)) {
                Some(cap) => Some(
                    VirtioPciNotifyCap {
                        cap,
                        notify_off_multiplier: spec_u32_from_le_bytes(s.subrange(14, 18)),
                    },
                ),
                None => None,
            }
        } else {
            None
        }
    }

    pub fn new(
        cfg_type: PciCapabilityType,
        pci_bar: u8,
        offset: u32,
        length: u32,
        multiplier: u32,
    ) -> (r: VirtioPciNotifyCap)
        ensures
            r == (VirtioPciNotifyCap {
                cap: VirtioPciCap {
                    cap_len: VIRTIO_PCI_NOTIFY_CAPABILITY_BYTES,
                    cfg_type: cfg_type.spec_byte(),
                    pci_bar,
                    offset,
                    length,
                },
                notify_off_multiplier: multiplier,
            }),
    {
        VirtioPciNotifyCap {
            cap: VirtioPciCap {
                cap_len: VIRTIO_PCI_NOTIFY_CAPABILITY_BYTES,
                cfg_type: cfg_type.to_byte(),
                pci_bar,
                offset,
                length,
            },
            notify_off_multiplier: multiplier,
        }
    }

    /// Deserializes a notify record body.
    pub fn parse(s: &[u8]) -> (r: Option<VirtioPciNotifyCap>)
        ensures
            r == VirtioPciNotifyCap::spec_parse(s@),
    {
        if s.len() != NOTIFY_CAP_BODY_BYTES {
            return None;
        }
        let head = slice_subrange(s, 0, 14);
        match VirtioPciCap::parse(head) {
            Some(cap) => {
                let multiplier = u32_from_le_bytes(slice_subrange(s, 14, 18));
                Some(VirtioPciNotifyCap { cap, notify_off_multiplier: multiplier })
            },
            None => None,
        }
    }

    /// Serializing a notify record and parsing the bytes back recovers the
    /// record, multiplier included.
    pub proof fn lemma_round_trip(self)
        ensures
            VirtioPciNotifyCap::spec_parse(self.spec_bytes()) == Some(self),
    {
        vstd::bytes::lemma_auto_spec_u32_to_from_le_bytes();
        let s = self.spec_bytes();
        assert(s.subrange(0, 14) =~= self.cap.spec_bytes());
        self.cap.lemma_round_trip();
        assert(s.subrange(14, 18) =~= spec_u32_to_le_bytes(self.notify_off_multiplier));
    }
}

impl PciCapability for VirtioPciCap {
    open spec fn bytes_spec(&self) -> Seq<u8> {
        self.spec_bytes()
    }

    open spec fn id_spec(&self) -> PciCapabilityID {
        PciCapabilityID::VendorSpecific
    }

    /// Serializes the record body.
    fn bytes(&self) -> (r: Vec<u8>) {
        let mut v: Vec<u8> = Vec::new();
        v.push(self.cap_len);
        v.push(self.cfg_type);
        v.push(self.pci_bar);
        v.push(0u8);
        v.push(0u8);
        v.push(0u8);
        let mut off = u32_to_le_bytes(self.offset);
        v.append(&mut off);
        let mut len = u32_to_le_bytes(self.length);
        v.append(&mut len);
        proof {
            vstd::bytes::lemma_auto_spec_u32_to_from_le_bytes();
            assert(v@ =~= self.spec_bytes());
        }
        v
    }

    fn id(&self) -> (r: PciCapabilityID) {
        PciCapabilityID::VendorSpecific
    }
}

impl PciCapability for VirtioPciNotifyCap {
    open spec fn bytes_spec(&self) -> Seq<u8> {
        self.spec_bytes()
    }

    open spec fn id_spec(&self) -> PciCapabilityID {
        PciCapabilityID::VendorSpecific
    }

    /// Serializes the record body.
    fn bytes(&self) -> (r: Vec<u8>) {
        let mut v = PciCapability::bytes(&self.cap);
        let mut m = u32_to_le_bytes(self.notify_off_multiplier);
        v.append(&mut m);
        proof {
            vstd::bytes::lemma_auto_spec_u32_to_from_le_bytes();
            assert(v@ =~= self.spec_bytes());
        }
        v
    }

    fn id(&self) -> (r: PciCapabilityID) {
        PciCapabilityID::VendorSpecific
    }
}

} // verus!
