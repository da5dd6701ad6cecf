//! A model of the PCI configuration-space register file the transport sits
//! on: 256 bytes of little-endian configuration registers, a BAR table, and a
//! capability list.
//!
//! Generic PCI bus emulation is outside this crate's scope; this model keeps
//! exactly the state the virtio transport reads and writes: the identity
//! registers, byte/word/dword register access for the configuration-space
//! shim, BAR bookkeeping, and the ordered list of capability records with
//! their serialized bodies.  Registered BAR addresses live in a side table;
//! only the low 32 address bits are mirrored into the BAR register bytes.

use vstd::bytes::{spec_u16_to_le_bytes, spec_u32_from_le_bytes, spec_u32_to_le_bytes, u16_to_le_bytes, u32_from_le_bytes, u32_to_le_bytes};
use vstd::prelude::*;
use vstd::slice::slice_subrange;

verus! {

/// Size of the modeled configuration space, in bytes.
pub const CONFIG_SPACE_BYTES: usize = 256;

/// Offset of the first capability record in configuration space.
pub const FIRST_CAPABILITY_OFFSET: usize = 0x40;

/// Number of BAR slots.
pub const NUM_BAR_SLOTS: usize = 6;

/// Errors the register file reports.
#[derive(Clone, Copy, PartialEq, Eq, Structural, Debug)]
pub enum PciConfigError {
    /// No room left in configuration space for another capability record.
    CapabilitySpaceFull,
    /// The requested BAR slot is already registered.
    BarInUse,
    /// The requested BAR slot does not exist.
    BarInvalid,
}

/// PCI class of a device.
#[derive(Clone, Copy, PartialEq, Eq, Structural, Debug)]
pub enum PciClassCode {
    MassStorage,
    NetworkController,
    DisplayController,
    MultimediaController,
    BridgeDevice,
    Other,
}

impl PciClassCode {
    pub open spec fn spec_byte(self) -> u8 {
        match self {
            PciClassCode::MassStorage => 0x01,
            PciClassCode::NetworkController => 0x02,
            PciClassCode::DisplayController => 0x03,
            PciClassCode::MultimediaController => 0x04,
            PciClassCode::BridgeDevice => 0x06,
            PciClassCode::Other => 0xff,
        }
    }

    pub fn to_byte(self) -> (r: u8)
        ensures
            r == self.spec_byte(),
    {
        match self {
            PciClassCode::MassStorage => 0x01,
            PciClassCode::NetworkController => 0x02,
            PciClassCode::DisplayController => 0x03,
            PciClassCode::MultimediaController => 0x04,
            PciClassCode::BridgeDevice => 0x06,
            PciClassCode::Other => 0xff,
        }
    }
}

/// Layout of the configuration-space header.
#[derive(Clone, Copy, PartialEq, Eq, Structural, Debug)]
pub enum PciHeaderType {
    Device,
    Bridge,
}

impl PciHeaderType {
    pub open spec fn spec_byte(self) -> u8 {
        match self {
            PciHeaderType::Device => 0x00,
            PciHeaderType::Bridge => 0x01,
        }
    }

    pub fn to_byte(self) -> (r: u8)
        ensures
            r == self.spec_byte(),
    {
        match self {
            PciHeaderType::Device => 0x00,
            PciHeaderType::Bridge => 0x01,
        }
    }
}

/// The legacy PCI interrupt pin a device raises.
#[derive(Clone, Copy, PartialEq, Eq, Structural, Debug)]
pub enum PciInterruptPin {
    IntA,
    IntB,
    IntC,
    IntD,
}

impl PciInterruptPin {
    pub open spec fn spec_byte(self) -> u8 {
        match self {
            PciInterruptPin::IntA => 1,
            PciInterruptPin::IntB => 2,
            PciInterruptPin::IntC => 3,
            PciInterruptPin::IntD => 4,
        }
    }

    pub fn to_byte(self) -> (r: u8)
        ensures
            r == self.spec_byte(),
    {
        match self {
            PciInterruptPin::IntA => 1,
            PciInterruptPin::IntB => 2,
            PciInterruptPin::IntC => 3,
            PciInterruptPin::IntD => 4,
        }
    }
}

/// A device subclass, reported as the byte the class register holds.
pub trait PciSubclass: Sized {
    spec fn spec_register_value(&self) -> u8;

    fn get_register_value(&self) -> (r: u8)
        ensures
            r == self.spec_register_value(),
    ;
}

/// Generic PCI capability identifiers.
#[derive(Clone, Copy, PartialEq, Eq, Structural, Debug)]
pub enum PciCapabilityID {
    MessageSignalledInterrupts,
    Msix,
    VendorSpecific,
}

impl PciCapabilityID {
    pub open spec fn spec_byte(self) -> u8 {
        match self {
            PciCapabilityID::MessageSignalledInterrupts => 0x05,
            PciCapabilityID::Msix => 0x11,
            PciCapabilityID::VendorSpecific => 0x09,
        }
    }

    pub fn to_byte(self) -> (r: u8)
        ensures
            r == self.spec_byte(),
    {
        match self {
            PciCapabilityID::MessageSignalledInterrupts => 0x05,
            PciCapabilityID::Msix => 0x11,
            PciCapabilityID::VendorSpecific => 0x09,
        }
    }
}

/// A record that can be registered in the capability list.
pub trait PciCapability: Sized {
    /// The serialized record body.
    spec fn bytes_spec(&self) -> Seq<u8>;

    /// The generic capability identifier of the record.
    spec fn id_spec(&self) -> PciCapabilityID;

    fn bytes(&self) -> (r: Vec<u8>)
        ensures
            r@ == self.bytes_spec(),
    ;

    fn id(&self) -> (r: PciCapabilityID)
        ensures
            r == self.id_spec(),
    ;
}

/// One registered capability: its identifier, the configuration-space offset
/// it was placed at, and its serialized body.
pub struct AddedCapability {
    pub id: u8,
    pub offset: usize,
    pub bytes: Vec<u8>,
}

/// A BAR registration request: which slot, and the address and size of the
/// region behind it.
#[derive(Clone, Copy, PartialEq, Eq, Structural, Debug)]
pub struct PciBarConfiguration {
    pub reg_idx: usize,
    pub addr: u64,
    pub size: u64,
}

impl PciBarConfiguration {
    pub fn set_register_index(self, reg_idx: usize) -> (r: PciBarConfiguration)
        ensures
            r == (PciBarConfiguration { reg_idx, ..self }),
    {
        PciBarConfiguration { reg_idx, ..self }
    }

    pub fn set_address(self, addr: u64) -> (r: PciBarConfiguration)
        ensures
            r == (PciBarConfiguration { addr, ..self }),
    {
        PciBarConfiguration { addr, ..self }
    }

    pub fn set_size(self, size: u64) -> (r: PciBarConfiguration)
        ensures
            r == (PciBarConfiguration { size, ..self }),
    {
        PciBarConfiguration { size, ..self }
    }

    pub fn get_size(&self) -> (r: u64)
        ensures
            r == self.size,
    {
        self.size
    }
}

impl Default for PciBarConfiguration {
    fn default() -> (r: Self)
        ensures
            r == (PciBarConfiguration { reg_idx: 0, addr: 0, size: 0 }),
    {
        PciBarConfiguration { reg_idx: 0, addr: 0, size: 0 }
    }
}

/// Where the next capability record would start: records are packed upward
/// from `FIRST_CAPABILITY_OFFSET`, each aligned to the next dword.
pub open spec fn spec_next_cap_offset(prev: int, total_len: int) -> int {
    ((prev + total_len + 3) / 4) * 4
}

/// The bytes of a 256-byte register array after `bytes` is spliced in at
/// `off`.
pub open spec fn spec_write_bytes(regs: Seq<u8>, off: int, bytes: Seq<u8>) -> Seq<u8> {
    Seq::new(regs.len(), |i: int| if off <= i < off + bytes.len() { bytes[i - off] } else { regs[i] })
}

/// The configuration-space register file.
pub struct PciConfiguration {
    /// The 256 bytes of configuration space, little-endian registers.
    pub registers: Vec<u8>,
    /// Which BAR slots are registered.
    pub bar_used: Vec<bool>,
    /// Full 64-bit address of each registered BAR.
    pub bar_addr: Vec<u64>,
    /// Size of each registered BAR.
    pub bar_size: Vec<u64>,
    /// The registered capability records, in registration order.
    pub capabilities: Vec<AddedCapability>,
    /// Where the next capability record would start.
    pub next_cap_offset: usize,
}

impl PciConfiguration {
    /// Shape every method preserves.
    pub open spec fn wf(self) -> bool {
        &&& self.registers@.len() == CONFIG_SPACE_BYTES
        &&& self.bar_used@.len() == NUM_BAR_SLOTS
        &&& self.bar_addr@.len() == NUM_BAR_SLOTS
        &&& self.bar_size@.len() == NUM_BAR_SLOTS
        &&& FIRST_CAPABILITY_OFFSET <= self.next_cap_offset <= CONFIG_SPACE_BYTES
    }

    /// The identity bytes a fresh register file holds: vendor and device id,
    /// class, subclass, header type and subsystem ids at their standard
    /// offsets, everything else zero.
    pub open spec fn spec_new_registers(
        vendor_id: u16,
        device_id: u16,
        class: PciClassCode,
        subclass_byte: u8,
        header: PciHeaderType,
        subsystem_vendor_id: u16,
        subsystem_id: u16,
    ) -> Seq<u8> {
        let zeros = Seq::<u8>::new(CONFIG_SPACE_BYTES as nat, |i: int| 0u8);
        let z1 = spec_write_bytes(zeros, 0x00, spec_u16_to_le_bytes(vendor_id));
        let z2 = spec_write_bytes(z1, 0x02, spec_u16_to_le_bytes(device_id));
        let z3 = z2.update(0x0a, subclass_byte).update(0x0b, class.spec_byte()).update(
            0x0e,
            header.spec_byte(),
        );
        let z4 = spec_write_bytes(z3, 0x2c, spec_u16_to_le_bytes(subsystem_vendor_id));
        spec_write_bytes(z4, 0x2e, spec_u16_to_le_bytes(subsystem_id))
    }

    pub fn new<S: PciSubclass>(
        vendor_id: u16,
        device_id: u16,
        class: PciClassCode,
        subclass: &S,
        header: PciHeaderType,
        subsystem_vendor_id: u16,
        subsystem_id: u16,
    ) -> (r: PciConfiguration)
        ensures
            r.wf(),
            r.registers@ == PciConfiguration::spec_new_registers(
                vendor_id,
                device_id,
                class,
                subclass.spec_register_value(),
                header,
                subsystem_vendor_id,
                subsystem_id,
            ),
            r.bar_used@ == Seq::new(NUM_BAR_SLOTS as nat, |i: int| false),
            r.bar_addr@ == Seq::new(NUM_BAR_SLOTS as nat, |i: int| 0u64),
            r.bar_size@ == Seq::new(NUM_BAR_SLOTS as nat, |i: int| 0u64),
            r.capabilities@.len() == 0,
            r.next_cap_offset == FIRST_CAPABILITY_OFFSET,
    {
        let mut registers: Vec<u8> = Vec::new();
        for i in 0..CONFIG_SPACE_BYTES
            invariant
                registers@ =~= Seq::<u8>::new(i as nat, |j: int| 0u8),
        {
            registers.push(0u8);
        }
        let vid = u16_to_le_bytes(vendor_id);
        registers.set(0x00, vid[0]);
        registers.set(0x01, vid[1]);
        let did = u16_to_le_bytes(device_id);
        registers.set(0x02, did[0]);
        registers.set(0x03, did[1]);
        registers.set(0x0a, subclass.get_register_value());
        registers.set(0x0b, class.to_byte());
        registers.set(0x0e, header.to_byte());
        let svid = u16_to_le_bytes(subsystem_vendor_id);
        registers.set(0x2c, svid[0]);
        registers.set(0x2d, svid[1]);
        let sid = u16_to_le_bytes(subsystem_id);
        registers.set(0x2e, sid[0]);
        registers.set(0x2f, sid[1]);
        let mut bar_used: Vec<bool> = Vec::new();
        let mut bar_addr: Vec<u64> = Vec::new();
        let mut bar_size: Vec<u64> = Vec::new();
        for i in 0..NUM_BAR_SLOTS
            invariant
                bar_used@ =~= Seq::new(i as nat, |j: int| false),
                bar_addr@ =~= Seq::new(i as nat, |j: int| 0u64),
                bar_size@ =~= Seq::new(i as nat, |j: int| 0u64),
        {
            bar_used.push(false);
            bar_addr.push(0u64);
            bar_size.push(0u64);
        }
        let r = PciConfiguration {
            registers,
            bar_used,
            bar_addr,
            bar_size,
            capabilities: Vec::new(),
            next_cap_offset: FIRST_CAPABILITY_OFFSET,
        };
        proof {
            vstd::bytes::lemma_auto_spec_u16_to_from_le_bytes();
            assert(r.registers@ =~= PciConfiguration::spec_new_registers(
                vendor_id,
                device_id,
                class,
                subclass.spec_register_value(),
                header,
                subsystem_vendor_id,
                subsystem_id,
            ));
        }
        r
    }

    /// Registers a capability record.  On success returns the offset the
    /// record was placed at; fails exactly when the record does not fit in
    /// the space left.
    pub fn add_capability<C: PciCapability>(&mut self, cap: &C) -> (r: Result<usize, PciConfigError>)
        requires
            old(self).wf(),
        ensures
            final(self).wf(),
            final(self).registers == old(self).registers,
            final(self).bar_used == old(self).bar_used,
            final(self).bar_addr == old(self).bar_addr,
            final(self).bar_size == old(self).bar_size,
            r is Err <==> old(self).next_cap_offset + cap.bytes_spec().len() + 2 > CONFIG_SPACE_BYTES,
            r matches Err(e) ==> e == PciConfigError::CapabilitySpaceFull && *final(self) == *old(
                self,
            ),
            r matches Ok(off) ==> {
                &&& off == old(self).next_cap_offset
                &&& final(self).capabilities@.len() == old(self).capabilities@.len() + 1
                &&& final(self).capabilities@.subrange(0, old(self).capabilities@.len() as int)
                    =~= old(self).capabilities@
                &&& final(self).capabilities@.last().id == cap.id_spec().spec_byte()
                &&& final(self).capabilities@.last().offset == off
                &&& final(self).capabilities@.last().bytes@ == cap.bytes_spec()
                &&& final(self).next_cap_offset == if spec_next_cap_offset(
                    off as int,
                    cap.bytes_spec().len() as int + 2,
                ) > CONFIG_SPACE_BYTES {
                    CONFIG_SPACE_BYTES as int
                } else {
                    spec_next_cap_offset(off as int, cap.bytes_spec().len() as int + 2)
                }
            },
    {
        let bytes = cap.bytes();
        let off = self.next_cap_offset;
        if bytes.len() > CONFIG_SPACE_BYTES || off + bytes.len() + 2 > CONFIG_SPACE_BYTES {
            return Err(PciConfigError::CapabilitySpaceFull);
        }
        let id = cap.id().to_byte();
        let total = bytes.len() + 2;
        let mut next = ((off + total + 3) / 4) * 4;
        if next > CONFIG_SPACE_BYTES {
            next = CONFIG_SPACE_BYTES;
        }
        self.capabilities.push(AddedCapability { id, offset: off, bytes });
        self.next_cap_offset = next;
        Ok(off)
    }

    /// Registers a BAR.  On success returns the slot index; fails when the
    /// slot does not exist or is already registered.
    pub fn add_pci_bar(&mut self, config: &PciBarConfiguration) -> (r: Result<
        usize,
        PciConfigError,
    >)
        requires
            old(self).wf(),
        ensures
            final(self).wf(),
            final(self).capabilities == old(self).capabilities,
            final(self).next_cap_offset == old(self).next_cap_offset,
            r is Err <==> config.reg_idx >= NUM_BAR_SLOTS || old(self).bar_used@[config.reg_idx as int],
            r matches Err(e) ==> *final(self) == *old(self) && (e == (if config.reg_idx
                >= NUM_BAR_SLOTS {
                PciConfigError::BarInvalid
            } else {
                PciConfigError::BarInUse
            })),
            r matches Ok(idx) ==> {
                &&& idx == config.reg_idx
                &&& final(self).bar_used@ == old(self).bar_used@.update(idx as int, true)
                &&& final(self).bar_addr@ == old(self).bar_addr@.update(idx as int, config.addr)
                &&& final(self).bar_size@ == old(self).bar_size@.update(idx as int, config.size)
                &&& final(self).registers@ == spec_write_bytes(
                    old(self).registers@,
                    0x10 + 4 * idx as int,
                    spec_u32_to_le_bytes(config.addr as u32),
                )
            },
    {
        let idx = config.reg_idx;
        if idx >= NUM_BAR_SLOTS {
            return Err(PciConfigError::BarInvalid);
        }
        if self.bar_used[idx] {
            return Err(PciConfigError::BarInUse);
        }
        self.bar_used.set(idx, true);
        self.bar_addr.set(idx, config.addr);
        self.bar_size.set(idx, config.size);
        let lo = u32_to_le_bytes((config.addr & 0xffff_ffff) as u32);
        let base = 0x10 + 4 * idx;
        self.registers.set(base, lo[0]);
        self.registers.set(base + 1, lo[1]);
        self.registers.set(base + 2, lo[2]);
        self.registers.set(base + 3, lo[3]);
        proof {
            vstd::bytes::lemma_auto_spec_u32_to_from_le_bytes();
            let a = config.addr;
            assert((a & 0xffff_ffff) as u32 == a as u32) by (bit_vector);
            assert(self.registers@ =~= spec_write_bytes(
                old(self).registers@,
                0x10 + 4 * idx as int,
                spec_u32_to_le_bytes(config.addr as u32),
            ));
        }
        Ok(idx)
    }

    /// Full 64-bit address registered for a BAR slot; zero for a slot that
    /// does not exist.
    pub fn get_bar64_addr(&self, idx: usize) -> (r: u64)
        requires
            self.wf(),
        ensures
            r == if idx < NUM_BAR_SLOTS {
                self.bar_addr@[idx as int]
            } else {
                0u64
            },
    {
        if idx < NUM_BAR_SLOTS {
            self.bar_addr[idx]
        } else {
            0
        }
    }

    /// Records the interrupt line and pin in the header registers.
    pub fn set_irq(&mut self, line: u8, pin: PciInterruptPin)
        requires
            old(self).wf(),
        ensures
            final(self).wf(),
            *final(self) == (PciConfiguration {
                registers: final(self).registers,
                ..*old(self)
            }),
            final(self).registers@ == old(self).registers@.update(0x3c, line).update(
                0x3d,
                pin.spec_byte(),
            ),
    {
        self.registers.set(0x3c, line);
        self.registers.set(0x3d, pin.to_byte());
    }

    /// The 32-bit register at a register index; all-ones for an index out of
    /// range, as an absent device would read.
    pub open spec fn spec_read_reg(self, reg_idx: int) -> u32 {
        if 0 <= reg_idx < CONFIG_SPACE_BYTES / 4 {
            spec_u32_from_le_bytes(self.registers@.subrange(reg_idx * 4, reg_idx * 4 + 4))
        } else {
            0xffff_ffffu32
        }
    }

    pub fn read_reg(&self, reg_idx: usize) -> (r: u32)
        requires
            self.wf(),
        ensures
            r == self.spec_read_reg(reg_idx as int),
    {
        if reg_idx >= CONFIG_SPACE_BYTES / 4 {
            return 0xffff_ffff;
        }
        let s = slice_subrange(self.registers.as_slice(), reg_idx * 4, reg_idx * 4 + 4);
        u32_from_le_bytes(s)
    }

    /// Replaces the 32-bit register at a register index; out-of-range indices
    /// are ignored.
    pub fn write_reg(&mut self, reg_idx: usize, value: u32)
        requires
            old(self).wf(),
        ensures
            final(self).wf(),
            *final(self) == (PciConfiguration {
                registers: final(self).registers,
                ..*old(self)
            }),
            final(self).registers@ == if reg_idx < CONFIG_SPACE_BYTES / 4 {
                spec_write_bytes(old(self).registers@, reg_idx * 4, spec_u32_to_le_bytes(value))
            } else {
                old(self).registers@
            },
    {
        if reg_idx >= CONFIG_SPACE_BYTES / 4 {
            return ;
        }
        let bytes = u32_to_le_bytes(value);
        let base = reg_idx * 4;
        self.registers.set(base, bytes[0]);
        self.registers.set(base + 1, bytes[1]);
        self.registers.set(base + 2, bytes[2]);
        self.registers.set(base + 3, bytes[3]);
        proof {
            assert(self.registers@ =~= spec_write_bytes(
                old(self).registers@,
                reg_idx * 4,
                spec_u32_to_le_bytes(value),
            ));
        }
    }

    /// Replaces two consecutive bytes with a little-endian word; writes that
    /// would run past the end of configuration space are ignored.
    pub fn write_word(&mut self, offset: usize, value: u16)
        requires
            old(self).wf(),
        ensures
            final(self).wf(),
            *final(self) == (PciConfiguration {
                registers: final(self).registers,
                ..*old(self)
            }),
            final(self).registers@ == if offset + 2 <= CONFIG_SPACE_BYTES {
                spec_write_bytes(old(self).registers@, offset as int, spec_u16_to_le_bytes(value))
            } else {
                old(self).registers@
            },
    {
        if offset >= CONFIG_SPACE_BYTES - 1 {
            return ;
        }
        let bytes = u16_to_le_bytes(value);
        self.registers.set(offset, bytes[0]);
        self.registers.set(offset + 1, bytes[1]);
        proof {
            assert(self.registers@ =~= spec_write_bytes(
                old(self).registers@,
                offset as int,
                spec_u16_to_le_bytes(value),
            ));
        }
    }

    /// Replaces one byte; writes past the end of configuration space are
    /// ignored.
    pub fn write_byte(&mut self, offset: usize, value: u8)
        requires
            old(self).wf(),
        ensures
            final(self).wf(),
            *final(self) == (PciConfiguration {
                registers: final(self).registers,
                ..*old(self)
            }),
            final(self).registers@ == if offset < CONFIG_SPACE_BYTES {
                old(self).registers@.update(offset as int, value)
            } else {
                old(self).registers@
            },
    {
        if offset >= CONFIG_SPACE_BYTES {
            return ;
        }
        self.registers.set(offset, value);
    }
}

} // verus!
