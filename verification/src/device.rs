//! The pluggable virtio device the transport drives.
//!
//! Device-type-specific behaviour (block, network, ...) lives outside this
//! crate; `VirtioDevice` states exactly the contract the transport relies on:
//! identity, per-queue maximum sizes, device-specific BAR requests, the
//! device-config byte space, and the activate/reset entry points across which
//! ownership of the signal handles moves.  `StubDevice` is a concrete,
//! verified implementation: it only records what it is handed, which is
//! enough to exercise and observe the whole transport lifecycle.

use crate::pci_config::PciBarConfiguration;
use crate::queue::Queue;
use std::sync::atomic::AtomicUsize;
use std::sync::Arc;
use vm_memory::GuestMemoryMmap;
use vmm_sys_util::eventfd::EventFd;
use vstd::prelude::*;

verus! {

/// Activation failure: the device could not start on what it was handed.
#[derive(Clone, Copy, PartialEq, Eq, Structural, Debug)]
pub enum ActivateError {
    BadActivate,
}

/// What a read of `prev.len()` device-config bytes at `offset` leaves in the
/// buffer: bytes of the config space where the window overlaps it, the old
/// buffer contents elsewhere.
pub open spec fn spec_config_read(cs: Seq<u8>, offset: u64, prev: Seq<u8>) -> Seq<u8> {
    Seq::new(
        prev.len(),
        |i: int| if offset + i < cs.len() {
            cs[offset + i]
        } else {
            prev[i]
        },
    )
}

/// The device-config byte space after a write of `data` at `offset`; bytes
/// outside the space are dropped.
pub open spec fn spec_config_write(cs: Seq<u8>, offset: u64, data: Seq<u8>) -> Seq<u8> {
    Seq::new(
        cs.len(),
        |j: int| if offset <= j < offset + data.len() {
            data[j - offset]
        } else {
            cs[j]
        },
    )
}

/// The contract a virtio device implementation owes the transport.
pub trait VirtioDevice: Sized {
    /// The implementation's own well-formedness; every entry point preserves
    /// it.
    spec fn inv(&self) -> bool;

    /// The virtio device type this device reports.
    spec fn device_type_spec(&self) -> u32;

    /// The per-queue maximum ring sizes; fixed across every entry point.
    spec fn queue_max_sizes_spec(&self) -> Seq<u16>;

    /// The device-specific configuration bytes.
    spec fn config_space_spec(&self) -> Seq<u8>;

    /// The BAR windows the device wants for itself.
    spec fn device_bars_spec(&self) -> Seq<PciBarConfiguration>;

    fn device_type(&self) -> (r: u32)
        requires
            self.inv(),
        ensures
            r == self.device_type_spec(),
    ;

    fn queue_max_sizes(&self) -> (r: Vec<u16>)
        requires
            self.inv(),
        ensures
            r@ == self.queue_max_sizes_spec(),
    ;

    /// BAR windows the device wants for itself, beyond the capability BAR.
    fn get_device_bars(&self) -> (r: Vec<PciBarConfiguration>)
        requires
            self.inv(),
        ensures
            r@ == self.device_bars_spec(),
    ;

    fn read_config(&self, offset: u64, data: &mut Vec<u8>)
        requires
            self.inv(),
        ensures
            final(data)@ == spec_config_read(self.config_space_spec(), offset, old(data)@),
    ;

    fn write_config(&mut self, offset: u64, data: &[u8])
        requires
            old(self).inv(),
        ensures
            final(self).inv(),
            final(self).config_space_spec() == spec_config_write(
                old(self).config_space_spec(),
                offset,
                data@,
            ),
            final(self).queue_max_sizes_spec() == old(self).queue_max_sizes_spec(),
            final(self).device_type_spec() == old(self).device_type_spec(),
    ;

    /// Starts the device: it takes ownership of the memory handle, the
    /// interrupt-trigger signal, the shared interrupt aggregator, the queue
    /// states and the whole notification signal set.
    fn activate(
        &mut self,
        mem: GuestMemoryMmap,
        interrupt_evt: EventFd,
        interrupt_status: Arc<AtomicUsize>,
        queues: Vec<Queue>,
        queue_evts: Vec<EventFd>,
    ) -> (r: Result<(), ActivateError>)
        requires
            old(self).inv(),
            queue_evts@.len() == old(self).queue_max_sizes_spec().len(),
        ensures
            final(self).inv(),
            final(self).queue_max_sizes_spec() == old(self).queue_max_sizes_spec(),
            final(self).device_type_spec() == old(self).device_type_spec(),
            final(self).config_space_spec() == old(self).config_space_spec(),
    ;

    /// Stops the device.  A device that supports reset hands the
    /// interrupt-trigger signal and the full notification signal set back;
    /// one that does not returns `None`.
    fn reset(&mut self) -> (r: Option<(EventFd, Vec<EventFd>)>)
        requires
            old(self).inv(),
        ensures
            final(self).inv(),
            final(self).queue_max_sizes_spec() == old(self).queue_max_sizes_spec(),
            final(self).device_type_spec() == old(self).device_type_spec(),
            final(self).config_space_spec() == old(self).config_space_spec(),
            r matches Some(p) ==> p.1@.len() == old(self).queue_max_sizes_spec().len(),
    ;
}

/// A minimal verified device: it reports a fixed identity, stores what
/// activation hands it, and returns the handles on reset.
pub struct StubDevice {
    pub device_type: u32,
    pub queue_max_sizes: Vec<u16>,
    pub config_space: Vec<u8>,
    pub device_bars: Vec<PciBarConfiguration>,
    pub activated: bool,
    /// How many times activation was invoked (saturating).
    pub activate_calls: u64,
    pub interrupt_evt: Option<EventFd>,
    pub interrupt_status: Option<Arc<AtomicUsize>>,
    pub queue_evts: Vec<EventFd>,
    pub queues: Vec<Queue>,
    pub memory: Option<GuestMemoryMmap>,
}

impl StubDevice {
    /// A device of the given type with one queue per entry of
    /// `queue_max_sizes`, the given device-config bytes, and no extra BARs.
    pub fn new(device_type: u32, queue_max_sizes: Vec<u16>, config_space: Vec<u8>) -> (r:
        StubDevice)
        ensures
            r.inv(),
            !r.activated,
            r.activate_calls == 0,
            r.device_type_spec() == device_type,
            r.queue_max_sizes_spec() == queue_max_sizes@,
            r.config_space_spec() == config_space@,
            r.device_bars@.len() == 0,
            r.interrupt_evt is None,
            r.queue_evts@.len() == 0,
            r.memory is None,
    {
        StubDevice {
            device_type,
            queue_max_sizes,
            config_space,
            device_bars: Vec::new(),
            activated: false,
            activate_calls: 0,
            interrupt_evt: None,
            interrupt_status: None,
            queue_evts: Vec::new(),
            queues: Vec::new(),
            memory: None,
        }
    }
}

impl VirtioDevice for StubDevice {
    open spec fn inv(&self) -> bool {
        self.activated ==> self.interrupt_evt is Some && self.queue_evts@.len()
            == self.queue_max_sizes@.len()
    }

    open spec fn device_type_spec(&self) -> u32 {
        self.device_type
    }

    open spec fn queue_max_sizes_spec(&self) -> Seq<u16> {
        self.queue_max_sizes@
    }

    open spec fn config_space_spec(&self) -> Seq<u8> {
        self.config_space@
    }

    open spec fn device_bars_spec(&self) -> Seq<PciBarConfiguration> {
        self.device_bars@
    }

    fn device_type(&self) -> (r: u32) {
        self.device_type
    }

    fn queue_max_sizes(&self) -> (r: Vec<u16>) {
        let mut v: Vec<u16> = Vec::new();
        let n = self.queue_max_sizes.len();
        for i in 0..n
            invariant
                n == self.queue_max_sizes@.len(),
                v@ =~= self.queue_max_sizes@.subrange(0, i as int),
        {
            v.push(self.queue_max_sizes[i]);
        }
        proof {
            assert(v@ =~= self.queue_max_sizes@);
        }
        v
    }

    fn get_device_bars(&self) -> (r: Vec<PciBarConfiguration>) {
        let mut v: Vec<PciBarConfiguration> = Vec::new();
        let n = self.device_bars.len();
        for i in 0..n
            invariant
                n == self.device_bars@.len(),
                v@ =~= self.device_bars@.subrange(0, i as int),
        {
            v.push(self.device_bars[i]);
        }
        proof {
            assert(v@ =~= self.device_bars@);
        }
        v
    }

    fn read_config(&self, offset: u64, data: &mut Vec<u8>) {
        let n = data.len();
        let cfg_len = self.config_space.len();
        for i in 0..n
            invariant
                n == data@.len(),
                cfg_len == self.config_space@.len(),
                forall|j: int|
                    0 <= j < i && offset as int + j < cfg_len ==> data@[j]
                        == self.config_space@[offset as int + j],
                forall|j: int|
                    0 <= j < i && offset as int + j >= cfg_len ==> data@[j] == old(data)@[j],
                forall|j: int| i <= j < n ==> data@[j] == old(data)@[j],
        {
            if offset < cfg_len as u64 && (i as u64) < cfg_len as u64 - offset {
                let src = offset as usize + i;
                data.set(i, self.config_space[src]);
            }
        }
        proof {
            assert(data@ =~= spec_config_read(self.config_space@, offset, old(data)@));
        }
    }

    fn write_config(&mut self, offset: u64, data: &[u8]) {
        let n = data.len();
        let cfg_len = self.config_space.len();
        for i in 0..n
            invariant
                n == data@.len(),
                cfg_len == self.config_space@.len(),
                *self == (StubDevice { config_space: self.config_space, ..*old(self) }),
                forall|j: int|
                    0 <= j < cfg_len && !(offset as int <= j < offset as int + i as int)
                        ==> self.config_space@[j] == old(self).config_space@[j],
                forall|j: int|
                    offset as int <= j < offset as int + i as int && j < cfg_len
                        ==> self.config_space@[j] == data@[j - offset as int],
        {
            if offset < cfg_len as u64 && (i as u64) < cfg_len as u64 - offset {
                let dst = offset as usize + i;
                let b = data[i];
                self.config_space.set(dst, b);
            }
        }
        proof {
            assert(self.config_space@ =~= spec_config_write(
                old(self).config_space@,
                offset,
                data@,
            ));
        }
    }

    fn activate(
        &mut self,
        mem: GuestMemoryMmap,
        interrupt_evt: EventFd,
        interrupt_status: Arc<AtomicUsize>,
        queues: Vec<Queue>,
        queue_evts: Vec<EventFd>,
    ) -> (r: Result<(), ActivateError>) {
        self.memory = Some(mem);
        self.interrupt_evt = Some(interrupt_evt);
        self.interrupt_status = Some(interrupt_status);
        self.queues = queues;
        self.queue_evts = queue_evts;
        self.activated = true;
        if self.activate_calls < u64::MAX {
            self.activate_calls = self.activate_calls + 1;
        }
        Ok(())
    }

    fn reset(&mut self) -> (r: Option<(EventFd, Vec<EventFd>)>) {
        if !self.activated {
            return None;
        }
        let mut evt_opt: Option<EventFd> = None;
        core::mem::swap(&mut self.interrupt_evt, &mut evt_opt);
        match evt_opt {
            Some(evt) => {
                let evts = self.queue_evts.split_off(0);
                self.activated = false;
                Some((evt, evts))
            },
            None => None,
        }
    }
}

} // verus!
