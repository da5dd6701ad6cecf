//! The common-config register view: the 56-byte register block at the start
//! of the capability BAR through which the driver reads device state and
//! configures queues.
//!
//! Feature negotiation proper lives in the device-facing collaborator outside
//! this crate's scope; this view models the select registers, the driver
//! status byte, and queue selection and configuration — everything the
//! activation/reset state machine and the queue liveness check depend on.
//! Device feature words read as zero here.

use crate::queue::Queue;
use vstd::bytes::{spec_u16_from_le_bytes, spec_u16_to_le_bytes, spec_u32_from_le_bytes, spec_u32_to_le_bytes, u16_from_le_bytes, u16_to_le_bytes, u32_from_le_bytes, u32_to_le_bytes};
use vstd::prelude::*;

verus! {

/// A 64-bit address with its low half replaced.
pub open spec fn spec_set_lo(x: u64, v: u32) -> u64 {
    (x & 0xffff_ffff_0000_0000) | v as u64
}

/// A 64-bit address with its high half replaced.
pub open spec fn spec_set_hi(x: u64, v: u32) -> u64 {
    (x & 0xffff_ffff) | ((v as u64) << 32)
}

/// The queue the select register points at, when it points at one.
pub open spec fn spec_selected(queues: Seq<Queue>, sel: u16) -> Option<Queue> {
    if sel < queues.len() {
        Some(queues[sel as int])
    } else {
        None
    }
}

/// The queue set with the selected queue replaced; unchanged when the select
/// register points past the set.
pub open spec fn spec_update_selected(queues: Seq<Queue>, sel: u16, q: Queue) -> Seq<Queue> {
    if sel < queues.len() {
        queues.update(sel as int, q)
    } else {
        queues
    }
}

/// The common-config register state the transport itself holds.
#[derive(Clone, Copy, PartialEq, Eq, Structural, Debug)]
pub struct VirtioPciCommonConfig {
    pub driver_status: u8,
    pub config_generation: u8,
    pub device_feature_select: u32,
    pub driver_feature_select: u32,
    pub queue_select: u16,
}

impl VirtioPciCommonConfig {
    /// The state after a guest write of `data` at `offset`: selects, the
    /// status byte, and the selected queue's size, readiness and ring
    /// addresses; anything else — including read-only registers and
    /// misaligned or mis-sized accesses — is ignored.
    pub open spec fn spec_write(self, queues: Seq<Queue>, offset: u64, data: Seq<u8>) -> (
        VirtioPciCommonConfig,
        Seq<Queue>,
    ) {
        let len = data.len();
        if offset == 0x00 && len == 4 {
            (
                VirtioPciCommonConfig { device_feature_select: spec_u32_from_le_bytes(data), ..self },
                queues,
            )
        } else if offset == 0x08 && len == 4 {
            (
                VirtioPciCommonConfig { driver_feature_select: spec_u32_from_le_bytes(data), ..self },
                queues,
            )
        } else if offset == 0x14 && len == 1 {
            (VirtioPciCommonConfig { driver_status: data[0], ..self }, queues)
        } else if offset == 0x16 && len == 2 {
            (VirtioPciCommonConfig { queue_select: spec_u16_from_le_bytes(data), ..self }, queues)
        } else if offset == 0x18 && len == 2 {
            match spec_selected(queues, self.queue_select) {
                Some(q) => (
                    self,
                    spec_update_selected(
                        queues,
                        self.queue_select,
                        Queue { size: spec_u16_from_le_bytes(data), ..q },
                    ),
                ),
                None => (self, queues),
            }
        } else if offset == 0x1c && len == 2 {
            match spec_selected(queues, self.queue_select) {
                Some(q) => (
                    self,
                    spec_update_selected(
                        queues,
                        self.queue_select,
                        Queue { ready: spec_u16_from_le_bytes(data) == 1, ..q },
                    ),
                ),
                None => (self, queues),
            }
        } else if (offset == 0x20 || offset == 0x24 || offset == 0x28 || offset == 0x2c || offset
            == 0x30 || offset == 0x34) && len == 4 {
            match spec_selected(queues, self.queue_select) {
                Some(q) => {
                    let v = spec_u32_from_le_bytes(data);
                    let q2 = if offset == 0x20 {
                        Queue { desc_table: spec_set_lo(q.desc_table, v), ..q }
                    } else if offset == 0x24 {
                        Queue { desc_table: spec_set_hi(q.desc_table, v), ..q }
                    } else if offset == 0x28 {
                        Queue { avail_ring: spec_set_lo(q.avail_ring, v), ..q }
                    } else if offset == 0x2c {
                        Queue { avail_ring: spec_set_hi(q.avail_ring, v), ..q }
                    } else if offset == 0x30 {
                        Queue { used_ring: spec_set_lo(q.used_ring, v), ..q }
                    } else {
                        Queue { used_ring: spec_set_hi(q.used_ring, v), ..q }
                    };
                    (self, spec_update_selected(queues, self.queue_select, q2))
                },
                None => (self, queues),
            }
        } else {
            (self, queues)
        }
    }

    /// The bytes a guest read of `prev.len()` bytes at `offset` returns:
    /// register values little-endian; unmatched offsets or sizes leave the
    /// buffer as it was.  Device feature words read as zero in this view.
    pub open spec fn spec_read(self, queues: Seq<Queue>, offset: u64, prev: Seq<u8>) -> Seq<u8> {
        let len = prev.len();
        if offset == 0x00 && len == 4 {
            spec_u32_to_le_bytes(self.device_feature_select)
        } else if offset == 0x04 && len == 4 {
            spec_u32_to_le_bytes(0)
        } else if offset == 0x08 && len == 4 {
            spec_u32_to_le_bytes(self.driver_feature_select)
        } else if offset == 0x0c && len == 4 {
            spec_u32_to_le_bytes(0)
        } else if offset == 0x12 && len == 2 {
            spec_u16_to_le_bytes(queues.len() as u16)
        } else if offset == 0x14 && len == 1 {
            seq![self.driver_status]
        } else if offset == 0x15 && len == 1 {
            seq![self.config_generation]
        } else if offset == 0x16 && len == 2 {
            spec_u16_to_le_bytes(self.queue_select)
        } else if offset == 0x18 && len == 2 {
            spec_u16_to_le_bytes(
                match spec_selected(queues, self.queue_select) {
                    Some(q) => q.size,
                    None => 0u16,
                },
            )
        } else if offset == 0x1c && len == 2 {
            spec_u16_to_le_bytes(
                match spec_selected(queues, self.queue_select) {
                    Some(q) => if q.ready {
                        1u16
                    } else {
                        0u16
                    },
                    None => 0u16,
                },
            )
        } else if offset == 0x1e && len == 2 {
            spec_u16_to_le_bytes(self.queue_select)
        } else if (offset == 0x20 || offset == 0x24 || offset == 0x28 || offset == 0x2c || offset
            == 0x30 || offset == 0x34) && len == 4 {
            let v: u64 = match spec_selected(queues, self.queue_select) {
                Some(q) => if offset == 0x20 || offset == 0x24 {
                    q.desc_table
                } else if offset == 0x28 || offset == 0x2c {
                    q.avail_ring
                } else {
                    q.used_ring
                },
                None => 0u64,
            };
            if offset == 0x20 || offset == 0x28 || offset == 0x30 {
                spec_u32_to_le_bytes((v & 0xffff_ffff) as u32)
            } else {
                spec_u32_to_le_bytes((v >> 32) as u32)
            }
        } else {
            prev
        }
    }

    /// Applies a guest write.
    pub fn write(&mut self, offset: u64, data: &[u8], queues: &mut Vec<Queue>)
        ensures
            (*final(self), final(queues)@) == old(self).spec_write(old(queues)@, offset, data@),
    {
        if offset == 0x00 && data.len() == 4 {
            self.device_feature_select = u32_from_le_bytes(data);
        } else if offset == 0x08 && data.len() == 4 {
            self.driver_feature_select = u32_from_le_bytes(data);
        } else if offset == 0x14 && data.len() == 1 {
            self.driver_status = data[0];
        } else if offset == 0x16 && data.len() == 2 {
            self.queue_select = u16_from_le_bytes(data);
        } else if offset == 0x18 && data.len() == 2 {
            let sel = self.queue_select as usize;
            if sel < queues.len() {
                let mut q = queues[sel];
                q.size = u16_from_le_bytes(data);
                queues.set(sel, q);
            }
        } else if offset == 0x1c && data.len() == 2 {
            let sel = self.queue_select as usize;
            if sel < queues.len() {
                let mut q = queues[sel];
                q.ready = u16_from_le_bytes(data) == 1;
                queues.set(sel, q);
            }
        } else if (offset == 0x20 || offset == 0x24 || offset == 0x28 || offset == 0x2c || offset
            == 0x30 || offset == 0x34) && data.len() == 4 {
            let sel = self.queue_select as usize;
            if sel < queues.len() {
                let mut q = queues[sel];
                let v = u32_from_le_bytes(data);
                if offset == 0x20 {
                    q.desc_table = (q.desc_table & 0xffff_ffff_0000_0000) | (v as u64);
                } else if offset == 0x24 {
                    q.desc_table = (q.desc_table & 0xffff_ffff) | ((v as u64) << 32);
                } else if offset == 0x28 {
                    q.avail_ring = (q.avail_ring & 0xffff_ffff_0000_0000) | (v as u64);
                } else if offset == 0x2c {
                    q.avail_ring = (q.avail_ring & 0xffff_ffff) | ((v as u64) << 32);
                } else if offset == 0x30 {
                    q.used_ring = (q.used_ring & 0xffff_ffff_0000_0000) | (v as u64);
                } else {
                    q.used_ring = (q.used_ring & 0xffff_ffff) | ((v as u64) << 32);
                }
                queues.set(sel, q);
            }
        }
    }

    /// Answers a guest read.
    pub fn read(&self, offset: u64, data: &mut Vec<u8>, queues: &Vec<Queue>)
        requires
            queues@.len() <= 0xffff,
        ensures
            final(data)@ == self.spec_read(queues@, offset, old(data)@),
    {
        if offset == 0x00 && data.len() == 4 {
            fill4(data, self.device_feature_select);
        } else if offset == 0x04 && data.len() == 4 {
            fill4(data, 0);
        } else if offset == 0x08 && data.len() == 4 {
            fill4(data, self.driver_feature_select);
        } else if offset == 0x0c && data.len() == 4 {
            fill4(data, 0);
        } else if offset == 0x12 && data.len() == 2 {
            fill2(data, queues.len() as u16);
        } else if offset == 0x14 && data.len() == 1 {
            data.set(0, self.driver_status);
            proof {
                assert(data@ =~= seq![self.driver_status]);
            }
        } else if offset == 0x15 && data.len() == 1 {
            data.set(0, self.config_generation);
            proof {
                assert(data@ =~= seq![self.config_generation]);
            }
        } else if offset == 0x16 && data.len() == 2 {
            fill2(data, self.queue_select);
        } else if offset == 0x18 && data.len() == 2 {
            let sel = self.queue_select as usize;
            let v: u16 = if sel < queues.len() {
                queues[sel].size
            } else {
                0
            };
            fill2(data, v);
        } else if offset == 0x1c && data.len() == 2 {
            let sel = self.queue_select as usize;
            let v: u16 = if sel < queues.len() {
                if queues[sel].ready {
                    1
                } else {
                    0
                }
            } else {
                0
            };
            fill2(data, v);
        } else if offset == 0x1e && data.len() == 2 {
            fill2(data, self.queue_select);
        } else if (offset == 0x20 || offset == 0x24 || offset == 0x28 || offset == 0x2c || offset
            == 0x30 || offset == 0x34) && data.len() == 4 {
            let sel = self.queue_select as usize;
            let v: u64 = if sel < queues.len() {
                let q = queues[sel];
                if offset == 0x20 || offset == 0x24 {
                    q.desc_table
                } else if offset == 0x28 || offset == 0x2c {
                    q.avail_ring
                } else {
                    q.used_ring
                }
            } else {
                0
            };
            if offset == 0x20 || offset == 0x28 || offset == 0x30 {
                fill4(data, (v & 0xffff_ffff) as u32);
            } else {
                fill4(data, (v >> 32) as u32);
            }
        }
    }
}

/// A common-config write never changes how many queues there are, nor any
/// queue's maximum size.
pub proof fn lemma_spec_write_queue_shape(
    cc: VirtioPciCommonConfig,
    queues: Seq<Queue>,
    offset: u64,
    data: Seq<u8>,
)
    ensures
        ({
            let qs = cc.spec_write(queues, offset, data).1;
            &&& qs.len() == queues.len()
            &&& forall|i: int|
                0 <= i < queues.len() ==> (#[trigger] qs[i]).max_size == queues[i].max_size
        }),
{
}

/// Replaces a two-byte buffer with a word, little-endian.
fn fill2(data: &mut Vec<u8>, v: u16)
    requires
        old(data)@.len() == 2,
    ensures
        final(data)@ == spec_u16_to_le_bytes(v),
{
    let b = u16_to_le_bytes(v);
    data.set(0, b[0]);
    data.set(1, b[1]);
    proof {
        vstd::bytes::lemma_auto_spec_u16_to_from_le_bytes();
        assert(data@ =~= spec_u16_to_le_bytes(v));
    }
}

/// Replaces a four-byte buffer with a dword, little-endian.
fn fill4(data: &mut Vec<u8>, v: u32)
    requires
        old(data)@.len() == 4,
    ensures
        final(data)@ == spec_u32_to_le_bytes(v),
{
    let b = u32_to_le_bytes(v);
    data.set(0, b[0]);
    data.set(1, b[1]);
    data.set(2, b[2]);
    data.set(3, b[3]);
    proof {
        vstd::bytes::lemma_auto_spec_u32_to_from_le_bytes();
        assert(data@ =~= spec_u32_to_le_bytes(v));
    }
}

} // verus!
