//! A verified simulated virtio MMIO block device: an in-memory
//! implementation of [`VirtioTransport`] whose registers, queue memory and
//! backing medium are plain data.  Every register value and behaviour knob
//! — including how long the device sits idle before completing a request —
//! can be chosen, so tests can stand up conforming, misbehaving and slow
//! devices alike.

use vstd::prelude::*;
use std::collections::HashMap;
use crate::transport::{
    VirtioTransport, TransportModel, Desc, BlockRequestHeader, reg_write_model, complete_pending,
    poll_step, sector_data, zero_sector, wrapping_inc,
    QUEUE_SIZE, SECTOR_LEN, HEADER_LEN, FOOTER_LEN, OFF_MAGIC, OFF_VERSION, OFF_DEVICE_ID,
    OFF_DEVICE_FEATURES, OFF_DEVICE_FEATURES_SEL, OFF_DRIVER_FEATURES, OFF_DRIVER_FEATURES_SEL,
    OFF_QUEUE_SEL, OFF_QUEUE_NUM_MAX, OFF_QUEUE_NUM, OFF_QUEUE_READY, OFF_QUEUE_NOTIFY,
    OFF_STATUS, OFF_QUEUE_DESC_LOW, OFF_QUEUE_DESC_HIGH, OFF_QUEUE_AVAIL_LOW,
    OFF_QUEUE_AVAIL_HIGH, OFF_QUEUE_USED_LOW, OFF_QUEUE_USED_HIGH, DESC_F_NEXT, DESC_F_WRITE,
};

verus! {

broadcast use vstd::std_specs::hash::group_hash_axioms;

/// The mathematical content of the simulated medium: each stored sector's
/// bytes.
pub open spec fn disk_view(h: Map<u64, Vec<u8>>) -> Map<u64, Seq<u8>> {
    Map::new(|s: u64| h.contains_key(s), |s: u64| h[s]@)
}

/// The state of a freshly constructed simulated device: the given identity
/// and behaviour, all driver-writable registers zero, empty queue records,
/// nothing in flight, and an empty medium.
pub open spec fn fresh_device(
    magic: u32,
    version: u32,
    device_type: u32,
    features: u64,
    max_queue: u32,
    features_ok_honored: bool,
    report_status: u8,
) -> TransportModel {
    TransportModel {
        magic,
        version,
        device_type,
        features,
        max_queue,
        features_ok_honored,
        report_status,
        delay: 0,
        status: 0,
        feature_select: 0,
        driver_feature_select: 0,
        driver_features_lo: 0,
        driver_features_hi: 0,
        queue_select: 0,
        queue_size: 0,
        queue_ready: 0,
        desc_addr_lo: 0,
        desc_addr_hi: 0,
        avail_addr_lo: 0,
        avail_addr_hi: 0,
        used_addr_lo: 0,
        used_addr_hi: 0,
        desc_table: Seq::new(
            QUEUE_SIZE as nat,
            |i: int| (Desc { addr: 0u64, length: 0u32, flags: 0u16, next: 0u16 }),
        ),
        avail_ring: Seq::new(QUEUE_SIZE as nat, |i: int| 0u16),
        avail_idx: 0,
        used_idx: 0,
        header_slot: None,
        data_slot: None,
        status_slot: None,
        disk: Map::empty(),
    }
}

/// Copy a byte vector.
fn copy_bytes(src: &Vec<u8>) -> (r: Vec<u8>)
    ensures
        r@ == src@,
{
    let mut out: Vec<u8> = Vec::new();
    let mut i: usize = 0;
    while i < src.len()
        invariant
            i <= src@.len(),
            out@ == src@.subrange(0, i as int),
        decreases src@.len() - i,
    {
        out.push(src[i]);
        i = i + 1;
    }
    proof {
        assert(out@ =~= src@);
    }
    out
}

/// A full sector of zeroes.
fn zero_bytes() -> (r: Vec<u8>)
    ensures
        r@ == zero_sector(),
{
    let mut out: Vec<u8> = Vec::new();
    let mut i: usize = 0;
    while i < SECTOR_LEN as usize
        invariant
            i <= SECTOR_LEN,
            out@.len() == i,
            forall|j: int| 0 <= j < i ==> out@[j] == 0u8,
        decreases SECTOR_LEN - i,
    {
        out.push(0u8);
        i = i + 1;
    }
    proof {
        assert(out@ =~= zero_sector());
    }
    out
}

/// A descriptor table of all-zero entries.
fn zero_descs() -> (r: Vec<Desc>)
    ensures
        r@ == Seq::new(
            QUEUE_SIZE as nat,
            |i: int| (Desc { addr: 0u64, length: 0u32, flags: 0u16, next: 0u16 }),
        ),
{
    let mut out: Vec<Desc> = Vec::new();
    let mut i: usize = 0;
    while i < QUEUE_SIZE as usize
        invariant
            i <= QUEUE_SIZE,
            out@.len() == i,
            forall|j: int| 0 <= j < i ==> out@[j] == (Desc {
                addr: 0u64,
                length: 0u32,
                flags: 0u16,
                next: 0u16,
            }),
        decreases QUEUE_SIZE - i,
    {
        out.push(Desc { addr: 0, length: 0, flags: 0, next: 0 });
        i = i + 1;
    }
    proof {
        assert(out@ =~= Seq::new(
            QUEUE_SIZE as nat,
            |i: int| (Desc { addr: 0u64, length: 0u32, flags: 0u16, next: 0u16 }),
        ));
    }
    out
}

/// An available ring of all-zero entries.
fn zero_ring() -> (r: Vec<u16>)
    ensures
        r@ == Seq::new(QUEUE_SIZE as nat, |i: int| 0u16),
{
    let mut out: Vec<u16> = Vec::new();
    let mut i: usize = 0;
    while i < QUEUE_SIZE as usize
        invariant
            i <= QUEUE_SIZE,
            out@.len() == i,
            forall|j: int| 0 <= j < i ==> out@[j] == 0u16,
        decreases QUEUE_SIZE - i,
    {
        out.push(0u16);
        i = i + 1;
    }
    proof {
        assert(out@ =~= Seq::new(QUEUE_SIZE as nat, |i: int| 0u16));
    }
    out
}

/// The simulated device.  Each field is one piece of [`TransportModel`]
/// held as plain data.
pub struct SimTransport {
    pub magic: u32,
    pub version: u32,
    pub device_type: u32,
    pub features: u64,
    pub max_queue: u32,
    pub features_ok_honored: bool,
    pub report_status: u8,
    pub delay: u32,
    pub status: u32,
    pub feature_select: u32,
    pub driver_feature_select: u32,
    pub driver_features_lo: u32,
    pub driver_features_hi: u32,
    pub queue_select: u32,
    pub queue_size: u32,
    pub queue_ready: u32,
    pub desc_addr_lo: u32,
    pub desc_addr_hi: u32,
    pub avail_addr_lo: u32,
    pub avail_addr_hi: u32,
    pub used_addr_lo: u32,
    pub used_addr_hi: u32,
    pub desc_table: Vec<Desc>,
    pub avail_ring: Vec<u16>,
    pub avail_idx: u16,
    pub used_idx: u16,
    pub header_slot: Option<(u64, BlockRequestHeader)>,
    pub data_slot: Option<(u64, Vec<u8>)>,
    pub status_slot: Option<(u64, u8)>,
    pub disk: HashMap<u64, Vec<u8>>,
}

impl SimTransport {
    /// Construct a device with the given identity registers, feature
    /// bitmap, maximum queue size, and behaviour: whether it honors the
    /// FEATURES_OK handshake, and which status byte it reports on each
    /// completed request.
    pub fn new(
        magic: u32,
        version: u32,
        device_type: u32,
        features: u64,
        max_queue: u32,
        features_ok_honored: bool,
        report_status: u8,
    ) -> (r: SimTransport)
        ensures
            r.model() == fresh_device(
                magic,
                version,
                device_type,
                features,
                max_queue,
                features_ok_honored,
                report_status,
            ),
            r.model().wf(),
    {
        let r = SimTransport {
            magic,
            version,
            device_type,
            features,
            max_queue,
            features_ok_honored,
            report_status,
            delay: 0,
            status: 0,
            feature_select: 0,
            driver_feature_select: 0,
            driver_features_lo: 0,
            driver_features_hi: 0,
            queue_select: 0,
            queue_size: 0,
            queue_ready: 0,
            desc_addr_lo: 0,
            desc_addr_hi: 0,
            avail_addr_lo: 0,
            avail_addr_hi: 0,
            used_addr_lo: 0,
            used_addr_hi: 0,
            desc_table: zero_descs(),
            avail_ring: zero_ring(),
            avail_idx: 0,
            used_idx: 0,
            header_slot: None,
            data_slot: None,
            status_slot: None,
            disk: HashMap::new(),
        };
        proof {
            assert(disk_view(r.disk@) =~= Map::<u64, Seq<u8>>::empty());
            assert(r.model() =~= fresh_device(
                magic,
                version,
                device_type,
                features,
                max_queue,
                features_ok_honored,
                report_status,
            ));
        }
        r
    }

    /// Store the full 512-byte content of `sector` on the simulated medium.
    pub fn set_sector(&mut self, sector: u64, bytes: Vec<u8>)
        requires
            bytes@.len() == SECTOR_LEN,
        ensures
            final(self).model() == (TransportModel {
                disk: old(self).model().disk.insert(sector, bytes@),
                ..old(self).model()
            }),
    {
        let ghost m0 = self.model();
        let ghost b = bytes@;
        self.disk.insert(sector, bytes);
        proof {
            assert(disk_view(self.disk@) =~= m0.disk.insert(sector, b));
            assert(self.model() =~= (TransportModel { disk: m0.disk.insert(sector, b), ..m0 }));
        }
    }

    /// Let the device sit idle for `polls` used-index polls before it
    /// completes the next pending chain.
    pub fn set_delay(&mut self, polls: u32)
        ensures
            final(self).model() == (TransportModel { delay: polls, ..old(self).model() }),
    {
        self.delay = polls;
    }

    /// The 512 bytes the medium holds for `sector`; zeroes where nothing
    /// was ever stored.
    fn sector_bytes(&self, sector: u64) -> (r: Vec<u8>)
        requires
            self.model().wf(),
        ensures
            r@ == sector_data(self.model(), sector),
    {
        match self.disk.get(&sector) {
            Some(v) => copy_bytes(v),
            None => zero_bytes(),
        }
    }

    /// Consume one pending available-ring entry, if there is one.
    fn process_pending(&mut self)
        requires
            old(self).model().wf(),
        ensures
            final(self).model() == complete_pending(old(self).model()),
    {
        let ghost m0 = self.model();
        if self.used_idx == self.avail_idx {
            return ;
        }
        let slot = (self.used_idx % QUEUE_SIZE) as usize;
        let head = self.avail_ring[slot];
        if head < QUEUE_SIZE {
            let d0 = self.desc_table[head as usize];
            if d0.next < QUEUE_SIZE {
                let d1 = self.desc_table[d0.next as usize];
                if d1.next < QUEUE_SIZE {
                    let d2 = self.desc_table[d1.next as usize];
                    let header_ok = match self.header_slot {
                        Some(h) => h.0 == d0.addr && h.1.request == 0,
                        None => false,
                    };
                    if d0.flags == DESC_F_NEXT && d0.length == HEADER_LEN && header_ok
                        && d1.flags == (DESC_F_NEXT | DESC_F_WRITE) && d1.length == SECTOR_LEN
                        && d2.flags == DESC_F_WRITE && d2.length == FOOTER_LEN {
                        if let Some(h) = self.header_slot {
                            let bytes = self.sector_bytes(h.1.sector);
                            self.data_slot = Some((d1.addr, bytes));
                            self.status_slot = Some((d2.addr, self.report_status));
                        }
                    }
                }
            }
        }
        self.used_idx = wrapping_inc(self.used_idx);
        proof {
            assert(self.model() =~= complete_pending(m0));
        }
    }
}

impl VirtioTransport for SimTransport {
    open spec fn model(&self) -> TransportModel {
        TransportModel {
            magic: self.magic,
            version: self.version,
            device_type: self.device_type,
            features: self.features,
            max_queue: self.max_queue,
            features_ok_honored: self.features_ok_honored,
            report_status: self.report_status,
            delay: self.delay,
            status: self.status,
            feature_select: self.feature_select,
            driver_feature_select: self.driver_feature_select,
            driver_features_lo: self.driver_features_lo,
            driver_features_hi: self.driver_features_hi,
            queue_select: self.queue_select,
            queue_size: self.queue_size,
            queue_ready: self.queue_ready,
            desc_addr_lo: self.desc_addr_lo,
            desc_addr_hi: self.desc_addr_hi,
            avail_addr_lo: self.avail_addr_lo,
            avail_addr_hi: self.avail_addr_hi,
            used_addr_lo: self.used_addr_lo,
            used_addr_hi: self.used_addr_hi,
            desc_table: self.desc_table@,
            avail_ring: self.avail_ring@,
            avail_idx: self.avail_idx,
            used_idx: self.used_idx,
            header_slot: self.header_slot,
            data_slot: (match self.data_slot {
                Some(p) => Some((p.0, p.1@)),
                None => None,
            }),
            status_slot: self.status_slot,
            disk: disk_view(self.disk@),
        }
    }

    fn read_reg(&self, offset: u64) -> (r: u32) {
        if offset == OFF_MAGIC {
            self.magic
        } else if offset == OFF_VERSION {
            self.version
        } else if offset == OFF_DEVICE_ID {
            self.device_type
        } else if offset == OFF_DEVICE_FEATURES {
            if self.feature_select == 0 {
                #[verifier::truncate] ((self.features & 0xffff_ffff) as u32)
            } else if self.feature_select == 1 {
                #[verifier::truncate] (((self.features >> 32) & 0xffff_ffff) as u32)
            } else {
                0
            }
        } else if offset == OFF_QUEUE_NUM_MAX {
            self.max_queue
        } else if offset == OFF_STATUS {
            self.status
        } else {
            0
        }
    }

    fn write_reg(&mut self, offset: u64, value: u32) {
        let ghost m0 = self.model();
        if offset == OFF_DEVICE_FEATURES_SEL {
            self.feature_select = value;
        } else if offset == OFF_DRIVER_FEATURES_SEL {
            self.driver_feature_select = value;
        } else if offset == OFF_DRIVER_FEATURES {
            if self.driver_feature_select == 0 {
                self.driver_features_lo = value;
            } else if self.driver_feature_select == 1 {
                self.driver_features_hi = value;
            }
        } else if offset == OFF_QUEUE_SEL {
            self.queue_select = value;
        } else if offset == OFF_QUEUE_NUM {
            self.queue_size = value;
        } else if offset == OFF_QUEUE_READY {
            self.queue_ready = value;
        } else if offset == OFF_QUEUE_NOTIFY {
            // Nothing observable happens here; the device's progress on the
            // notified chain becomes visible through used-index polls.
        } else if offset == OFF_STATUS {
            if self.features_ok_honored {
                self.status = value;
            } else {
                self.status = value & 0xffff_fff7;
            }
        } else if offset == OFF_QUEUE_DESC_LOW {
            self.desc_addr_lo = value;
        } else if offset == OFF_QUEUE_DESC_HIGH {
            self.desc_addr_hi = value;
        } else if offset == OFF_QUEUE_AVAIL_LOW {
            self.avail_addr_lo = value;
        } else if offset == OFF_QUEUE_AVAIL_HIGH {
            self.avail_addr_hi = value;
        } else if offset == OFF_QUEUE_USED_LOW {
            self.used_addr_lo = value;
        } else if offset == OFF_QUEUE_USED_HIGH {
            self.used_addr_hi = value;
        }
        proof {
            assert(self.model() =~= reg_write_model(m0, offset, value));
        }
    }

    fn write_desc(&mut self, index: u16, d: Desc) {
        self.desc_table[index as usize] = d;
    }

    fn write_avail_entry(&mut self, slot: u16, head: u16) {
        self.avail_ring[slot as usize] = head;
    }

    fn write_avail_idx(&mut self, idx: u16) {
        self.avail_idx = idx;
    }

    fn poll_used_idx(&mut self) -> (r: u16) {
        let ghost m0 = self.model();
        if self.used_idx != self.avail_idx && self.delay > 0 {
            self.delay = self.delay - 1;
        } else {
            self.process_pending();
        }
        proof {
            assert(self.model() =~= poll_step(m0));
        }
        self.used_idx
    }

    fn write_header(&mut self, addr: u64, h: BlockRequestHeader) {
        self.header_slot = Some((addr, h));
    }

    fn write_status_byte(&mut self, addr: u64, status: u8) {
        self.status_slot = Some((addr, status));
    }

    fn read_status_byte(&self, addr: u64) -> (r: u8) {
        match self.status_slot {
            Some(p) => if p.0 == addr {
                p.1
            } else {
                0
            },
            None => 0,
        }
    }

    fn read_data(&self, addr: u64, data: &mut Vec<u8>) {
        match &self.data_slot {
            Some(p) => {
                if p.0 == addr {
                    let bytes = copy_bytes(&p.1);
                    *data = bytes;
                }
            },
            None => {},
        }
    }
}

} // verus!
