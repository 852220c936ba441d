//! The device side of the driver: a model of a conforming virtio MMIO block
//! device and the trait through which the driver reaches it.
//!
//! The driver never touches device memory directly; every register access and
//! every store into the shared queue records goes through
//! [`VirtioTransport`].  The trait's contracts say, over [`TransportModel`],
//! how a conforming device reacts to each access: registers latch the written
//! value, reads return what the model holds, and a pending available-ring
//! entry is consumed by the device during used-index polling — after at most
//! a bounded number of idle polls — so the driver's completion loop is
//! genuinely exercised.  The verified simulator in `sim` implements the
//! trait; a hardware binding would implement it with volatile loads and
//! stores and the two memory fences the method comments call for.

use vstd::prelude::*;

verus! {

/// Number of entries in the descriptor table and in each ring.
pub const QUEUE_SIZE: u16 = 16;

/// Bytes in one disk sector; every data buffer is exactly this long.
pub const SECTOR_LEN: u32 = 512;

/// Bytes of the block-request header record (type, reserved, sector).
pub const HEADER_LEN: u32 = 16;

/// Bytes of the block-request status footer.
pub const FOOTER_LEN: u32 = 1;

// Register offsets of the virtio MMIO layout, in bytes from the device base.
pub const OFF_MAGIC: u64 = 0x000;
pub const OFF_VERSION: u64 = 0x004;
pub const OFF_DEVICE_ID: u64 = 0x008;
pub const OFF_DEVICE_FEATURES: u64 = 0x010;
pub const OFF_DEVICE_FEATURES_SEL: u64 = 0x014;
pub const OFF_DRIVER_FEATURES: u64 = 0x020;
pub const OFF_DRIVER_FEATURES_SEL: u64 = 0x024;
pub const OFF_QUEUE_SEL: u64 = 0x030;
pub const OFF_QUEUE_NUM_MAX: u64 = 0x034;
pub const OFF_QUEUE_NUM: u64 = 0x038;
pub const OFF_QUEUE_READY: u64 = 0x044;
pub const OFF_QUEUE_NOTIFY: u64 = 0x050;
pub const OFF_STATUS: u64 = 0x070;
pub const OFF_QUEUE_DESC_LOW: u64 = 0x080;
pub const OFF_QUEUE_DESC_HIGH: u64 = 0x084;
pub const OFF_QUEUE_AVAIL_LOW: u64 = 0x090;
pub const OFF_QUEUE_AVAIL_HIGH: u64 = 0x094;
pub const OFF_QUEUE_USED_LOW: u64 = 0x0a0;
pub const OFF_QUEUE_USED_HIGH: u64 = 0x0a4;

/// Expected value of the magic register.
pub const VIRTIO_MAGIC: u32 = 0x74726976;

/// Expected value of the version register (the non-legacy MMIO layout).
pub const VIRTIO_VERSION: u32 = 2;

/// Expected value of the device-type register for a block device.
pub const VIRTIO_DEVICE_BLOCK: u32 = 2;

/// The mandatory version-1 bit of the 64-bit feature bitmap.
pub const VIRTIO_F_VERSION_1: u64 = 0x1_0000_0000;

// Device-status register bits.
pub const STATUS_ACKNOWLEDGE: u32 = 1;
pub const STATUS_DRIVER: u32 = 2;
pub const STATUS_DRIVER_OK: u32 = 4;
pub const STATUS_FEATURES_OK: u32 = 8;
pub const STATUS_FAILED: u32 = 128;

// Descriptor flag bits.
pub const DESC_F_NEXT: u16 = 1;
pub const DESC_F_WRITE: u16 = 2;

// Stable identifiers under which the driver publishes its queue records and
// per-request buffers to the device.  The transport interprets them; a
// hardware binding maps each to the physical address of the backing storage.
pub const DESC_TABLE_ADDR: u64 = 0x100;
pub const AVAIL_RING_ADDR: u64 = 0x200;
pub const USED_RING_ADDR: u64 = 0x300;
pub const HEADER_ADDR: u64 = 0x1000;
pub const DATA_ADDR: u64 = 0x2000;
pub const FOOTER_ADDR: u64 = 0x3000;

/// One entry of the descriptor table.
#[derive(Clone, Copy, Debug)]
pub struct Desc {
    pub addr: u64,
    pub length: u32,
    pub flags: u16,
    pub next: u16,
}

/// The header record of a block request: request type (0 = read), a reserved
/// word, and the 512-byte-unit sector number.
#[derive(Clone, Copy, Debug)]
pub struct BlockRequestHeader {
    pub request: u32,
    pub reserved: u32,
    pub sector: u64,
}

/// The state of a conforming device as the driver can observe and influence
/// it: the register file, the shared queue records the driver publishes, the
/// single in-flight request's buffers, and the simulated medium.
#[verifier::ext_equal]
pub struct TransportModel {
    /// Value of the read-only magic register.
    pub magic: u32,
    /// Value of the read-only version register.
    pub version: u32,
    /// Value of the read-only device-type register.
    pub device_type: u32,
    /// The 64-bit device feature bitmap, read in selected 32-bit halves.
    pub features: u64,
    /// Largest queue size the device supports.
    pub max_queue: u32,
    /// Whether the device accepts the FEATURES_OK status bit; a device that
    /// does not drops the bit from every status write, which the driver
    /// observes on read-back as failed negotiation.
    pub features_ok_honored: bool,
    /// Status byte the device writes into each completed request's footer.
    pub report_status: u8,
    /// How many idle used-index polls the device lets pass before it
    /// completes a pending chain; a conforming device completes after
    /// finitely many polls.
    pub delay: u32,
    /// The device-status register.
    pub status: u32,
    /// The device-feature-select register.
    pub feature_select: u32,
    /// The driver-feature-select register.
    pub driver_feature_select: u32,
    /// Low half of the driver feature bitmap latched by the device.
    pub driver_features_lo: u32,
    /// High half of the driver feature bitmap latched by the device.
    pub driver_features_hi: u32,
    /// The queue-select register.
    pub queue_select: u32,
    /// The queue-size register.
    pub queue_size: u32,
    /// The queue-ready register.
    pub queue_ready: u32,
    /// Descriptor-table address registers.
    pub desc_addr_lo: u32,
    pub desc_addr_hi: u32,
    /// Available-ring address registers.
    pub avail_addr_lo: u32,
    pub avail_addr_hi: u32,
    /// Used-ring address registers.
    pub used_addr_lo: u32,
    pub used_addr_hi: u32,
    /// The descriptor table as published by the driver.
    pub desc_table: Seq<Desc>,
    /// The available ring's chain-head entries as published by the driver.
    pub avail_ring: Seq<u16>,
    /// The driver's published available index.
    pub avail_idx: u16,
    /// The device's used index; it advances once per consumed chain.
    pub used_idx: u16,
    /// The in-flight request header the driver stored, with its address.
    pub header_slot: Option<(u64, BlockRequestHeader)>,
    /// The device-written data buffer of the last completed request.
    pub data_slot: Option<(u64, Seq<u8>)>,
    /// The device-written status footer of the last completed request.
    pub status_slot: Option<(u64, u8)>,
    /// The medium: full sectors by sector number; absent sectors read as
    /// zeroes.
    pub disk: Map<u64, Seq<u8>>,
}

impl TransportModel {
    /// Structural validity: the queue records have their fixed length and
    /// every stored sector is full.
    pub open spec fn wf(self) -> bool {
        &&& self.desc_table.len() == QUEUE_SIZE
        &&& self.avail_ring.len() == QUEUE_SIZE
        &&& forall|s: u64| #[trigger] self.disk.contains_key(s) ==> self.disk[s].len() == SECTOR_LEN
    }
}

/// A 16-bit ring index advancing by one, wrapping as the hardware counter
/// does.
pub open spec fn wrap_inc(x: u16) -> u16 {
    if x == 0xffff {
        0u16
    } else {
        (x + 1) as u16
    }
}

/// Executable counterpart of [`wrap_inc`].
pub fn wrapping_inc(x: u16) -> (r: u16)
    ensures
        r == wrap_inc(x),
{
    if x == 0xffff {
        0
    } else {
        x + 1
    }
}

/// A sector of all zeroes, what the medium returns for a never-written
/// sector.
pub open spec fn zero_sector() -> Seq<u8> {
    Seq::new(SECTOR_LEN as nat, |i: int| 0u8)
}

/// The 512 bytes the medium holds for `sector`.
pub open spec fn sector_data(m: TransportModel, sector: u64) -> Seq<u8> {
    if m.disk.contains_key(sector) {
        m.disk[sector]
    } else {
        zero_sector()
    }
}

/// What a read of the register at `offset` returns.
pub open spec fn reg_read_value(m: TransportModel, offset: u64) -> u32 {
    if offset == OFF_MAGIC {
        m.magic
    } else if offset == OFF_VERSION {
        m.version
    } else if offset == OFF_DEVICE_ID {
        m.device_type
    } else if offset == OFF_DEVICE_FEATURES {
        if m.feature_select == 0 {
            (m.features & 0xffff_ffff) as u32
        } else if m.feature_select == 1 {
            ((m.features >> 32) & 0xffff_ffff) as u32
        } else {
            0u32
        }
    } else if offset == OFF_QUEUE_NUM_MAX {
        m.max_queue
    } else if offset == OFF_STATUS {
        m.status
    } else {
        0u32
    }
}

/// The status value the device latches when the driver writes `value`: a
/// device that does not honor feature negotiation drops the FEATURES_OK bit.
pub open spec fn masked_status(m: TransportModel, value: u32) -> u32 {
    if m.features_ok_honored {
        value
    } else {
        value & 0xffff_fff7
    }
}

/// The chain head the device will consume next: the available-ring entry for
/// entry number `used_idx`.
pub open spec fn chain_head(m: TransportModel) -> u16 {
    m.avail_ring[(m.used_idx % QUEUE_SIZE) as int]
}

/// Whether the pending chain is a well-formed three-descriptor read request:
/// a readable header of the right size whose record the driver published, a
/// writable full-sector data buffer, and a writable one-byte footer ending
/// the chain.
pub open spec fn chain_ok(m: TransportModel) -> bool {
    let head = chain_head(m);
    let d0 = m.desc_table[head as int];
    let d1 = m.desc_table[d0.next as int];
    let d2 = m.desc_table[d1.next as int];
    &&& head < QUEUE_SIZE
    &&& d0.flags == DESC_F_NEXT
    &&& d0.length == HEADER_LEN
    &&& d0.next < QUEUE_SIZE
    &&& (m.header_slot matches Some(h) && h.0 == d0.addr && h.1.request == 0)
    &&& d1.flags == (DESC_F_NEXT | DESC_F_WRITE)
    &&& d1.length == SECTOR_LEN
    &&& d1.next < QUEUE_SIZE
    &&& d2.flags == DESC_F_WRITE
    &&& d2.length == FOOTER_LEN
}

/// The device consuming one pending chain: on a well-formed read chain it
/// writes the requested sector into the data buffer and its status byte into
/// the footer; either way it advances the used index exactly once.
pub open spec fn complete_one(m: TransportModel) -> TransportModel {
    if chain_ok(m) {
        let head = chain_head(m);
        let d0 = m.desc_table[head as int];
        let d1 = m.desc_table[d0.next as int];
        let d2 = m.desc_table[d1.next as int];
        match m.header_slot {
            Some(h) => (TransportModel {
                data_slot: Some((d1.addr, sector_data(m, h.1.sector))),
                status_slot: Some((d2.addr, m.report_status)),
                used_idx: wrap_inc(m.used_idx),
                ..m
            }),
            None => (TransportModel { used_idx: wrap_inc(m.used_idx), ..m }),
        }
    } else {
        TransportModel { used_idx: wrap_inc(m.used_idx), ..m }
    }
}

/// The device consuming one pending chain if there is one.
pub open spec fn complete_pending(m: TransportModel) -> TransportModel {
    if m.used_idx == m.avail_idx {
        m
    } else {
        complete_one(m)
    }
}

/// What one used-index poll lets the device do: while a chain is pending it
/// may stay idle for up to `delay` polls, counting each one down; after
/// that it completes the chain.
pub open spec fn poll_step(m: TransportModel) -> TransportModel {
    if m.used_idx != m.avail_idx && m.delay > 0 {
        TransportModel { delay: (m.delay - 1) as u32, ..m }
    } else {
        complete_pending(m)
    }
}

/// Equality of two device states up to the completion-delay counter.
pub open spec fn eq_except_delay(a: TransportModel, b: TransportModel) -> bool {
    a == (TransportModel { delay: a.delay, ..b })
}

/// Completing a pending chain reads nothing of the delay counter: two
/// states equal up to the counter complete to states equal up to the
/// counter.
pub proof fn lemma_complete_one_ignores_delay(a: TransportModel, b: TransportModel)
    requires
        eq_except_delay(a, b),
    ensures
        eq_except_delay(complete_one(a), complete_one(b)),
{
    assert(chain_head(a) == chain_head(b));
    assert(chain_ok(a) == chain_ok(b));
    assert forall|s: u64| sector_data(a, s) == sector_data(b, s) by {}
    assert(complete_one(a) =~= (TransportModel {
        delay: complete_one(a).delay,
        ..complete_one(b)
    }));
}

/// How a register write changes the device: configuration registers latch
/// the value, a status write goes through [`masked_status`], and a notify
/// write changes nothing the driver can observe — the device's progress on
/// the notified chain surfaces through [`poll_step`]; writes elsewhere do
/// nothing.
pub open spec fn reg_write_model(m: TransportModel, offset: u64, value: u32) -> TransportModel {
    if offset == OFF_DEVICE_FEATURES_SEL {
        TransportModel { feature_select: value, ..m }
    } else if offset == OFF_DRIVER_FEATURES_SEL {
        TransportModel { driver_feature_select: value, ..m }
    } else if offset == OFF_DRIVER_FEATURES {
        if m.driver_feature_select == 0 {
            TransportModel { driver_features_lo: value, ..m }
        } else if m.driver_feature_select == 1 {
            TransportModel { driver_features_hi: value, ..m }
        } else {
            m
        }
    } else if offset == OFF_QUEUE_SEL {
        TransportModel { queue_select: value, ..m }
    } else if offset == OFF_QUEUE_NUM {
        TransportModel { queue_size: value, ..m }
    } else if offset == OFF_QUEUE_READY {
        TransportModel { queue_ready: value, ..m }
    } else if offset == OFF_QUEUE_NOTIFY {
        // A notification changes nothing the driver can observe directly;
        // the device's progress becomes visible through used-index polls.
        m
    } else if offset == OFF_STATUS {
        TransportModel { status: masked_status(m, value), ..m }
    } else if offset == OFF_QUEUE_DESC_LOW {
        TransportModel { desc_addr_lo: value, ..m }
    } else if offset == OFF_QUEUE_DESC_HIGH {
        TransportModel { desc_addr_hi: value, ..m }
    } else if offset == OFF_QUEUE_AVAIL_LOW {
        TransportModel { avail_addr_lo: value, ..m }
    } else if offset == OFF_QUEUE_AVAIL_HIGH {
        TransportModel { avail_addr_hi: value, ..m }
    } else if offset == OFF_QUEUE_USED_LOW {
        TransportModel { used_addr_lo: value, ..m }
    } else if offset == OFF_QUEUE_USED_HIGH {
        TransportModel { used_addr_hi: value, ..m }
    } else {
        m
    }
}

/// The status byte readable at `addr`: the footer the device wrote there, or
/// zero where it wrote none.
pub open spec fn status_at(m: TransportModel, addr: u64) -> u8 {
    match m.status_slot {
        Some(p) => if p.0 == addr {
            p.1
        } else {
            0u8
        },
        None => 0u8,
    }
}

/// The data buffer readable at `addr`, if the device wrote one there.
pub open spec fn data_at(m: TransportModel, addr: u64) -> Option<Seq<u8>> {
    match m.data_slot {
        Some(p) => if p.0 == addr {
            Some(p.1)
        } else {
            None
        },
        None => None,
    }
}

/// Word-sized access to a conforming virtio MMIO device and to the queue
/// memory shared with it.  The contracts state, over [`TransportModel`], what
/// each access does to the device; the driver is verified against them alone.
pub trait VirtioTransport: Sized {
    /// The device state this transport exposes.
    spec fn model(&self) -> TransportModel;

    /// Read the 32-bit register at `offset`.
    fn read_reg(&self, offset: u64) -> (r: u32)
        ensures
            r == reg_read_value(self.model(), offset),
    ;

    /// Write the 32-bit register at `offset`.  A write to the queue-notify
    /// register tells the device the available ring changed; the completion
    /// it triggers becomes visible only through [`Self::poll_used_idx`].
    fn write_reg(&mut self, offset: u64, value: u32)
        requires
            old(self).model().wf(),
        ensures
            final(self).model() == reg_write_model(old(self).model(), offset, value),
    ;

    /// Store one descriptor-table entry where the device can see it.
    fn write_desc(&mut self, index: u16, d: Desc)
        requires
            old(self).model().wf(),
            index < QUEUE_SIZE,
        ensures
            final(self).model() == (TransportModel {
                desc_table: old(self).model().desc_table.update(index as int, d),
                ..old(self).model()
            }),
    ;

    /// Store one available-ring entry where the device can see it.
    fn write_avail_entry(&mut self, slot: u16, head: u16)
        requires
            old(self).model().wf(),
            slot < QUEUE_SIZE,
        ensures
            final(self).model() == (TransportModel {
                avail_ring: old(self).model().avail_ring.update(slot as int, head),
                ..old(self).model()
            }),
    ;

    /// Publish a new available index.  A hardware binding issues the release
    /// fence here that makes the ring contents visible to the device before
    /// the index advances.
    fn write_avail_idx(&mut self, idx: u16)
        ensures
            final(self).model() == (TransportModel { avail_idx: idx, ..old(self).model() }),
    ;

    /// Poll the device's used index.  A hardware binding re-issues an
    /// acquire fence on every call so the device's progress becomes
    /// visible; the device may hold a pending chain back for up to `delay`
    /// polls before completing it.
    fn poll_used_idx(&mut self) -> (r: u16)
        requires
            old(self).model().wf(),
        ensures
            final(self).model() == poll_step(old(self).model()),
            r == final(self).model().used_idx,
    ;

    /// Store the block-request header record at its published address.
    fn write_header(&mut self, addr: u64, h: BlockRequestHeader)
        ensures
            final(self).model() == (TransportModel {
                header_slot: Some((addr, h)),
                ..old(self).model()
            }),
    ;

    /// Store the initial value of the one-byte status footer.
    fn write_status_byte(&mut self, addr: u64, status: u8)
        ensures
            final(self).model() == (TransportModel {
                status_slot: Some((addr, status)),
                ..old(self).model()
            }),
    ;

    /// Load the status footer byte at `addr`.
    fn read_status_byte(&self, addr: u64) -> (r: u8)
        ensures
            r == status_at(self.model(), addr),
    ;

    /// Copy the device-written data buffer at `addr` into `data`; where the
    /// device wrote none, `data` is left as it was.
    fn read_data(&self, addr: u64, data: &mut Vec<u8>)
        ensures
            (match data_at(self.model(), addr) {
                Some(b) => final(data)@ == b,
                None => final(data)@ == old(data)@,
            }),
    ;
}

} // verus!
