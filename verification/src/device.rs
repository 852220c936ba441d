//! The driver: device handle, error model, initialization handshake, and the
//! sector-read engine.

use vstd::prelude::*;
use crate::transport::{
    VirtioTransport, TransportModel, Desc, BlockRequestHeader, reg_write_model, sector_data,
    complete_one, eq_except_delay, lemma_complete_one_ignores_delay, wrap_inc, wrapping_inc,
    QUEUE_SIZE, SECTOR_LEN, HEADER_LEN, FOOTER_LEN, OFF_MAGIC, OFF_VERSION, OFF_DEVICE_ID,
    OFF_DEVICE_FEATURES, OFF_DEVICE_FEATURES_SEL, OFF_DRIVER_FEATURES, OFF_DRIVER_FEATURES_SEL,
    OFF_QUEUE_SEL, OFF_QUEUE_NUM_MAX, OFF_QUEUE_NUM, OFF_QUEUE_READY, OFF_QUEUE_NOTIFY,
    OFF_STATUS, OFF_QUEUE_DESC_LOW, OFF_QUEUE_DESC_HIGH, OFF_QUEUE_AVAIL_LOW,
    OFF_QUEUE_AVAIL_HIGH, OFF_QUEUE_USED_LOW, OFF_QUEUE_USED_HIGH, VIRTIO_MAGIC, VIRTIO_VERSION,
    VIRTIO_DEVICE_BLOCK, VIRTIO_F_VERSION_1, STATUS_ACKNOWLEDGE, STATUS_DRIVER, STATUS_DRIVER_OK,
    STATUS_FEATURES_OK, STATUS_FAILED, DESC_F_NEXT, DESC_F_WRITE, DESC_TABLE_ADDR,
    AVAIL_RING_ADDR, USED_RING_ADDR, HEADER_ADDR, DATA_ADDR, FOOTER_ADDR,
};

verus! {

/// The closed set of failures the driver surfaces; every kind is terminal
/// for the call that produced it.
#[derive(Clone, Copy, Debug, PartialEq, Eq, Structural)]
pub enum Error {
    VirtioMagicInvalid,
    VirtioVersionInvalid,
    VirtioUnsupportedDevice,
    VirtioLegacyOnly,
    VirtioFeatureNegotiationFailed,
    VirtioQueueTooSmall,
    BlockIOError,
    BlockNotSupported,
}

/// Consumers of a block device: read one 512-byte sector at a time.
pub trait SectorRead {
    /// Whether the device is in a state fit for reading.
    spec fn read_ready(&self) -> bool;

    /// The status byte the device will report for the next completed
    /// request.
    spec fn reported_status(&self) -> u8;

    /// The 512 bytes the device's medium holds for `sector`.
    spec fn stored_sector(&self, sector: u64) -> Seq<u8>;

    /// Read the 512-byte sector `sector` into `data`, which must be exactly
    /// 512 bytes long.  The result is exactly the device's reported status
    /// mapped through [`read_outcome`]; on success `data` holds exactly the
    /// stored sector; and the medium is left undisturbed, so repeated reads
    /// of an unmodified sector agree.
    fn read(&mut self, sector: u64, data: &mut Vec<u8>) -> (r: Result<(), Error>)
        requires
            old(self).read_ready(),
            old(data)@.len() == SECTOR_LEN,
        ensures
            final(self).read_ready(),
            final(data)@.len() == SECTOR_LEN,
            r == read_outcome(old(self).reported_status()),
            r is Ok ==> final(data)@ == old(self).stored_sector(sector),
            final(self).reported_status() == old(self).reported_status(),
            forall|s: u64| #[trigger] final(self).stored_sector(s) == old(self).stored_sector(s),
    ;
}

/// What initialization returns as a function of the device it probed.
pub open spec fn init_outcome(m: TransportModel) -> Result<(), Error> {
    if m.magic != VIRTIO_MAGIC {
        Err(Error::VirtioMagicInvalid)
    } else if m.version != VIRTIO_VERSION {
        Err(Error::VirtioVersionInvalid)
    } else if m.device_type != VIRTIO_DEVICE_BLOCK {
        Err(Error::VirtioUnsupportedDevice)
    } else if m.features & VIRTIO_F_VERSION_1 != VIRTIO_F_VERSION_1 {
        Err(Error::VirtioLegacyOnly)
    } else if !m.features_ok_honored {
        Err(Error::VirtioFeatureNegotiationFailed)
    } else if m.max_queue < QUEUE_SIZE as u32 {
        Err(Error::VirtioQueueTooSmall)
    } else {
        Ok(())
    }
}

/// How a read call maps the footer's status byte to its result: 0 is
/// success, 1 an I/O error, and everything else — including unknown future
/// values — is treated as unsupported.
pub open spec fn read_outcome(status: u8) -> Result<(), Error> {
    if status == 0 {
        Ok(())
    } else if status == 1 {
        Err(Error::BlockIOError)
    } else {
        Err(Error::BlockNotSupported)
    }
}

/// The 64-bit driver feature bitmap the device has latched.
pub open spec fn driver_features_of(m: TransportModel) -> u64 {
    (m.driver_features_lo as u64) | ((m.driver_features_hi as u64) << 32)
}

/// The parts of the device state that initialization never touches: the
/// read-only identity, the behaviour knobs, and the whole queue and medium
/// state.
pub open spec fn init_untouched(m0: TransportModel, m1: TransportModel) -> bool {
    &&& m1.magic == m0.magic
    &&& m1.version == m0.version
    &&& m1.device_type == m0.device_type
    &&& m1.features == m0.features
    &&& m1.max_queue == m0.max_queue
    &&& m1.features_ok_honored == m0.features_ok_honored
    &&& m1.report_status == m0.report_status
    &&& m1.delay == m0.delay
    &&& m1.desc_table == m0.desc_table
    &&& m1.avail_ring == m0.avail_ring
    &&& m1.avail_idx == m0.avail_idx
    &&& m1.used_idx == m0.used_idx
    &&& m1.header_slot == m0.header_slot
    &&& m1.data_slot == m0.data_slot
    &&& m1.status_slot == m0.status_slot
    &&& m1.disk == m0.disk
}

/// The parts of the device state that a read call never touches: the whole
/// register file, the device's identity and behaviour knobs, and the medium.
pub open spec fn read_untouched(m0: TransportModel, m1: TransportModel) -> bool {
    &&& m1.magic == m0.magic
    &&& m1.version == m0.version
    &&& m1.device_type == m0.device_type
    &&& m1.features == m0.features
    &&& m1.max_queue == m0.max_queue
    &&& m1.features_ok_honored == m0.features_ok_honored
    &&& m1.report_status == m0.report_status
    &&& m1.status == m0.status
    &&& m1.feature_select == m0.feature_select
    &&& m1.driver_feature_select == m0.driver_feature_select
    &&& m1.driver_features_lo == m0.driver_features_lo
    &&& m1.driver_features_hi == m0.driver_features_hi
    &&& m1.queue_select == m0.queue_select
    &&& m1.queue_size == m0.queue_size
    &&& m1.queue_ready == m0.queue_ready
    &&& m1.desc_addr_lo == m0.desc_addr_lo
    &&& m1.desc_addr_hi == m0.desc_addr_hi
    &&& m1.avail_addr_lo == m0.avail_addr_lo
    &&& m1.avail_addr_hi == m0.avail_addr_hi
    &&& m1.used_addr_lo == m0.used_addr_lo
    &&& m1.used_addr_hi == m0.used_addr_hi
    &&& m1.disk == m0.disk
}

/// Driver for a virtio block device over the MMIO transport.  It owns the
/// transport handle and the cursor into the descriptor table; the queue
/// records themselves live in the memory shared with the device, behind the
/// transport.
pub struct VirtioMMIOBlockDevice<T: VirtioTransport> {
    /// The device's register file and shared queue memory.
    pub region: T,
    /// Index of the next free descriptor-table slot.
    pub next_head: u16,
    /// The driver's count of published available-ring entries.
    pub avail_idx: u16,
}

impl<T: VirtioTransport> VirtioMMIOBlockDevice<T> {
    /// Well-formedness: the device state is structurally valid, the cursor
    /// is a table index, the driver's available count agrees with what it
    /// published, and no request is in flight.
    pub open spec fn wf(&self) -> bool {
        &&& self.region.model().wf()
        &&& self.next_head < QUEUE_SIZE
        &&& self.avail_idx == self.region.model().avail_idx
        &&& self.region.model().used_idx == self.avail_idx
    }

    /// Construct a driver handle over a transport.  The handle is
    /// well-formed once its transport is: structurally valid and quiescent
    /// with no entries published yet.
    pub fn new(region: T) -> (r: Self)
        ensures
            r.region == region,
            r.next_head == 0,
            r.avail_idx == 0,
    {
        VirtioMMIOBlockDevice { region, next_head: 0, avail_idx: 0 }
    }

    /// Read the device-status register.
    pub fn get_status(&self) -> (r: u32)
        ensures
            r == self.region.model().status,
    {
        self.region.read_reg(OFF_STATUS)
    }

    /// Write the device-status register.
    pub fn set_status(&mut self, value: u32)
        requires
            old(self).region.model().wf(),
        ensures
            final(self).region.model() == reg_write_model(
                old(self).region.model(),
                OFF_STATUS,
                value,
            ),
            final(self).next_head == old(self).next_head,
            final(self).avail_idx == old(self).avail_idx,
    {
        self.region.write_reg(OFF_STATUS, value);
    }

    /// OR `value` into the device-status register.
    pub fn add_status(&mut self, value: u32)
        requires
            old(self).region.model().wf(),
        ensures
            final(self).region.model() == reg_write_model(
                old(self).region.model(),
                OFF_STATUS,
                old(self).region.model().status | value,
            ),
            final(self).next_head == old(self).next_head,
            final(self).avail_idx == old(self).avail_idx,
    {
        let current = self.get_status();
        self.set_status(current | value);
    }

    /// The one-time handshake that brings the device from reset to
    /// operational: probe the identity registers, negotiate features, and
    /// program the queue.  The result is exactly [`init_outcome`] of the
    /// device as found; any failure after the probe marks the device FAILED,
    /// and no failure programs the queue.
    pub fn init(&mut self) -> (r: Result<(), Error>)
        requires
            old(self).wf(),
        ensures
            final(self).wf(),
            final(self).next_head == old(self).next_head,
            final(self).avail_idx == old(self).avail_idx,
            r == init_outcome(old(self).region.model()),
            init_untouched(old(self).region.model(), final(self).region.model()),
            (r matches Err(e) && (e == Error::VirtioMagicInvalid || e == Error::VirtioVersionInvalid
                || e == Error::VirtioUnsupportedDevice)) ==> final(self).region.model()
                == old(self).region.model(),
            r is Err ==> ({
                let m0 = old(self).region.model();
                let m1 = final(self).region.model();
                &&& m1.queue_size == m0.queue_size
                &&& m1.queue_ready == m0.queue_ready
                &&& m1.desc_addr_lo == m0.desc_addr_lo
                &&& m1.desc_addr_hi == m0.desc_addr_hi
                &&& m1.avail_addr_lo == m0.avail_addr_lo
                &&& m1.avail_addr_hi == m0.avail_addr_hi
                &&& m1.used_addr_lo == m0.used_addr_lo
                &&& m1.used_addr_hi == m0.used_addr_hi
            }),
            (r == Err::<(), Error>(Error::VirtioLegacyOnly) || r == Err::<(), Error>(
                Error::VirtioFeatureNegotiationFailed,
            )) ==> final(self).region.model().status == (STATUS_ACKNOWLEDGE | STATUS_DRIVER
                | STATUS_FAILED),
            r == Err::<(), Error>(Error::VirtioQueueTooSmall) ==> final(self).region.model().status
                == (STATUS_ACKNOWLEDGE | STATUS_DRIVER | STATUS_FEATURES_OK | STATUS_FAILED),
            // The legacy-only failure comes before any driver-feature or
            // queue-select write; only the feature-select register moved.
            r == Err::<(), Error>(Error::VirtioLegacyOnly) ==> ({
                let m0 = old(self).region.model();
                let m1 = final(self).region.model();
                &&& m1.driver_feature_select == m0.driver_feature_select
                &&& m1.driver_features_lo == m0.driver_features_lo
                &&& m1.driver_features_hi == m0.driver_features_hi
                &&& m1.queue_select == m0.queue_select
                &&& m1.feature_select == 1
            }),
            // Once the feature exchange is reached, the whole device bitmap
            // has been written back as the accepted driver feature set,
            // whether or not a later step fails.
            (r == Err::<(), Error>(Error::VirtioFeatureNegotiationFailed) || r == Err::<(), Error>(
                Error::VirtioQueueTooSmall,
            ) || r is Ok) ==> ({
                let m0 = old(self).region.model();
                let m1 = final(self).region.model();
                &&& m1.driver_feature_select == 1
                &&& m1.driver_features_lo == (m0.features & 0xffff_ffff) as u32
                &&& m1.driver_features_hi == ((m0.features >> 32) & 0xffff_ffff) as u32
                &&& driver_features_of(m1) == m0.features
            }),
            // Failed negotiation returns before the queue-select write;
            // queue-too-small fails just after it.
            r == Err::<(), Error>(Error::VirtioFeatureNegotiationFailed)
                ==> final(self).region.model().queue_select
                == old(self).region.model().queue_select,
            r == Err::<(), Error>(Error::VirtioQueueTooSmall)
                ==> final(self).region.model().queue_select == 0,
            r is Ok ==> ({
                let m0 = old(self).region.model();
                let m1 = final(self).region.model();
                &&& m1.status == (STATUS_ACKNOWLEDGE | STATUS_DRIVER | STATUS_FEATURES_OK
                    | STATUS_DRIVER_OK)
                &&& m1.queue_select == 0
                &&& m1.queue_size == QUEUE_SIZE as u32
                &&& m1.queue_ready == 1
                &&& m1.desc_addr_lo == DESC_TABLE_ADDR as u32
                &&& m1.desc_addr_hi == (DESC_TABLE_ADDR >> 32) as u32
                &&& m1.avail_addr_lo == AVAIL_RING_ADDR as u32
                &&& m1.avail_addr_hi == (AVAIL_RING_ADDR >> 32) as u32
                &&& m1.used_addr_lo == USED_RING_ADDR as u32
                &&& m1.used_addr_hi == (USED_RING_ADDR >> 32) as u32
                &&& driver_features_of(m1) == m0.features
            }),
    {
        let ghost m0 = self.region.model();

        if self.region.read_reg(OFF_MAGIC) != VIRTIO_MAGIC {
            return Err(Error::VirtioMagicInvalid);
        }
        if self.region.read_reg(OFF_VERSION) != VIRTIO_VERSION {
            return Err(Error::VirtioVersionInvalid);
        }
        if self.region.read_reg(OFF_DEVICE_ID) != VIRTIO_DEVICE_BLOCK {
            return Err(Error::VirtioUnsupportedDevice);
        }

        proof {
            assert((0u32 | 1) == 1 && (1u32 | 2) == 3 && (3u32 | 8) == 11 && (11u32 | 4) == 15
                && (3u32 | 128) == 131 && (11u32 | 128) == 139 && (11u32 & 8) == 8 && (3u32 & 8)
                == 0 && (0u32 & 0xffff_fff7) == 0 && (1u32 & 0xffff_fff7) == 1 && (3u32
                & 0xffff_fff7) == 3 && (11u32 & 0xffff_fff7) == 3 && (131u32 & 0xffff_fff7)
                == 131) by (bit_vector);
            assert(((1u32 | 2) | 128) == 131 && ((1u32 | 2) | 8) == 11 && (((1u32 | 2) | 8) | 128)
                == 139 && (((1u32 | 2) | 8) | 4) == 15) by (bit_vector);
        }

        // Reset the device, acknowledge it, and advertise the driver.
        self.set_status(0);
        self.add_status(STATUS_ACKNOWLEDGE);
        self.add_status(STATUS_DRIVER);

        // Read the 64-bit device feature bitmap in two selected halves.
        self.region.write_reg(OFF_DEVICE_FEATURES_SEL, 0);
        let lo = self.region.read_reg(OFF_DEVICE_FEATURES);
        self.region.write_reg(OFF_DEVICE_FEATURES_SEL, 1);
        let hi = self.region.read_reg(OFF_DEVICE_FEATURES);
        let device_features: u64 = (lo as u64) | ((hi as u64) << 32);
        proof {
            let f: u64 = m0.features;
            assert((lo as u64) | ((hi as u64) << 32) == f) by (bit_vector)
                requires
                    lo == (f & 0xffff_ffff) as u32,
                    hi == ((f >> 32) & 0xffff_ffff) as u32,
            ;
        }

        if device_features & VIRTIO_F_VERSION_1 != VIRTIO_F_VERSION_1 {
            self.add_status(STATUS_FAILED);
            return Err(Error::VirtioLegacyOnly);
        }

        // Accept the whole bitmap back as the driver feature set.
        self.region.write_reg(OFF_DRIVER_FEATURES_SEL, 0);
        let driver_features: u64 = device_features;
        self.region.write_reg(OFF_DRIVER_FEATURES, #[verifier::truncate] (driver_features as u32));
        self.region.write_reg(OFF_DRIVER_FEATURES_SEL, 1);
        self.region.write_reg(
            OFF_DRIVER_FEATURES,
            #[verifier::truncate] ((driver_features >> 32) as u32),
        );
        proof {
            let f: u64 = m0.features;
            assert(((f as u32) as u64) | ((((f >> 32) as u32) as u64) << 32) == f) by (bit_vector);
            assert(f as u32 == (f & 0xffff_ffff) as u32 && (f >> 32) as u32 == ((f >> 32)
                & 0xffff_ffff) as u32) by (bit_vector);
        }

        self.add_status(STATUS_FEATURES_OK);
        if self.get_status() & STATUS_FEATURES_OK != STATUS_FEATURES_OK {
            self.add_status(STATUS_FAILED);
            return Err(Error::VirtioFeatureNegotiationFailed);
        }

        // Program queue zero.
        self.region.write_reg(OFF_QUEUE_SEL, 0);
        let max_queue = self.region.read_reg(OFF_QUEUE_NUM_MAX);
        if max_queue < QUEUE_SIZE as u32 {
            self.add_status(STATUS_FAILED);
            return Err(Error::VirtioQueueTooSmall);
        }
        self.region.write_reg(OFF_QUEUE_NUM, QUEUE_SIZE as u32);

        // Publish the addresses of the three queue records.
        self.region.write_reg(OFF_QUEUE_DESC_LOW, #[verifier::truncate] (DESC_TABLE_ADDR as u32));
        self.region.write_reg(
            OFF_QUEUE_DESC_HIGH,
            #[verifier::truncate] ((DESC_TABLE_ADDR >> 32) as u32),
        );
        self.region.write_reg(OFF_QUEUE_AVAIL_LOW, #[verifier::truncate] (AVAIL_RING_ADDR as u32));
        self.region.write_reg(
            OFF_QUEUE_AVAIL_HIGH,
            #[verifier::truncate] ((AVAIL_RING_ADDR >> 32) as u32),
        );
        self.region.write_reg(OFF_QUEUE_USED_LOW, #[verifier::truncate] (USED_RING_ADDR as u32));
        self.region.write_reg(
            OFF_QUEUE_USED_HIGH,
            #[verifier::truncate] ((USED_RING_ADDR >> 32) as u32),
        );

        // Mark the queue ready, then report the driver live.
        self.region.write_reg(OFF_QUEUE_READY, 1);
        self.add_status(STATUS_DRIVER_OK);

        Ok(())
    }

    /// Read the 512-byte sector `sector` into `data`: build the
    /// three-descriptor chain at the cursor, publish it through the
    /// available ring, notify the device, poll the used ring to completion,
    /// and interpret the footer's status byte.  The result is exactly
    /// [`read_outcome`] of the device's reported status, and on success
    /// `data` holds exactly the sector's bytes.
    pub fn read_sector(&mut self, sector: u64, data: &mut Vec<u8>) -> (r: Result<(), Error>)
        requires
            old(self).wf(),
            old(data)@.len() == SECTOR_LEN,
        ensures
            final(self).wf(),
            final(data)@.len() == SECTOR_LEN,
            r == read_outcome(old(self).region.model().report_status),
            r is Ok ==> final(data)@ == sector_data(old(self).region.model(), sector),
            read_untouched(old(self).region.model(), final(self).region.model()),
            final(self).next_head == ((old(self).next_head + 3) % (QUEUE_SIZE as int)) as u16,
            final(self).avail_idx == wrap_inc(old(self).avail_idx),
            final(self).region.model().avail_idx == wrap_inc(old(self).region.model().avail_idx),
            final(self).region.model().used_idx == wrap_inc(old(self).region.model().used_idx),
            ({
                let h0 = old(self).next_head;
                let h1 = (((h0 + 1) % (QUEUE_SIZE as int)) as u16);
                let h2 = (((h1 + 1) % (QUEUE_SIZE as int)) as u16);
                final(self).region.model().desc_table == old(self).region.model().desc_table
                    .update(h0 as int, (Desc {
                        addr: HEADER_ADDR,
                        length: HEADER_LEN,
                        flags: DESC_F_NEXT,
                        next: h1,
                    }))
                    .update(h1 as int, (Desc {
                        addr: DATA_ADDR,
                        length: SECTOR_LEN,
                        flags: DESC_F_NEXT | DESC_F_WRITE,
                        next: h2,
                    }))
                    .update(h2 as int, (Desc {
                        addr: FOOTER_ADDR,
                        length: FOOTER_LEN,
                        flags: DESC_F_WRITE,
                        next: 0u16,
                    }))
            }),
            final(self).region.model().avail_ring == old(self).region.model().avail_ring.update(
                (old(self).avail_idx % QUEUE_SIZE) as int,
                old(self).next_head,
            ),
            final(self).region.model().header_slot == Some((
                HEADER_ADDR,
                (BlockRequestHeader { request: 0, reserved: 0, sector }),
            )),
    {
        let ghost m0 = self.region.model();

        let header = BlockRequestHeader { request: 0, reserved: 0, sector };

        // Claim three consecutive descriptor slots starting at the cursor,
        // wrapping modulo the queue length.
        let h0 = self.next_head;
        let h1 = (h0 + 1) % QUEUE_SIZE;
        let h2 = (h1 + 1) % QUEUE_SIZE;
        proof {
            assert(h1 < QUEUE_SIZE && h2 < QUEUE_SIZE);
            assert(h0 != h1 && h0 != h2 && h1 != h2);
        }

        // The chain: header (device-readable), data buffer (device-written),
        // status footer (device-written, ends the chain).
        self.region.write_desc(
            h0,
            Desc { addr: HEADER_ADDR, length: HEADER_LEN, flags: DESC_F_NEXT, next: h1 },
        );
        self.region.write_desc(
            h1,
            Desc {
                addr: DATA_ADDR,
                length: SECTOR_LEN,
                flags: DESC_F_NEXT | DESC_F_WRITE,
                next: h2,
            },
        );
        self.region.write_desc(
            h2,
            Desc { addr: FOOTER_ADDR, length: FOOTER_LEN, flags: DESC_F_WRITE, next: 0 },
        );

        // Publish the header record and the footer's initial value.
        self.region.write_header(HEADER_ADDR, header);
        self.region.write_status_byte(FOOTER_ADDR, 0);

        // Point the ring at the head of the chain, then advance the index;
        // the transport fences between the two writes.
        let slot = self.avail_idx % QUEUE_SIZE;
        self.region.write_avail_entry(slot, h0);
        let new_idx = wrapping_inc(self.avail_idx);
        self.region.write_avail_idx(new_idx);
        self.avail_idx = new_idx;

        // Advance the cursor past the three consumed descriptors.
        self.next_head = (h2 + 1) % QUEUE_SIZE;

        // Notify the device that the available ring changed.
        self.region.write_reg(OFF_QUEUE_NOTIFY, 0);

        // Poll until the device's used index catches up with the published
        // available index.  The transport fences on every poll; a
        // conforming device completes the chain after at most its bounded
        // number of idle polls, which bounds the wait.
        let ghost m_pend = self.region.model();
        let ghost nh = self.next_head;
        let ghost ai = self.avail_idx;
        loop
            invariant
                self.region.model().wf(),
                self.next_head == nh,
                self.avail_idx == ai,
                m_pend.avail_idx == ai,
                m_pend.avail_idx == wrap_inc(m_pend.used_idx),
                ({
                    let mc = self.region.model();
                    ||| (mc.used_idx != mc.avail_idx && eq_except_delay(mc, m_pend))
                    ||| eq_except_delay(mc, complete_one(m_pend))
                }),
            ensures
                self.next_head == nh,
                self.avail_idx == ai,
                eq_except_delay(self.region.model(), complete_one(m_pend)),
            decreases self.region.model().delay + (if self.region.model().used_idx
                != self.region.model().avail_idx {
                1int
            } else {
                0int
            }),
        {
            let ghost mb = self.region.model();
            let u = self.region.poll_used_idx();
            proof {
                let mc = self.region.model();
                if mb.used_idx != mb.avail_idx && eq_except_delay(mb, m_pend) {
                    if mb.delay > 0 {
                        // The device counted one idle poll down.
                        assert(mc =~= (TransportModel { delay: mc.delay, ..m_pend }));
                    } else {
                        // The device completed the chain.
                        lemma_complete_one_ignores_delay(mb, m_pend);
                    }
                } else {
                    // Already complete: the poll changed nothing.
                    assert(mc == mb);
                }
            }
            if u == self.avail_idx {
                break;
            }
        }

        // Interpret the footer's status byte and hand the buffer back.
        let status = self.region.read_status_byte(FOOTER_ADDR);
        self.region.read_data(DATA_ADDR, data);

        if status == 0 {
            Ok(())
        } else if status == 1 {
            Err(Error::BlockIOError)
        } else {
            Err(Error::BlockNotSupported)
        }
    }

    /// Read `sector` only when `data` is exactly 512 bytes long.  A buffer
    /// of any other length is a caller error and is refused before any
    /// device access: the driver, the device and the buffer come back
    /// unchanged, so no register is touched and nothing is published.
    pub fn try_read_sector(&mut self, sector: u64, data: &mut Vec<u8>) -> (r: Option<
        Result<(), Error>,
    >)
        requires
            old(self).wf(),
        ensures
            final(self).wf(),
            old(data)@.len() != SECTOR_LEN ==> ({
                &&& r is None
                &&& *final(self) == *old(self)
                &&& *final(data) == *old(data)
            }),
            old(data)@.len() == SECTOR_LEN ==> ({
                &&& r == Some(read_outcome(old(self).region.model().report_status))
                &&& final(data)@.len() == SECTOR_LEN
                &&& (r == Some(Ok::<(), Error>(())) ==> final(data)@ == sector_data(
                    old(self).region.model(),
                    sector,
                ))
                &&& read_untouched(old(self).region.model(), final(self).region.model())
            }),
    {
        if data.len() != SECTOR_LEN as usize {
            return None;
        }
        Some(self.read_sector(sector, data))
    }
}

impl<T: VirtioTransport> SectorRead for VirtioMMIOBlockDevice<T> {
    open spec fn read_ready(&self) -> bool {
        self.wf()
    }

    open spec fn reported_status(&self) -> u8 {
        self.region.model().report_status
    }

    open spec fn stored_sector(&self, sector: u64) -> Seq<u8> {
        sector_data(self.region.model(), sector)
    }

    fn read(&mut self, sector: u64, data: &mut Vec<u8>) -> (r: Result<(), Error>) {
        self.read_sector(sector, data)
    }
}

} // verus!
