//! The driver's stated properties, proved once and for all over the spec
//! functions that the contracts of `init` and `read_sector` deliver.

use vstd::prelude::*;
use crate::transport::{
    TransportModel, sector_data, QUEUE_SIZE, SECTOR_LEN, VIRTIO_MAGIC, VIRTIO_VERSION,
    VIRTIO_DEVICE_BLOCK, VIRTIO_F_VERSION_1, STATUS_ACKNOWLEDGE, STATUS_DRIVER, STATUS_DRIVER_OK,
    STATUS_FEATURES_OK, STATUS_FAILED,
};
use crate::device::{Error, init_outcome, read_outcome, read_untouched};

verus! {

/// Initialization against a conforming device succeeds for every 64-bit
/// feature bitmap that holds the version-1 bit, and the status value
/// `init`'s contract then guarantees has the ACKNOWLEDGE, DRIVER,
/// FEATURES_OK and DRIVER_OK bits all set.
pub proof fn lemma_init_succeeds_on_conforming_device(m: TransportModel)
    requires
        m.magic == VIRTIO_MAGIC,
        m.version == VIRTIO_VERSION,
        m.device_type == VIRTIO_DEVICE_BLOCK,
        m.features & VIRTIO_F_VERSION_1 == VIRTIO_F_VERSION_1,
        m.features_ok_honored,
        m.max_queue >= QUEUE_SIZE as u32,
    ensures
        init_outcome(m) == Ok::<(), Error>(()),
        ((STATUS_ACKNOWLEDGE | STATUS_DRIVER | STATUS_FEATURES_OK | STATUS_DRIVER_OK)
            & STATUS_ACKNOWLEDGE) == STATUS_ACKNOWLEDGE,
        ((STATUS_ACKNOWLEDGE | STATUS_DRIVER | STATUS_FEATURES_OK | STATUS_DRIVER_OK)
            & STATUS_DRIVER) == STATUS_DRIVER,
        ((STATUS_ACKNOWLEDGE | STATUS_DRIVER | STATUS_FEATURES_OK | STATUS_DRIVER_OK)
            & STATUS_FEATURES_OK) == STATUS_FEATURES_OK,
        ((STATUS_ACKNOWLEDGE | STATUS_DRIVER | STATUS_FEATURES_OK | STATUS_DRIVER_OK)
            & STATUS_DRIVER_OK) == STATUS_DRIVER_OK,
{
    assert((((1u32 | 2) | 8) | 4) & 1 == 1 && (((1u32 | 2) | 8) | 4) & 2 == 2 && (((1u32 | 2) | 8)
        | 4) & 8 == 8 && (((1u32 | 2) | 8) | 4) & 4 == 4) by (bit_vector);
}

/// Every malformed identity register makes initialization fail with its
/// specific error — and `init`'s contract adds that the device is then left
/// wholly untouched, so in particular no queue address was written.
pub proof fn lemma_init_rejects_bad_identity(m: TransportModel)
    ensures
        m.magic != VIRTIO_MAGIC ==> init_outcome(m) == Err::<(), Error>(Error::VirtioMagicInvalid),
        m.magic == VIRTIO_MAGIC && m.version != VIRTIO_VERSION ==> init_outcome(m) == Err::<
            (),
            Error,
        >(Error::VirtioVersionInvalid),
        m.magic == VIRTIO_MAGIC && m.version == VIRTIO_VERSION && m.device_type
            != VIRTIO_DEVICE_BLOCK ==> init_outcome(m) == Err::<(), Error>(
            Error::VirtioUnsupportedDevice,
        ),
{
}

/// A device offering a feature bitmap without the version-1 bit is refused
/// as legacy-only, and one that does not honor the FEATURES_OK handshake
/// fails negotiation; the status `init`'s contract then leaves has the
/// FAILED bit set.
pub proof fn lemma_init_rejects_bad_negotiation(m: TransportModel)
    requires
        m.magic == VIRTIO_MAGIC,
        m.version == VIRTIO_VERSION,
        m.device_type == VIRTIO_DEVICE_BLOCK,
    ensures
        m.features & VIRTIO_F_VERSION_1 != VIRTIO_F_VERSION_1 ==> init_outcome(m) == Err::<
            (),
            Error,
        >(Error::VirtioLegacyOnly),
        m.features & VIRTIO_F_VERSION_1 == VIRTIO_F_VERSION_1 && !m.features_ok_honored
            ==> init_outcome(m) == Err::<(), Error>(Error::VirtioFeatureNegotiationFailed),
        ((STATUS_ACKNOWLEDGE | STATUS_DRIVER | STATUS_FAILED) & STATUS_FAILED) == STATUS_FAILED,
{
    assert(((1u32 | 2) | 128) & 128 == 128) by (bit_vector);
}

/// A device whose maximum queue size is below the fixed queue length makes
/// initialization fail with VirtioQueueTooSmall, and the status `init`'s
/// contract then leaves has the FAILED bit set.
pub proof fn lemma_init_rejects_small_queue(m: TransportModel)
    requires
        m.magic == VIRTIO_MAGIC,
        m.version == VIRTIO_VERSION,
        m.device_type == VIRTIO_DEVICE_BLOCK,
        m.features & VIRTIO_F_VERSION_1 == VIRTIO_F_VERSION_1,
        m.features_ok_honored,
        m.max_queue < QUEUE_SIZE as u32,
    ensures
        init_outcome(m) == Err::<(), Error>(Error::VirtioQueueTooSmall),
        ((STATUS_ACKNOWLEDGE | STATUS_DRIVER | STATUS_FEATURES_OK | STATUS_FAILED)
            & STATUS_FAILED) == STATUS_FAILED,
{
    assert((((1u32 | 2) | 8) | 128) & 128 == 128) by (bit_vector);
}

/// Round trip: after a full sector is stored on the medium, the sector
/// content a read delivers — `read_sector` returns `sector_data` of the
/// device as found — is exactly those bytes.
pub proof fn lemma_sector_round_trip(m: TransportModel, sector: u64, bytes: Seq<u8>)
    requires
        bytes.len() == SECTOR_LEN,
    ensures
        sector_data((TransportModel { disk: m.disk.insert(sector, bytes), ..m }), sector)
            == bytes,
{
}

/// Reads do not disturb the medium: any two device states a read call
/// relates hold every sector unchanged, so repeated reads of an unmodified
/// sector return equal bytes.
pub proof fn lemma_repeated_reads_agree(m0: TransportModel, m1: TransportModel, sector: u64)
    requires
        read_untouched(m0, m1),
    ensures
        sector_data(m1, sector) == sector_data(m0, sector),
{
}

/// The footer's status byte maps to the read result exactly: 0 succeeds, 1
/// is an I/O error, and every other value — 2 as well as any unknown future
/// code — is reported as unsupported.
pub proof fn lemma_read_status_mapping()
    ensures
        read_outcome(0) == Ok::<(), Error>(()),
        read_outcome(1) == Err::<(), Error>(Error::BlockIOError),
        read_outcome(2) == Err::<(), Error>(Error::BlockNotSupported),
        forall|s: u8| s != 0 && s != 1 ==> read_outcome(s) == Err::<(), Error>(
            Error::BlockNotSupported,
        ),
{
}

/// One read consumes exactly three descriptor slots: the cursor advances by
/// three modulo the queue length, staying a valid table index and wrapping
/// to the table's start instead of running past its end once the queue
/// length is exhausted.
pub proof fn lemma_cursor_wraps(next_head: u16)
    requires
        next_head < QUEUE_SIZE,
    ensures
        ((next_head + 3) % (QUEUE_SIZE as int)) < QUEUE_SIZE,
        next_head + 3 < QUEUE_SIZE ==> ((next_head + 3) % (QUEUE_SIZE as int)) == next_head + 3,
        next_head + 3 >= QUEUE_SIZE ==> ((next_head + 3) % (QUEUE_SIZE as int)) == next_head + 3
            - QUEUE_SIZE,
{
}

} // verus!
