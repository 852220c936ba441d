//! End-to-end tests of the driver against the simulated device.

use virtio_blk::device::{Error, SectorRead, VirtioMMIOBlockDevice};
use virtio_blk::sim::SimTransport;
use virtio_blk::transport::{
    STATUS_ACKNOWLEDGE, STATUS_DRIVER, STATUS_DRIVER_OK, STATUS_FAILED, STATUS_FEATURES_OK,
    VIRTIO_DEVICE_BLOCK, VIRTIO_F_VERSION_1, VIRTIO_MAGIC, VIRTIO_VERSION,
};

fn conforming_device() -> SimTransport {
    SimTransport::new(
        VIRTIO_MAGIC,
        VIRTIO_VERSION,
        VIRTIO_DEVICE_BLOCK,
        VIRTIO_F_VERSION_1,
        64,
        true,
        0,
    )
}

fn pattern(seed: u8) -> Vec<u8> {
    (0..512).map(|i| (i as u8).wrapping_mul(31).wrapping_add(seed)).collect()
}

#[test]
fn init_succeeds_on_conforming_device() {
    let mut dev = VirtioMMIOBlockDevice::new(conforming_device());
    assert_eq!(dev.init(), Ok(()));
    let expect = STATUS_ACKNOWLEDGE | STATUS_DRIVER | STATUS_FEATURES_OK | STATUS_DRIVER_OK;
    assert_eq!(dev.get_status(), expect);
    assert_eq!(dev.region.queue_size, 16);
    assert_eq!(dev.region.queue_ready, 1);
}

#[test]
fn init_succeeds_with_extra_feature_bits() {
    let features = VIRTIO_F_VERSION_1 | 0x0000_0007_0000_0fb1;
    let mut dev = VirtioMMIOBlockDevice::new(SimTransport::new(
        VIRTIO_MAGIC,
        VIRTIO_VERSION,
        VIRTIO_DEVICE_BLOCK,
        features,
        16,
        true,
        0,
    ));
    assert_eq!(dev.init(), Ok(()));
    let expect = STATUS_ACKNOWLEDGE | STATUS_DRIVER | STATUS_FEATURES_OK | STATUS_DRIVER_OK;
    assert_eq!(dev.get_status(), expect);
    // The whole bitmap comes back as the accepted driver feature set.
    let latched =
        (dev.region.driver_features_lo as u64) | ((dev.region.driver_features_hi as u64) << 32);
    assert_eq!(latched, features);
}

#[test]
fn init_rejects_bad_magic() {
    let mut dev = VirtioMMIOBlockDevice::new(SimTransport::new(
        0x74726905,
        VIRTIO_VERSION,
        VIRTIO_DEVICE_BLOCK,
        VIRTIO_F_VERSION_1,
        64,
        true,
        0,
    ));
    assert_eq!(dev.init(), Err(Error::VirtioMagicInvalid));
    // The device was left wholly untouched: no status, no queue addresses.
    assert_eq!(dev.get_status(), 0);
    assert_eq!(dev.region.desc_addr_lo, 0);
    assert_eq!(dev.region.avail_addr_lo, 0);
    assert_eq!(dev.region.used_addr_lo, 0);
    assert_eq!(dev.region.queue_ready, 0);
}

#[test]
fn init_rejects_bad_version() {
    let mut dev = VirtioMMIOBlockDevice::new(SimTransport::new(
        VIRTIO_MAGIC,
        1,
        VIRTIO_DEVICE_BLOCK,
        VIRTIO_F_VERSION_1,
        64,
        true,
        0,
    ));
    assert_eq!(dev.init(), Err(Error::VirtioVersionInvalid));
    assert_eq!(dev.region.desc_addr_lo, 0);
    assert_eq!(dev.region.queue_ready, 0);
}

#[test]
fn init_rejects_wrong_device_type() {
    let mut dev = VirtioMMIOBlockDevice::new(SimTransport::new(
        VIRTIO_MAGIC,
        VIRTIO_VERSION,
        1,
        VIRTIO_F_VERSION_1,
        64,
        true,
        0,
    ));
    assert_eq!(dev.init(), Err(Error::VirtioUnsupportedDevice));
    assert_eq!(dev.region.desc_addr_lo, 0);
    assert_eq!(dev.region.queue_ready, 0);
}

#[test]
fn init_rejects_legacy_device() {
    // A feature bitmap without the version-1 bit.
    let mut dev = VirtioMMIOBlockDevice::new(SimTransport::new(
        VIRTIO_MAGIC,
        VIRTIO_VERSION,
        VIRTIO_DEVICE_BLOCK,
        0x0000_0000_ffff_ffff,
        64,
        true,
        0,
    ));
    assert_eq!(dev.init(), Err(Error::VirtioLegacyOnly));
    assert_eq!(dev.get_status(), STATUS_ACKNOWLEDGE | STATUS_DRIVER | STATUS_FAILED);
    assert_eq!(dev.region.desc_addr_lo, 0);
}

#[test]
fn init_rejects_failed_negotiation() {
    // A device that refuses to latch the FEATURES_OK status bit.
    let mut dev = VirtioMMIOBlockDevice::new(SimTransport::new(
        VIRTIO_MAGIC,
        VIRTIO_VERSION,
        VIRTIO_DEVICE_BLOCK,
        VIRTIO_F_VERSION_1,
        64,
        false,
        0,
    ));
    assert_eq!(dev.init(), Err(Error::VirtioFeatureNegotiationFailed));
    assert_eq!(dev.get_status(), STATUS_ACKNOWLEDGE | STATUS_DRIVER | STATUS_FAILED);
    assert_eq!(dev.region.desc_addr_lo, 0);
}

#[test]
fn init_rejects_small_queue() {
    let mut dev = VirtioMMIOBlockDevice::new(SimTransport::new(
        VIRTIO_MAGIC,
        VIRTIO_VERSION,
        VIRTIO_DEVICE_BLOCK,
        VIRTIO_F_VERSION_1,
        8,
        true,
        0,
    ));
    assert_eq!(dev.init(), Err(Error::VirtioQueueTooSmall));
    assert_eq!(dev.get_status() & STATUS_FAILED, STATUS_FAILED);
    // The queue was never programmed.
    assert_eq!(dev.region.queue_size, 0);
    assert_eq!(dev.region.queue_ready, 0);
    assert_eq!(dev.region.desc_addr_lo, 0);
}

#[test]
fn read_round_trip() {
    let mut region = conforming_device();
    let stored = pattern(7);
    region.set_sector(42, stored.clone());
    let mut dev = VirtioMMIOBlockDevice::new(region);
    assert_eq!(dev.init(), Ok(()));

    let mut buf = vec![0u8; 512];
    assert_eq!(dev.read_sector(42, &mut buf), Ok(()));
    assert_eq!(buf, stored);

    // A repeated read of the unmodified sector returns the same bytes.
    let mut again = vec![0xaau8; 512];
    assert_eq!(dev.read_sector(42, &mut again), Ok(()));
    assert_eq!(again, stored);
}

#[test]
fn read_of_never_written_sector_is_zeroes() {
    let mut dev = VirtioMMIOBlockDevice::new(conforming_device());
    assert_eq!(dev.init(), Ok(()));
    let mut buf = vec![0x55u8; 512];
    assert_eq!(dev.read_sector(3, &mut buf), Ok(()));
    assert_eq!(buf, vec![0u8; 512]);
}

#[test]
fn read_distinguishes_sectors() {
    let mut region = conforming_device();
    let first = pattern(1);
    let second = pattern(2);
    region.set_sector(0, first.clone());
    region.set_sector(1, second.clone());
    let mut dev = VirtioMMIOBlockDevice::new(region);
    assert_eq!(dev.init(), Ok(()));

    let mut buf = vec![0u8; 512];
    assert_eq!(dev.read_sector(1, &mut buf), Ok(()));
    assert_eq!(buf, second);
    assert_eq!(dev.read_sector(0, &mut buf), Ok(()));
    assert_eq!(buf, first);
}

#[test]
fn read_reports_io_error() {
    let mut dev = VirtioMMIOBlockDevice::new(SimTransport::new(
        VIRTIO_MAGIC,
        VIRTIO_VERSION,
        VIRTIO_DEVICE_BLOCK,
        VIRTIO_F_VERSION_1,
        64,
        true,
        1,
    ));
    assert_eq!(dev.init(), Ok(()));
    let mut buf = vec![0u8; 512];
    assert_eq!(dev.read_sector(0, &mut buf), Err(Error::BlockIOError));
}

#[test]
fn read_reports_unsupported() {
    let mut dev = VirtioMMIOBlockDevice::new(SimTransport::new(
        VIRTIO_MAGIC,
        VIRTIO_VERSION,
        VIRTIO_DEVICE_BLOCK,
        VIRTIO_F_VERSION_1,
        64,
        true,
        2,
    ));
    assert_eq!(dev.init(), Ok(()));
    let mut buf = vec![0u8; 512];
    assert_eq!(dev.read_sector(9, &mut buf), Err(Error::BlockNotSupported));
}

#[test]
fn read_folds_unknown_status_into_unsupported() {
    let mut dev = VirtioMMIOBlockDevice::new(SimTransport::new(
        VIRTIO_MAGIC,
        VIRTIO_VERSION,
        VIRTIO_DEVICE_BLOCK,
        VIRTIO_F_VERSION_1,
        64,
        true,
        0xff,
    ));
    assert_eq!(dev.init(), Ok(()));
    let mut buf = vec![0u8; 512];
    assert_eq!(dev.read_sector(9, &mut buf), Err(Error::BlockNotSupported));
}

#[test]
fn seventeen_reads_wrap_the_descriptor_table() {
    let mut region = conforming_device();
    for s in 0..17u64 {
        region.set_sector(s, pattern(s as u8));
    }
    let mut dev = VirtioMMIOBlockDevice::new(region);
    assert_eq!(dev.init(), Ok(()));

    // One more read than the queue has entries: the cursor must wrap.
    for s in 0..17u64 {
        let mut buf = vec![0u8; 512];
        assert_eq!(dev.read_sector(s, &mut buf), Ok(()));
        assert_eq!(buf, pattern(s as u8));
    }
    // 17 chains of three descriptors each, modulo the 16-entry table.
    assert_eq!(dev.next_head, (17 * 3) % 16);
    assert_eq!(dev.avail_idx, 17);
    assert_eq!(dev.region.used_idx, 17);
}

#[test]
fn reads_work_through_the_sector_read_trait() {
    let mut region = conforming_device();
    let stored = pattern(9);
    region.set_sector(11, stored.clone());
    let mut dev = VirtioMMIOBlockDevice::new(region);
    assert_eq!(dev.init(), Ok(()));
    let mut buf = vec![0u8; 512];
    assert_eq!(SectorRead::read(&mut dev, 11, &mut buf), Ok(()));
    assert_eq!(buf, stored);
}

#[test]
fn status_helpers_drive_the_status_register() {
    let mut dev = VirtioMMIOBlockDevice::new(conforming_device());
    assert_eq!(dev.get_status(), 0);
    dev.set_status(0);
    assert_eq!(dev.get_status(), 0);
    dev.add_status(STATUS_ACKNOWLEDGE);
    assert_eq!(dev.get_status(), STATUS_ACKNOWLEDGE);
    dev.add_status(STATUS_DRIVER);
    assert_eq!(dev.get_status(), STATUS_ACKNOWLEDGE | STATUS_DRIVER);
}

#[test]
fn short_or_long_buffers_are_refused_before_any_device_access() {
    let mut dev = VirtioMMIOBlockDevice::new(conforming_device());
    assert_eq!(dev.init(), Ok(()));
    let mut short = vec![0u8; 511];
    assert_eq!(dev.try_read_sector(0, &mut short), None);
    let mut long = vec![0u8; 513];
    assert_eq!(dev.try_read_sector(0, &mut long), None);
    // Nothing was published and no descriptor was written.
    assert_eq!(dev.next_head, 0);
    assert_eq!(dev.avail_idx, 0);
    assert_eq!(dev.region.used_idx, 0);
    assert!(dev.region.header_slot.is_none());
    // A well-formed buffer goes through.
    let mut buf = vec![0u8; 512];
    assert_eq!(dev.try_read_sector(0, &mut buf), Some(Ok(())));
}

#[test]
fn read_completes_after_device_held_polls_back() {
    // The device sits idle for several used-index polls before completing;
    // the busy-wait loop must ride it out and still return the sector.
    let mut region = conforming_device();
    let stored = pattern(3);
    region.set_sector(8, stored.clone());
    region.set_delay(5);
    let mut dev = VirtioMMIOBlockDevice::new(region);
    assert_eq!(dev.init(), Ok(()));
    let mut buf = vec![0u8; 512];
    assert_eq!(dev.read_sector(8, &mut buf), Ok(()));
    assert_eq!(buf, stored);
    assert_eq!(dev.region.used_idx, 1);
    assert_eq!(dev.region.delay, 0);
}
