//! A verified driver for a virtio block device over the MMIO transport.
//!
//! The driver negotiates a virtio device into an operational state and then
//! performs synchronous 512-byte sector reads by driving the split-queue
//! protocol.  All register and shared-queue traffic goes through the
//! [`transport::VirtioTransport`] trait, whose contracts state how a
//! conforming device reacts to each access; `sim` provides a verified
//! in-memory device implementing that trait.

pub mod transport;
pub mod device;
pub mod sim;
pub mod laws;
