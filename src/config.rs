//! The device configuration record exposed to the guest, and its builders.

use vstd::prelude::*;

verus! {

/// Feature bit: the device has a hardware address.
pub const VIRTIO_NET_F_MAC: u64 = 5;

/// Feature bit: the device supports several receive/transmit queue pairs.
pub const VIRTIO_NET_F_MQ: u64 = 22;

/// Smallest number of queue pairs a guest may negotiate.
pub const VIRTIO_NET_CTRL_MQ_VQ_PAIRS_MIN: u16 = 1;

/// Largest number of queue pairs a guest may negotiate.
pub const VIRTIO_NET_CTRL_MQ_VQ_PAIRS_MAX: u16 = 0x8000;

/// Configuration space of the network device, field by field as the guest
/// reads it (hardware address, status, queue pairs, MTU, speed, duplex).
#[derive(Clone, Copy, Debug)]
pub struct VirtioNetConfig {
    pub mac: [u8; 6],
    pub status: u16,
    pub max_virtqueue_pairs: u16,
    pub mtu: u16,
    pub speed: u32,
    pub duplex: u8,
}

impl VirtioNetConfig {
    /// A configuration record with every field zero.
    pub fn new() -> (r: VirtioNetConfig)
        ensures
            forall|i: int| 0 <= i < 6 ==> r.mac[i] == 0u8,
            r.status == 0,
            r.max_virtqueue_pairs == 0,
            r.mtu == 0,
            r.speed == 0,
            r.duplex == 0,
    {
        VirtioNetConfig { mac: [0u8; 6], status: 0, max_virtqueue_pairs: 0, mtu: 0, speed: 0, duplex: 0 }
    }
}

impl Default for VirtioNetConfig {
    fn default() -> (r: VirtioNetConfig)
        ensures
            forall|i: int| 0 <= i < 6 ==> r.mac[i] == 0u8,
            r.status == 0,
            r.max_virtqueue_pairs == 0,
            r.mtu == 0,
            r.speed == 0,
            r.duplex == 0,
    {
        VirtioNetConfig::new()
    }
}

/// Whether `p` is a queue-pair count that the device may advertise or accept.
pub open spec fn pairs_in_range(p: int) -> bool {
    VIRTIO_NET_CTRL_MQ_VQ_PAIRS_MIN <= p <= VIRTIO_NET_CTRL_MQ_VQ_PAIRS_MAX
}

/// The mask of one feature bit.
pub open spec fn feature(bit: u64) -> u64
    recommends
        bit < 64,
{
    1u64 << bit
}

/// `c` with its queue-pair count replaced by `p`.
pub open spec fn with_pairs(c: VirtioNetConfig, p: u16) -> VirtioNetConfig {
    VirtioNetConfig { max_virtqueue_pairs: p, ..c }
}

/// `c` with its hardware address replaced by `mac`.
pub open spec fn with_mac(c: VirtioNetConfig, mac: [u8; 6]) -> VirtioNetConfig {
    VirtioNetConfig { mac: mac, ..c }
}

/// The configuration after the multiqueue step of the builder.
pub open spec fn config_with_mq(c: VirtioNetConfig, num_queues: usize) -> VirtioNetConfig {
    if pairs_in_range(num_queues as int / 2) {
        with_pairs(c, (num_queues / 2) as u16)
    } else {
        c
    }
}

/// The feature bits after the multiqueue step of the builder.
pub open spec fn features_with_mq(f: u64, num_queues: usize) -> u64 {
    if pairs_in_range(num_queues as int / 2) {
        f | feature(VIRTIO_NET_F_MQ)
    } else {
        f
    }
}

/// Advertises `num_queues / 2` queue pairs, with the multiqueue feature bit,
/// when that count lies within the negotiable range; otherwise leaves both
/// the record and the feature bits as they are.
pub fn build_net_config_space_with_mq(
    config: &mut VirtioNetConfig,
    num_queues: usize,
    avail_features: &mut u64,
)
    ensures
        *final(config) == config_with_mq(*old(config), num_queues),
        *final(avail_features) == features_with_mq(*old(avail_features), num_queues),
{
    let num_queue_pairs: usize = num_queues / 2;
    if num_queue_pairs >= VIRTIO_NET_CTRL_MQ_VQ_PAIRS_MIN as usize
        && num_queue_pairs <= VIRTIO_NET_CTRL_MQ_VQ_PAIRS_MAX as usize
    {
        config.max_virtqueue_pairs = num_queue_pairs as u16;
        *avail_features = *avail_features | (1u64 << VIRTIO_NET_F_MQ);
    }
}

/// Writes the hardware address and sets its feature bit, then applies the
/// multiqueue step.
pub fn build_net_config_space(
    config: &mut VirtioNetConfig,
    mac: [u8; 6],
    num_queues: usize,
    avail_features: &mut u64,
)
    ensures
        *final(config) == config_with_mq(with_mac(*old(config), mac), num_queues),
        *final(avail_features) == features_with_mq(
            *old(avail_features) | feature(VIRTIO_NET_F_MAC),
            num_queues,
        ),
{
    config.mac = mac;
    *avail_features = *avail_features | (1u64 << VIRTIO_NET_F_MAC);
    build_net_config_space_with_mq(config, num_queues, avail_features);
}

/// Applying the multiqueue step twice with the same queue count gives the
/// same record and feature bits as applying it once.
pub proof fn lemma_build_with_mq_idempotent(c: VirtioNetConfig, f: u64, num_queues: usize)
    ensures
        config_with_mq(config_with_mq(c, num_queues), num_queues) == config_with_mq(c, num_queues),
        features_with_mq(features_with_mq(f, num_queues), num_queues) == features_with_mq(
            f,
            num_queues,
        ),
{
    let m = feature(VIRTIO_NET_F_MQ);
    assert((f | m) | m == f | m) by (bit_vector);
}

} // verus!
