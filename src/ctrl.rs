//! The control-virtqueue command processor.

use crate::config::pairs_in_range;
use crate::guest::{guest_mapped, has_pair, read_pair, write_byte};
use crate::queue::{Descriptor, DescriptorChain, Queue, UsedElem, same_queue, used_len};
use vm_memory::{GuestMemoryError, GuestMemoryMmap};
use vmm_sys_util::eventfd::EventFd;
use vstd::prelude::*;

verus! {

#[verifier::external_type_specification]
#[verifier::external_body]
pub struct ExEventFd(EventFd);

#[verifier::external_type_specification]
#[verifier::external_body]
pub struct ExIoError(std::io::Error);

/// Command class of multiqueue negotiation.
pub const VIRTIO_NET_CTRL_MQ: u8 = 4;

/// Command code, within the multiqueue class, that sets the queue-pair count.
pub const VIRTIO_NET_CTRL_MQ_VQ_PAIRS_SET: u8 = 0;

/// Why a control command was not carried out.
#[derive(Debug)]
pub enum Error {
    /// The multiqueue command failed; its cause is not passed on.
    FailedProcessMQ,
    /// Guest memory could not be read or written.
    GuestMemory(GuestMemoryError),
    /// The command class is not one the device knows.
    InvalidCtlClass,
    /// The command code is not one the class knows.
    InvalidCtlCmd,
    /// No descriptor chain was available.
    InvalidDesc,
    /// The requested queue-pair count is out of range.
    InvalidQueuePairsNum,
    /// No guest memory was given.
    NoMemory,
    /// The chain lacks the payload or the status buffer.
    NoQueuePairsNum,
}

/// The little-endian 16-bit value of two bytes.
pub open spec fn le16(p: (u8, u8)) -> int {
    p.0 + 256 * p.1
}

/// The one byte that a command writes back to the guest: its status.
#[derive(Clone, Copy, Debug, PartialEq, Eq, Structural)]
pub struct StatusWrite {
    pub addr: u64,
    pub value: u8,
}

/// What a command header asks for: `Ok` for a multiqueue set-pairs command,
/// otherwise the error that rejects it.
pub open spec fn command_result(class: u8, cmd: u8) -> Result<(), Error> {
    if class != VIRTIO_NET_CTRL_MQ {
        Err(Error::InvalidCtlClass)
    } else if cmd != VIRTIO_NET_CTRL_MQ_VQ_PAIRS_SET {
        Err(Error::InvalidCtlCmd)
    } else {
        Ok(())
    }
}

/// What a set-pairs command carried by `descs` asks to write, once its
/// payload has read as `p`: a zero status byte into the third descriptor when
/// the count is in range and that descriptor exists.
pub open spec fn set_pairs_result(descs: Seq<Descriptor>, p: (u8, u8)) -> Result<StatusWrite, Error> {
    if !pairs_in_range(le16(p)) {
        Err(Error::InvalidQueuePairsNum)
    } else if descs.len() < 3 {
        Err(Error::NoQueuePairsNum)
    } else {
        Ok(StatusWrite { addr: descs[2].addr, value: 0 })
    }
}

/// The end of the multiqueue routine once its payload has read as `p`: the
/// error of `set_pairs_result`, or the status write it asks for when its
/// address is mapped, or a memory fault when it is not.
pub open spec fn mq_after_payload(
    descs: Seq<Descriptor>,
    mapped: Set<u64>,
    p: (u8, u8),
    r: Result<StatusWrite, Error>,
) -> bool {
    match set_pairs_result(descs, p) {
        Err(e) => r == Err::<StatusWrite, Error>(e),
        Ok(w) => if mapped.contains(w.addr) {
            r == Ok::<StatusWrite, Error>(w)
        } else {
            r is Err && r->Err_0 is GuestMemory
        },
    }
}

/// What the multiqueue set-pairs routine does on a memory whose mapped
/// addresses are `mapped`: the chain's shape and the mapping decide it up to
/// the payload, and the payload that was read decides the rest.
pub open spec fn mq_outcome(descs: Seq<Descriptor>, mapped: Set<u64>, r: Result<StatusWrite, Error>) -> bool {
    if descs.len() < 2 {
        r == Err::<StatusWrite, Error>(Error::NoQueuePairsNum)
    } else if !has_pair(mapped, descs[1].addr) {
        r is Err && r->Err_0 is GuestMemory
    } else {
        exists|p: (u8, u8)| #[trigger] mq_after_payload(descs, mapped, p, r)
    }
}

/// A failure of the multiqueue routine, as the processor reports it.
pub open spec fn collapse(r0: Result<StatusWrite, Error>) -> Result<StatusWrite, Error> {
    match r0 {
        Ok(w) => Ok(w),
        Err(_) => Err(Error::FailedProcessMQ),
    }
}

/// The end of handling a chain once its header has read as `h`.
pub open spec fn dispatch_after_header(
    descs: Seq<Descriptor>,
    mapped: Set<u64>,
    h: (u8, u8),
    r: Result<StatusWrite, Error>,
) -> bool {
    match command_result(h.0, h.1) {
        Err(e) => r == Err::<StatusWrite, Error>(e),
        Ok(_) => exists|r0: Result<StatusWrite, Error>|
            #[trigger] mq_outcome(descs, mapped, r0) && r == collapse(r0),
    }
}

/// What handling one drained chain does: the chain's shape and the mapping
/// decide it up to the header, the header that was read decides the command,
/// and any failure of the multiqueue routine is reported as
/// `FailedProcessMQ`.
pub open spec fn dispatch_outcome(descs: Seq<Descriptor>, mapped: Set<u64>, r: Result<StatusWrite, Error>) -> bool {
    if descs.len() == 0 {
        r == Err::<StatusWrite, Error>(Error::InvalidDesc)
    } else if !has_pair(mapped, descs[0].addr) {
        r is Err && r->Err_0 is GuestMemory
    } else {
        exists|h: (u8, u8)| #[trigger] dispatch_after_header(descs, mapped, h, r)
    }
}

/// `r` with the status write, if any, left out.
pub open spec fn without_write(r: Result<StatusWrite, Error>) -> Result<(), Error> {
    match r {
        Ok(_) => Ok(()),
        Err(e) => Err(e),
    }
}

/// Decides a command header: class first, then code.
pub fn check_command(header: [u8; 2]) -> (r: Result<(), Error>)
    ensures
        r == command_result(header@[0], header@[1]),
{
    if header[0] != VIRTIO_NET_CTRL_MQ {
        Err(Error::InvalidCtlClass)
    } else if header[1] != VIRTIO_NET_CTRL_MQ_VQ_PAIRS_SET {
        Err(Error::InvalidCtlCmd)
    } else {
        Ok(())
    }
}

/// Reads the little-endian queue-pair count of a set-pairs payload and
/// accepts it only within the negotiable range.
pub fn check_queue_pairs(payload: [u8; 2]) -> (r: Result<u16, Error>)
    ensures
        pairs_in_range(le16((payload@[0], payload@[1]))) ==> r == Ok::<u16, Error>(
            le16((payload@[0], payload@[1])) as u16,
        ),
        !pairs_in_range(le16((payload@[0], payload@[1]))) ==> r == Err::<u16, Error>(
            Error::InvalidQueuePairsNum,
        ),
{
    let queue_pairs: u16 = payload[0] as u16 + payload[1] as u16 * 256;
    if queue_pairs < crate::config::VIRTIO_NET_CTRL_MQ_VQ_PAIRS_MIN
        || queue_pairs > crate::config::VIRTIO_NET_CTRL_MQ_VQ_PAIRS_MAX {
        Err(Error::InvalidQueuePairsNum)
    } else {
        Ok(queue_pairs)
    }
}

/// Decides a set-pairs command from its chain and the payload read for it:
/// the status byte to write, or the error that rejects the command.
pub fn check_set_pairs(avail_desc: &DescriptorChain, payload: [u8; 2]) -> (r: Result<StatusWrite, Error>)
    ensures
        r == set_pairs_result(avail_desc.descs@, (payload@[0], payload@[1])),
{
    match check_queue_pairs(payload) {
        Ok(_) => {},
        Err(e) => return Err(e),
    }
    if avail_desc.descs.len() < 3 {
        return Err(Error::NoQueuePairsNum);
    }
    Ok(StatusWrite { addr: avail_desc.descs[2].addr, value: 0 })
}

/// The control queue and the notification that the guest raises on it.
pub struct CtrlVirtio {
    pub queue_evt: EventFd,
    pub queue: Queue,
}

/// Relies on `EventFd::try_clone`: a second handle on the same event
/// counter, or the error of duplicating the descriptor.
#[verifier::external_body]
fn clone_event_fd(evt: &EventFd) -> (r: Result<EventFd, std::io::Error>) {
    evt.try_clone()
}

impl CtrlVirtio {
    pub fn new(queue: Queue, queue_evt: EventFd) -> (r: CtrlVirtio)
        ensures
            r.queue == queue,
            r.queue_evt == queue_evt,
    {
        CtrlVirtio { queue_evt, queue }
    }

    /// A second handle on the same control queue, whose notification handle
    /// can be closed independently of this one.
    pub fn try_clone(&self) -> (r: Result<CtrlVirtio, std::io::Error>)
        ensures
            r is Ok ==> same_queue(r->Ok_0.queue, self.queue),
    {
        match clone_event_fd(&self.queue_evt) {
            Ok(queue_evt) => Ok(CtrlVirtio { queue_evt, queue: self.queue.duplicate() }),
            Err(e) => Err(e),
        }
    }

    /// Carries out a multiqueue set-pairs command: reads the queue-pair count
    /// from the descriptor after the header, checks it, and writes a zero
    /// status byte into the descriptor after that. On success it returns that
    /// write; it writes nothing else, and nothing at all when it fails before
    /// the write.
    pub fn process_mq(&self, mem: &GuestMemoryMmap, avail_desc: &DescriptorChain) -> (r: Result<
        StatusWrite,
        Error,
    >)
        ensures
            mq_outcome(avail_desc.descs@, guest_mapped(*mem), r),
    {
        if avail_desc.descs.len() < 2 {
            return Err(Error::NoQueuePairsNum);
        }
        let payload = match read_pair(mem, avail_desc.descs[1].addr) {
            Ok(p) => p,
            Err(e) => return Err(Error::GuestMemory(e)),
        };
        let ghost p = (payload@[0], payload@[1]);
        let w = match check_set_pairs(avail_desc, payload) {
            Ok(w) => w,
            Err(e) => {
                assert(mq_after_payload(avail_desc.descs@, guest_mapped(*mem), p, Err(e)));
                return Err(e);
            },
        };
        let r = match write_byte(mem, w.value, w.addr) {
            Ok(()) => Ok(w),
            Err(e) => Err(Error::GuestMemory(e)),
        };
        assert(mq_after_payload(avail_desc.descs@, guest_mapped(*mem), p, r));
        r
    }

    /// Handles one drained chain: reads its header, rejects an unknown class
    /// or code, and runs the multiqueue routine, whose failure is reported
    /// as `FailedProcessMQ`.
    fn dispatch(&self, mem: &GuestMemoryMmap, avail_desc: &DescriptorChain) -> (r: Result<
        StatusWrite,
        Error,
    >)
        ensures
            dispatch_outcome(avail_desc.descs@, guest_mapped(*mem), r),
    {
        if avail_desc.descs.len() == 0 {
            return Err(Error::InvalidDesc);
        }
        let header = match read_pair(mem, avail_desc.descs[0].addr) {
            Ok(h) => h,
            Err(e) => return Err(Error::GuestMemory(e)),
        };
        let ghost h = (header@[0], header@[1]);
        match check_command(header) {
            Ok(()) => {},
            Err(e) => {
                assert(dispatch_after_header(avail_desc.descs@, guest_mapped(*mem), h, Err(e)));
                return Err(e);
            },
        }
        let r0 = self.process_mq(mem, avail_desc);
        let r = match r0 {
            Ok(w) => Ok(w),
            Err(_) => Err(Error::FailedProcessMQ),
        };
        assert(mq_outcome(avail_desc.descs@, guest_mapped(*mem), r0) && r == collapse(r0));
        assert(dispatch_after_header(avail_desc.descs@, guest_mapped(*mem), h, r));
        r
    }

    /// Processes the next available control command, if any, and retires its
    /// chain to the used ring whatever the command's outcome. On success it
    /// returns the status byte it wrote, the one write it makes.
    pub fn process_command(&mut self, mem: &GuestMemoryMmap) -> (r: Result<StatusWrite, Error>)
        ensures
            old(self).queue.avail@.len() == 0 ==> r == Err::<StatusWrite, Error>(Error::InvalidDesc)
                && final(self).queue == old(self).queue,
            old(self).queue.avail@.len() > 0 ==> retired(old(self).queue, final(self).queue)
                && dispatch_outcome(old(self).queue.avail@[0].descs@, guest_mapped(*mem), r),
            final(self).queue_evt == old(self).queue_evt,
    {
        let avail_desc = match self.queue.pop_avail() {
            Some(c) => c,
            None => return Err(Error::InvalidDesc),
        };
        let len = avail_desc.used_len();
        let result = self.dispatch(mem, &avail_desc);
        self.queue.add_used(avail_desc.index, len);
        self.queue.update_avail_event();
        result
    }

    /// Processes the next available control command, as `process_command`
    /// does, reporting only whether it succeeded.
    pub fn process_cvq(&mut self, mem: &GuestMemoryMmap) -> (r: Result<(), Error>)
        ensures
            old(self).queue.avail@.len() == 0 ==> r == Err::<(), Error>(Error::InvalidDesc)
                && final(self).queue == old(self).queue,
            old(self).queue.avail@.len() > 0 ==> retired(old(self).queue, final(self).queue)
                && exists|r0: Result<StatusWrite, Error>|
                #![trigger without_write(r0)]
                dispatch_outcome(old(self).queue.avail@[0].descs@, guest_mapped(*mem), r0) && r
                    == without_write(r0),
            final(self).queue_evt == old(self).queue_evt,
    {
        let r0 = self.process_command(mem);
        let r = match r0 {
            Ok(_) => Ok(()),
            Err(e) => Err(e),
        };
        assert(r == without_write(r0));
        r
    }
}

/// A set-pairs command whose count reads in range, carried by a chain with a
/// status descriptor, asks for exactly one write: a zero status byte at that
/// descriptor's address.
pub proof fn lemma_in_range_acknowledged(descs: Seq<Descriptor>, p: (u8, u8))
    requires
        descs.len() >= 3,
        pairs_in_range(le16(p)),
    ensures
        set_pairs_result(descs, p) == Ok::<StatusWrite, Error>(
            StatusWrite { addr: descs[2].addr, value: 0 },
        ),
{
}

/// A set-pairs command whose count reads out of range is rejected with
/// `InvalidQueuePairsNum` and asks for no write, so the status buffer keeps
/// its byte.
pub proof fn lemma_out_of_range_rejected(descs: Seq<Descriptor>, p: (u8, u8))
    requires
        !pairs_in_range(le16(p)),
    ensures
        set_pairs_result(descs, p) == Err::<StatusWrite, Error>(Error::InvalidQueuePairsNum),
{
}

/// When the multiqueue routine succeeds, the payload it read held an
/// in-range count, and the one byte it wrote is a zero at the mapped status
/// descriptor's address.
pub proof fn lemma_mq_success_writes_zero_status(
    descs: Seq<Descriptor>,
    mapped: Set<u64>,
    r: Result<StatusWrite, Error>,
)
    requires
        mq_outcome(descs, mapped, r),
        r is Ok,
    ensures
        descs.len() >= 3,
        r->Ok_0 == (StatusWrite { addr: descs[2].addr, value: 0 }),
        mapped.contains(descs[2].addr),
        has_pair(mapped, descs[1].addr),
        exists|p: (u8, u8)| #[trigger] mq_after_payload(descs, mapped, p, r) && pairs_in_range(le16(p)),
{
    let p = choose|p: (u8, u8)| #[trigger] mq_after_payload(descs, mapped, p, r);
    assert(pairs_in_range(le16(p)));
}

/// `q1` is `q0` after its oldest available chain was taken and retired: the
/// chain leaves the available list, exactly one used entry with its head
/// index and length is appended, and the event index is published.
pub open spec fn retired(q0: Queue, q1: Queue) -> bool {
    &&& q0.avail@.len() > 0
    &&& q1.avail@ == q0.avail@.drop_first()
    &&& q1.used@ == q0.used@.push(
        UsedElem { index: q0.avail@[0].index, len: used_len(q0.avail@[0].descs@) },
    )
    &&& q1.next_avail == q0.next_avail.wrapping_add(1)
    &&& q1.avail_event == q1.next_avail
}

} // verus!
