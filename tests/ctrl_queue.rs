use net_ctrl::ctrl::{check_command, check_queue_pairs, check_set_pairs, CtrlVirtio, Error, StatusWrite};
use net_ctrl::queue::{Descriptor, DescriptorChain, Queue};
use vm_memory::{Bytes, GuestAddress, GuestMemoryMmap};
use vmm_sys_util::eventfd::EventFd;

const HDR: u64 = 0x100;
const PAYLOAD: u64 = 0x200;
const STATUS: u64 = 0x300;

fn memory() -> GuestMemoryMmap {
    GuestMemoryMmap::<()>::from_ranges(&[(GuestAddress(0), 0x1000)]).unwrap()
}

fn chain(index: u16, addrs: &[(u64, u32)]) -> DescriptorChain {
    DescriptorChain {
        index,
        descs: addrs.iter().map(|&(addr, len)| Descriptor { addr, len }).collect(),
    }
}

fn ctrl_with(chains: Vec<DescriptorChain>) -> CtrlVirtio {
    let mut queue = Queue::new();
    for c in chains {
        queue.push_avail(c);
    }
    CtrlVirtio::new(queue, EventFd::new(0).unwrap())
}

fn write_command(mem: &GuestMemoryMmap, class: u8, cmd: u8, pairs: u16) {
    mem.write_slice(&[class, cmd], GuestAddress(HDR)).unwrap();
    mem.write_slice(&pairs.to_le_bytes(), GuestAddress(PAYLOAD)).unwrap();
    mem.write_obj::<u8>(0xAA, GuestAddress(STATUS)).unwrap();
}

fn full_chain(index: u16) -> DescriptorChain {
    chain(index, &[(HDR, 2), (PAYLOAD, 2), (STATUS, 1)])
}

fn status(mem: &GuestMemoryMmap) -> u8 {
    mem.read_obj::<u8>(GuestAddress(STATUS)).unwrap()
}

#[test]
fn set_pairs_in_range_writes_zero_status() {
    let mem = memory();
    write_command(&mem, 4, 0, 4);
    let mut ctrl = ctrl_with(vec![full_chain(7)]);
    assert!(ctrl.process_cvq(&mem).is_ok());
    assert_eq!(status(&mem), 0);
    assert_eq!(ctrl.queue.used.len(), 1);
    assert_eq!(ctrl.queue.used[0].index, 7);
    assert_eq!(ctrl.queue.used[0].len, 5);
    assert_eq!(ctrl.queue.avail.len(), 0);
    assert_eq!(ctrl.queue.avail_event, 1);
}

#[test]
fn set_pairs_at_range_bounds() {
    for pairs in [1u16, 0x8000] {
        let mem = memory();
        write_command(&mem, 4, 0, pairs);
        let mut ctrl = ctrl_with(vec![full_chain(0)]);
        assert!(ctrl.process_cvq(&mem).is_ok());
        assert_eq!(status(&mem), 0);
    }
}

#[test]
fn set_pairs_out_of_range_leaves_status() {
    for pairs in [0u16, 0x8001, 0xFFFF] {
        let mem = memory();
        write_command(&mem, 4, 0, pairs);
        let mut ctrl = ctrl_with(vec![full_chain(3)]);
        assert!(matches!(ctrl.process_cvq(&mem), Err(Error::FailedProcessMQ)));
        assert_eq!(status(&mem), 0xAA);
        assert_eq!(ctrl.queue.used.len(), 1);
        assert_eq!(ctrl.queue.used[0].index, 3);
    }
}

#[test]
fn unknown_class_is_rejected_and_retired() {
    let mem = memory();
    write_command(&mem, 0xFF, 0x00, 4);
    let mut ctrl = ctrl_with(vec![full_chain(9)]);
    assert!(matches!(ctrl.process_cvq(&mem), Err(Error::InvalidCtlClass)));
    assert_eq!(ctrl.queue.used.len(), 1);
    assert_eq!(ctrl.queue.used[0].index, 9);
    assert_eq!(status(&mem), 0xAA);
}

#[test]
fn unknown_code_is_rejected_and_retired() {
    let mem = memory();
    write_command(&mem, 4, 1, 4);
    let mut ctrl = ctrl_with(vec![full_chain(2)]);
    assert!(matches!(ctrl.process_cvq(&mem), Err(Error::InvalidCtlCmd)));
    assert_eq!(ctrl.queue.used.len(), 1);
    assert_eq!(status(&mem), 0xAA);
}

#[test]
fn missing_payload_fails_the_command() {
    let mem = memory();
    write_command(&mem, 4, 0, 4);
    let mut ctrl = ctrl_with(vec![chain(1, &[(HDR, 2)])]);
    assert!(matches!(ctrl.process_cvq(&mem), Err(Error::FailedProcessMQ)));
    assert_eq!(ctrl.queue.used.len(), 1);
    assert_eq!(ctrl.queue.used[0].len, 2);
}

#[test]
fn missing_status_fails_the_command() {
    let mem = memory();
    write_command(&mem, 4, 0, 4);
    let mut ctrl = ctrl_with(vec![chain(1, &[(HDR, 2), (PAYLOAD, 2)])]);
    assert!(matches!(ctrl.process_cvq(&mem), Err(Error::FailedProcessMQ)));
    assert_eq!(ctrl.queue.used.len(), 1);
    assert_eq!(status(&mem), 0xAA);
}

#[test]
fn empty_queue_reports_invalid_descriptor() {
    let mem = memory();
    let mut ctrl = ctrl_with(vec![]);
    assert!(matches!(ctrl.process_cvq(&mem), Err(Error::InvalidDesc)));
    assert_eq!(ctrl.queue.used.len(), 0);
    assert_eq!(ctrl.queue.avail_event, 0);
}

#[test]
fn unmapped_header_is_a_memory_fault() {
    let mem = memory();
    let mut ctrl = ctrl_with(vec![chain(5, &[(0x10_0000, 2), (PAYLOAD, 2), (STATUS, 1)])]);
    assert!(matches!(ctrl.process_cvq(&mem), Err(Error::GuestMemory(_))));
    assert_eq!(ctrl.queue.used.len(), 1);
    assert_eq!(ctrl.queue.used[0].index, 5);
}

#[test]
fn unmapped_status_fails_the_command() {
    let mem = memory();
    write_command(&mem, 4, 0, 4);
    let mut ctrl = ctrl_with(vec![chain(5, &[(HDR, 2), (PAYLOAD, 2), (0x10_0000, 1)])]);
    assert!(matches!(ctrl.process_cvq(&mem), Err(Error::FailedProcessMQ)));
    assert_eq!(ctrl.queue.used.len(), 1);
}

#[test]
fn each_call_retires_exactly_one_chain() {
    let mem = memory();
    write_command(&mem, 4, 0, 2);
    let mut ctrl = ctrl_with(vec![full_chain(10), chain(11, &[(HDR, 2)]), full_chain(12)]);
    assert!(ctrl.process_cvq(&mem).is_ok());
    assert_eq!(ctrl.queue.used.len(), 1);
    assert!(ctrl.process_cvq(&mem).is_err());
    assert_eq!(ctrl.queue.used.len(), 2);
    assert!(ctrl.process_cvq(&mem).is_ok());
    assert_eq!(ctrl.queue.used.len(), 3);
    let indices: Vec<u16> = ctrl.queue.used.iter().map(|u| u.index).collect();
    assert_eq!(indices, vec![10, 11, 12]);
    assert_eq!(ctrl.queue.next_avail, 3);
    assert_eq!(ctrl.queue.avail_event, 3);
    assert!(matches!(ctrl.process_cvq(&mem), Err(Error::InvalidDesc)));
    assert_eq!(ctrl.queue.used.len(), 3);
}

#[test]
fn used_length_saturates() {
    let c = chain(0, &[(HDR, u32::MAX), (PAYLOAD, 2)]);
    assert_eq!(c.used_len(), u32::MAX);
    let d = chain(0, &[(HDR, 7), (PAYLOAD, 9)]);
    assert_eq!(d.used_len(), 16);
    assert_eq!(chain(0, &[]).used_len(), 0);
}

#[test]
fn command_header_decisions() {
    assert!(check_command([4, 0]).is_ok());
    assert!(matches!(check_command([4, 1]), Err(Error::InvalidCtlCmd)));
    assert!(matches!(check_command([0xFF, 0]), Err(Error::InvalidCtlClass)));
    assert!(matches!(check_command([0, 0]), Err(Error::InvalidCtlClass)));
}

#[test]
fn queue_pair_payload_decisions() {
    assert!(matches!(check_queue_pairs([1, 0]), Ok(1)));
    assert!(matches!(check_queue_pairs([4, 0]), Ok(4)));
    assert!(matches!(check_queue_pairs([0x34, 0x12]), Ok(0x1234)));
    assert!(matches!(check_queue_pairs([0, 0x80]), Ok(0x8000)));
    assert!(matches!(check_queue_pairs([0, 0]), Err(Error::InvalidQueuePairsNum)));
    assert!(matches!(check_queue_pairs([1, 0x80]), Err(Error::InvalidQueuePairsNum)));
}

#[test]
fn cloned_control_queue_has_its_own_handle() {
    let ctrl = ctrl_with(vec![full_chain(1)]);
    let copy = ctrl.try_clone().unwrap();
    assert_eq!(copy.queue.avail.len(), 1);
    ctrl.queue_evt.write(1).unwrap();
    drop(ctrl);
    assert_eq!(copy.queue_evt.read().unwrap(), 1);
}

#[test]
fn processed_command_reports_its_status_write() {
    let mem = memory();
    write_command(&mem, 4, 0, 3);
    let mut ctrl = ctrl_with(vec![full_chain(4)]);
    let w = ctrl.process_command(&mem).unwrap();
    assert_eq!(w, StatusWrite { addr: STATUS, value: 0 });
    assert_eq!(status(&mem), 0);
    assert_eq!(ctrl.queue.used.len(), 1);
}

#[test]
fn multiqueue_routine_alone() {
    let mem = memory();
    write_command(&mem, 4, 0, 8);
    let ctrl = ctrl_with(vec![]);
    let w = ctrl.process_mq(&mem, &full_chain(0)).unwrap();
    assert_eq!(w, StatusWrite { addr: STATUS, value: 0 });
    assert_eq!(status(&mem), 0);
    mem.write_obj::<u8>(0xAA, GuestAddress(STATUS)).unwrap();
    mem.write_slice(&0x9000u16.to_le_bytes(), GuestAddress(PAYLOAD)).unwrap();
    assert!(matches!(ctrl.process_mq(&mem, &full_chain(0)), Err(Error::InvalidQueuePairsNum)));
    assert_eq!(status(&mem), 0xAA);
    assert!(matches!(ctrl.process_mq(&mem, &chain(0, &[(HDR, 2)])), Err(Error::NoQueuePairsNum)));
    assert!(matches!(
        ctrl.process_mq(&mem, &chain(0, &[(HDR, 2), (0x10_0000, 2)])),
        Err(Error::GuestMemory(_))
    ));
}

#[test]
fn set_pairs_decisions() {
    let c = full_chain(0);
    assert_eq!(check_set_pairs(&c, [4, 0]).unwrap(), StatusWrite { addr: STATUS, value: 0 });
    assert!(matches!(check_set_pairs(&c, [0, 0]), Err(Error::InvalidQueuePairsNum)));
    assert!(matches!(check_set_pairs(&chain(0, &[(HDR, 2), (PAYLOAD, 2)]), [4, 0]), Err(Error::NoQueuePairsNum)));
}
