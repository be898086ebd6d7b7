//! Guest memory, as the command processor reads and writes it.
//!
//! Memory is a `vm_memory` mapping shared with the guest and with other
//! threads, so its bytes may change at any moment and are not modelled here.
//! What is fixed by the handle is the set of guest addresses that lie in its
//! regions, named by `guest_mapped`; whether an access succeeds depends on
//! that set alone.

use vm_memory::{Bytes, GuestAddress, GuestMemoryError, GuestMemoryMmap, GuestRegionCollection, GuestRegionMmap};
use vstd::prelude::*;

verus! {

#[verifier::external_type_specification]
#[verifier::external_body]
#[verifier::reject_recursive_types(R)]
pub struct ExGuestRegionCollection<R>(GuestRegionCollection<R>);

#[verifier::external_type_specification]
#[verifier::external_body]
#[verifier::reject_recursive_types(B)]
pub struct ExGuestRegionMmap<B>(GuestRegionMmap<B>);

#[verifier::external_type_specification]
#[verifier::external_body]
pub struct ExGuestMemoryError(GuestMemoryError);

/// The guest addresses that lie in the regions of a memory handle.
pub uninterp spec fn guest_mapped(m: GuestMemoryMmap) -> Set<u64>;

/// The guest address after `addr`; the address space wraps after its last
/// address.
pub open spec fn next_addr(addr: u64) -> u64 {
    if addr == u64::MAX {
        0
    } else {
        (addr + 1) as u64
    }
}

/// Whether the two bytes at `addr` and the address after it are mapped.
pub open spec fn has_pair(mapped: Set<u64>, addr: u64) -> bool {
    mapped.contains(addr) && mapped.contains(next_addr(addr))
}

/// Relies on `Bytes::read_obj::<[u8; 2]>` of `GuestMemoryMmap`: the read
/// succeeds exactly when both bytes, at `addr` and the address after it (the
/// walk over regions wraps from the last address to zero), lie in mapped
/// regions. The bytes it returns are whatever the memory held at that moment.
#[verifier::external_body]
pub(crate) fn read_pair(mem: &GuestMemoryMmap, addr: u64) -> (r: Result<[u8; 2], GuestMemoryError>)
    ensures
        r is Ok <==> has_pair(guest_mapped(*mem), addr),
{
    mem.read_obj::<[u8; 2]>(GuestAddress(addr))
}

/// Relies on `Bytes::write_obj::<u8>` of `GuestMemoryMmap`: the write
/// succeeds exactly when `addr` lies in a mapped region.
#[verifier::external_body]
pub(crate) fn write_byte(mem: &GuestMemoryMmap, val: u8, addr: u64) -> (r: Result<(), GuestMemoryError>)
    ensures
        r is Ok <==> guest_mapped(*mem).contains(addr),
{
    mem.write_obj::<u8>(val, GuestAddress(addr))
}

} // verus!
