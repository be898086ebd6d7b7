//! The control virtqueue as this device sees it: chains of descriptors that
//! the guest has made available, and the used ring that retires them.

use vstd::prelude::*;

verus! {

/// One buffer of a descriptor chain: a guest address and a length in bytes.
#[derive(Clone, Copy, Debug)]
pub struct Descriptor {
    pub addr: u64,
    pub len: u32,
}

/// A chain of descriptors that forms one request, with the index of its head
/// descriptor in the descriptor table.
#[derive(Debug)]
pub struct DescriptorChain {
    pub index: u16,
    pub descs: Vec<Descriptor>,
}

/// An entry of the used ring: the head index of a retired chain and the
/// number of bytes it covered.
#[derive(Clone, Copy, Debug)]
pub struct UsedElem {
    pub index: u16,
    pub len: u32,
}

/// A virtqueue: the chains the guest has made available and not yet taken,
/// the used ring, the index of the next available entry, and the
/// available-event index last published to the guest.
#[derive(Debug)]
pub struct Queue {
    pub avail: Vec<DescriptorChain>,
    pub used: Vec<UsedElem>,
    pub next_avail: u16,
    pub avail_event: u16,
}

/// `a` holds the same head index and descriptors as `b`.
pub open spec fn same_chain(a: DescriptorChain, b: DescriptorChain) -> bool {
    a.index == b.index && a.descs@ == b.descs@
}

/// `a` holds the same chains, used entries and indices as `b`.
pub open spec fn same_queue(a: Queue, b: Queue) -> bool {
    &&& a.avail@.len() == b.avail@.len()
    &&& forall|k: int| 0 <= k < a.avail@.len() ==> same_chain(#[trigger] a.avail@[k], b.avail@[k])
    &&& a.used@ == b.used@
    &&& a.next_avail == b.next_avail
    &&& a.avail_event == b.avail_event
}

/// Sum of the lengths of the descriptors in `s`.
pub open spec fn total_len(s: Seq<Descriptor>) -> int
    decreases s.len(),
{
    if s.len() == 0 {
        0
    } else {
        total_len(s.drop_last()) + s.last().len
    }
}

/// The length recorded in the used ring for a chain: its total byte length,
/// capped at the largest value the ring can hold.
pub open spec fn used_len(s: Seq<Descriptor>) -> u32 {
    if total_len(s) > u32::MAX {
        u32::MAX
    } else {
        total_len(s) as u32
    }
}

proof fn lemma_total_len_nonneg(s: Seq<Descriptor>)
    ensures
        total_len(s) >= 0,
    decreases s.len(),
{
    if s.len() > 0 {
        lemma_total_len_nonneg(s.drop_last());
    }
}

impl DescriptorChain {
    /// A copy of this chain.
    pub fn duplicate(&self) -> (r: DescriptorChain)
        ensures
            same_chain(r, *self),
    {
        let mut descs: Vec<Descriptor> = Vec::new();
        let mut i: usize = 0;
        while i < self.descs.len()
            invariant
                i <= self.descs@.len(),
                descs@ == self.descs@.take(i as int),
            decreases self.descs.len() - i,
        {
            descs.push(self.descs[i]);
            i = i + 1;
            assert(descs@ =~= self.descs@.take(i as int));
        }
        assert(descs@ =~= self.descs@);
        DescriptorChain { index: self.index, descs }
    }

    /// The length of this chain for the used ring.
    pub fn used_len(&self) -> (r: u32)
        ensures
            r == used_len(self.descs@),
    {
        let mut acc: u32 = 0;
        let mut i: usize = 0;
        while i < self.descs.len()
            invariant
                i <= self.descs@.len(),
                acc == used_len(self.descs@.take(i as int)),
            decreases self.descs.len() - i,
        {
            let d = self.descs[i];
            proof {
                assert(self.descs@.take(i + 1).drop_last() =~= self.descs@.take(i as int));
                lemma_total_len_nonneg(self.descs@.take(i as int));
            }
            acc = acc.saturating_add(d.len);
            i = i + 1;
        }
        assert(self.descs@.take(i as int) =~= self.descs@);
        acc
    }
}

impl Queue {
    /// A copy of this queue.
    pub fn duplicate(&self) -> (r: Queue)
        ensures
            same_queue(r, *self),
    {
        let mut avail: Vec<DescriptorChain> = Vec::new();
        let mut i: usize = 0;
        while i < self.avail.len()
            invariant
                i <= self.avail@.len(),
                avail@.len() == i,
            forall|k: int| 0 <= k < i ==> same_chain(#[trigger] avail@[k], self.avail@[k]),
            decreases self.avail.len() - i,
        {
            avail.push(self.avail[i].duplicate());
            i = i + 1;
        }
        let mut used: Vec<UsedElem> = Vec::new();
        let mut j: usize = 0;
        while j < self.used.len()
            invariant
                j <= self.used@.len(),
                used@ == self.used@.take(j as int),
            decreases self.used.len() - j,
        {
            used.push(self.used[j]);
            j = j + 1;
            assert(used@ =~= self.used@.take(j as int));
        }
        assert(used@ =~= self.used@);
        Queue { avail, used, next_avail: self.next_avail, avail_event: self.avail_event }
    }

    /// An empty queue.
    pub fn new() -> (r: Queue)
        ensures
            r.avail@.len() == 0,
            r.used@.len() == 0,
            r.next_avail == 0,
            r.avail_event == 0,
    {
        Queue { avail: Vec::new(), used: Vec::new(), next_avail: 0, avail_event: 0 }
    }

    /// The guest makes `chain` available.
    pub fn push_avail(&mut self, chain: DescriptorChain)
        ensures
            final(self).avail@ == old(self).avail@.push(chain),
            final(self).used@ == old(self).used@,
            final(self).next_avail == old(self).next_avail,
            final(self).avail_event == old(self).avail_event,
    {
        self.avail.push(chain);
    }

    /// Takes the oldest available chain, if there is one.
    pub fn pop_avail(&mut self) -> (r: Option<DescriptorChain>)
        ensures
            old(self).avail@.len() == 0 <==> r is None,
            r is None ==> *final(self) == *old(self),
            r is Some ==> r->Some_0 == old(self).avail@[0] && final(self).avail@
                == old(self).avail@.drop_first() && final(self).next_avail
                == old(self).next_avail.wrapping_add(1),
            final(self).used@ == old(self).used@,
            final(self).avail_event == old(self).avail_event,
    {
        if self.avail.len() == 0 {
            None
        } else {
            let c = self.avail.remove(0);
            self.next_avail = self.next_avail.wrapping_add(1);
            Some(c)
        }
    }

    /// Retires the chain whose head is `index`, covering `len` bytes.
    pub fn add_used(&mut self, index: u16, len: u32)
        ensures
            final(self).used@ == old(self).used@.push(UsedElem { index, len }),
            final(self).avail@ == old(self).avail@,
            final(self).next_avail == old(self).next_avail,
            final(self).avail_event == old(self).avail_event,
    {
        self.used.push(UsedElem { index, len });
    }

    /// Publishes the index of the next available entry as the event index,
    /// so that the guest notifies again once it adds past it.
    pub fn update_avail_event(&mut self)
        ensures
            final(self).avail_event == old(self).next_avail,
            final(self).avail@ == old(self).avail@,
            final(self).used@ == old(self).used@,
            final(self).next_avail == old(self).next_avail,
    {
        self.avail_event = self.next_avail;
    }
}

} // verus!
