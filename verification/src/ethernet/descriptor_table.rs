//! Tables of GMAC DMA descriptors: one descriptor per buffer, used in turn.
use vstd::prelude::*;

verus! {

/// A DMA descriptor that can be created for a buffer.
pub trait DescriptorT: Sized {
    /// The descriptor `new` makes.
    spec fn spec_new(buffer_address: u32, last_entry: bool) -> Self;

    /// A descriptor for the buffer at `buffer_address` (word aligned), marked as the
    /// last of its table if `last_entry`.
    fn new(buffer_address: u32, last_entry: bool) -> (r: Self)
        requires
            buffer_address & 0x0000_0003 == 0,
        ensures
            r == Self::spec_new(buffer_address, last_entry);
}

/// The entry that follows entry `entry` of a table of `count` entries: the first one
/// after the last.
pub open spec fn spec_following_entry(entry: int, count: int) -> int {
    if entry == count - 1 { 0 } else { entry + 1 }
}

/// The entry reached from `entry` after `k` entries are consumed.
pub open spec fn spec_entry_after(entry: int, count: int, k: nat) -> int
    decreases k,
{
    if k == 0 {
        entry
    } else {
        spec_following_entry(spec_entry_after(entry, count, (k - 1) as nat), count)
    }
}

/// A table of `COUNT` DMA descriptors and the index of the next one to use.
pub struct DescriptorTable<DESCRIPTOR, const COUNT: usize> {
    descriptors: Vec<DESCRIPTOR>,
    next_entry: usize,
}

impl<DESCRIPTOR, const COUNT: usize> DescriptorTable<DESCRIPTOR, COUNT> {
    /// The descriptors.
    pub closed spec fn descriptors(&self) -> Seq<DESCRIPTOR> {
        self.descriptors@
    }

    /// The index of the next descriptor to use.
    pub closed spec fn next(&self) -> int {
        self.next_entry as int
    }

    /// Whether the table has its `COUNT` descriptors and the next index is one of
    /// them.
    pub open spec fn wf(&self) -> bool {
        &&& self.descriptors().len() == COUNT
        &&& 0 <= self.next() < COUNT
    }

    /// An empty table, starting at entry 0.
    pub fn new() -> (r: Self)
        ensures r.descriptors().len() == 0, r.next() == 0,
    {
        DescriptorTable { descriptors: Vec::new(), next_entry: 0 }
    }

    /// The index of the next descriptor to use.
    pub fn next_entry(&self) -> (r: usize)
        ensures r == self.next(),
    {
        self.next_entry
    }

    /// The next descriptor to use.
    pub fn next_descriptor(&self) -> (r: &DESCRIPTOR)
        requires self.wf(),
        ensures *r == self.descriptors()[self.next()],
    {
        &self.descriptors[self.next_entry]
    }

    /// Replaces the next descriptor.
    pub fn set_next_descriptor(&mut self, descriptor: DESCRIPTOR)
        requires old(self).wf(),
        ensures
            final(self).wf(),
            final(self).next() == old(self).next(),
            final(self).descriptors() == old(self).descriptors().update(old(self).next(), descriptor),
    {
        let i = self.next_entry;
        self.descriptors.set(i, descriptor);
    }

    /// Moves on to the following descriptor, back to the first after the last.
    pub fn consume_next_descriptor(&mut self)
        requires old(self).wf(),
        ensures
            final(self).wf(),
            final(self).descriptors() == old(self).descriptors(),
            final(self).next() == spec_following_entry(old(self).next(), COUNT as int),
    {
        if self.next_entry == COUNT - 1 {
            self.next_entry = 0;
        } else {
            self.next_entry = self.next_entry + 1;
        }
    }
}

impl<DESCRIPTOR: DescriptorT, const COUNT: usize> DescriptorTable<DESCRIPTOR, COUNT> {
    /// Fills the table with one descriptor per buffer, the last one marked as such.
    pub fn initialize(&mut self, buffer_addresses: &[u32])
        requires
            COUNT > 0,
            buffer_addresses.len() == COUNT,
            forall|i: int| 0 <= i < COUNT ==> #[trigger] buffer_addresses@[i] & 0x0000_0003 == 0,
            0 <= old(self).next() < COUNT,
        ensures
            final(self).wf(),
            final(self).next() == old(self).next(),
            forall|i: int| 0 <= i < COUNT ==> #[trigger] final(self).descriptors()[i]
                == DESCRIPTOR::spec_new(buffer_addresses@[i], i == COUNT - 1),
    {
        self.descriptors.clear();
        let mut i: usize = 0;
        while i < COUNT
            invariant
                COUNT > 0,
                buffer_addresses.len() == COUNT,
                forall|j: int| 0 <= j < COUNT ==> #[trigger] buffer_addresses@[j] & 0x0000_0003 == 0,
                i <= COUNT,
                self.descriptors@.len() == i,
                self.next_entry == old(self).next(),
                forall|j: int| 0 <= j < i ==> #[trigger] self.descriptors@[j]
                    == DESCRIPTOR::spec_new(buffer_addresses@[j], j == COUNT - 1),
            decreases COUNT - i,
        {
            let address = buffer_addresses[i];
            let descriptor = DESCRIPTOR::new(address, i == COUNT - 1);
            self.descriptors.push(descriptor);
            i = i + 1;
        }
    }
}

/// Consuming entries of a table cycles through them in order: after `k` entries are
/// consumed from entry `entry`, the next entry is `(entry + k) % count`.
pub proof fn lemma_entries_cycle(entry: int, count: int, k: nat)
    requires
        count > 0,
        0 <= entry < count,
    ensures
        spec_entry_after(entry, count, k) == (entry + k) % count,
    decreases k,
{
    if k == 0 {
        vstd::arithmetic::div_mod::lemma_fundamental_div_mod_converse(entry, count, 0, entry);
    } else {
        lemma_entries_cycle(entry, count, (k - 1) as nat);
        let x = entry + k - 1;
        let q = x / count;
        let prev = x % count;
        vstd::arithmetic::div_mod::lemma_fundamental_div_mod(x, count);
        vstd::arithmetic::div_mod::lemma_mod_bound(x, count);
        assert(x == q * count + prev) by (nonlinear_arith)
            requires x == count * q + prev;
        if prev == count - 1 {
            assert(x + 1 == (q + 1) * count + 0) by (nonlinear_arith)
                requires x == q * count + prev, prev == count - 1;
            vstd::arithmetic::div_mod::lemma_fundamental_div_mod_converse(x + 1, count, q + 1, 0);
        } else {
            vstd::arithmetic::div_mod::lemma_fundamental_div_mod_converse(x + 1, count, q, prev + 1);
        }
    }
}

} // verus!
