//! The receive side of the controller: frames are taken from the receive
//! descriptor table in turn.
use vstd::prelude::*;
use super::descriptor_table::{DescriptorTable, spec_following_entry};
use super::rx::{Descriptor as RxDescriptor, bit_set, OWNED_BIT};

verus! {

/// Takes received frames from a table of `COUNT` receive descriptors.
pub struct Receiver<const COUNT: usize> {
    pub descriptors: DescriptorTable<RxDescriptor, COUNT>,
}

/// The length of the frame in a receive descriptor (word 1, bits 0..=11).
pub open spec fn spec_frame_length(d: RxDescriptor) -> int {
    (d.1 & 0x0000_0FFF) as int
}

impl<const COUNT: usize> Receiver<COUNT> {
    /// A receiver over an initialized descriptor table.
    pub fn new(descriptors: DescriptorTable<RxDescriptor, COUNT>) -> (r: Self)
        ensures r.descriptors == descriptors,
    {
        Receiver { descriptors }
    }

    /// Whether a received frame waits in the next descriptor (software owns it).
    pub fn can_receive(&self) -> (r: bool)
        requires self.descriptors.wf(),
        ensures r == bit_set(self.descriptors.descriptors()[self.descriptors.next()].0, OWNED_BIT),
    {
        self.descriptors.next_descriptor().read().owned()
    }

    /// Takes the next received frame into a buffer of `buffer_len` bytes: none while
    /// the controller still owns the next descriptor; else the frame's length (the
    /// caller copies that many bytes from the descriptor's buffer), the descriptor is
    /// handed back to the controller and the table moves on.
    pub fn receive(&mut self, buffer_len: usize) -> (r: Option<usize>)
        requires
            COUNT > 0,
            old(self).descriptors.wf(),
            ({
                let d = old(self).descriptors.descriptors()[old(self).descriptors.next()];
                bit_set(d.0, OWNED_BIT) ==> spec_frame_length(d) <= buffer_len
            }),
        ensures
            final(self).descriptors.wf(),
            ({
                let t = old(self).descriptors;
                let d = t.descriptors()[t.next()];
                if !bit_set(d.0, OWNED_BIT) {
                    r is None && final(self).descriptors == t
                } else {
                    &&& r == Some(spec_frame_length(d) as usize)
                    &&& final(self).descriptors.next() == spec_following_entry(t.next(), COUNT as int)
                    &&& final(self).descriptors.descriptors()
                        == t.descriptors().update(t.next(), RxDescriptor(d.0 & !(1u32 << OWNED_BIT), d.1))
                }
            }),
    {
        let next = self.descriptors.next_descriptor();
        let properties = next.read();
        if !properties.owned() {
            return None;
        }
        let buffer_size = properties.buffer_size() as usize;
        // The controller may write into the buffer again.
        let released = RxDescriptor(next.0 & !(1u32 << OWNED_BIT), next.1);
        self.descriptors.set_next_descriptor(released);
        self.descriptors.consume_next_descriptor();
        Some(buffer_size)
    }
}

} // verus!
