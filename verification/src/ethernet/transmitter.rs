//! The transmit side of the controller: frames are put into the transmit
//! descriptor table in turn.
use vstd::prelude::*;
use super::descriptor_table::DescriptorTable;
use super::rx::bit_set;
use super::tx::{Descriptor as TxDescriptor, MTU, USED_BIT, LAST_BUFFER_BIT, DO_NOT_APPEND_CRC_BIT};

verus! {

/// Puts frames into a table of `COUNT` transmit descriptors.
pub struct Transmitter<const COUNT: usize> {
    pub descriptors: DescriptorTable<TxDescriptor, COUNT>,
}

/// Word 1 of a transmit descriptor set up for a frame of `len` bytes: the length,
/// handed to the controller, last buffer of the frame, CRC appended by the
/// controller.
pub open spec fn spec_frame_word(word1: u32, len: u16) -> u32 {
    ((((word1 & !0x0000_1FFFu32) | len as u32) & !(1u32 << USED_BIT)) | (1u32 << LAST_BUFFER_BIT))
        & !(1u32 << DO_NOT_APPEND_CRC_BIT)
}

impl<const COUNT: usize> Transmitter<COUNT> {
    /// A transmitter over an initialized descriptor table.
    pub fn new(descriptors: DescriptorTable<TxDescriptor, COUNT>) -> (r: Self)
        ensures r.descriptors == descriptors,
    {
        Transmitter { descriptors }
    }

    /// Whether the next descriptor is free for a frame (software owns it).
    pub fn can_transmit(&self) -> (r: bool)
        requires self.descriptors.wf(),
        ensures r == bit_set(self.descriptors.descriptors()[self.descriptors.next()].1, USED_BIT),
    {
        self.descriptors.next_descriptor().read().used()
    }

    /// Queues a frame of `len` bytes (at most the MTU): false while the controller
    /// still owns the next descriptor; else the caller has copied the frame into the
    /// descriptor's buffer, the descriptor is set up and handed to the controller, and
    /// the caller starts the transmission (`GMAC_NCR.TSTART`). The table does not move
    /// on.
    pub fn send(&mut self, len: usize) -> (r: bool)
        requires
            old(self).descriptors.wf(),
            len <= MTU,
        ensures
            final(self).descriptors.wf(),
            final(self).descriptors.next() == old(self).descriptors.next(),
            ({
                let t = old(self).descriptors;
                let d = t.descriptors()[t.next()];
                if !bit_set(d.1, USED_BIT) {
                    !r && final(self).descriptors == t
                } else {
                    r && final(self).descriptors.descriptors()
                        == t.descriptors().update(t.next(), TxDescriptor(d.0, spec_frame_word(d.1, len as u16)))
                }
            }),
    {
        let next = self.descriptors.next_descriptor();
        if !next.read().used() {
            return false;
        }
        let w = super::tx::Writer(next.0, next.1)
            .set_buffer_size(len as u16)
            .clear_used()
            .set_last()
            .clear_crc();
        self.descriptors.set_next_descriptor(TxDescriptor(w.0, w.1));
        true
    }
}

} // verus!
