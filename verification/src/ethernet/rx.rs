//! Words of a GMAC receive buffer descriptor.
use vstd::prelude::*;
use super::descriptor_table::DescriptorT;

verus! {

/// Word 0, bit 0: the buffer is owned by software (a frame was received into it).
pub const OWNED_BIT: u32 = 0;
/// Word 0, bit 1: last descriptor of the table.
pub const WRAP_BIT: u32 = 1;
/// Word 1, bit 22: checksum offload status bit 0.
pub const CHECKSUM0_BIT: u32 = 22;
/// Word 1, bit 23: checksum offload status bit 1.
pub const CHECKSUM1_BIT: u32 = 23;

/// Whether bit `b` of `w` is set.
pub open spec fn bit_set(w: u32, b: u32) -> bool {
    w & (1u32 << b) != 0
}

/// Read access to the two words of a receive descriptor.
pub struct Reader(pub u32, pub u32);

impl Reader {
    /// Whether software owns the buffer (word 0, bit 0).
    pub fn owned(&self) -> (r: bool)
        ensures r == bit_set(self.0, OWNED_BIT),
    {
        self.0 & (1u32 << OWNED_BIT) != 0x0
    }

    /// Length of the received frame (word 1, bits 0..=11).
    pub fn buffer_size(&self) -> (r: u16)
        ensures r == self.1 & 0x0000_0FFF,
    {
        let w1 = self.1;
        proof {
            assert(w1 & 0x0000_0FFF <= 0x0FFF) by (bit_vector);
        }
        (w1 & 0x0000_0FFF) as u16
    }

    /// Whether the checksum offload checked the frame; both of its tests read
    /// checksum bit 0 (word 1, bit 22).
    pub fn checksum_checked(&self) -> (r: bool)
        ensures r == bit_set(self.1, CHECKSUM0_BIT),
    {
        let c0 = self.1 & (1u32 << CHECKSUM0_BIT) != 0x00;
        let c1 = self.1 & (1u32 << CHECKSUM0_BIT) != 0x00;

        c0 || c1
    }
}

/// Write access to the two words of a receive descriptor.
pub struct Writer(pub u32, pub u32);

impl Writer {
    /// Sets the buffer address (bits 2..=31 of word 0), which must be word aligned.
    pub fn set_address(self, address: u32) -> (r: Self)
        requires address & 0x0000_0003 == 0,
        ensures r.0 == self.0 | (address & !0x03u32), r.1 == self.1,
    {
        Writer(self.0 | (address & !0x03u32), self.1)
    }

    /// Gives the buffer to software.
    pub fn set_owned(self) -> (r: Self)
        ensures r.0 == self.0 | (1u32 << OWNED_BIT), r.1 == self.1,
    {
        Writer(self.0 | (1u32 << OWNED_BIT), self.1)
    }

    /// Gives the buffer to the controller.
    pub fn clear_owned(self) -> (r: Self)
        ensures r.0 == self.0 & !(1u32 << OWNED_BIT), r.1 == self.1,
    {
        Writer(self.0 & !(1u32 << OWNED_BIT), self.1)
    }

    /// Marks the descriptor as the last of the table.
    pub fn set_wrap(self) -> (r: Self)
        ensures r.0 == self.0 | (1u32 << WRAP_BIT), r.1 == self.1,
    {
        Writer(self.0 | (1u32 << WRAP_BIT), self.1)
    }
}

/// The two words of a receive descriptor.
pub struct Descriptor(pub u32, pub u32);

impl Descriptor {
    /// Read access to the words.
    pub fn read(&self) -> (r: Reader)
        ensures r.0 == self.0, r.1 == self.1,
    {
        Reader(self.0, self.1)
    }

    /// Rewrites the words with what `f` makes of their current values.
    pub fn modify<F: FnOnce(Writer) -> Writer>(&mut self, f: F)
        requires
            call_requires(f, (Writer(old(self).0, old(self).1),)),
        ensures
            call_ensures(f, (Writer(old(self).0, old(self).1),), Writer(final(self).0, final(self).1)),
    {
        let w = Writer(self.0, self.1);
        let result = f(w);
        self.0 = result.0;
        self.1 = result.1;
    }

    /// Rewrites the words with what `f` makes of two zero words.
    pub fn write<F: FnOnce(Writer) -> Writer>(&mut self, f: F)
        requires
            call_requires(f, (Writer(0, 0),)),
        ensures
            call_ensures(f, (Writer(0, 0),), Writer(final(self).0, final(self).1)),
    {
        let result = f(Writer(0, 0));
        self.0 = result.0;
        self.1 = result.1;
    }
}

impl DescriptorT for Descriptor {
    /// The buffer address with the wrap bit for the last entry; owned by the
    /// controller (bit 0 clear).
    open spec fn spec_new(buffer_address: u32, last_entry: bool) -> Descriptor {
        Descriptor(buffer_address | (if last_entry { 2u32 } else { 0u32 }), 0)
    }

    /// A descriptor for the buffer at `buffer_address`, owned by the controller and
    /// wrapping if it is the last entry.
    fn new(buffer_address: u32, last_entry: bool) -> (r: Self) {
        let w = Writer(0, 0).set_address(buffer_address).clear_owned();
        proof {
            assert(buffer_address & 3 == 0 ==> ((0u32 | (buffer_address & !0x03u32)) & !(1u32 << 0u32)) == buffer_address) by (bit_vector);
        }
        let w = if last_entry { w.set_wrap() } else { w };
        proof {
            assert(buffer_address | 0u32 == buffer_address) by (bit_vector);
            assert((1u32 << 1u32) == 2u32) by (bit_vector);
        }
        Descriptor(w.0, w.1)
    }
}

} // verus!
