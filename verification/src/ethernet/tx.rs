//! Words of a GMAC transmit buffer descriptor.
use vstd::prelude::*;
use super::descriptor_table::DescriptorT;
use super::rx::bit_set;

verus! {

/// Largest frame the controller transmits, in bytes.
pub const MTU: u16 = 1536;

/// Word 1, bit 15: last buffer of the frame.
pub const LAST_BUFFER_BIT: u32 = 15;
/// Word 1, bit 16: the controller does not append a CRC.
pub const DO_NOT_APPEND_CRC_BIT: u32 = 16;
/// Word 1, bit 26: late collision.
pub const LATE_COLLISION_BIT: u32 = 26;
/// Word 1, bit 27: frame corrupted.
pub const FRAME_CORRUPTED_BIT: u32 = 27;
/// Word 1, bit 28: transmit underrun.
pub const UNDERRUN_BIT: u32 = 28;
/// Word 1, bit 29: retry limit exceeded.
pub const RETRY_LIMIT_EXCEEDED_BIT: u32 = 29;
/// Word 1, bit 30: last descriptor of the table.
pub const WRAP_BIT: u32 = 30;
/// Word 1, bit 31: the buffer is used (owned by software).
pub const USED_BIT: u32 = 31;

/// Read access to the two words of a transmit descriptor.
pub struct Reader(pub u32, pub u32);

impl Reader {
    /// Late collision (word 1, bit 26).
    pub fn collided(&self) -> (r: bool)
        ensures r == bit_set(self.1, LATE_COLLISION_BIT),
    {
        self.1 & (1u32 << LATE_COLLISION_BIT) != 0
    }

    /// Frame corrupted (word 1, bit 27).
    pub fn corrupted(&self) -> (r: bool)
        ensures r == bit_set(self.1, FRAME_CORRUPTED_BIT),
    {
        self.1 & (1u32 << FRAME_CORRUPTED_BIT) != 0
    }

    /// Transmit underrun (word 1, bit 28).
    pub fn underran(&self) -> (r: bool)
        ensures r == bit_set(self.1, UNDERRUN_BIT),
    {
        self.1 & (1u32 << UNDERRUN_BIT) != 0
    }

    /// Retry limit exceeded (word 1, bit 29).
    pub fn retry_exceeded(&self) -> (r: bool)
        ensures r == bit_set(self.1, RETRY_LIMIT_EXCEEDED_BIT),
    {
        self.1 & (1u32 << RETRY_LIMIT_EXCEEDED_BIT) != 0
    }

    /// Used by software (word 1, bit 31).
    pub fn used(&self) -> (r: bool)
        ensures r == bit_set(self.1, USED_BIT),
    {
        self.1 & (1u32 << USED_BIT) != 0
    }
}

/// Write access to the two words of a transmit descriptor.
pub struct Writer(pub u32, pub u32);

impl Writer {
    /// Sets the buffer address (word 0), which must be word aligned.
    pub fn set_address(self, address: u32) -> (r: Self)
        requires address & 0x0000_0003 == 0,
        ensures r.0 == address, r.1 == self.1,
    {
        Writer(address, self.1)
    }

    /// Sets the length of the buffer (word 1, bits 0..=12), at most the MTU.
    pub fn set_buffer_size(self, byte_length: u16) -> (r: Self)
        requires byte_length <= MTU,
        ensures r.0 == self.0, r.1 == (self.1 & !0x0000_1FFFu32) | byte_length as u32,
    {
        Writer(self.0, (self.1 & !0x0000_1FFFu32) | byte_length as u32)
    }

    /// Marks the descriptor as the last of the table.
    pub fn set_wrap(self) -> (r: Self)
        ensures r.0 == self.0, r.1 == self.1 | (1u32 << WRAP_BIT),
    {
        Writer(self.0, self.1 | (1u32 << WRAP_BIT))
    }

    /// Gives the buffer to software.
    pub fn set_used(self) -> (r: Self)
        ensures r.0 == self.0, r.1 == self.1 | (1u32 << USED_BIT),
    {
        Writer(self.0, self.1 | (1u32 << USED_BIT))
    }

    /// Gives the buffer to the controller.
    pub fn clear_used(self) -> (r: Self)
        ensures r.0 == self.0, r.1 == self.1 & !(1u32 << USED_BIT),
    {
        Writer(self.0, self.1 & !(1u32 << USED_BIT))
    }

    /// Marks the buffer as the last of its frame.
    pub fn set_last(self) -> (r: Self)
        ensures r.0 == self.0, r.1 == self.1 | (1u32 << LAST_BUFFER_BIT),
    {
        Writer(self.0, self.1 | (1u32 << LAST_BUFFER_BIT))
    }

    /// Lets the controller append the CRC.
    pub fn clear_crc(self) -> (r: Self)
        ensures r.0 == self.0, r.1 == self.1 & !(1u32 << DO_NOT_APPEND_CRC_BIT),
    {
        Writer(self.0, self.1 & !(1u32 << DO_NOT_APPEND_CRC_BIT))
    }
}

/// The two words of a transmit descriptor.
pub struct Descriptor(pub u32, pub u32);

impl Descriptor {
    /// Read access to the words.
    pub fn read(&self) -> (r: Reader)
        ensures r.0 == self.0, r.1 == self.1,
    {
        Reader(self.0, self.1)
    }

    /// Rewrites the words with what `f` makes of their current values.
    pub fn modify<F: FnOnce(Writer) -> Writer>(&mut self, f: F)
        requires
            call_requires(f, (Writer(old(self).0, old(self).1),)),
        ensures
            call_ensures(f, (Writer(old(self).0, old(self).1),), Writer(final(self).0, final(self).1)),
    {
        let w = Writer(self.0, self.1);
        let result = f(w);
        self.0 = result.0;
        self.1 = result.1;
    }

    /// Rewrites the words with what `f` makes of two zero words.
    pub fn write<F: FnOnce(Writer) -> Writer>(&mut self, f: F)
        requires
            call_requires(f, (Writer(0, 0),)),
        ensures
            call_ensures(f, (Writer(0, 0),), Writer(final(self).0, final(self).1)),
    {
        let result = f(Writer(0, 0));
        self.0 = result.0;
        self.1 = result.1;
    }
}

impl DescriptorT for Descriptor {
    /// The buffer address; used by software (bit 31), length 0, and the wrap bit
    /// (30) for the last entry.
    open spec fn spec_new(buffer_address: u32, last_entry: bool) -> Descriptor {
        Descriptor(buffer_address, if last_entry { 0xC000_0000u32 } else { 0x8000_0000u32 })
    }

    /// A descriptor for the buffer at `buffer_address`, used by software, of length 0,
    /// wrapping if it is the last entry.
    fn new(buffer_address: u32, last_entry: bool) -> (r: Self) {
        let w = Writer(0, 0).set_used().set_address(buffer_address).set_buffer_size(0);
        proof {
            assert(((0u32 | (1u32 << 31u32)) & !0x0000_1FFFu32) | 0u32 == 0x8000_0000u32) by (bit_vector);
            assert(0x8000_0000u32 | (1u32 << 30u32) == 0xC000_0000u32) by (bit_vector);
        }
        let w = if last_entry { w.set_wrap() } else { w };
        Descriptor(w.0, w.1)
    }
}

} // verus!
