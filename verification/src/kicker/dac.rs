//! A resistor ladder (R2R) digital-to-analog converter driven by output pins.
use vstd::prelude::*;

verus! {

/// A DAC.
pub trait Dac {
    type Error;

    /// Sets the output voltage (full scale at `u16::MAX`).
    fn set(&mut self, voltage: u16) -> Result<(), Self::Error>;
}

/// An output pin that can be driven high or low.
pub trait OutputPin {
    type Error;

    fn set_state(&mut self, high: bool) -> Result<(), Self::Error>;
}

/// An R2R ladder on `N` pins, pin `N - 1` being the most significant bit. It
/// records, as a ghost log, the levels it has written to its pins in order.
pub struct R2R<P, const N: usize> {
    pins: [P; N],
    writes: Ghost<Seq<(int, bool)>>,
}

/// The level the `k`-th pin write of `set(voltage)` puts out: bit `15 - k` of the
/// voltage, low once the sixteen bits are used up.
pub open spec fn spec_r2r_level(voltage: u16, k: int) -> bool {
    0 <= k < 16 && (voltage >> ((15 - k) as u16)) & 1 == 1
}

/// The pin writes of `set(voltage)` on `n` pins: from the most significant pin
/// (`n - 1`) down to pin 0.
pub open spec fn spec_r2r_writes(voltage: u16, n: int) -> Seq<(int, bool)> {
    Seq::new(n as nat, |k: int| (n - 1 - k, spec_r2r_level(voltage, k)))
}

proof fn lemma_top_bit_after_shift(voltage: u16, k: u16, j: u16)
    by (bit_vector)
    requires
        k < 16,
        j == 15 - k,
    ensures
        ((voltage << k) > 0x7FFFu16) == ((voltage >> j) & 1 == 1),
{
}

impl<P, const N: usize> R2R<P, N> {
    /// A DAC on the given pins.
    pub fn new(pins: [P; N]) -> (r: Self)
        ensures r.writes().len() == 0,
    {
        R2R { pins, writes: Ghost(Seq::empty()) }
    }

    /// The levels written to the pins so far, in order, each with its pin's index.
    pub closed spec fn writes(&self) -> Seq<(int, bool)> {
        self.writes@
    }
}

impl<P: OutputPin, const N: usize> Dac for R2R<P, N> {
    type Error = P::Error;

    /// Drives the pins from the most significant one down with the voltage's bits,
    /// stopping at the first pin that fails.
    fn set(&mut self, voltage: u16) -> (r: Result<(), P::Error>)
        ensures
            ({
                let all = spec_r2r_writes(voltage, N as int);
                let new = final(self).writes().subrange(old(self).writes().len() as int, final(self).writes().len() as int);
                &&& final(self).writes().subrange(0, old(self).writes().len() as int) == old(self).writes()
                &&& r is Ok ==> new == all
                &&& r is Err ==> new.len() >= 1 && new == all.subrange(0, new.len() as int)
            }),
    {
        let ghost start = self.writes@;
        let mut v: u16 = voltage;
        let mut i: usize = N;
        proof {
            assert(voltage << 0u16 == voltage) by (bit_vector);
            assert(start.subrange(0, start.len() as int) =~= start);
            assert(start.subrange(start.len() as int, start.len() as int) =~= spec_r2r_writes(voltage, N as int).subrange(0, 0));
        }
        while i > 0
            invariant
                i <= N,
                start == old(self).writes@,
                self.writes@.len() == start.len() + (N - i),
                self.writes@.subrange(0, start.len() as int) == start,
                self.writes@.subrange(start.len() as int, self.writes@.len() as int)
                    == spec_r2r_writes(voltage, N as int).subrange(0, (N - i) as int),
                (N - i) < 16 ==> v == voltage << ((N - i) as u16),
                (N - i) >= 16 ==> v == 0,
            decreases i,
        {
            i = i - 1;
            let k: usize = N - 1 - i;
            let high = v > u16::MAX / 2;
            proof {
                if k < 16 {
                    lemma_top_bit_after_shift(voltage, k as u16, (15 - k) as u16);
                }
                assert(high == spec_r2r_level(voltage, k as int));
            }
            let result = self.pins[i].set_state(high);
            proof {
                self.writes@ = self.writes@.push((i as int, high));
                assert(self.writes@.subrange(0, start.len() as int) =~= start);
                assert(self.writes@.subrange(start.len() as int, self.writes@.len() as int)
                    =~= spec_r2r_writes(voltage, N as int).subrange(0, (N - i) as int));
            }
            match result {
                Ok(()) => {},
                Err(e) => {
                    proof {
                        let new = self.writes@.subrange(start.len() as int, self.writes@.len() as int);
                        assert(new.len() == N - i);
                        assert(new == spec_r2r_writes(voltage, N as int).subrange(0, new.len() as int));
                        assert(self.writes@.subrange(0, start.len() as int) == start);
                        assert(start == old(self).writes@);
                        assert(new.len() >= 1);
                    }
                    return Err(e);
                },
            }
            proof {
                if k + 1 < 16 {
                    assert((voltage << (k as u16)) << 1u16 == voltage << ((k + 1) as u16)) by (bit_vector)
                        requires k + 1 < 16;
                } else if k + 1 == 16 {
                    assert((voltage << 15u16) << 1u16 == 0u16) by (bit_vector);
                } else {
                    assert(0u16 << 1u16 == 0u16) by (bit_vector);
                }
            }
            v = v << 1u16;
        }
        Ok(())
    }
}

} // verus!
