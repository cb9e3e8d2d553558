//! The kicker: its DAC, and how charging to a new voltage proceeds.
use vstd::prelude::*;

pub mod dac;

verus! {

/// How to bring the kicker from the voltage it was charged to to a new one (volts):
/// a zero voltage only clears the charge enable; a lower voltage first discharges
/// (charge enable cleared) until the feedback ADC reads at most `discharge_until`;
/// then the DAC is set to `dac_value` and charging enabled.
#[derive(Clone, Copy, Debug, PartialEq, Eq, Structural)]
pub enum ChargePlan {
    /// Clear the charge enable and stop.
    Disable,
    /// Optionally discharge to an ADC reading, then set the DAC and enable charging.
    Charge { discharge_until: Option<u16>, dac_value: u16 },
}

/// ADC counts (12 bit over 300 V) per volt.
pub const ADC_COUNTS_PER_VOLT: u16 = 0xFFF / 300;
/// DAC counts (16 bit over 300 V) per volt.
pub const DAC_COUNTS_PER_VOLT: u16 = 0xFFFF / 300;

/// The charging plan from `current` to `setpoint` volts.
pub open spec fn spec_charge_plan(current: u8, setpoint: u8) -> ChargePlan {
    if setpoint == 0 {
        ChargePlan::Disable
    } else {
        ChargePlan::Charge {
            discharge_until: if current > setpoint { Some((setpoint * 13) as u16) } else { None },
            dac_value: (setpoint * 218) as u16,
        }
    }
}

/// Plans charging from `current` to `setpoint` volts.
pub fn charge_plan(current: u8, setpoint: u8) -> (r: ChargePlan)
    ensures r == spec_charge_plan(current, setpoint),
{
    if setpoint == 0 {
        return ChargePlan::Disable;
    }
    let discharge_until = if current > setpoint {
        Some((setpoint as u16) * ADC_COUNTS_PER_VOLT)
    } else {
        None
    };
    ChargePlan::Charge { discharge_until, dac_value: (setpoint as u16) * DAC_COUNTS_PER_VOLT }
}

/// ADC reading below which a kick or chip is over (30 V).
pub fn kick_done_threshold() -> (r: u16)
    ensures r == 390,
{
    30 * ADC_COUNTS_PER_VOLT
}

/// Whether a kick or chip has discharged the kicker, given the feedback ADC reading.
pub fn kick_done(reading: u16) -> (r: bool)
    ensures r == (reading <= 390),
{
    !(reading > kick_done_threshold())
}

} // verus!
