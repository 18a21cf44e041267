//! Fixed-point units shared by every component.

use vstd::arithmetic::div_mod::{lemma_div_pos_is_pos, lemma_fundamental_div_mod, lemma_mod_bound};
use vstd::prelude::*;

verus! {

/// Current in microamperes drawn by `power_uw` microwatts from a rail of
/// `voltage_mv` millivolts: the quotient `power / voltage`, rounded down to a
/// whole microampere.
pub open spec fn current_of(power_uw: int, voltage_mv: int) -> int {
    power_uw * 1000 / voltage_mv
}

/// What "rounded down" means: the current times the voltage falls short of
/// the power by less than one microampere's worth.
pub proof fn lemma_current_is_quotient(power_uw: int, voltage_mv: int)
    requires
        power_uw >= 0,
        voltage_mv > 0,
    ensures
        current_of(power_uw, voltage_mv) >= 0,
        current_of(power_uw, voltage_mv) * voltage_mv <= power_uw * 1000 < (current_of(
            power_uw,
            voltage_mv,
        ) + 1) * voltage_mv,
{
    lemma_fundamental_div_mod(power_uw * 1000, voltage_mv);
    lemma_mod_bound(power_uw * 1000, voltage_mv);
    lemma_div_pos_is_pos(power_uw * 1000, voltage_mv);
    let current = current_of(power_uw, voltage_mv);
    assert(current * voltage_mv == voltage_mv * current) by (nonlinear_arith);
    assert((current + 1) * voltage_mv == voltage_mv * current + voltage_mv) by (nonlinear_arith);
}

/// Computes `current_of` for a live rail.
pub fn current_from(power_uw: u64, voltage_mv: u32) -> (current_ua: u64)
    requires
        voltage_mv > 0,
        power_uw * 1000 <= u64::MAX,
    ensures
        current_ua == current_of(power_uw as int, voltage_mv as int),
{
    power_uw * 1000 / (voltage_mv as u64)
}

} // verus!
