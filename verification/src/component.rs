//! The capability that every subsystem on the bus offers.

use crate::jitter::is_jitter;
use crate::units::current_of;
use vstd::prelude::*;

verus! {

/// A subsystem that draws power from the bus.
///
/// The three `*_model` functions say what the component draws, as plain
/// integers: microwatts, microamperes, millivolts. A model may depend on the
/// time since the component's reference instant (`elapsed_us`, microseconds)
/// and on a phase jitter (`jitter_s`, whole seconds); a component whose draw
/// is a matter of switch states alone ignores both.
pub trait Component: Sized {
    /// The component's name.
    spec fn name_model(&self) -> Seq<char>;

    /// Whether the component's parameters are consistent.
    spec fn well_formed(&self) -> bool;

    /// Power drawn, in microwatts.
    spec fn power_model(&self, elapsed_us: nat, jitter_s: int) -> int;

    /// Current drawn, in microamperes.
    spec fn current_model(&self, elapsed_us: nat, jitter_s: int) -> int;

    /// Rail voltage in millivolts; 0 for a component that spans several rails.
    spec fn voltage_model(&self) -> int;

    /// No component feeds power back: the draw is never negative.
    proof fn lemma_power_nonnegative(&self, elapsed_us: nat, jitter_s: int)
        requires
            self.well_formed(),
        ensures
            self.power_model(elapsed_us, jitter_s) >= 0,
    ;

    /// On a single rail the current is the power over the rail voltage.
    proof fn lemma_current_is_power_over_voltage(&self, elapsed_us: nat, jitter_s: int)
        requires
            self.well_formed(),
        ensures
            self.voltage_model() > 0 ==> self.current_model(elapsed_us, jitter_s) == current_of(
                self.power_model(elapsed_us, jitter_s),
                self.voltage_model(),
            ),
    ;

    /// The component's name, as given at construction.
    fn get_name(&self) -> (name: &String)
        ensures
            name@ == self.name_model(),
    ;

    /// Power drawn now, in microwatts. The component is left as it was.
    fn get_power_draw(&mut self) -> (draw_uw: u64)
        ensures
            *final(self) == *old(self),
            exists|elapsed_us: nat, jitter_s: int|
                is_jitter(jitter_s) && draw_uw == #[trigger] old(self).power_model(
                    elapsed_us,
                    jitter_s,
                ),
    ;

    /// Current drawn now, in microamperes. The component is left as it was.
    fn get_current(&mut self) -> (current_ua: u64)
        ensures
            *final(self) == *old(self),
            exists|elapsed_us: nat, jitter_s: int|
                is_jitter(jitter_s) && current_ua == #[trigger] old(self).current_model(
                    elapsed_us,
                    jitter_s,
                ),
    ;

    /// Rail voltage in millivolts, or 0 where the component spans several
    /// rails. The component is left as it was.
    fn get_voltage(&mut self) -> (voltage_mv: u32)
        ensures
            *final(self) == *old(self),
            voltage_mv == old(self).voltage_model(),
    ;
}

} // verus!
