//! The heater bank: two heaters, each switched on or off.

use crate::component::Component;
use crate::jitter::is_jitter;
use crate::units::{current_from, current_of};
use vstd::prelude::*;

verus! {

/// Two heaters on one rail.
pub struct Heaters {
    component_name: String,
    rail_voltage_mv: u32,
    power_loss_per_heater_uw: u32,
    power_draw_per_heater_uw: u32,
    heater_1_on: bool,
    heater_2_on: bool,
}

/// What a heater bank is to its contracts.
pub struct HeatersView {
    pub name: Seq<char>,
    pub rail_voltage_mv: u32,
    pub power_loss_per_heater_uw: u32,
    pub power_draw_per_heater_uw: u32,
    pub heater_1_on: bool,
    pub heater_2_on: bool,
}

impl HeatersView {
    /// The rail is live.
    pub open spec fn wf(self) -> bool {
        self.rail_voltage_mv > 0
    }

    /// What one heater draws while it is on, in microwatts.
    pub open spec fn power_per_heater(self) -> int {
        self.power_draw_per_heater_uw + self.power_loss_per_heater_uw
    }

    /// Power drawn by the bank, in microwatts: one share for each heater that is on.
    pub open spec fn power(self) -> int {
        (if self.heater_1_on { self.power_per_heater() } else { 0 })
            + (if self.heater_2_on { self.power_per_heater() } else { 0 })
    }

    /// Current drawn by the bank, in microamperes.
    pub open spec fn current(self) -> int {
        current_of(self.power(), self.rail_voltage_mv as int)
    }

    /// The bank as it is built: a 12 V rail, 2.5 W and 0.175 W of loss per
    /// heater, both heaters off.
    pub open spec fn initial() -> HeatersView {
        HeatersView {
            name: "Heaters"@,
            rail_voltage_mv: 12_000,
            power_loss_per_heater_uw: 175_000,
            power_draw_per_heater_uw: 2_500_000,
            heater_1_on: false,
            heater_2_on: false,
        }
    }

    /// The bank as built draws nothing with both heaters off, 2.675 W with
    /// exactly one of them on and 5.35 W with both.
    pub proof fn lemma_initial_power(heater_1_on: bool, heater_2_on: bool)
        ensures
            Self::initial().wf(),
            (HeatersView { heater_1_on, heater_2_on, ..Self::initial() }).power() == (
            if heater_1_on && heater_2_on {
                5_350_000int
            } else if heater_1_on || heater_2_on {
                2_675_000int
            } else {
                0int
            }),
    {
    }
}

impl View for Heaters {
    type V = HeatersView;

    closed spec fn view(&self) -> HeatersView {
        HeatersView {
            name: self.component_name@,
            rail_voltage_mv: self.rail_voltage_mv,
            power_loss_per_heater_uw: self.power_loss_per_heater_uw,
            power_draw_per_heater_uw: self.power_draw_per_heater_uw,
            heater_1_on: self.heater_1_on,
            heater_2_on: self.heater_2_on,
        }
    }
}

impl Heaters {
    #[verifier::type_invariant]
    spec fn inv(&self) -> bool {
        self@.wf()
    }

    /// A heater bank with both heaters off.
    pub fn new() -> (heaters: Heaters)
        ensures
            heaters@ == HeatersView::initial(),
    {
        Heaters {
            component_name: "Heaters".to_owned(),
            rail_voltage_mv: 12_000,
            power_loss_per_heater_uw: 175_000,
            power_draw_per_heater_uw: 2_500_000,
            heater_1_on: false,
            heater_2_on: false,
        }
    }

    /// Switches the first heater on (`true`) or off.
    pub fn on_heater_1(&mut self, state: bool)
        ensures
            final(self)@ == (HeatersView { heater_1_on: state, ..old(self)@ }),
    {
        proof {
            use_type_invariant(&*self);
        }
        self.heater_1_on = state;
    }

    /// Switches the second heater on (`true`) or off.
    pub fn on_heater_2(&mut self, state: bool)
        ensures
            final(self)@ == (HeatersView { heater_2_on: state, ..old(self)@ }),
    {
        proof {
            use_type_invariant(&*self);
        }
        self.heater_2_on = state;
    }

    /// The draw is a matter of the switch states alone: at any two times,
    /// with any jitter, it is the same.
    pub proof fn lemma_power_same_at_all_times(
        &self,
        first_us: nat,
        first_jitter_s: int,
        second_us: nat,
        second_jitter_s: int,
    )
        ensures
            self.power_model(first_us, first_jitter_s) == self.power_model(
                second_us,
                second_jitter_s,
            ),
            self.current_model(first_us, first_jitter_s) == self.current_model(
                second_us,
                second_jitter_s,
            ),
    {
    }
}

impl Component for Heaters {
    open spec fn name_model(&self) -> Seq<char> {
        self@.name
    }

    open spec fn well_formed(&self) -> bool {
        self@.wf()
    }

    open spec fn power_model(&self, elapsed_us: nat, jitter_s: int) -> int {
        self@.power()
    }

    open spec fn current_model(&self, elapsed_us: nat, jitter_s: int) -> int {
        self@.current()
    }

    open spec fn voltage_model(&self) -> int {
        self@.rail_voltage_mv as int
    }

    proof fn lemma_power_nonnegative(&self, elapsed_us: nat, jitter_s: int) {
    }

    proof fn lemma_current_is_power_over_voltage(&self, elapsed_us: nat, jitter_s: int) {
    }

    fn get_name(&self) -> (name: &String) {
        &self.component_name
    }

    fn get_power_draw(&mut self) -> (draw_uw: u64)
        ensures
            draw_uw == old(self)@.power(),
    {
        proof {
            assert(is_jitter(0));
            assert(self.power_model(0, 0) == self@.power());
        }
        let per_heater: u64 = self.power_draw_per_heater_uw as u64
            + self.power_loss_per_heater_uw as u64;
        let mut power: u64 = 0;
        if self.heater_1_on {
            power += per_heater;
        }
        if self.heater_2_on {
            power += per_heater;
        }
        power
    }

    fn get_current(&mut self) -> (current_ua: u64)
        ensures
            current_ua == old(self)@.current(),
    {
        proof {
            use_type_invariant(&*self);
            assert(is_jitter(0));
            assert(self.current_model(0, 0) == self@.current());
        }
        let power: u64 = self.get_power_draw();
        current_from(power, self.rail_voltage_mv)
    }

    fn get_voltage(&mut self) -> (voltage_mv: u32) {
        self.rail_voltage_mv
    }
}

} // verus!
