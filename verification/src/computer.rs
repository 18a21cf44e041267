//! The flight computer: a boot phase, then nominal draw, with two
//! peripherals that are powered together.

use crate::clock::micros_since;
use crate::component::Component;
use crate::jitter::is_jitter;
use crate::units::{current_from, current_of};
use std::time::Instant;
use vstd::prelude::*;

verus! {

/// What the two peripherals draw together, in microwatts: 0.35 A at 5 V.
pub const PERIPHERAL_POWER_UW: u64 = 1_750_000;

/// The command and data handling computer.
pub struct FlightComputer {
    component_name: String,
    rail_voltage_mv: u32,
    power_loss_uw: u32,
    booting_power_uw: u32,
    nominal_power_uw: u32,
    last_update: Instant,
    start_up_time_us: u64,
    bbb_connected: bool,
    ethernet_enabled: bool,
}

/// What a flight computer is to its contracts. The instant it was switched
/// on is not part of it: every draw is stated for a given elapsed time.
pub struct FlightComputerView {
    pub name: Seq<char>,
    pub rail_voltage_mv: u32,
    pub power_loss_uw: u32,
    pub booting_power_uw: u32,
    pub nominal_power_uw: u32,
    pub start_up_time_us: u64,
    pub bbb_connected: bool,
    pub ethernet_enabled: bool,
}

impl FlightComputerView {
    /// The rail is live, and in either phase the computer draws at least
    /// what its peripherals account for.
    pub open spec fn wf(self) -> bool {
        &&& self.rail_voltage_mv > 0
        &&& self.booting_power_uw + self.power_loss_uw >= PERIPHERAL_POWER_UW
        &&& self.nominal_power_uw + self.power_loss_uw >= PERIPHERAL_POWER_UW
    }

    /// Whether the computer is still booting `elapsed_us` microseconds after
    /// it was switched on.
    pub open spec fn is_booting(self, elapsed_us: nat) -> bool {
        elapsed_us <= self.start_up_time_us
    }

    /// Whether both peripherals are powered.
    pub open spec fn peripherals_on(self) -> bool {
        self.bbb_connected && self.ethernet_enabled
    }

    /// Draw of the phase that the computer is in, before losses.
    pub open spec fn phase_power(self, elapsed_us: nat) -> int {
        if self.is_booting(elapsed_us) {
            self.booting_power_uw as int
        } else {
            self.nominal_power_uw as int
        }
    }

    /// Power drawn, in microwatts: the phase's draw and the loss, less the
    /// peripherals' whole share unless both of them are powered.
    pub open spec fn power(self, elapsed_us: nat) -> int {
        self.phase_power(elapsed_us) + self.power_loss_uw - (if self.peripherals_on() {
            0int
        } else {
            PERIPHERAL_POWER_UW as int
        })
    }

    /// Current drawn, in microamperes.
    pub open spec fn current(self, elapsed_us: nat) -> int {
        current_of(self.power(elapsed_us), self.rail_voltage_mv as int)
    }

    /// The computer as it is built: a 5 V rail, 1.75 W in either phase,
    /// 0.105 W of loss, five seconds to boot, both peripherals powered.
    pub open spec fn initial() -> FlightComputerView {
        FlightComputerView {
            name: "Command and Data Handling"@,
            rail_voltage_mv: 5_000,
            power_loss_uw: 105_000,
            booting_power_uw: 1_750_000,
            nominal_power_uw: 1_750_000,
            start_up_time_us: 5_000_000,
            bbb_connected: true,
            ethernet_enabled: true,
        }
    }

    /// With both peripherals powered the computer draws its phase's power
    /// and the loss: the booting power up to the start-up time, the nominal
    /// power after it.
    pub proof fn lemma_power_by_phase(self, elapsed_us: nat)
        requires
            self.peripherals_on(),
        ensures
            elapsed_us <= self.start_up_time_us ==> self.power(elapsed_us)
                == self.booting_power_uw + self.power_loss_uw,
            elapsed_us > self.start_up_time_us ==> self.power(elapsed_us) == self.nominal_power_uw
                + self.power_loss_uw,
    {
    }

    /// Unless both peripherals are powered, the draw is lower by exactly the
    /// peripherals' share, in either phase; one flag alone takes off the
    /// whole share.
    pub proof fn lemma_peripherals_off_subtracts_share(
        self,
        powered: FlightComputerView,
        elapsed_us: nat,
    )
        requires
            !self.peripherals_on(),
            powered == (FlightComputerView {
                bbb_connected: true,
                ethernet_enabled: true,
                ..self
            }),
        ensures
            self.power(elapsed_us) == powered.power(elapsed_us) - PERIPHERAL_POWER_UW,
    {
    }

    /// The boot phase ends once and for all: a computer that has left it
    /// is out of it at every later time.
    pub proof fn lemma_boot_ends_for_good(self, earlier_us: nat, later_us: nat)
        requires
            earlier_us <= later_us,
            !self.is_booting(earlier_us),
        ensures
            !self.is_booting(later_us),
    {
    }

    /// After the boot phase the draw no longer depends on the time.
    pub proof fn lemma_power_steady_after_boot(self, first_us: nat, second_us: nat)
        requires
            !self.is_booting(first_us),
            !self.is_booting(second_us),
        ensures
            self.power(first_us) == self.power(second_us),
    {
    }

    /// The computer as built draws 1.855 W with its peripherals, in either
    /// phase, and 0.105 W without them.
    pub proof fn lemma_initial_power(elapsed_us: nat, bbb_connected: bool, ethernet_enabled: bool)
        ensures
            Self::initial().wf(),
            Self::initial().power(elapsed_us) == 1_855_000,
            !(bbb_connected && ethernet_enabled) ==> (FlightComputerView {
                bbb_connected,
                ethernet_enabled,
                ..Self::initial()
            }).power(elapsed_us) == 105_000,
    {
    }
}

impl View for FlightComputer {
    type V = FlightComputerView;

    closed spec fn view(&self) -> FlightComputerView {
        FlightComputerView {
            name: self.component_name@,
            rail_voltage_mv: self.rail_voltage_mv,
            power_loss_uw: self.power_loss_uw,
            booting_power_uw: self.booting_power_uw,
            nominal_power_uw: self.nominal_power_uw,
            start_up_time_us: self.start_up_time_us,
            bbb_connected: self.bbb_connected,
            ethernet_enabled: self.ethernet_enabled,
        }
    }
}

impl FlightComputer {
    #[verifier::type_invariant]
    spec fn inv(&self) -> bool {
        self@.wf()
    }

    /// A flight computer that starts to boot now, with both peripherals
    /// powered.
    pub fn new() -> (computer: FlightComputer)
        ensures
            computer@ == FlightComputerView::initial(),
    {
        FlightComputer {
            component_name: "Command and Data Handling".to_owned(),
            rail_voltage_mv: 5_000,
            power_loss_uw: 105_000,
            booting_power_uw: 1_750_000,
            nominal_power_uw: 1_750_000,
            last_update: Instant::now(),
            start_up_time_us: 5_000_000,
            bbb_connected: true,
            ethernet_enabled: true,
        }
    }

    /// Powers both peripherals (`true`) or neither.
    pub fn enable_components(&mut self, state: bool)
        ensures
            final(self)@ == (FlightComputerView {
                bbb_connected: state,
                ethernet_enabled: state,
                ..old(self)@
            }),
    {
        proof {
            use_type_invariant(&*self);
        }
        self.bbb_connected = state;
        self.ethernet_enabled = state;
    }

    /// Power drawn `elapsed_us` microseconds after the computer was switched
    /// on, in microwatts.
    pub fn power_draw_at(&self, elapsed_us: u64) -> (draw_uw: u64)
        ensures
            draw_uw == self@.power(elapsed_us as nat),
    {
        proof {
            use_type_invariant(self);
        }
        let mut power_draw: u64 = if elapsed_us <= self.start_up_time_us {
            self.booting_power_uw as u64
        } else {
            self.nominal_power_uw as u64
        };
        power_draw += self.power_loss_uw as u64;
        if self.bbb_connected && self.ethernet_enabled {
            power_draw
        } else {
            power_draw - PERIPHERAL_POWER_UW
        }
    }

    /// Current drawn `elapsed_us` microseconds after the computer was
    /// switched on, in microamperes.
    pub fn current_at(&self, elapsed_us: u64) -> (current_ua: u64)
        ensures
            current_ua == self@.current(elapsed_us as nat),
    {
        proof {
            use_type_invariant(self);
        }
        current_from(self.power_draw_at(elapsed_us), self.rail_voltage_mv)
    }
}

impl Component for FlightComputer {
    open spec fn name_model(&self) -> Seq<char> {
        self@.name
    }

    open spec fn well_formed(&self) -> bool {
        self@.wf()
    }

    open spec fn power_model(&self, elapsed_us: nat, jitter_s: int) -> int {
        self@.power(elapsed_us)
    }

    open spec fn current_model(&self, elapsed_us: nat, jitter_s: int) -> int {
        self@.current(elapsed_us)
    }

    open spec fn voltage_model(&self) -> int {
        self@.rail_voltage_mv as int
    }

    proof fn lemma_power_nonnegative(&self, elapsed_us: nat, jitter_s: int) {
    }

    proof fn lemma_current_is_power_over_voltage(&self, elapsed_us: nat, jitter_s: int) {
    }

    fn get_name(&self) -> (name: &String) {
        &self.component_name
    }

    fn get_power_draw(&mut self) -> (draw_uw: u64)
        ensures
            exists|elapsed_us: nat| draw_uw == #[trigger] old(self)@.power(elapsed_us),
    {
        let elapsed_us: u64 = micros_since(&self.last_update);
        let draw_uw: u64 = self.power_draw_at(elapsed_us);
        proof {
            assert(is_jitter(0));
            assert(draw_uw == self.power_model(elapsed_us as nat, 0));
        }
        draw_uw
    }

    fn get_current(&mut self) -> (current_ua: u64)
        ensures
            exists|elapsed_us: nat| current_ua == #[trigger] old(self)@.current(elapsed_us),
    {
        let elapsed_us: u64 = micros_since(&self.last_update);
        let current_ua: u64 = self.current_at(elapsed_us);
        proof {
            assert(is_jitter(0));
            assert(current_ua == self.current_model(elapsed_us as nat, 0));
        }
        current_ua
    }

    fn get_voltage(&mut self) -> (voltage_mv: u32) {
        self.rail_voltage_mv
    }
}

} // verus!
