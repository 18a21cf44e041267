//! The radios: a UHF band and an S band, each transmitting or on standby,
//! each on a rail of its own.

use crate::component::Component;
use crate::jitter::is_jitter;
use crate::units::{current_from, current_of};
use vstd::prelude::*;

verus! {

/// What the UHF radio draws while it transmits, before losses, in microwatts.
pub const UHF_TRANSMIT_POWER_UW: u64 = 8_000_000;

/// What the UHF radio draws on standby, before losses, in microwatts.
pub const UHF_STANDBY_POWER_UW: u64 = 250_000;

/// What the S-band radio draws while it transmits, before losses, in microwatts.
pub const S_TRANSMIT_POWER_UW: u64 = 12_000_000;

/// What the S-band radio draws on standby, before losses, in microwatts.
pub const S_STANDBY_POWER_UW: u64 = 100_000;

/// The two radios.
pub struct Communication {
    component_name: String,
    uhf_rail_voltage_mv: u32,
    s_rail_voltage_mv: u32,
    uhf_transmit_loss_uw: u32,
    uhf_standby_loss_uw: u32,
    s_transmit_loss_uw: u32,
    s_standby_loss_uw: u32,
    uhf_state: bool,
    s_state: bool,
}

/// What the radios are to their contracts. A band's state is `true` while
/// it transmits and `false` on standby.
pub struct CommunicationView {
    pub name: Seq<char>,
    pub uhf_rail_voltage_mv: u32,
    pub s_rail_voltage_mv: u32,
    pub uhf_transmit_loss_uw: u32,
    pub uhf_standby_loss_uw: u32,
    pub s_transmit_loss_uw: u32,
    pub s_standby_loss_uw: u32,
    pub uhf_state: bool,
    pub s_state: bool,
}

impl CommunicationView {
    /// Both rails are live.
    pub open spec fn wf(self) -> bool {
        self.uhf_rail_voltage_mv > 0 && self.s_rail_voltage_mv > 0
    }

    /// Power drawn by the UHF radio, in microwatts: the draw of its state
    /// and that state's loss.
    pub open spec fn uhf_power(self) -> int {
        if self.uhf_state {
            UHF_TRANSMIT_POWER_UW + self.uhf_transmit_loss_uw
        } else {
            UHF_STANDBY_POWER_UW + self.uhf_standby_loss_uw
        }
    }

    /// Power drawn by the S-band radio, in microwatts: the draw of its state
    /// and that state's loss.
    pub open spec fn s_power(self) -> int {
        if self.s_state {
            S_TRANSMIT_POWER_UW + self.s_transmit_loss_uw
        } else {
            S_STANDBY_POWER_UW + self.s_standby_loss_uw
        }
    }

    /// Power drawn by both radios, in microwatts.
    pub open spec fn power(self) -> int {
        self.s_power() + self.uhf_power()
    }

    /// Current drawn by the UHF radio from its rail, in microamperes.
    pub open spec fn uhf_current(self) -> int {
        current_of(self.uhf_power(), self.uhf_rail_voltage_mv as int)
    }

    /// Current drawn by the S-band radio from its rail, in microamperes.
    pub open spec fn s_current(self) -> int {
        current_of(self.s_power(), self.s_rail_voltage_mv as int)
    }

    /// Current drawn by both radios, in microamperes: each band's power over
    /// its own rail voltage.
    pub open spec fn current(self) -> int {
        self.s_current() + self.uhf_current()
    }

    /// The radios as they are built: UHF on 3.3 V, S band on 12 V, both on
    /// standby.
    pub open spec fn initial() -> CommunicationView {
        CommunicationView {
            name: "Communication"@,
            uhf_rail_voltage_mv: 3_300,
            s_rail_voltage_mv: 12_000,
            uhf_transmit_loss_uw: 825_000,
            uhf_standby_loss_uw: 25_000,
            s_transmit_loss_uw: 840_000,
            s_standby_loss_uw: 7_000,
            uhf_state: false,
            s_state: false,
        }
    }

    /// The radios as built draw 0.275 W (UHF) and 0.107 W (S band) on
    /// standby, 8.825 W and 12.84 W while they transmit.
    pub proof fn lemma_initial_power(uhf_state: bool, s_state: bool)
        ensures
            Self::initial().wf(),
            (CommunicationView { uhf_state, s_state, ..Self::initial() }).uhf_power() == (
            if uhf_state {
                8_825_000int
            } else {
                275_000int
            }),
            (CommunicationView { uhf_state, s_state, ..Self::initial() }).s_power() == (
            if s_state {
                12_840_000int
            } else {
                107_000int
            }),
    {
    }
}

impl View for Communication {
    type V = CommunicationView;

    closed spec fn view(&self) -> CommunicationView {
        CommunicationView {
            name: self.component_name@,
            uhf_rail_voltage_mv: self.uhf_rail_voltage_mv,
            s_rail_voltage_mv: self.s_rail_voltage_mv,
            uhf_transmit_loss_uw: self.uhf_transmit_loss_uw,
            uhf_standby_loss_uw: self.uhf_standby_loss_uw,
            s_transmit_loss_uw: self.s_transmit_loss_uw,
            s_standby_loss_uw: self.s_standby_loss_uw,
            uhf_state: self.uhf_state,
            s_state: self.s_state,
        }
    }
}

impl Communication {
    #[verifier::type_invariant]
    spec fn inv(&self) -> bool {
        self@.wf()
    }

    /// The radios, both on standby.
    pub fn new() -> (radios: Communication)
        ensures
            radios@ == CommunicationView::initial(),
    {
        Communication {
            component_name: "Communication".to_owned(),
            uhf_rail_voltage_mv: 3_300,
            s_rail_voltage_mv: 12_000,
            uhf_transmit_loss_uw: 825_000,
            uhf_standby_loss_uw: 25_000,
            s_transmit_loss_uw: 840_000,
            s_standby_loss_uw: 7_000,
            uhf_state: false,
            s_state: false,
        }
    }

    /// Sets the S band to transmit (`true`) or to standby.
    pub fn enable_s_band(&mut self, state: bool)
        ensures
            final(self)@ == (CommunicationView { s_state: state, ..old(self)@ }),
    {
        proof {
            use_type_invariant(&*self);
        }
        self.s_state = state;
    }

    /// Sets the UHF band to transmit (`true`) or to standby.
    pub fn enable_uhf_band(&mut self, state: bool)
        ensures
            final(self)@ == (CommunicationView { uhf_state: state, ..old(self)@ }),
    {
        proof {
            use_type_invariant(&*self);
        }
        self.uhf_state = state;
    }

    /// Power drawn by the UHF radio, in microwatts.
    pub fn get_uhf_power(&mut self) -> (power_uw: u64)
        ensures
            *final(self) == *old(self),
            power_uw == old(self)@.uhf_power(),
    {
        if self.uhf_state {
            UHF_TRANSMIT_POWER_UW + self.uhf_transmit_loss_uw as u64
        } else {
            UHF_STANDBY_POWER_UW + self.uhf_standby_loss_uw as u64
        }
    }

    /// Power drawn by the S-band radio, in microwatts.
    pub fn get_s_power(&mut self) -> (power_uw: u64)
        ensures
            *final(self) == *old(self),
            power_uw == old(self)@.s_power(),
    {
        if self.s_state {
            S_TRANSMIT_POWER_UW + self.s_transmit_loss_uw as u64
        } else {
            S_STANDBY_POWER_UW + self.s_standby_loss_uw as u64
        }
    }

    /// Voltage of the S-band rail, in millivolts.
    pub fn get_s_voltage(&mut self) -> (voltage_mv: u32)
        ensures
            *final(self) == *old(self),
            voltage_mv == old(self)@.s_rail_voltage_mv,
    {
        self.s_rail_voltage_mv
    }

    /// Voltage of the UHF rail, in millivolts.
    pub fn get_uhf_voltage(&mut self) -> (voltage_mv: u32)
        ensures
            *final(self) == *old(self),
            voltage_mv == old(self)@.uhf_rail_voltage_mv,
    {
        self.uhf_rail_voltage_mv
    }

    /// Current drawn by the UHF radio from its rail, in microamperes.
    pub fn get_uhf_current(&mut self) -> (current_ua: u64)
        ensures
            *final(self) == *old(self),
            current_ua == old(self)@.uhf_current(),
    {
        proof {
            use_type_invariant(&*self);
        }
        let power_uw: u64 = self.get_uhf_power();
        current_from(power_uw, self.uhf_rail_voltage_mv)
    }

    /// Current drawn by the S-band radio from its rail, in microamperes.
    pub fn get_s_current(&mut self) -> (current_ua: u64)
        ensures
            *final(self) == *old(self),
            current_ua == old(self)@.s_current(),
    {
        proof {
            use_type_invariant(&*self);
        }
        let power_uw: u64 = self.get_s_power();
        current_from(power_uw, self.s_rail_voltage_mv)
    }

    /// The draw is a matter of the switch states alone: at any two times,
    /// with any jitter, it is the same.
    pub proof fn lemma_power_same_at_all_times(
        &self,
        first_us: nat,
        first_jitter_s: int,
        second_us: nat,
        second_jitter_s: int,
    )
        ensures
            self.power_model(first_us, first_jitter_s) == self.power_model(
                second_us,
                second_jitter_s,
            ),
            self.current_model(first_us, first_jitter_s) == self.current_model(
                second_us,
                second_jitter_s,
            ),
    {
    }
}

impl Component for Communication {
    open spec fn name_model(&self) -> Seq<char> {
        self@.name
    }

    open spec fn well_formed(&self) -> bool {
        self@.wf()
    }

    open spec fn power_model(&self, elapsed_us: nat, jitter_s: int) -> int {
        self@.power()
    }

    open spec fn current_model(&self, elapsed_us: nat, jitter_s: int) -> int {
        self@.current()
    }

    /// The radios span two rails.
    open spec fn voltage_model(&self) -> int {
        0
    }

    proof fn lemma_power_nonnegative(&self, elapsed_us: nat, jitter_s: int) {
    }

    proof fn lemma_current_is_power_over_voltage(&self, elapsed_us: nat, jitter_s: int) {
    }

    fn get_name(&self) -> (name: &String) {
        &self.component_name
    }

    fn get_power_draw(&mut self) -> (draw_uw: u64)
        ensures
            draw_uw == old(self)@.power(),
    {
        proof {
            assert(is_jitter(0));
            assert(self.power_model(0, 0) == self@.power());
        }
        let s_power_uw: u64 = self.get_s_power();
        let uhf_power_uw: u64 = self.get_uhf_power();
        s_power_uw + uhf_power_uw
    }

    fn get_current(&mut self) -> (current_ua: u64)
        ensures
            current_ua == old(self)@.current(),
    {
        proof {
            use_type_invariant(&*self);
            assert(is_jitter(0));
            assert(self.current_model(0, 0) == self@.current());
        }
        let s_current_ua: u64 = self.get_s_current();
        let uhf_current_ua: u64 = self.get_uhf_current();
        s_current_ua + uhf_current_ua
    }

    fn get_voltage(&mut self) -> (voltage_mv: u32) {
        0
    }
}

} // verus!
