//! Navigation: a GPS receiver that is on or off, and a maneuvering unit that
//! is active or passive, each on a rail of its own.

use crate::component::Component;
use crate::jitter::is_jitter;
use crate::units::{current_from, current_of};
use vstd::prelude::*;

verus! {

/// What the GPS receiver draws while it is on, before losses, in microwatts.
pub const GPS_POWER_UW: u64 = 1_800_000;

/// What the maneuvering unit draws while it maneuvers, before losses, in microwatts.
pub const MANEUVERING_ACTIVE_POWER_UW: u64 = 3_720_000;

/// What the maneuvering unit draws while it is passive, before losses, in microwatts.
pub const MANEUVERING_PASSIVE_POWER_UW: u64 = 1_270_000;

/// The GPS receiver and the maneuvering unit.
pub struct Navigation {
    component_name: String,
    gps_rail_voltage_mv: u32,
    maneuvering_rail_voltage_mv: u32,
    gps_power_loss_uw: u32,
    maneuvering_active_loss_uw: u32,
    maneuvering_passive_loss_uw: u32,
    gps_state: bool,
    maneuvering_state: bool,
}

/// What navigation is to its contracts. `gps_state` is `true` while the
/// receiver is on; `maneuvering_state` is `true` while the unit maneuvers and
/// `false` while it is passive.
pub struct NavigationView {
    pub name: Seq<char>,
    pub gps_rail_voltage_mv: u32,
    pub maneuvering_rail_voltage_mv: u32,
    pub gps_power_loss_uw: u32,
    pub maneuvering_active_loss_uw: u32,
    pub maneuvering_passive_loss_uw: u32,
    pub gps_state: bool,
    pub maneuvering_state: bool,
}

impl NavigationView {
    /// Both rails are live.
    pub open spec fn wf(self) -> bool {
        self.gps_rail_voltage_mv > 0 && self.maneuvering_rail_voltage_mv > 0
    }

    /// Power drawn by the GPS receiver, in microwatts: its draw and its loss
    /// while it is on, nothing while it is off.
    pub open spec fn gps_power(self) -> int {
        if self.gps_state {
            GPS_POWER_UW + self.gps_power_loss_uw
        } else {
            0
        }
    }

    /// Power drawn by the maneuvering unit, in microwatts: the draw of its
    /// state and that state's loss. The unit is never fully off.
    pub open spec fn maneuvering_power(self) -> int {
        if self.maneuvering_state {
            MANEUVERING_ACTIVE_POWER_UW + self.maneuvering_active_loss_uw
        } else {
            MANEUVERING_PASSIVE_POWER_UW + self.maneuvering_passive_loss_uw
        }
    }

    /// Power drawn by navigation, in microwatts.
    pub open spec fn power(self) -> int {
        self.gps_power() + self.maneuvering_power()
    }

    /// Current drawn by the GPS receiver from its rail, in microamperes.
    pub open spec fn gps_current(self) -> int {
        current_of(self.gps_power(), self.gps_rail_voltage_mv as int)
    }

    /// Current drawn by the maneuvering unit from its rail, in microamperes.
    pub open spec fn maneuvering_current(self) -> int {
        current_of(self.maneuvering_power(), self.maneuvering_rail_voltage_mv as int)
    }

    /// Current drawn by navigation, in microamperes: each unit's power over
    /// its own rail voltage.
    pub open spec fn current(self) -> int {
        self.gps_current() + self.maneuvering_current()
    }

    /// Navigation as it is built: both units on 5 V, the receiver on, the
    /// maneuvering unit passive.
    pub open spec fn initial() -> NavigationView {
        NavigationView {
            name: "Navigation"@,
            gps_rail_voltage_mv: 5_000,
            maneuvering_rail_voltage_mv: 5_000,
            gps_power_loss_uw: 180_000,
            maneuvering_active_loss_uw: 261_400,
            maneuvering_passive_loss_uw: 88_700,
            gps_state: true,
            maneuvering_state: false,
        }
    }

    /// Navigation as built draws 1.98 W for the receiver while it is on, and
    /// for the maneuvering unit 3.9814 W active or 1.3587 W passive.
    pub proof fn lemma_initial_power(gps_state: bool, maneuvering_state: bool)
        ensures
            Self::initial().wf(),
            (NavigationView { gps_state, maneuvering_state, ..Self::initial() }).gps_power() == (
            if gps_state {
                1_980_000int
            } else {
                0int
            }),
            (NavigationView {
                gps_state,
                maneuvering_state,
                ..Self::initial()
            }).maneuvering_power() == (if maneuvering_state {
                3_981_400int
            } else {
                1_358_700int
            }),
    {
    }
}

impl View for Navigation {
    type V = NavigationView;

    closed spec fn view(&self) -> NavigationView {
        NavigationView {
            name: self.component_name@,
            gps_rail_voltage_mv: self.gps_rail_voltage_mv,
            maneuvering_rail_voltage_mv: self.maneuvering_rail_voltage_mv,
            gps_power_loss_uw: self.gps_power_loss_uw,
            maneuvering_active_loss_uw: self.maneuvering_active_loss_uw,
            maneuvering_passive_loss_uw: self.maneuvering_passive_loss_uw,
            gps_state: self.gps_state,
            maneuvering_state: self.maneuvering_state,
        }
    }
}

impl Navigation {
    #[verifier::type_invariant]
    spec fn inv(&self) -> bool {
        self@.wf()
    }

    /// Navigation with the receiver on and the maneuvering unit passive.
    pub fn new() -> (navigation: Navigation)
        ensures
            navigation@ == NavigationView::initial(),
    {
        Navigation {
            component_name: "Navigation".to_owned(),
            gps_rail_voltage_mv: 5_000,
            maneuvering_rail_voltage_mv: 5_000,
            gps_power_loss_uw: 180_000,
            maneuvering_active_loss_uw: 261_400,
            maneuvering_passive_loss_uw: 88_700,
            gps_state: true,
            maneuvering_state: false,
        }
    }

    /// Switches the GPS receiver on (`true`) or off.
    pub fn enable_gps(&mut self, state: bool)
        ensures
            final(self)@ == (NavigationView { gps_state: state, ..old(self)@ }),
    {
        proof {
            use_type_invariant(&*self);
        }
        self.gps_state = state;
    }

    /// Sets the maneuvering unit to active (`true`) or to passive.
    pub fn enable_maneuvering(&mut self, state: bool)
        ensures
            final(self)@ == (NavigationView { maneuvering_state: state, ..old(self)@ }),
    {
        proof {
            use_type_invariant(&*self);
        }
        self.maneuvering_state = state;
    }

    /// Power drawn by the GPS receiver, in microwatts.
    pub fn get_gps_power(&mut self) -> (power_uw: u64)
        ensures
            *final(self) == *old(self),
            power_uw == old(self)@.gps_power(),
    {
        if self.gps_state {
            GPS_POWER_UW + self.gps_power_loss_uw as u64
        } else {
            0
        }
    }

    /// Power drawn by the maneuvering unit, in microwatts.
    pub fn get_maneuvering_power(&mut self) -> (power_uw: u64)
        ensures
            *final(self) == *old(self),
            power_uw == old(self)@.maneuvering_power(),
    {
        if self.maneuvering_state {
            MANEUVERING_ACTIVE_POWER_UW + self.maneuvering_active_loss_uw as u64
        } else {
            MANEUVERING_PASSIVE_POWER_UW + self.maneuvering_passive_loss_uw as u64
        }
    }

    /// Voltage of the GPS rail, in millivolts.
    pub fn get_gps_voltage(&mut self) -> (voltage_mv: u32)
        ensures
            *final(self) == *old(self),
            voltage_mv == old(self)@.gps_rail_voltage_mv,
    {
        self.gps_rail_voltage_mv
    }

    /// Voltage of the maneuvering rail, in millivolts.
    pub fn get_maneuvering_voltage(&mut self) -> (voltage_mv: u32)
        ensures
            *final(self) == *old(self),
            voltage_mv == old(self)@.maneuvering_rail_voltage_mv,
    {
        self.maneuvering_rail_voltage_mv
    }

    /// Current drawn by the GPS receiver from its rail, in microamperes.
    pub fn get_gps_current(&mut self) -> (current_ua: u64)
        ensures
            *final(self) == *old(self),
            current_ua == old(self)@.gps_current(),
    {
        proof {
            use_type_invariant(&*self);
        }
        let power_uw: u64 = self.get_gps_power();
        current_from(power_uw, self.gps_rail_voltage_mv)
    }

    /// Current drawn by the maneuvering unit from its rail, in microamperes.
    pub fn get_maneuvering_current(&mut self) -> (current_ua: u64)
        ensures
            *final(self) == *old(self),
            current_ua == old(self)@.maneuvering_current(),
    {
        proof {
            use_type_invariant(&*self);
        }
        let power_uw: u64 = self.get_maneuvering_power();
        current_from(power_uw, self.maneuvering_rail_voltage_mv)
    }

    /// The draw is a matter of the switch states alone: at any two times,
    /// with any jitter, it is the same.
    pub proof fn lemma_power_same_at_all_times(
        &self,
        first_us: nat,
        first_jitter_s: int,
        second_us: nat,
        second_jitter_s: int,
    )
        ensures
            self.power_model(first_us, first_jitter_s) == self.power_model(
                second_us,
                second_jitter_s,
            ),
            self.current_model(first_us, first_jitter_s) == self.current_model(
                second_us,
                second_jitter_s,
            ),
    {
    }
}

impl Component for Navigation {
    open spec fn name_model(&self) -> Seq<char> {
        self@.name
    }

    open spec fn well_formed(&self) -> bool {
        self@.wf()
    }

    open spec fn power_model(&self, elapsed_us: nat, jitter_s: int) -> int {
        self@.power()
    }

    open spec fn current_model(&self, elapsed_us: nat, jitter_s: int) -> int {
        self@.current()
    }

    /// Navigation spans two rails.
    open spec fn voltage_model(&self) -> int {
        0
    }

    proof fn lemma_power_nonnegative(&self, elapsed_us: nat, jitter_s: int) {
    }

    proof fn lemma_current_is_power_over_voltage(&self, elapsed_us: nat, jitter_s: int) {
    }

    fn get_name(&self) -> (name: &String) {
        &self.component_name
    }

    fn get_power_draw(&mut self) -> (draw_uw: u64)
        ensures
            draw_uw == old(self)@.power(),
    {
        proof {
            assert(is_jitter(0));
            assert(self.power_model(0, 0) == self@.power());
        }
        let gps_power_uw: u64 = self.get_gps_power();
        let maneuvering_power_uw: u64 = self.get_maneuvering_power();
        gps_power_uw + maneuvering_power_uw
    }

    fn get_current(&mut self) -> (current_ua: u64)
        ensures
            current_ua == old(self)@.current(),
    {
        proof {
            use_type_invariant(&*self);
            assert(is_jitter(0));
            assert(self.current_model(0, 0) == self@.current());
        }
        let gps_current_ua: u64 = self.get_gps_current();
        let maneuvering_current_ua: u64 = self.get_maneuvering_current();
        gps_current_ua + maneuvering_current_ua
    }

    fn get_voltage(&mut self) -> (voltage_mv: u32) {
        0
    }
}

} // verus!
