//! The power supply: one of each subsystem, and the load that they put on
//! the bus together.

use crate::camera::{EventCamera, EventCameraView};
use crate::communication::{Communication, CommunicationView};
use crate::component::Component;
use crate::computer::{FlightComputer, FlightComputerView};
use crate::heaters::{Heaters, HeatersView};
use crate::jitter::is_jitter;
use crate::navigation::{Navigation, NavigationView};
use vstd::prelude::*;

verus! {

/// What the bus itself takes, whatever the subsystems do, in microwatts.
pub const BUS_OVERHEAD_UW: u64 = 636_000;

/// The power supply and the subsystems that it feeds.
pub struct PowerSupply {
    camera: EventCamera,
    flight_computer: FlightComputer,
    heater_components: Heaters,
    communication_computer: Communication,
    navigation_computer: Navigation,
}

/// What a power supply is to its contracts: its five subsystems.
pub struct PowerSupplyView {
    pub camera: EventCameraView,
    pub flight_computer: FlightComputerView,
    pub heaters: HeatersView,
    pub communication: CommunicationView,
    pub navigation: NavigationView,
}

impl PowerSupplyView {
    /// Every subsystem is well formed.
    pub open spec fn wf(self) -> bool {
        &&& self.camera.wf()
        &&& self.flight_computer.wf()
        &&& self.heaters.wf()
        &&& self.communication.wf()
        &&& self.navigation.wf()
    }

    /// Load on the bus, in microwatts, with the camera `camera_elapsed_us`
    /// and the flight computer `computer_elapsed_us` microseconds after they
    /// were switched on, and the camera's time shifted by `jitter_s`
    /// seconds.
    ///
    /// It is the bus overhead and the draw of the camera, the flight
    /// computer, the heaters and the radios, and of navigation the draw of
    /// the maneuvering unit alone: the GPS receiver is not metered here.
    pub open spec fn total_power(
        self,
        camera_elapsed_us: nat,
        jitter_s: int,
        computer_elapsed_us: nat,
    ) -> int {
        BUS_OVERHEAD_UW + self.camera.power(camera_elapsed_us, jitter_s)
            + self.flight_computer.power(computer_elapsed_us) + self.heaters.power()
            + self.communication.power() + self.navigation.maneuvering_power()
    }

    /// The supply as it is built, with every subsystem as it is built.
    pub open spec fn initial() -> PowerSupplyView {
        PowerSupplyView {
            camera: EventCameraView::initial(),
            flight_computer: FlightComputerView::initial(),
            heaters: HeatersView::initial(),
            communication: CommunicationView::initial(),
            navigation: NavigationView::initial(),
        }
    }

    /// The load is never below the bus overhead.
    pub proof fn lemma_total_power_at_least_overhead(
        self,
        camera_elapsed_us: nat,
        jitter_s: int,
        computer_elapsed_us: nat,
    )
        requires
            self.wf(),
        ensures
            self.total_power(camera_elapsed_us, jitter_s, computer_elapsed_us) >= BUS_OVERHEAD_UW,
    {
        self.camera.lemma_power_range(camera_elapsed_us, jitter_s);
    }

    /// The GPS receiver does not show in the load: with it on or off the
    /// total is the same.
    pub proof fn lemma_gps_not_metered(
        self,
        gps_state: bool,
        camera_elapsed_us: nat,
        jitter_s: int,
        computer_elapsed_us: nat,
    )
        ensures
            (PowerSupplyView {
                navigation: NavigationView { gps_state, ..self.navigation },
                ..self
            }).total_power(camera_elapsed_us, jitter_s, computer_elapsed_us) == self.total_power(
                camera_elapsed_us,
                jitter_s,
                computer_elapsed_us,
            ),
    {
    }

    /// Once the flight computer has booted, the load changes with the
    /// camera's ripple alone: at two times with the ripple at the same
    /// height the load is the same.
    pub proof fn lemma_total_power_follows_ripple(
        self,
        first_us: nat,
        first_jitter_s: int,
        second_us: nat,
        second_jitter_s: int,
    )
        requires
            !self.flight_computer.is_booting(first_us),
            !self.flight_computer.is_booting(second_us),
            self.camera.power(first_us, first_jitter_s) == self.camera.power(
                second_us,
                second_jitter_s,
            ),
        ensures
            self.total_power(first_us, first_jitter_s, first_us) == self.total_power(
                second_us,
                second_jitter_s,
                second_us,
            ),
    {
    }

    /// The supply as built loads the bus with 5.8217 W at the moment it is
    /// switched on: 0.636 W of overhead, 1.59 W for the camera, 1.855 W for
    /// the flight computer, nothing for the heaters, 0.382 W for the radios
    /// and 1.3587 W for the maneuvering unit.
    pub proof fn lemma_initial_total_power()
        ensures
            Self::initial().wf(),
            Self::initial().total_power(0, 0, 0) == 5_821_700,
    {
        EventCameraView::lemma_initial_power(0, 0);
    }
}

impl View for PowerSupply {
    type V = PowerSupplyView;

    closed spec fn view(&self) -> PowerSupplyView {
        PowerSupplyView {
            camera: self.camera@,
            flight_computer: self.flight_computer@,
            heaters: self.heater_components@,
            communication: self.communication_computer@,
            navigation: self.navigation_computer@,
        }
    }
}

impl PowerSupply {
    /// A power supply with every subsystem as it is built, switched on now.
    pub fn new() -> (supply: PowerSupply)
        ensures
            supply@ == PowerSupplyView::initial(),
    {
        PowerSupply {
            camera: EventCamera::new(),
            flight_computer: FlightComputer::new(),
            heater_components: Heaters::new(),
            communication_computer: Communication::new(),
            navigation_computer: Navigation::new(),
        }
    }

    /// Load on the bus now, in microwatts. The supply is left as it was.
    ///
    /// The camera and the flight computer each read the clock, and the
    /// camera draws a jitter: the load is the total for some such reading.
    pub fn get_power_draw(&mut self) -> (draw_uw: u64)
        ensures
            *final(self) == *old(self),
            draw_uw >= BUS_OVERHEAD_UW,
            exists|camera_elapsed_us: nat, jitter_s: int, computer_elapsed_us: nat|
                is_jitter(jitter_s) && draw_uw == #[trigger] old(self)@.total_power(
                    camera_elapsed_us,
                    jitter_s,
                    computer_elapsed_us,
                ),
    {
        let camera_uw: u64 = self.camera.get_power_draw();
        let computer_uw: u64 = self.flight_computer.get_power_draw();
        let heaters_uw: u64 = self.heater_components.get_power_draw();
        let radios_uw: u64 = self.communication_computer.get_power_draw();
        let maneuvering_uw: u64 = self.navigation_computer.get_maneuvering_power();
        proof {
            let (camera_elapsed_us, jitter_s) = choose|elapsed_us: nat, jitter_s: int|
                is_jitter(jitter_s) && camera_uw == #[trigger] self.camera.power_model(
                    elapsed_us,
                    jitter_s,
                );
            let computer_elapsed_us = choose|elapsed_us: nat|
                computer_uw == #[trigger] self.flight_computer@.power(elapsed_us);
            assert(BUS_OVERHEAD_UW + camera_uw + computer_uw + heaters_uw + radios_uw
                + maneuvering_uw == self@.total_power(
                camera_elapsed_us,
                jitter_s,
                computer_elapsed_us,
            ));
        }
        BUS_OVERHEAD_UW + camera_uw + computer_uw + heaters_uw + radios_uw + maneuvering_uw
    }

    /// Load on the bus `elapsed_us` microseconds after the supply was
    /// switched on, with the camera's time shifted by `jitter_s` seconds, in
    /// microwatts.
    pub fn power_draw_at(&mut self, elapsed_us: u64, jitter_s: i32) -> (draw_uw: u64)
        ensures
            *final(self) == *old(self),
            draw_uw == old(self)@.total_power(
                elapsed_us as nat,
                jitter_s as int,
                elapsed_us as nat,
            ),
    {
        let camera_uw: u64 = self.camera.power_draw_at(elapsed_us, jitter_s);
        let computer_uw: u64 = self.flight_computer.power_draw_at(elapsed_us);
        let heaters_uw: u64 = self.heater_components.get_power_draw();
        let radios_uw: u64 = self.communication_computer.get_power_draw();
        let maneuvering_uw: u64 = self.navigation_computer.get_maneuvering_power();
        proof {
            self@.camera.lemma_power_range(elapsed_us as nat, jitter_s as int);
        }
        BUS_OVERHEAD_UW + camera_uw + computer_uw + heaters_uw + radios_uw + maneuvering_uw
    }

    /// Switches the first heater on (`true`) or off.
    pub fn set_heater_1(&mut self, state: bool)
        ensures
            final(self)@ == (PowerSupplyView {
                heaters: HeatersView { heater_1_on: state, ..old(self)@.heaters },
                ..old(self)@
            }),
    {
        self.heater_components.on_heater_1(state);
    }

    /// Switches the second heater on (`true`) or off.
    pub fn set_heater_2(&mut self, state: bool)
        ensures
            final(self)@ == (PowerSupplyView {
                heaters: HeatersView { heater_2_on: state, ..old(self)@.heaters },
                ..old(self)@
            }),
    {
        self.heater_components.on_heater_2(state);
    }

    /// Sets the S band to transmit (`true`) or to standby.
    pub fn set_s_band_transmit(&mut self, state: bool)
        ensures
            final(self)@ == (PowerSupplyView {
                communication: CommunicationView { s_state: state, ..old(self)@.communication },
                ..old(self)@
            }),
    {
        self.communication_computer.enable_s_band(state);
    }

    /// Sets the UHF band to transmit (`true`) or to standby.
    pub fn set_uhf_transmit(&mut self, state: bool)
        ensures
            final(self)@ == (PowerSupplyView {
                communication: CommunicationView { uhf_state: state, ..old(self)@.communication },
                ..old(self)@
            }),
    {
        self.communication_computer.enable_uhf_band(state);
    }

    /// Switches the GPS receiver on (`true`) or off.
    pub fn set_gps(&mut self, state: bool)
        ensures
            final(self)@ == (PowerSupplyView {
                navigation: NavigationView { gps_state: state, ..old(self)@.navigation },
                ..old(self)@
            }),
    {
        self.navigation_computer.enable_gps(state);
    }

    /// Sets the maneuvering unit to active (`true`) or to passive.
    pub fn set_maneuvering(&mut self, state: bool)
        ensures
            final(self)@ == (PowerSupplyView {
                navigation: NavigationView { maneuvering_state: state, ..old(self)@.navigation },
                ..old(self)@
            }),
    {
        self.navigation_computer.enable_maneuvering(state);
    }

    /// Powers both of the flight computer's peripherals (`true`) or neither.
    pub fn set_peripherals(&mut self, state: bool)
        ensures
            final(self)@ == (PowerSupplyView {
                flight_computer: FlightComputerView {
                    bbb_connected: state,
                    ethernet_enabled: state,
                    ..old(self)@.flight_computer
                },
                ..old(self)@
            }),
    {
        self.flight_computer.enable_components(state);
    }
}

} // verus!
