//! The event camera: a sensor whose draw ripples with the time since it was
//! switched on.

use crate::clock::micros_since;
use crate::component::Component;
use crate::cosine::{cos_micro, cosine_micro, lemma_cos_micro_at_zero, lemma_cos_micro_bounds, MICRO};
use crate::jitter::{is_jitter, sample_jitter};
use crate::units::{current_from, current_of};
use std::time::Instant;
use vstd::prelude::*;

verus! {

/// Amplitude of the ripple, in microwatts.
pub const RIPPLE_AMPLITUDE_UW: u64 = 600_000;

/// What the camera draws whatever the ripple, before losses, in microwatts.
pub const BASELINE_POWER_UW: u64 = 300_000;

/// Nanoradians that the ripple's phase advances in one microsecond: one
/// radian in five seconds.
pub const NRAD_PER_MICROSECOND: u128 = 200;

/// Microseconds in one second.
pub const MICROS_PER_SECOND: i128 = 1_000_000;

/// Phase of the ripple in nanoradians, `elapsed_us` microseconds after the
/// camera was switched on, with the time shifted by `jitter_s` seconds. A
/// shift to before the start counts by its distance from the start.
pub open spec fn ripple_angle(elapsed_us: nat, jitter_s: int) -> nat {
    let shifted = elapsed_us + jitter_s * MICROS_PER_SECOND;
    ((if shifted < 0 {
        -shifted
    } else {
        shifted
    }) * NRAD_PER_MICROSECOND) as nat
}

/// The rippling part of the draw, in microwatts: the amplitude times one
/// plus the cosine of the phase, rounded down.
pub open spec fn ripple(elapsed_us: nat, jitter_s: int) -> int {
    RIPPLE_AMPLITUDE_UW * (cos_micro(ripple_angle(elapsed_us, jitter_s)) + MICRO) / (MICRO as int)
}

/// The ripple lies between nothing and twice the amplitude, at every time
/// and with every jitter.
pub proof fn lemma_ripple_range(elapsed_us: nat, jitter_s: int)
    ensures
        0 <= ripple(elapsed_us, jitter_s) <= 2 * RIPPLE_AMPLITUDE_UW,
{
    lemma_cos_micro_bounds(ripple_angle(elapsed_us, jitter_s));
}

/// At the moment the camera is switched on, without jitter, the ripple is
/// at its crest: twice the amplitude.
pub proof fn lemma_ripple_at_start()
    ensures
        ripple(0, 0) == 2 * RIPPLE_AMPLITUDE_UW,
{
    lemma_cos_micro_at_zero();
    assert(ripple_angle(0, 0) == 0);
}

/// Jitter moves the time at which the ripple is sampled and nothing else.
pub proof fn lemma_jitter_shifts_time(elapsed_us: nat, jitter_s: int)
    requires
        elapsed_us + jitter_s * MICROS_PER_SECOND >= 0,
    ensures
        ripple(elapsed_us, jitter_s) == ripple(
            (elapsed_us + jitter_s * MICROS_PER_SECOND) as nat,
            0,
        ),
{
}

/// The event camera.
pub struct EventCamera {
    component_name: String,
    rail_voltage_mv: u32,
    power_loss_uw: u32,
    last_update: Instant,
}

/// What an event camera is to its contracts. The instant it was switched on
/// is not part of it: every draw is stated for a given elapsed time.
pub struct EventCameraView {
    pub name: Seq<char>,
    pub rail_voltage_mv: u32,
    pub power_loss_uw: u32,
}

impl EventCameraView {
    /// The rail is live.
    pub open spec fn wf(self) -> bool {
        self.rail_voltage_mv > 0
    }

    /// Power drawn, in microwatts: the ripple, the loss and the baseline.
    pub open spec fn power(self, elapsed_us: nat, jitter_s: int) -> int {
        ripple(elapsed_us, jitter_s) + self.power_loss_uw + BASELINE_POWER_UW
    }

    /// Current drawn, in microamperes.
    pub open spec fn current(self, elapsed_us: nat, jitter_s: int) -> int {
        current_of(self.power(elapsed_us, jitter_s), self.rail_voltage_mv as int)
    }

    /// The camera as it is built: a 5 V rail and 0.09 W of loss.
    pub open spec fn initial() -> EventCameraView {
        EventCameraView { name: "Event Camera"@, rail_voltage_mv: 5_000, power_loss_uw: 90_000 }
    }

    /// The draw stays within the ripple's swing above the loss and the
    /// baseline, at every time and with every jitter.
    pub proof fn lemma_power_range(self, elapsed_us: nat, jitter_s: int)
        ensures
            self.power_loss_uw + BASELINE_POWER_UW <= self.power(elapsed_us, jitter_s)
                <= self.power_loss_uw + BASELINE_POWER_UW + 2 * RIPPLE_AMPLITUDE_UW,
    {
        lemma_ripple_range(elapsed_us, jitter_s);
    }

    /// The camera as built draws between 0.39 W and 1.59 W at every time and
    /// with every jitter, and 1.59 W at the moment it is switched on: the
    /// ripple's crest of 1.2 W above 0.39 W of loss and baseline.
    pub proof fn lemma_initial_power(elapsed_us: nat, jitter_s: int)
        ensures
            Self::initial().wf(),
            390_000 <= Self::initial().power(elapsed_us, jitter_s) <= 1_590_000,
            ripple(0, 0) == 1_200_000,
            Self::initial().power(0, 0) == 1_590_000,
    {
        lemma_ripple_range(elapsed_us, jitter_s);
        lemma_ripple_at_start();
    }
}

impl View for EventCamera {
    type V = EventCameraView;

    closed spec fn view(&self) -> EventCameraView {
        EventCameraView {
            name: self.component_name@,
            rail_voltage_mv: self.rail_voltage_mv,
            power_loss_uw: self.power_loss_uw,
        }
    }
}

impl EventCamera {
    #[verifier::type_invariant]
    spec fn inv(&self) -> bool {
        self@.wf()
    }

    /// An event camera that is switched on now.
    pub fn new() -> (camera: EventCamera)
        ensures
            camera@ == EventCameraView::initial(),
    {
        EventCamera {
            component_name: "Event Camera".to_owned(),
            rail_voltage_mv: 5_000,
            power_loss_uw: 90_000,
            last_update: Instant::now(),
        }
    }

    /// Power drawn `elapsed_us` microseconds after the camera was switched
    /// on, with the time shifted by `jitter_s` seconds, in microwatts.
    pub fn power_draw_at(&self, elapsed_us: u64, jitter_s: i32) -> (draw_uw: u64)
        ensures
            draw_uw == self@.power(elapsed_us as nat, jitter_s as int),
    {
        let shifted: i128 = elapsed_us as i128 + jitter_s as i128 * MICROS_PER_SECOND;
        let distance: u128 = if shifted < 0 {
            (-shifted) as u128
        } else {
            shifted as u128
        };
        let cosine: i32 = cosine_micro(distance * NRAD_PER_MICROSECOND);
        let ripple_uw: u64 = RIPPLE_AMPLITUDE_UW * ((cosine + MICRO) as u64) / (MICRO as u64);
        ripple_uw + self.power_loss_uw as u64 + BASELINE_POWER_UW
    }

    /// Current drawn `elapsed_us` microseconds after the camera was switched
    /// on, with the time shifted by `jitter_s` seconds, in microamperes.
    pub fn current_at(&self, elapsed_us: u64, jitter_s: i32) -> (current_ua: u64)
        ensures
            current_ua == self@.current(elapsed_us as nat, jitter_s as int),
    {
        proof {
            use_type_invariant(self);
            self@.lemma_power_range(elapsed_us as nat, jitter_s as int);
        }
        current_from(self.power_draw_at(elapsed_us, jitter_s), self.rail_voltage_mv)
    }
}

impl Component for EventCamera {
    open spec fn name_model(&self) -> Seq<char> {
        self@.name
    }

    open spec fn well_formed(&self) -> bool {
        self@.wf()
    }

    open spec fn power_model(&self, elapsed_us: nat, jitter_s: int) -> int {
        self@.power(elapsed_us, jitter_s)
    }

    open spec fn current_model(&self, elapsed_us: nat, jitter_s: int) -> int {
        self@.current(elapsed_us, jitter_s)
    }

    open spec fn voltage_model(&self) -> int {
        self@.rail_voltage_mv as int
    }

    proof fn lemma_power_nonnegative(&self, elapsed_us: nat, jitter_s: int) {
        self@.lemma_power_range(elapsed_us, jitter_s);
    }

    proof fn lemma_current_is_power_over_voltage(&self, elapsed_us: nat, jitter_s: int) {
    }

    fn get_name(&self) -> (name: &String) {
        &self.component_name
    }

    fn get_power_draw(&mut self) -> (draw_uw: u64)
        ensures
            old(self)@.power_loss_uw + BASELINE_POWER_UW <= draw_uw <= old(self)@.power_loss_uw
                + BASELINE_POWER_UW + 2 * RIPPLE_AMPLITUDE_UW,
    {
        let elapsed_us: u64 = micros_since(&self.last_update);
        let jitter_s: i32 = sample_jitter();
        let draw_uw: u64 = self.power_draw_at(elapsed_us, jitter_s);
        proof {
            self@.lemma_power_range(elapsed_us as nat, jitter_s as int);
            assert(draw_uw == self.power_model(elapsed_us as nat, jitter_s as int));
        }
        draw_uw
    }

    fn get_current(&mut self) -> (current_ua: u64) {
        let elapsed_us: u64 = micros_since(&self.last_update);
        let jitter_s: i32 = sample_jitter();
        let current_ua: u64 = self.current_at(elapsed_us, jitter_s);
        proof {
            assert(current_ua == self.current_model(elapsed_us as nat, jitter_s as int));
        }
        current_ua
    }

    fn get_voltage(&mut self) -> (voltage_mv: u32) {
        self.rail_voltage_mv
    }
}

} // verus!
