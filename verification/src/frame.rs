//! The frame evaluator: from a simulation state to everything a frame shows.

use vstd::prelude::*;
use crate::physics;
use crate::state::SimulationState;

verus! {

/// Effective energy in milli-kilotons above which the impact is classed as a
/// species-ending event.
pub const DINOSAUR_KILLER_MILLI_KT: u64 = 10_000_000;

/// Effective energy in milli-kilotons above which the impact outgrows the
/// Chelyabinsk meteor.
pub const CHELYABINSK_MILLI_KT: u64 = 440_000;

/// Effective energy in milli-kilotons above which the impact compares to the
/// Hiroshima bomb.
pub const HIROSHIMA_MILLI_KT: u64 = 15_000;

/// Effective energy in milli-kilotons below which the meteor is deemed to
/// have burnt up harmlessly.
pub const HARMLESS_MILLI_KT: u64 = 100;

/// Burst altitude in milli-kilometers above which the meteor never reaches
/// the ground.
pub const AIRBURST_ALTITUDE_MILLI: u64 = 5_000;

/// Energy in milli-kilotons above which the results panel switches from
/// kilotons to megatons.
pub const MEGATON_DISPLAY_MILLI_KT: u64 = 1_000_000;

/// The one assessment line a frame shows, or none.
#[derive(Clone, Copy, PartialEq, Eq, Debug)]
pub enum Assessment {
    /// Larger than the Chicxulub impact.
    DinosaurKiller,
    /// Larger than the Chelyabinsk meteor.
    LargerThanChelyabinsk,
    /// Comparable to the Hiroshima bomb.
    HiroshimaScale,
    /// Burnt up before reaching the ground; people are safe.
    BurnedUpSafely,
    /// None of the tiers applies: no line is shown.
    NoAssessment,
}

/// Which assessment an effective energy `eff` (milli-kilotons) and a burst
/// altitude `alt` (milli-kilometers) earn; the first matching tier wins.
pub open spec fn classify_spec(eff: int, alt: int) -> Assessment {
    if eff > DINOSAUR_KILLER_MILLI_KT {
        Assessment::DinosaurKiller
    } else if eff > CHELYABINSK_MILLI_KT {
        Assessment::LargerThanChelyabinsk
    } else if eff > HIROSHIMA_MILLI_KT {
        Assessment::HiroshimaScale
    } else if alt > AIRBURST_ALTITUDE_MILLI || eff < HARMLESS_MILLI_KT {
        Assessment::BurnedUpSafely
    } else {
        Assessment::NoAssessment
    }
}

/// Executable assessment.
pub fn classify(eff: u64, alt: u64) -> (r: Assessment)
    ensures
        r == classify_spec(eff as int, alt as int),
{
    if eff > DINOSAUR_KILLER_MILLI_KT {
        Assessment::DinosaurKiller
    } else if eff > CHELYABINSK_MILLI_KT {
        Assessment::LargerThanChelyabinsk
    } else if eff > HIROSHIMA_MILLI_KT {
        Assessment::HiroshimaScale
    } else if alt > AIRBURST_ALTITUDE_MILLI || eff < HARMLESS_MILLI_KT {
        Assessment::BurnedUpSafely
    } else {
        Assessment::NoAssessment
    }
}

/// Whether the results panel writes this energy (milli-kilotons) in megatons
/// rather than kilotons.
pub fn uses_megatons(e: u64) -> (r: bool)
    ensures
        r == (e > MEGATON_DISPLAY_MILLI_KT),
{
    e > MEGATON_DISPLAY_MILLI_KT
}

/// Whether the falling-meteor marker is still on screen: its height fraction
/// `(10 - t * v / 10) / 10` (seconds times kilometers-per-second) is positive
/// exactly while `t * v < 100`, here over milliseconds and milli-units.
pub open spec fn meteor_visible_spec(show: bool, t: int, v: int) -> bool {
    show && t * v < 100_000_000
}

/// The marker's height above the impact point as a milli-fraction of the
/// viewport radius: 1000 at the moment of triggering, 0 once it has landed.
pub open spec fn meteor_height_milli_spec(show: bool, t: int, v: int) -> int {
    if show && t * v < 100_000_000 {
        1_000 - (t * v) / 100_000
    } else {
        0
    }
}

/// Whether the meteor has had time to fall: the crater appears once the
/// clock passes `altitude * 0.1 / velocity` seconds, which over milliseconds
/// and milli-units is `t * v > 100 * alt`.
pub open spec fn crater_ready_spec(show: bool, t: int, v: int, alt: int) -> bool {
    show && t * v > 100 * alt
}

/// Everything one rendered frame derives from the state: the physical
/// quantities for the results panel, the assessment line, and the animation
/// geometry for the preview panel.
#[derive(Clone, Copy, PartialEq, Eq, Debug)]
pub struct DerivedQuantities {
    /// Meteor volume in milli-cubic-meters.
    pub volume_milli: u64,
    /// Meteor mass in milli-tons.
    pub mass_milli: u64,
    /// Raw impact energy in milli-kilotons of TNT.
    pub energy_milli: u64,
    /// Entry-angle attenuation in milli-units.
    pub angle_factor_milli: u64,
    /// Burst-altitude attenuation in milli-units.
    pub altitude_factor_milli: u64,
    /// Attenuated energy in milli-kilotons of TNT.
    pub effective_energy_milli: u64,
    /// Crater diameter in milli-kilometers; 0 for an airburst.
    pub crater_diameter_milli: u64,
    /// Damage radius in milli-meters.
    pub damage_radius_milli: u64,
    /// The assessment line to show, if any.
    pub assessment: Assessment,
    /// Whether the crater disc is drawn this frame.
    pub crater_visible: bool,
    /// Whether the falling-meteor marker is drawn this frame.
    pub meteor_visible: bool,
    /// Marker height as a milli-fraction of the viewport radius.
    pub meteor_height_milli: u64,
}

/// The quantities a frame derives from the state `s`: the evaluator is a
/// function of the state and of nothing else.
pub open spec fn evaluate_spec(s: SimulationState) -> DerivedQuantities {
    let d = s.diameter_milli as int;
    let rho = s.density_milli as int;
    let v = s.velocity_milli as int;
    let a = s.angle_milli as int;
    let alt = s.altitude_milli as int;
    let t = s.animation_time_ms as int;
    let e = physics::energy_milli(d, rho, v);
    let eff = physics::effective_energy_milli(e, a, alt);
    DerivedQuantities {
        volume_milli: physics::volume_milli(d) as u64,
        mass_milli: physics::mass_milli(d, rho) as u64,
        energy_milli: e as u64,
        angle_factor_milli: physics::angle_factor_milli(a) as u64,
        altitude_factor_milli: physics::altitude_factor_milli(alt) as u64,
        effective_energy_milli: eff as u64,
        crater_diameter_milli: physics::crater_diameter_milli(eff, alt) as u64,
        damage_radius_milli: physics::damage_radius_milli(eff) as u64,
        assessment: classify_spec(eff, alt),
        crater_visible: crater_ready_spec(s.show_impact, t, v, alt)
            && physics::crater_diameter_milli(eff, alt) > 0,
        meteor_visible: meteor_visible_spec(s.show_impact, t, v),
        meteor_height_milli: meteor_height_milli_spec(s.show_impact, t, v) as u64,
    }
}

/// Executable frame evaluator.
pub fn evaluate(s: &SimulationState) -> (r: DerivedQuantities)
    requires
        s.wf(),
    ensures
        r == evaluate_spec(*s),
{
    let volume: u64 = physics::volume_milli_of(s.diameter_milli);
    let mass: u64 = physics::mass_milli_of(s.diameter_milli, s.density_milli);
    let energy: u64 = physics::energy_milli_of(
        s.diameter_milli,
        s.density_milli,
        s.velocity_milli,
    );
    let angle_factor: u64 = physics::angle_factor_milli_of(s.angle_milli);
    let altitude_factor: u64 = physics::altitude_factor_milli_of(s.altitude_milli);
    let effective: u64 = physics::effective_energy_milli_of(
        energy,
        s.angle_milli,
        s.altitude_milli,
    );
    let crater: u64 = physics::crater_diameter_milli_of(effective, s.altitude_milli);
    let damage: u64 = physics::damage_radius_milli_of(effective);
    let assessment: Assessment = classify(effective, s.altitude_milli);
    proof {
        assert(s.animation_time_ms * s.velocity_milli
            <= 0xffff_ffff_ffff_ffff * 72_000int) by (nonlinear_arith)
            requires
                0 <= s.animation_time_ms <= 0xffff_ffff_ffff_ffff,
                0 <= s.velocity_milli <= 72_000,
        ;
    }
    let clock_speed: u128 = (s.animation_time_ms as u128) * (s.velocity_milli as u128);
    let crater_visible: bool = s.show_impact && clock_speed > 100 * (s.altitude_milli as u128)
        && crater > 0;
    let meteor_visible: bool = s.show_impact && clock_speed < 100_000_000;
    let meteor_height: u64 = if meteor_visible {
        1_000 - (clock_speed / 100_000) as u64
    } else {
        0
    };
    DerivedQuantities {
        volume_milli: volume,
        mass_milli: mass,
        energy_milli: energy,
        angle_factor_milli: angle_factor,
        altitude_factor_milli: altitude_factor,
        effective_energy_milli: effective,
        crater_diameter_milli: crater,
        damage_radius_milli: damage,
        assessment,
        crater_visible,
        meteor_visible,
        meteor_height_milli: meteor_height,
    }
}

/// Evaluating an unmodified state twice yields identical derived quantities:
/// the evaluator is a pure function of the state, with no hidden input.
pub proof fn lemma_evaluate_deterministic(
    s: SimulationState,
    r1: DerivedQuantities,
    r2: DerivedQuantities,
)
    requires
        r1 == evaluate_spec(s),
        r2 == evaluate_spec(s),
    ensures
        r1 == r2,
{
}

} // verus!
