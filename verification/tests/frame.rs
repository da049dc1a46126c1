use meteor_impact::frame::classify;
use meteor_impact::frame::evaluate;
use meteor_impact::frame::uses_megatons;
use meteor_impact::frame::Assessment;
use meteor_impact::state::SimulationState;

#[test]
fn default_scenario_burns_up_high() {
    // 10 m meteor, 17 km/s, 45 degrees, 20 km burst altitude, 3000 kg/m3.
    let s = SimulationState::new();
    let r = evaluate(&s);
    assert_eq!(r.volume_milli, 523_598);
    assert_eq!(r.mass_milli, 1_570_794);
    assert_eq!(r.energy_milli, 54_249);
    assert_eq!(r.angle_factor_milli, 705);
    assert_eq!(r.altitude_factor_milli, 200);
    assert_eq!(r.effective_energy_milli, 7_658);
    assert_eq!(r.crater_diameter_milli, 0);
    assert_eq!(r.damage_radius_milli, 950_000);
    assert_eq!(r.assessment, Assessment::BurnedUpSafely);
    assert!(!r.crater_visible);
    assert!(!r.meteor_visible);
    assert_eq!(r.meteor_height_milli, 0);
}

#[test]
fn ground_burst_scenario_reaches_hiroshima_tier() {
    // Same meteor, but bursting at ground level.
    let mut s = SimulationState::new();
    s.set_altitude_milli(0);
    let r = evaluate(&s);
    assert_eq!(r.altitude_factor_milli, 1_000);
    assert_eq!(r.effective_energy_milli, 38_293);
    assert_eq!(r.crater_diameter_milli, 231);
    assert_eq!(r.damage_radius_milli, 1_650_000);
    assert_eq!(r.assessment, Assessment::HiroshimaScale);
}

#[test]
fn evaluator_is_pure() {
    let mut s = SimulationState::new();
    s.set_altitude_milli(0);
    s.trigger_impact();
    let first = evaluate(&s);
    let second = evaluate(&s);
    assert_eq!(first, second);
}

#[test]
fn classification_tiers() {
    assert_eq!(classify(10_000_001, 0), Assessment::DinosaurKiller);
    assert_eq!(classify(10_000_000, 0), Assessment::LargerThanChelyabinsk);
    assert_eq!(classify(440_001, 0), Assessment::LargerThanChelyabinsk);
    assert_eq!(classify(440_000, 0), Assessment::HiroshimaScale);
    assert_eq!(classify(15_001, 0), Assessment::HiroshimaScale);
    assert_eq!(classify(15_000, 5_001), Assessment::BurnedUpSafely);
    assert_eq!(classify(99, 0), Assessment::BurnedUpSafely);
    assert_eq!(classify(100, 0), Assessment::NoAssessment);
    assert_eq!(classify(15_000, 5_000), Assessment::NoAssessment);
}

#[test]
fn megaton_display_switch() {
    assert!(!uses_megatons(1_000_000));
    assert!(uses_megatons(1_000_001));
}

#[test]
fn animation_draws_meteor_then_crater() {
    let mut s = SimulationState::new();
    s.set_altitude_milli(0);
    s.trigger_impact();
    // At the moment of triggering the marker hangs at full height and no
    // crater shows yet (the clock has not passed altitude * 0.1 / velocity).
    let r = evaluate(&s);
    assert!(r.meteor_visible);
    assert_eq!(r.meteor_height_milli, 1_000);
    assert!(!r.crater_visible);
    // One frame later the marker has fallen and the ground-level crater shows.
    let _ = s.advance_frame();
    let r = evaluate(&s);
    assert!(r.meteor_visible);
    assert_eq!(r.meteor_height_milli, 998);
    assert!(r.crater_visible);
}

#[test]
fn meteor_marker_lands_and_disappears() {
    let mut s = SimulationState::new();
    s.trigger_impact();
    for _ in 0..400 {
        let repaint = s.advance_frame();
        assert!(repaint);
    }
    // 6.4 s * 17 km/s * 0.1 is past the 10-unit starting height.
    assert_eq!(s.animation_time_ms, 6_400);
    let r = evaluate(&s);
    assert!(!r.meteor_visible);
    assert_eq!(r.meteor_height_milli, 0);
    // The animation never clears itself; only reset does.
    assert!(s.show_impact);
}

#[test]
fn high_airburst_never_shows_crater() {
    let mut s = SimulationState::new();
    s.trigger_impact();
    for _ in 0..10_000 {
        let _ = s.advance_frame();
    }
    let r = evaluate(&s);
    assert_eq!(r.crater_diameter_milli, 0);
    assert!(!r.crater_visible);
}
