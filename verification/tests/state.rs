use meteor_impact::state::SimulationState;

#[test]
fn new_state_has_documented_defaults() {
    let s = SimulationState::new();
    assert_eq!(s.diameter_milli, 10_000);
    assert_eq!(s.velocity_milli, 17_000);
    assert_eq!(s.angle_milli, 45_000);
    assert_eq!(s.altitude_milli, 20_000);
    assert_eq!(s.density_milli, 3_000_000);
    assert_eq!(s.impact_x_milli, 0);
    assert_eq!(s.impact_z_milli, 0);
    assert!(!s.show_impact);
    assert_eq!(s.animation_time_ms, 0);
}

#[test]
fn setters_clamp_to_slider_ranges() {
    let mut s = SimulationState::new();
    s.set_diameter_milli(0);
    assert_eq!(s.diameter_milli, 1_000);
    s.set_diameter_milli(2_000_000);
    assert_eq!(s.diameter_milli, 1_000_000);
    s.set_diameter_milli(5_500);
    assert_eq!(s.diameter_milli, 5_500);
    s.set_velocity_milli(1);
    assert_eq!(s.velocity_milli, 11_000);
    s.set_velocity_milli(99_000);
    assert_eq!(s.velocity_milli, 72_000);
    s.set_angle_milli(0);
    assert_eq!(s.angle_milli, 5_000);
    s.set_angle_milli(180_000);
    assert_eq!(s.angle_milli, 90_000);
    s.set_altitude_milli(300_000);
    assert_eq!(s.altitude_milli, 100_000);
    s.set_impact_x_milli(-9_000);
    assert_eq!(s.impact_x_milli, -5_000);
    s.set_impact_z_milli(9_000);
    assert_eq!(s.impact_z_milli, 5_000);
}

#[test]
fn setters_leave_other_fields_alone() {
    let mut s = SimulationState::new();
    s.trigger_impact();
    s.set_altitude_milli(0);
    assert!(s.show_impact);
    assert_eq!(s.animation_time_ms, 0);
    assert_eq!(s.diameter_milli, 10_000);
}

#[test]
fn reset_clears_flag_and_clock_from_any_state() {
    let mut s = SimulationState::new();
    s.trigger_impact();
    let _ = s.advance_frame();
    let _ = s.advance_frame();
    assert!(s.show_impact);
    assert!(s.animation_time_ms > 0);
    s.reset();
    assert!(!s.show_impact);
    assert_eq!(s.animation_time_ms, 0);
    // Resetting an already-idle state is harmless.
    s.reset();
    assert!(!s.show_impact);
    assert_eq!(s.animation_time_ms, 0);
}

#[test]
fn trigger_restarts_even_while_running() {
    let mut s = SimulationState::new();
    s.trigger_impact();
    let _ = s.advance_frame();
    assert_eq!(s.animation_time_ms, 16);
    s.trigger_impact();
    assert!(s.show_impact);
    assert_eq!(s.animation_time_ms, 0);
}

#[test]
fn advance_frame_only_moves_while_active() {
    let mut s = SimulationState::new();
    assert!(!s.advance_frame());
    assert_eq!(s.animation_time_ms, 0);
    s.trigger_impact();
    assert!(s.advance_frame());
    assert_eq!(s.animation_time_ms, 16);
    assert!(s.advance_frame());
    assert_eq!(s.animation_time_ms, 32);
}
