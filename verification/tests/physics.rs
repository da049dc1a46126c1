use meteor_impact::physics::altitude_factor_milli_of;
use meteor_impact::physics::angle_factor_milli_of;
use meteor_impact::physics::cbrt_floor_of;
use meteor_impact::physics::crater_diameter_milli_of;
use meteor_impact::physics::damage_radius_milli_of;
use meteor_impact::physics::effective_energy_milli_of;
use meteor_impact::physics::energy_milli_of;
use meteor_impact::physics::mass_milli_of;
use meteor_impact::physics::volume_milli_of;

#[test]
fn volume_of_ten_meter_meteor() {
    // (4/3) * pi * 5^3 = 523.598... cubic meters.
    assert_eq!(volume_milli_of(10_000), 523_598);
}

#[test]
fn mass_of_default_meteor() {
    // 523.598 m3 * 3000 kg/m3 / 1000 = 1570.794 tons.
    assert_eq!(mass_milli_of(10_000, 3_000_000), 1_570_794);
}

#[test]
fn energy_of_default_meteor() {
    // 0.5 * 1570.794 t * 1000 * 17^2 * 10^6 J = 54.249 kilotons.
    assert_eq!(energy_milli_of(10_000, 3_000_000, 17_000), 54_249);
}

#[test]
fn mass_grows_with_diameter_and_density() {
    let base = mass_milli_of(10_000, 3_000_000);
    assert!(mass_milli_of(20_000, 3_000_000) > base);
    assert!(mass_milli_of(10_000, 6_000_000) > base);
}

#[test]
fn energy_grows_with_velocity_and_diameter() {
    let slow = energy_milli_of(10_000, 3_000_000, 11_000);
    let fast = energy_milli_of(10_000, 3_000_000, 72_000);
    assert!(slow < fast);
    let base = energy_milli_of(10_000, 3_000_000, 17_000);
    let wider = energy_milli_of(20_000, 3_000_000, 17_000);
    assert!(base < wider);
}

#[test]
fn angle_factor_values() {
    // The rational sine is exact at 30 and 90 degrees.
    assert_eq!(angle_factor_milli_of(90_000), 1_000);
    assert_eq!(angle_factor_milli_of(30_000), 500);
    assert_eq!(angle_factor_milli_of(45_000), 705);
    assert_eq!(angle_factor_milli_of(5_000), 88);
}

#[test]
fn angle_factor_is_one_only_at_vertical() {
    assert_eq!(angle_factor_milli_of(89_999), 999);
    for a in [5_000u64, 20_000, 45_000, 60_000, 89_000] {
        assert!(angle_factor_milli_of(a) < 1_000);
        assert!(angle_factor_milli_of(a) >= 1);
    }
}

#[test]
fn altitude_factor_values() {
    assert_eq!(altitude_factor_milli_of(0), 1_000);
    assert_eq!(altitude_factor_milli_of(20_000), 200);
    assert_eq!(altitude_factor_milli_of(100_000), 47);
}

#[test]
fn altitude_factor_below_one_above_ground() {
    assert_eq!(altitude_factor_milli_of(1), 999);
    let mut previous = altitude_factor_milli_of(0);
    for alt in [1u64, 10, 100, 1_000, 10_000, 50_000, 100_000] {
        let factor = altitude_factor_milli_of(alt);
        assert!(factor < 1_000);
        assert!(factor >= 1);
        assert!(factor <= previous);
        previous = factor;
    }
}

#[test]
fn effective_energy_of_default_meteor() {
    let energy = energy_milli_of(10_000, 3_000_000, 17_000);
    assert_eq!(effective_energy_milli_of(energy, 45_000, 20_000), 7_658);
    assert_eq!(effective_energy_milli_of(energy, 45_000, 0), 38_293);
}

#[test]
fn effective_energy_never_exceeds_raw() {
    for (a, alt) in [(5_000u64, 0u64), (45_000, 20_000), (90_000, 0), (90_000, 100_000)] {
        assert!(effective_energy_milli_of(54_249, a, alt) <= 54_249);
    }
    assert_eq!(effective_energy_milli_of(54_249, 90_000, 0), 54_249);
}

#[test]
fn cube_root_values() {
    assert_eq!(cbrt_floor_of(0), 0);
    assert_eq!(cbrt_floor_of(1), 1);
    assert_eq!(cbrt_floor_of(7), 1);
    assert_eq!(cbrt_floor_of(8), 2);
    assert_eq!(cbrt_floor_of(38_293), 33);
    assert_eq!(cbrt_floor_of(u64::MAX), 2_642_245);
}

#[test]
fn crater_diameter_values() {
    // 0.07 * cbrt(38.293 kt) = 0.231 km.
    assert_eq!(crater_diameter_milli_of(38_293, 0), 231);
    assert_eq!(crater_diameter_milli_of(38_293, 5_000), 231);
    assert_eq!(crater_diameter_milli_of(38_293, 5_001), 0);
    assert_eq!(crater_diameter_milli_of(38_293, 100_000), 0);
}

#[test]
fn damage_radius_values() {
    // 0.5 * cbrt(E kt) km, in milli-meters.
    assert_eq!(damage_radius_milli_of(7_658), 950_000);
    assert_eq!(damage_radius_milli_of(38_293), 1_650_000);
    assert_eq!(damage_radius_milli_of(0), 0);
}
