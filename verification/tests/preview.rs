use meteor_impact::preview::preview_geometry;

#[test]
fn square_viewport_geometry() {
    // A 1000 by 1000 pixel viewport, impact pushed to the slider corners.
    let g = preview_geometry(1_000_000, 1_000_000, 5_000, -5_000, 231, 998, 10_000);
    assert_eq!(g.center_x_milli, 500_000);
    assert_eq!(g.center_y_milli, 500_000);
    assert_eq!(g.water_radius_milli, 400_000);
    assert_eq!(g.island_radius_milli, 320_000);
    // A full offset of 5 map units lands exactly on the island's edge.
    assert_eq!(g.impact_x_milli, 820_000);
    assert_eq!(g.impact_y_milli, 180_000);
    // 0.231 km of crater scaled by radius * 0.8 / 10.
    assert_eq!(g.crater_radius_milli, 7_392);
    // The marker hangs 0.998 of the radius above the impact point, which may
    // be above the viewport's top edge.
    assert_eq!(g.meteor_y_milli, 180_000 - 399_200);
    // A 10 m meteor draws as a 2.5 pixel disc.
    assert_eq!(g.meteor_size_milli, 2_500);
}

#[test]
fn wide_viewport_uses_smaller_side() {
    let g = preview_geometry(2_000_000, 1_000_000, 0, 0, 0, 0, 1_000_000);
    assert_eq!(g.center_x_milli, 1_000_000);
    assert_eq!(g.center_y_milli, 500_000);
    assert_eq!(g.water_radius_milli, 400_000);
    assert_eq!(g.impact_x_milli, 1_000_000);
    assert_eq!(g.impact_y_milli, 500_000);
    assert_eq!(g.crater_radius_milli, 0);
    assert_eq!(g.meteor_y_milli, 500_000);
    assert_eq!(g.meteor_size_milli, 250_000);
}
