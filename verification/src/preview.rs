//! The preview-panel mapping: from viewport size and model values to draw
//! coordinates, in milli-pixels.

use vstd::prelude::*;

verus! {

/// An impact offset (milli-map-units, -5000 to 5000) scaled onto the island:
/// the offset in milli-pixels is `x * radius * 0.8 / 5`, rounded toward zero
/// as the conversion to pixels rounds.
pub open spec fn scaled_offset(x: int, radius: int) -> int {
    if x >= 0 {
        (x * radius) / 6_250
    } else {
        -(((-x) * radius) / 6_250)
    }
}

/// Where and how large everything in the preview panel is drawn, in
/// milli-pixels from the viewport's top-left corner.
#[derive(Clone, Copy, PartialEq, Eq, Debug)]
pub struct PreviewGeometry {
    /// Viewport center, the middle of the water disc.
    pub center_x_milli: u64,
    /// Viewport center, the middle of the water disc.
    pub center_y_milli: u64,
    /// Water disc radius: 0.4 of the smaller viewport side.
    pub water_radius_milli: u64,
    /// Island disc radius: 0.8 of the water radius.
    pub island_radius_milli: u64,
    /// Impact marker position.
    pub impact_x_milli: i64,
    /// Impact marker position.
    pub impact_y_milli: i64,
    /// Crater disc radius: the crater diameter scaled by `radius * 0.8 / 10`.
    pub crater_radius_milli: u64,
    /// Vertical position of the falling-meteor marker: the impact point,
    /// raised by its height fraction of the water radius.
    pub meteor_y_milli: i64,
    /// Meteor marker radius: the diameter in meters times `5 / 20` pixels.
    pub meteor_size_milli: u64,
}

/// The mapping itself: a pure function of the viewport and the model values.
pub open spec fn preview_geometry_spec(
    width: int,
    height: int,
    x: int,
    z: int,
    crater: int,
    meteor_height: int,
    diameter: int,
) -> PreviewGeometry {
    let side = if width <= height {
        width
    } else {
        height
    };
    let radius = (2 * side) / 5;
    let center_x = width / 2;
    let center_y = height / 2;
    let impact_x = center_x + scaled_offset(x, radius);
    let impact_y = center_y + scaled_offset(z, radius);
    PreviewGeometry {
        center_x_milli: center_x as u64,
        center_y_milli: center_y as u64,
        water_radius_milli: radius as u64,
        island_radius_milli: ((4 * radius) / 5) as u64,
        impact_x_milli: impact_x as i64,
        impact_y_milli: impact_y as i64,
        crater_radius_milli: ((crater * radius) / 12_500) as u64,
        meteor_y_milli: (impact_y - (meteor_height * radius) / 1_000) as i64,
        meteor_size_milli: (diameter / 4) as u64,
    }
}

/// Executable preview mapping for a viewport of `width` by `height`
/// milli-pixels; the remaining arguments are the impact offsets, the crater
/// diameter, the marker height and the meteor diameter in their milli-units.
pub fn preview_geometry(
    width: u64,
    height: u64,
    x: i64,
    z: i64,
    crater: u64,
    meteor_height: u64,
    diameter: u64,
) -> (g: PreviewGeometry)
    requires
        width <= 100_000_000,
        height <= 100_000_000,
        -5_000 <= x <= 5_000,
        -5_000 <= z <= 5_000,
        crater <= 18_495_715,
        meteor_height <= 1_000,
        diameter <= 1_000_000,
    ensures
        g == preview_geometry_spec(
            width as int,
            height as int,
            x as int,
            z as int,
            crater as int,
            meteor_height as int,
            diameter as int,
        ),
{
    let side: u64 = if width <= height {
        width
    } else {
        height
    };
    let radius: u64 = (2 * side) / 5;
    let center_x: u64 = width / 2;
    let center_y: u64 = height / 2;
    let impact_x: i64 = (center_x as i64) + offset_on_island(x, radius);
    let impact_y: i64 = (center_y as i64) + offset_on_island(z, radius);
    proof {
        assert(crater * radius <= 18_495_715 * 40_000_000int) by (nonlinear_arith)
            requires
                0 <= crater <= 18_495_715,
                0 <= radius <= 40_000_000,
        ;
        assert(meteor_height * radius <= 1_000 * 40_000_000int) by (nonlinear_arith)
            requires
                0 <= meteor_height <= 1_000,
                0 <= radius <= 40_000_000,
        ;
        vstd::arithmetic::div_mod::lemma_div_pos_is_pos(crater * radius, 12_500);
        vstd::arithmetic::div_mod::lemma_div_pos_is_pos(meteor_height * radius, 1_000);
        lemma_div_le(crater * radius, 18_495_715int * 40_000_000, 12_500);
        lemma_div_le(meteor_height * radius, 1_000int * 40_000_000, 1_000);
    }
    let crater_scaled: u128 = ((crater as u128) * (radius as u128)) / 12_500;
    let height_scaled: u64 = ((meteor_height as u128) * (radius as u128) / 1_000) as u64;
    PreviewGeometry {
        center_x_milli: center_x,
        center_y_milli: center_y,
        water_radius_milli: radius,
        island_radius_milli: (4 * radius) / 5,
        impact_x_milli: impact_x,
        impact_y_milli: impact_y,
        crater_radius_milli: crater_scaled as u64,
        meteor_y_milli: impact_y - (height_scaled as i64),
        meteor_size_milli: diameter / 4,
    }
}

/// Division by a positive constant keeps an upper bound.
proof fn lemma_div_le(a: int, b: int, d: int)
    requires
        a <= b,
        0 < d,
    ensures
        a / d <= b / d,
{
    vstd::arithmetic::div_mod::lemma_div_is_ordered(a, b, d);
}

/// Executable offset scaling: rounds toward zero, as the spec does.
fn offset_on_island(x: i64, radius: u64) -> (r: i64)
    requires
        -5_000 <= x <= 5_000,
        radius <= 40_000_000,
    ensures
        r == scaled_offset(x as int, radius as int),
        -32_000_000 <= r <= 32_000_000,
{
    proof {
        assert(0 <= 5_000 * radius <= 5_000 * 40_000_000int) by (nonlinear_arith)
            requires
                0 <= radius <= 40_000_000,
        ;
        assert(x >= 0 ==> x * radius <= 5_000 * radius) by (nonlinear_arith)
            requires
                x <= 5_000,
                0 <= radius,
        ;
        assert(x < 0 ==> (-x) * radius <= 5_000 * radius) by (nonlinear_arith)
            requires
                -5_000 <= x,
                0 <= radius,
        ;
        assert(x >= 0 ==> 0 <= x * radius) by (nonlinear_arith)
            requires
                0 <= radius,
        ;
        assert(x < 0 ==> 0 <= (-x) * radius) by (nonlinear_arith)
            requires
                0 <= radius,
        ;
        lemma_div_le(5_000int * radius, 5_000int * 40_000_000, 6_250);
    }
    if x >= 0 {
        proof {
            lemma_div_le((x as int) * radius, 5_000int * radius, 6_250);
            vstd::arithmetic::div_mod::lemma_div_pos_is_pos((x as int) * radius, 6_250);
        }
        let magnitude: u64 = ((x as u64) * radius) / 6_250;
        magnitude as i64
    } else {
        proof {
            lemma_div_le((-(x as int)) * radius, 5_000int * radius, 6_250);
            vstd::arithmetic::div_mod::lemma_div_pos_is_pos((-(x as int)) * radius, 6_250);
        }
        let magnitude: u64 = (((-x) as u64) * radius) / 6_250;
        -(magnitude as i64)
    }
}

} // verus!
