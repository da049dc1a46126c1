//! The simulation state: one record of slider values and animation flags.

use vstd::prelude::*;

verus! {

/// Milliseconds the animation clock advances per rendered frame, modelling a
/// repaint cadence of about sixty frames per second.
pub const FRAME_STEP_MS: u64 = 16;

/// Everything a rendered frame depends on, in milli-scaled integers: slider
/// values plus the animation flag and clock.  `animation_time_ms` only moves
/// while `show_impact` is set and reads 0 otherwise.
#[derive(Clone, Copy, PartialEq, Eq, Debug)]
pub struct SimulationState {
    /// Meteor diameter in milli-meters; slider range 1 to 1000 meters.
    pub diameter_milli: u64,
    /// Entry velocity in milli-kilometers-per-second; slider range 11 to 72.
    pub velocity_milli: u64,
    /// Entry angle in milli-degrees from horizontal; slider range 5 to 90.
    pub angle_milli: u64,
    /// Burst altitude in milli-kilometers; slider range 0 to 100.
    pub altitude_milli: u64,
    /// Bulk density in milli-kilograms-per-cubic-meter; fixed, no slider.
    pub density_milli: u64,
    /// Horizontal impact offset in milli-map-units; slider range -5 to 5.
    pub impact_x_milli: i64,
    /// Horizontal impact offset in milli-map-units; slider range -5 to 5.
    pub impact_z_milli: i64,
    /// Whether an impact animation sequence is active.
    pub show_impact: bool,
    /// Milliseconds since the animation was triggered.
    pub animation_time_ms: u64,
}

/// `value` pulled back into the closed interval `[lo, hi]`.
pub open spec fn clamped(value: int, lo: int, hi: int) -> int {
    if value < lo {
        lo
    } else if value > hi {
        hi
    } else {
        value
    }
}

impl SimulationState {
    /// Every slider value sits inside its declared range, and the animation
    /// clock reads zero whenever no animation is active.
    pub open spec fn wf(self) -> bool {
        &&& 1_000 <= self.diameter_milli <= 1_000_000
        &&& 11_000 <= self.velocity_milli <= 72_000
        &&& 5_000 <= self.angle_milli <= 90_000
        &&& self.altitude_milli <= 100_000
        &&& 1 <= self.density_milli <= 100_000_000
        &&& -5_000 <= self.impact_x_milli <= 5_000
        &&& -5_000 <= self.impact_z_milli <= 5_000
        &&& (!self.show_impact ==> self.animation_time_ms == 0)
    }

    /// Runtime check of `wf`, for callers outside the verified world.
    pub fn is_well_formed(&self) -> (b: bool)
        ensures
            b == self.wf(),
    {
        1_000 <= self.diameter_milli && self.diameter_milli <= 1_000_000
            && 11_000 <= self.velocity_milli && self.velocity_milli <= 72_000
            && 5_000 <= self.angle_milli && self.angle_milli <= 90_000
            && self.altitude_milli <= 100_000
            && 1 <= self.density_milli && self.density_milli <= 100_000_000
            && -5_000 <= self.impact_x_milli && self.impact_x_milli <= 5_000
            && -5_000 <= self.impact_z_milli && self.impact_z_milli <= 5_000
            && (self.show_impact || self.animation_time_ms == 0)
    }

    /// The state a fresh session starts from: a 10 meter meteor at 17 km/s,
    /// a 45 degree entry, a 20 km burst altitude, density 3000 kg/m3, the
    /// impact point at the map center, and no animation running.
    pub fn new() -> (s: Self)
        ensures
            s.wf(),
            s.diameter_milli == 10_000,
            s.velocity_milli == 17_000,
            s.angle_milli == 45_000,
            s.altitude_milli == 20_000,
            s.density_milli == 3_000_000,
            s.impact_x_milli == 0,
            s.impact_z_milli == 0,
            !s.show_impact,
            s.animation_time_ms == 0,
    {
        SimulationState {
            diameter_milli: 10_000,
            velocity_milli: 17_000,
            angle_milli: 45_000,
            altitude_milli: 20_000,
            density_milli: 3_000_000,
            impact_x_milli: 0,
            impact_z_milli: 0,
            show_impact: false,
            animation_time_ms: 0,
        }
    }

    /// Store a new diameter, clamped to the slider range as the input widget
    /// would clamp it.  No other field moves.
    pub fn set_diameter_milli(&mut self, value: u64)
        ensures
            final(self).diameter_milli == clamped(value as int, 1_000, 1_000_000),
            *final(self) == (SimulationState {
                diameter_milli: final(self).diameter_milli,
                ..*old(self)
            }),
    {
        self.diameter_milli = if value < 1_000 {
            1_000
        } else if value > 1_000_000 {
            1_000_000
        } else {
            value
        };
    }

    /// Store a new velocity, clamped to the slider range.  No other field
    /// moves.
    pub fn set_velocity_milli(&mut self, value: u64)
        ensures
            final(self).velocity_milli == clamped(value as int, 11_000, 72_000),
            *final(self) == (SimulationState {
                velocity_milli: final(self).velocity_milli,
                ..*old(self)
            }),
    {
        self.velocity_milli = if value < 11_000 {
            11_000
        } else if value > 72_000 {
            72_000
        } else {
            value
        };
    }

    /// Store a new entry angle, clamped to the slider range.  No other field
    /// moves.
    pub fn set_angle_milli(&mut self, value: u64)
        ensures
            final(self).angle_milli == clamped(value as int, 5_000, 90_000),
            *final(self) == (SimulationState { angle_milli: final(self).angle_milli, ..*old(self) }),
    {
        self.angle_milli = if value < 5_000 {
            5_000
        } else if value > 90_000 {
            90_000
        } else {
            value
        };
    }

    /// Store a new burst altitude, clamped to the slider range.  No other
    /// field moves.
    pub fn set_altitude_milli(&mut self, value: u64)
        ensures
            final(self).altitude_milli == clamped(value as int, 0, 100_000),
            *final(self) == (SimulationState {
                altitude_milli: final(self).altitude_milli,
                ..*old(self)
            }),
    {
        self.altitude_milli = if value > 100_000 {
            100_000
        } else {
            value
        };
    }

    /// Store a new impact offset along the first map axis, clamped to the
    /// slider range.  No other field moves.
    pub fn set_impact_x_milli(&mut self, value: i64)
        ensures
            final(self).impact_x_milli == clamped(value as int, -5_000, 5_000),
            *final(self) == (SimulationState {
                impact_x_milli: final(self).impact_x_milli,
                ..*old(self)
            }),
    {
        self.impact_x_milli = if value < -5_000 {
            -5_000
        } else if value > 5_000 {
            5_000
        } else {
            value
        };
    }

    /// Store a new impact offset along the second map axis, clamped to the
    /// slider range.  No other field moves.
    pub fn set_impact_z_milli(&mut self, value: i64)
        ensures
            final(self).impact_z_milli == clamped(value as int, -5_000, 5_000),
            *final(self) == (SimulationState {
                impact_z_milli: final(self).impact_z_milli,
                ..*old(self)
            }),
    {
        self.impact_z_milli = if value < -5_000 {
            -5_000
        } else if value > 5_000 {
            5_000
        } else {
            value
        };
    }

    /// Start (or restart) the impact animation: the flag is set and the clock
    /// returns to zero whatever the state was before, even mid-animation.
    /// No slider value moves.
    pub fn trigger_impact(&mut self)
        ensures
            final(self).show_impact,
            final(self).animation_time_ms == 0,
            *final(self) == (SimulationState {
                show_impact: true,
                animation_time_ms: 0,
                ..*old(self)
            }),
    {
        self.show_impact = true;
        self.animation_time_ms = 0;
    }

    /// Stop the animation: the flag is cleared and the clock returns to zero
    /// whatever the state was before.  No slider value moves.
    pub fn reset(&mut self)
        ensures
            !final(self).show_impact,
            final(self).animation_time_ms == 0,
            *final(self) == (SimulationState {
                show_impact: false,
                animation_time_ms: 0,
                ..*old(self)
            }),
    {
        self.show_impact = false;
        self.animation_time_ms = 0;
    }

    /// One rendered frame passes: while the animation is active the clock
    /// advances by `FRAME_STEP_MS` (saturating at the top of its type) and
    /// the caller is told to schedule another repaint; otherwise nothing
    /// moves.
    pub fn advance_frame(&mut self) -> (repaint: bool)
        ensures
            repaint == old(self).show_impact,
            *final(self) == (SimulationState {
                animation_time_ms: final(self).animation_time_ms,
                ..*old(self)
            }),
            old(self).show_impact && old(self).animation_time_ms + FRAME_STEP_MS <= u64::MAX
                ==> final(self).animation_time_ms == old(self).animation_time_ms + FRAME_STEP_MS,
            old(self).show_impact && old(self).animation_time_ms + FRAME_STEP_MS > u64::MAX
                ==> final(self).animation_time_ms == old(self).animation_time_ms,
            !old(self).show_impact ==> final(self).animation_time_ms == old(
                self,
            ).animation_time_ms,
    {
        if self.show_impact {
            if self.animation_time_ms <= u64::MAX - FRAME_STEP_MS {
                self.animation_time_ms = self.animation_time_ms + FRAME_STEP_MS;
            }
            true
        } else {
            false
        }
    }
}

} // verus!
