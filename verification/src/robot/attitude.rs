//! Which references an attitude estimate follows at each update.
//!
//! The estimate is integrated from the gyroscope and nudged back towards gravity and, once the
//! board's own magnetism is known, towards magnetic north. The rotations themselves are real
//! arithmetic and take place outside; what is decided here is which of them apply.

use vstd::prelude::*;

verus! {

/// What the estimate has been started from so far.
#[derive(Clone, Copy, Debug, PartialEq, Eq, Structural)]
pub struct AttitudeSeeds {
    /// Whether it has been seeded from an accelerometer reading.
    pub seeded: bool,
    /// Whether its heading has been snapped to the magnetometer.
    pub heading_seeded: bool,
}

/// How an update begins.
#[derive(Clone, Copy, Debug, PartialEq, Eq, Structural)]
pub enum AttitudeStart {
    /// There is nothing to start from yet; the update is over.
    Wait,
    /// Take the attitude from gravity, with no heading; the update is over.
    SeedFromGravity,
    /// Go on, after replacing the heading by the magnetic one where said.
    Go { snap_heading: bool },
}

/// How an update ends.
#[derive(Clone, Copy, Debug, PartialEq, Eq, Structural)]
pub enum AttitudeUpdate {
    /// The estimate is more than a right angle from gravity: take the attitude from gravity,
    /// keeping the heading.
    SnapToGravity,
    /// Integrate the measured rate plus the corrections that apply.
    Integrate { gravity: bool, heading: bool },
}

impl AttitudeSeeds {
    /// An estimate that has not started.
    pub fn new() -> (seeds: AttitudeSeeds)
        ensures
            !seeds.seeded && !seeds.heading_seeded,
    {
        AttitudeSeeds { seeded: false, heading_seeded: false }
    }

    /// Begins an update. `gravity_usable` says whether the accelerometer currently gives a
    /// direction of gravity, `heading_known` whether the magnetometer gives a heading.
    pub fn begin(&mut self, gravity_usable: bool, heading_known: bool) -> (start: AttitudeStart)
        ensures
            start == (if !old(self).seeded {
                if gravity_usable {
                    AttitudeStart::SeedFromGravity
                } else {
                    AttitudeStart::Wait
                }
            } else {
                AttitudeStart::Go { snap_heading: !old(self).heading_seeded && heading_known }
            }),
            final(self).seeded == (old(self).seeded || gravity_usable),
            final(self).heading_seeded == (old(self).heading_seeded || (old(self).seeded
                && heading_known)),
    {
        if !self.seeded {
            if gravity_usable {
                self.seeded = true;
                return AttitudeStart::SeedFromGravity;
            }
            return AttitudeStart::Wait;
        }
        let snap_heading = !self.heading_seeded && heading_known;
        if snap_heading {
            self.heading_seeded = true;
        }
        AttitudeStart::Go { snap_heading }
    }
}

/// Ends an update. `upside_down` says whether the estimate puts gravity more than a right angle
/// from where the accelerometer does; it counts only while the accelerometer is usable.
pub fn finish(gravity_usable: bool, upside_down: bool, heading_known: bool) -> (update:
    AttitudeUpdate)
    ensures
        update == (if gravity_usable && upside_down {
            AttitudeUpdate::SnapToGravity
        } else {
            AttitudeUpdate::Integrate { gravity: gravity_usable, heading: heading_known }
        }),
{
    if gravity_usable && upside_down {
        AttitudeUpdate::SnapToGravity
    } else {
        AttitudeUpdate::Integrate { gravity: gravity_usable, heading: heading_known }
    }
}

} // verus!
