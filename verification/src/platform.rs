//! The turning of the platforms.
//!
//! Every platform turns about the vertical axis at one constant rate,
//! [`ANGULAR_RATE`]. Each frame the host asks for the rotation that belongs to
//! the time the frame took and applies it to the orientation of every
//! platform, each on its own.

use vstd::prelude::*;
use crate::vector::{up_axis, IntVector, Vector3};

verus! {

/// The rate at which a platform turns, in nanoradians per nanosecond: one
/// radian per second.
pub const ANGULAR_RATE: u128 = 1;

/// The number of nanoradians in one radian, and of nanoseconds in one second.
pub const NANOS_PER_UNIT: u128 = 1_000_000_000;

/// The angle, in nanoradians, by which a platform turns in `delta`
/// nanoseconds.
pub open spec fn turn_angle(delta: nat) -> nat {
    ANGULAR_RATE as nat * delta
}

/// The model of a [`Rotation`]: a turn by `angle` nanoradians about `axis`.
pub struct IntRotation {
    pub axis: IntVector,
    pub angle: nat,
}

/// A turn by `angle` nanoradians about `axis`, counter-clockwise for one who
/// looks against the axis.
#[derive(Clone, Copy, PartialEq, Eq, Structural, Debug)]
pub struct Rotation {
    pub axis: Vector3,
    pub angle: u128,
}

impl View for Rotation {
    type V = IntRotation;

    open spec fn view(&self) -> IntRotation {
        IntRotation { axis: self.axis@, angle: self.angle as nat }
    }
}

/// The rotation of every platform in a frame that took `delta` nanoseconds:
/// about the vertical axis, by an angle in radians that equals the time in
/// seconds.
pub fn platform_rotation(delta: u128) -> (r: Rotation)
    ensures
        r@ == (IntRotation { axis: up_axis(), angle: turn_angle(delta as nat) }),
        r.angle == delta,
{
    Rotation { axis: Vector3::up(), angle: ANGULAR_RATE * delta }
}

/// The rate is constant: the angles of two frames add up to the angle of the
/// time that the two took together, however the time is cut into frames.
pub proof fn lemma_turn_angle_additive(first: nat, second: nat)
    ensures
        turn_angle(first) + turn_angle(second) == turn_angle(first + second),
{
}

/// In one second a platform turns by one radian.
pub proof fn lemma_one_radian_per_second()
    ensures
        turn_angle(NANOS_PER_UNIT as nat) == NANOS_PER_UNIT,
{
}

} // verus!
