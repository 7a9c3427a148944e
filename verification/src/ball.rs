//! The ball and its motion resolver.
//!
//! Once per frame, after the key transitions of the frame have been taken in,
//! [`update_ball`] turns the held controls and the simulation clock into the
//! force and the impulse that the host applies to the ball's rigid body. Both
//! are written anew every frame, whatever they held before.
//!
//! The force pushes the ball along the ground. Its direction is the sum of the
//! axes of the held controls and is kept as that sum, with whole-number
//! components; a [`Force`] carries the magnitude beside it. The host scales
//! the direction to unit length when it applies the force.
//!
//! The impulse makes the ball jump. It is given while jump is held, but not
//! within [`JUMP_COOLDOWN`] of the last one. Holding jump therefore jumps
//! again each time the cooldown has run out; it does not wait for the key to
//! be pressed anew.

use vstd::prelude::*;
use crate::input::{InputState, KeyEvent};
use crate::vector::{up_axis, IntVector, Vector3};

verus! {

/// The magnitude of the force while any direction is held.
pub const SPEED: u32 = 1;

/// The upward component of the jump impulse.
pub const JUMP_IMPULSE: i32 = 2;

/// The time, in nanoseconds, that has to pass after a jump before the next:
/// two seconds.
pub const JUMP_COOLDOWN: u128 = 2_000_000_000;

/// The direction in which forward pushes.
pub open spec fn forward_axis() -> IntVector {
    IntVector { x: 1, y: 0, z: 0 }
}

/// The direction in which right pushes: at right angles to forward and up.
pub open spec fn right_axis() -> IntVector {
    forward_axis().cross(up_axis())
}

/// Whether any of the four directions is held.
pub open spec fn steering(input: InputState) -> bool {
    input.forward || input.backward || input.left || input.right
}

/// How far along the forward axis the player asks to go: forward wins over
/// backward.
pub open spec fn surge(input: InputState) -> int {
    if input.forward {
        1
    } else if input.backward {
        -1
    } else {
        0
    }
}

/// How far along the right axis the player asks to go: right wins over left.
pub open spec fn sway(input: InputState) -> int {
    if input.right {
        1
    } else if input.left {
        -1
    } else {
        0
    }
}

/// The sum of the axes of the held directions.
pub open spec fn movement_direction(input: InputState) -> IntVector {
    forward_axis().scaled(surge(input)).plus(right_axis().scaled(sway(input)))
}

/// The force that the held directions ask for.
pub open spec fn movement_force(input: InputState) -> IntForce {
    IntForce {
        direction: movement_direction(input),
        magnitude: if steering(input) {
            SPEED as nat
        } else {
            0
        },
    }
}

/// Whether a jump is allowed at `now`: there was none before, or the last one
/// is at least [`JUMP_COOLDOWN`] back. A clock that reads less than at the last
/// jump allows none.
pub open spec fn cooled_down(last_jump_time: Option<u128>, now: u128) -> bool {
    match last_jump_time {
        None => true,
        Some(last) => now - last >= JUMP_COOLDOWN,
    }
}

/// Whether the ball jumps in the frame whose clock reads `now`.
pub open spec fn jump_fires(ball: Ball, now: u128) -> bool {
    ball.input.jump && cooled_down(ball.last_jump_time, now)
}

/// The impulse of one jump.
pub open spec fn jump_impulse() -> IntVector {
    up_axis().scaled(JUMP_IMPULSE as int)
}

/// The model of a [`Force`]: the force of magnitude `magnitude` that points
/// along `direction`.
pub struct IntForce {
    pub direction: IntVector,
    pub magnitude: nat,
}

impl IntForce {
    /// No force at all.
    pub open spec fn zero() -> IntForce {
        IntForce { direction: IntVector::zero(), magnitude: 0 }
    }

    /// Whether the pair describes a force: a magnitude other than zero needs
    /// a direction to point along, and no force has none.
    pub open spec fn well_formed(self) -> bool {
        self.magnitude == 0 <==> self.direction == IntVector::zero()
    }
}

/// A force in polar form: `magnitude` along `direction`. The direction need
/// not be of unit length; only where it points counts.
#[derive(Clone, Copy, PartialEq, Eq, Structural, Debug)]
pub struct Force {
    pub direction: Vector3,
    pub magnitude: u32,
}

impl View for Force {
    type V = IntForce;

    open spec fn view(&self) -> IntForce {
        IntForce { direction: self.direction@, magnitude: self.magnitude as nat }
    }
}

impl Force {
    /// No force at all.
    pub fn zero() -> (r: Force)
        ensures
            r@ == IntForce::zero(),
    {
        Force { direction: Vector3::zero(), magnitude: 0 }
    }
}

/// The player's ball: the controls that are held, and the clock reading, in
/// nanoseconds, at which it last jumped.
#[derive(Clone, Copy, PartialEq, Eq, Structural, Debug)]
pub struct Ball {
    pub input: InputState,
    pub last_jump_time: Option<u128>,
}

impl Ball {
    /// A ball with no control held that has never jumped.
    pub fn new() -> (r: Ball)
        ensures
            r.input == InputState::released(),
            r.last_jump_time.is_none(),
    {
        Ball { input: InputState::new(), last_jump_time: None }
    }
}

/// The input tracker's step of a frame: takes in the key transitions of the
/// frame, in the order of arrival. Of several transitions of one key the last
/// one decides; keys that are bound to no control are ignored. The time of
/// the last jump stays.
pub fn process_inputs(ball: &mut Ball, events: &[KeyEvent])
    ensures
        final(ball).input == old(ball).input.after_events(events@),
        final(ball).last_jump_time == old(ball).last_jump_time,
{
    ball.input.process(events);
}

/// The force that the held directions ask for. Forward adds the forward
/// axis, and backward, which counts only while forward is not held,
/// subtracts it; right and left do the same with the right axis. While any of
/// the four is held the force has magnitude [`SPEED`] along the sum, else
/// there is no force.
pub fn resolve_force(input: &InputState) -> (r: Force)
    ensures
        r@ == movement_force(*input),
        r@.well_formed(),
{
    proof {
        lemma_movement_direction_components(*input);
    }
    let forward_direction = Vector3::new(1, 0, 0);
    let up_direction = Vector3::up();
    let right_direction = forward_direction.cross(up_direction);
    assert(right_direction@ == (IntVector { x: 0, y: 0, z: 1 }));

    let mut movement: Option<Vector3> = None;
    if input.forward {
        movement = Some(accumulate(movement, forward_direction));
    } else if input.backward {
        movement = Some(accumulate(movement, forward_direction.negated()));
    }
    assert(match movement {
        Some(sum) => surge(*input) != 0 && sum@ == (IntVector { x: surge(*input), y: 0, z: 0 }),
        None => surge(*input) == 0,
    });
    if input.right {
        movement = Some(accumulate(movement, right_direction));
    } else if input.left {
        movement = Some(accumulate(movement, right_direction.negated()));
    }
    assert(match movement {
        Some(sum) => steering(*input) && sum@ == movement_direction(*input),
        None => !steering(*input),
    });

    match movement {
        Some(direction) => Force { direction, magnitude: SPEED },
        None => Force::zero(),
    }
}

/// The running total of a sum of vectors after one more term.
fn accumulate(total: Option<Vector3>, term: Vector3) -> (r: Vector3)
    requires
        total matches Some(sum) ==> sum@.plus(term@).representable(),
    ensures
        r@ == match total {
            Some(sum) => sum@.plus(term@),
            None => term@,
        },
{
    match total {
        Some(sum) => sum.plus(term),
        None => term,
    }
}

/// Whether a jump is allowed at `now`, given the time of the last one.
pub fn jump_ready(last_jump_time: Option<u128>, now: u128) -> (r: bool)
    ensures
        r == cooled_down(last_jump_time, now),
{
    match last_jump_time {
        None => true,
        Some(last) => now >= last && now - last >= JUMP_COOLDOWN,
    }
}

/// The motion resolver's step of a frame, at clock reading `now` in
/// nanoseconds.
///
/// Overwrites `force` with the force that the held directions ask for, and
/// `impulse` with the jump impulse if the ball jumps in this frame, else with
/// zero. The ball jumps if jump is held and no jump was made in the last
/// [`JUMP_COOLDOWN`] nanoseconds; `now` is then kept as the time of the last
/// jump.
pub fn update_ball(ball: &mut Ball, force: &mut Force, impulse: &mut Vector3, now: u128)
    ensures
        final(force)@ == movement_force(old(ball).input),
        final(force)@.well_formed(),
        !steering(old(ball).input) ==> final(force)@ == IntForce::zero(),
        final(impulse)@ == if jump_fires(*old(ball), now) {
            jump_impulse()
        } else {
            IntVector::zero()
        },
        final(ball).input == old(ball).input,
        final(ball).last_jump_time == if jump_fires(*old(ball), now) {
            Some(now)
        } else {
            old(ball).last_jump_time
        },
{
    *force = resolve_force(&ball.input);
    proof {
        lemma_force_magnitude_and_direction(ball.input);
    }

    if ball.input.jump && jump_ready(ball.last_jump_time, now) {
        *impulse = Vector3::new(0, JUMP_IMPULSE, 0);
        ball.last_jump_time = Some(now);
    } else {
        *impulse = Vector3::zero();
    }
}

/// Forward is the x axis and right is the z axis, so the sum of the axes of
/// the held directions has [`surge`] as its x component, [`sway`] as its z
/// component, and no height.
pub proof fn lemma_movement_direction_components(input: InputState)
    ensures
        right_axis() == (IntVector { x: 0, y: 0, z: 1 }),
        movement_direction(input) == (IntVector { x: surge(input), y: 0, z: sway(input) }),
{
}

/// For every combination of held directions, the force has magnitude zero
/// if none is held and [`SPEED`] otherwise, and it points along the sum of the
/// axes of the directions that count: the forward axis, added for forward or
/// else subtracted for backward, and the right axis, added for right or else
/// subtracted for left. That sum lies in the ground plane and is the zero
/// vector only if no direction is held, so a held direction always gives a
/// force that points somewhere.
pub proof fn lemma_force_magnitude_and_direction(input: InputState)
    ensures
        movement_force(input).magnitude == if steering(input) {
            SPEED as nat
        } else {
            0
        },
        movement_force(input).direction == (if input.forward {
            forward_axis()
        } else if input.backward {
            forward_axis().negated()
        } else {
            IntVector::zero()
        }).plus(
            if input.right {
                right_axis()
            } else if input.left {
                right_axis().negated()
            } else {
                IntVector::zero()
            },
        ),
        movement_force(input).direction.dot(up_axis()) == 0,
        movement_force(input).direction.norm_squared() == surge(input) * surge(input) + sway(input)
            * sway(input),
        steering(input) <==> movement_force(input).direction != IntVector::zero(),
        movement_force(input).well_formed(),
{
    lemma_movement_direction_components(input);
}

/// While forward is held, backward counts for nothing: holding both gives the
/// force that forward alone gives.
pub proof fn lemma_forward_suppresses_backward(input: InputState)
    ensures
        movement_force(InputState { forward: true, backward: true, ..input }) == movement_force(
            InputState { forward: true, backward: false, ..input },
        ),
{
    lemma_movement_direction_components(InputState { forward: true, backward: true, ..input });
    lemma_movement_direction_components(InputState { forward: true, backward: false, ..input });
}

/// With no direction held there is no force.
pub proof fn lemma_no_direction_no_force(input: InputState)
    requires
        !steering(input),
    ensures
        movement_force(input) == IntForce::zero(),
{
    lemma_movement_direction_components(input);
}

/// A ball that has never jumped jumps in the first frame in which jump is
/// held, whatever the clock reads.
pub proof fn lemma_first_jump_fires(ball: Ball, now: u128)
    requires
        ball.last_jump_time.is_none(),
    ensures
        jump_fires(ball, now) == ball.input.jump,
{
}

/// After a jump at `last`, the ball does not jump before [`JUMP_COOLDOWN`] has
/// passed, and from then on it jumps in every frame in which jump is held.
pub proof fn lemma_jump_gate(ball: Ball, last: u128, now: u128)
    requires
        ball.last_jump_time == Some(last),
    ensures
        now < last + JUMP_COOLDOWN ==> !jump_fires(ball, now),
        now >= last + JUMP_COOLDOWN ==> jump_fires(ball, now) == ball.input.jump,
{
}

} // verus!
