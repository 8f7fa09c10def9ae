//! Tank bodies and how movement commands change their velocity.
pub mod basic_tank_body;

use crate::math::{clamp_i128, saturating_add_i128};
use crate::world::{lookup, Components, Entity, Slots, World};
use vstd::prelude::*;

verus! {

/// The linear speed that a full command adds in one second, in world units per
/// second.
pub const LINEAR_MOVEMENT_SPEED: i128 = 10;

/// The angular speed that a full command adds in one second, in radians per
/// second.
pub const ANGULAR_MOVEMENT_SPEED: i128 = 50;

/// A movement command for one tank.
#[derive(Clone, Copy, Debug, PartialEq, Eq, Structural)]
pub struct Movement {
    pub entity: Entity,
    pub movement_type: MovementType,
}

/// The axis of a movement command with its signed magnitude: forward or back,
/// left or right.
#[derive(Clone, Copy, Debug, PartialEq, Eq, Structural)]
pub enum MovementType {
    Linear(i8),
    Angular(i8),
}

/// The tag of a tank's body.
#[derive(Clone, Copy, Debug, PartialEq, Eq, Structural)]
pub struct TankBody;

/// Linear velocity, in units of 10⁻¹² world units per second.
#[derive(Clone, Copy, Debug, PartialEq, Eq, Structural)]
pub struct LinearVelocity {
    pub x: i128,
    pub y: i128,
    pub z: i128,
}

/// Angular velocity about the vertical axis, in nanoradians per second.
#[derive(Clone, Copy, Debug, PartialEq, Eq, Structural)]
pub struct AngularVelocity {
    pub y: i128,
}

/// Whether `c` is a tank body as a strategy builds it: tagged as one, at rest, and
/// with nothing else but the strategy's own tag.
pub open spec fn is_tank_body(c: Components) -> bool {
    c == (Components {
        tank_body: Some(TankBody),
        basic_tank_body: c.basic_tank_body,
        linear_velocity: Some(LinearVelocity { x: 0, y: 0, z: 0 }),
        angular_velocity: Some(AngularVelocity { y: 0 }),
        ..Components::spec_new()
    })
}

/// A way to build a tank's body.
pub trait TankBodySpawner {
    /// What the body carries when it is built.
    spec fn body(&self) -> Components;

    /// What is built is a tank body and nothing more.
    proof fn lemma_body(&self)
        ensures
            is_tank_body(self.body()),
    ;

    /// Builds the body.
    fn spawn(&self) -> (c: Components)
        ensures
            c == self.body(),
    ;
}

/// What a linear command of magnitude `amount` adds, over `delta` nanoseconds, to
/// the velocity along an axis on which the tank's forward direction has the
/// component `forward`.
pub open spec fn linear_push(forward: i32, amount: i8, delta: u64) -> int {
    forward * amount * delta * LINEAR_MOVEMENT_SPEED
}

/// What an angular command of magnitude `amount` adds to the yaw velocity over
/// `delta` nanoseconds.
pub open spec fn angular_push(amount: i8, delta: u64) -> int {
    amount * delta * ANGULAR_MOVEMENT_SPEED
}

/// Whether `e` is a live tank body that can be moved: it has both velocities and a
/// place in the world.
pub open spec fn is_movable(s: Slots, e: Entity) -> bool {
    lookup(s, e) matches Some(c) && c.tank_body is Some && c.linear_velocity is Some
        && c.angular_velocity is Some && c.global_transform is Some
}

/// A movable tank body after one command. A linear command adds to the velocity
/// along the two horizontal axes, in the direction the tank faces; an angular
/// command adds to the yaw velocity. Each sum stops at the ends of the `i128`
/// range. Nothing else changes.
pub open spec fn pushed(c: Components, movement_type: MovementType, delta: u64) -> Components
    recommends
        c.linear_velocity is Some,
        c.angular_velocity is Some,
        c.global_transform is Some,
{
    let forward = c.global_transform.unwrap().forward;
    let linear = c.linear_velocity.unwrap();
    let angular = c.angular_velocity.unwrap();
    match movement_type {
        MovementType::Linear(amount) => Components {
            linear_velocity: Some(
                LinearVelocity {
                    x: clamp_i128(linear.x + linear_push(forward.x, amount, delta)) as i128,
                    y: linear.y,
                    z: clamp_i128(linear.z + linear_push(forward.z, amount, delta)) as i128,
                },
            ),
            ..c
        },
        MovementType::Angular(amount) => Components {
            angular_velocity: Some(
                AngularVelocity {
                    y: clamp_i128(angular.y + angular_push(amount, delta)) as i128,
                },
            ),
            ..c
        },
    }
}

/// `s` after one movement command: the tank it names is pushed; a command for
/// anything else is dropped.
pub open spec fn moved(s: Slots, event: Movement, delta: u64) -> Slots {
    if is_movable(s, event.entity) {
        s.update(
            event.entity as int,
            Some(pushed(s[event.entity as int].unwrap(), event.movement_type, delta)),
        )
    } else {
        s
    }
}

/// `s` after a run of movement commands, taken in order.
pub open spec fn moved_all(s: Slots, events: Seq<Movement>, delta: u64) -> Slots
    decreases events.len(),
{
    if events.len() == 0 {
        s
    } else {
        moved(moved_all(s, events.drop_last(), delta), events.last(), delta)
    }
}

/// `a * b * delta * speed` for a speed of at most 100.
fn push_of(a: i32, b: i8, delta: u64, speed: i128) -> (push: i128)
    requires
        0 <= speed <= 100,
    ensures
        push == a * b * delta * speed,
{
    assert(-0x40_0000_0000 <= a * b <= 0x40_0000_0000) by (nonlinear_arith)
        requires
            -0x8000_0000 <= a <= 0x7fff_ffff,
            -0x80 <= b <= 0x7f,
    ;
    let ab: i128 = a as i128 * b as i128;
    assert(-0x40_0000_0000 * 0x1_0000_0000_0000_0000 <= ab * delta <= 0x40_0000_0000
        * 0x1_0000_0000_0000_0000) by (nonlinear_arith)
        requires
            -0x40_0000_0000 <= ab <= 0x40_0000_0000,
            0 <= delta <= 0xffff_ffff_ffff_ffff,
    ;
    assert(-0x40_0000_0000 * 0x1_0000_0000_0000_0000 * 100 <= (ab * delta) * speed
        <= 0x40_0000_0000 * 0x1_0000_0000_0000_0000 * 100) by (nonlinear_arith)
        requires
            -0x40_0000_0000 * 0x1_0000_0000_0000_0000 <= ab * delta <= 0x40_0000_0000
                * 0x1_0000_0000_0000_0000,
            0 <= speed <= 100,
    ;
    let abd: i128 = ab * delta as i128;
    abd * speed
}

/// Applies each movement command in turn, for a tick of `delta` nanoseconds. A
/// command adds to the velocity that the tank has; it never sets it. A command
/// for anything but a live, movable tank body is dropped.
pub fn move_tank(world: &mut World, events: &Vec<Movement>, delta: u64)
    requires
        old(world).wf(),
    ensures
        final(world)@ == moved_all(old(world)@, events@, delta),
        final(world).wf(),
{
    let mut i: usize = 0;
    while i < events.len()
        invariant
            i <= events.len(),
            world.wf(),
            world@ == moved_all(old(world)@, events@.take(i as int), delta),
        decreases events.len() - i,
    {
        let event = events[i];
        proof {
            assert(events@.take(i + 1).drop_last() == events@.take(i as int));
        }
        if let Some(c) = world.get(event.entity) {
            if let Some(place) = c.global_transform {
                if let Some(linear) = c.linear_velocity {
                    if let Some(angular) = c.angular_velocity {
                        if c.tank_body.is_some() {
                            let mut c = c;
                            match event.movement_type {
                                MovementType::Linear(amount) => {
                                    let x = push_of(
                                        place.forward.x,
                                        amount,
                                        delta,
                                        LINEAR_MOVEMENT_SPEED,
                                    );
                                    let z = push_of(
                                        place.forward.z,
                                        amount,
                                        delta,
                                        LINEAR_MOVEMENT_SPEED,
                                    );
                                    c.linear_velocity = Some(
                                        LinearVelocity {
                                            x: saturating_add_i128(linear.x, x),
                                            y: linear.y,
                                            z: saturating_add_i128(linear.z, z),
                                        },
                                    );
                                },
                                MovementType::Angular(amount) => {
                                    let y = push_of(1, amount, delta, ANGULAR_MOVEMENT_SPEED);
                                    assert(y == angular_push(amount, delta)) by (nonlinear_arith)
                                        requires
                                            y == 1 * amount * delta * ANGULAR_MOVEMENT_SPEED,
                                    ;
                                    c.angular_velocity = Some(
                                        AngularVelocity { y: saturating_add_i128(angular.y, y) },
                                    );
                                },
                            }
                            world.put(event.entity, c);
                        }
                    }
                }
            }
        }
        i += 1;
    }
    proof {
        assert(events@.take(events.len() as int) == events@);
    }
}

/// One linear command of any magnitude, over any time, changes the horizontal
/// velocity of a tank at rest by exactly the tank's forward direction times the
/// magnitude, the time and the linear speed, and changes nothing else in the
/// world.
pub proof fn lemma_linear_push_from_rest(s: Slots, entity: Entity, amount: i8, delta: u64)
    requires
        is_movable(s, entity),
        s[entity as int].unwrap().linear_velocity == Some(LinearVelocity { x: 0, y: 0, z: 0 }),
    ensures
        ({
            let tank = s[entity as int].unwrap();
            let forward = tank.global_transform.unwrap().forward;
            let x = forward.x * amount * delta * LINEAR_MOVEMENT_SPEED;
            let z = forward.z * amount * delta * LINEAR_MOVEMENT_SPEED;
            &&& i128::MIN <= x <= i128::MAX
            &&& i128::MIN <= z <= i128::MAX
            &&& moved(s, Movement { entity, movement_type: MovementType::Linear(amount) }, delta)
                == s.update(
                entity as int,
                Some(
                    Components {
                        linear_velocity: Some(LinearVelocity { x: x as i128, y: 0, z: z as i128 }),
                        ..tank
                    },
                ),
            )
        }),
{
    let forward = s[entity as int].unwrap().global_transform.unwrap().forward;
    lemma_push_in_range(forward.x, amount, delta);
    lemma_push_in_range(forward.z, amount, delta);
}

/// A command of magnitude zero changes nothing.
pub proof fn lemma_zero_push_is_noop(s: Slots, entity: Entity, delta: u64)
    ensures
        moved(s, Movement { entity, movement_type: MovementType::Linear(0) }, delta) == s,
        moved(s, Movement { entity, movement_type: MovementType::Angular(0) }, delta) == s,
{
    assert forall|f: i32| linear_push(f, 0, delta) == 0 by {
        assert(f * 0 * delta * LINEAR_MOVEMENT_SPEED == 0) by (nonlinear_arith);
    }
    assert(angular_push(0, delta) == 0) by (nonlinear_arith);
    if is_movable(s, entity) {
        let c = s[entity as int].unwrap();
        assert(pushed(c, MovementType::Linear(0), delta) == c);
        assert(pushed(c, MovementType::Angular(0), delta) == c);
        assert(s.update(entity as int, Some(c)) =~= s);
    }
}

/// What one linear command adds lies well within the `i128` range.
proof fn lemma_push_in_range(forward: i32, amount: i8, delta: u64)
    ensures
        i128::MIN <= linear_push(forward, amount, delta) <= i128::MAX,
{
    let ab = forward * amount;
    assert(-0x40_0000_0000 <= ab <= 0x40_0000_0000) by (nonlinear_arith)
        requires
            ab == forward * amount,
            -0x8000_0000 <= forward <= 0x7fff_ffff,
            -0x80 <= amount <= 0x7f,
    ;
    let abd = ab * delta;
    assert(-0x40_0000_0000 * 0x1_0000_0000_0000_0000 <= abd <= 0x40_0000_0000
        * 0x1_0000_0000_0000_0000) by (nonlinear_arith)
        requires
            abd == ab * delta,
            -0x40_0000_0000 <= ab <= 0x40_0000_0000,
            0 <= delta <= 0xffff_ffff_ffff_ffff,
    ;
    assert(linear_push(forward, amount, delta) == abd * 10);
}

} // verus!
