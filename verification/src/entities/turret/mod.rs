//! Turrets and how they turn toward their target.
pub mod basic_turret;

use crate::math::{clamp_i128, saturating_add_i128, NANOS_PER_SECOND};
use crate::world::{lookup, Components, Entity, GlobalTransform, Slots, Transform, World};
use vstd::prelude::*;

verus! {

/// The fastest a turret turns, in radians per second; also the greatest factor by
/// which its angle to the target sets its speed.
pub const TURRET_ROTATION_SPEED: u64 = 3;

/// The greatest angle to the target, in nanoradians, at which a turret stays as it
/// is: one degree, and 119 nanoradians more to keep a turret that has arrived from
/// trembling.
pub const DEAD_ZONE: u32 = 17_453_411;

/// The tag of the point on a turret from which projectiles leave.
#[derive(Clone, Copy, Debug, PartialEq, Eq, Structural)]
pub struct BulletSpawner;

/// A fire command for one turret.
#[derive(Clone, Copy, Debug, PartialEq, Eq, Structural)]
pub struct Shoot {
    pub turret: Entity,
}

/// An aim command: the turret and the point on the ground it is to face, in
/// thousandths.
#[derive(Clone, Copy, Debug, PartialEq, Eq, Structural)]
pub struct TurretMovement {
    pub turret_entity: Entity,
    pub x: i32,
    pub z: i32,
}

/// An aim command together with what the engine measured for it: the angle, in
/// nanoradians, between the turret's forward direction and the way to the target,
/// both taken on the horizontal plane.
#[derive(Clone, Copy, Debug, PartialEq, Eq, Structural)]
pub struct Aim {
    pub movement: TurretMovement,
    pub angle: u32,
}

/// The tag of a turret.
#[derive(Clone, Copy, Debug, PartialEq, Eq, Structural)]
pub struct Turret;

/// Whether `c` is a turret as a strategy builds it: tagged as one, placed on its
/// tank, and with nothing else but the strategy's own tag.
pub open spec fn is_turret(c: Components) -> bool {
    &&& c.transform is Some
    &&& c == (Components {
        transform: c.transform,
        turret: Some(Turret),
        basic_turret: c.basic_turret,
        ..Components::spec_new()
    })
}

/// Whether `c` is a muzzle as a strategy builds it: tagged as bullet spawner,
/// placed on its turret, and with nothing else.
pub open spec fn is_muzzle(c: Components) -> bool {
    &&& c.transform is Some
    &&& c == (Components {
        transform: c.transform,
        bullet_spawner: Some(BulletSpawner),
        ..Components::spec_new()
    })
}

/// A way to build a turret with its muzzle.
pub trait TurretSpawner {
    /// What the turret carries when it is built.
    spec fn turret(&self) -> Components;

    /// What the turret's muzzle carries when it is built.
    spec fn muzzle(&self) -> Components;

    /// What is built is a turret with a muzzle and nothing more.
    proof fn lemma_turret(&self)
        ensures
            is_turret(self.turret()),
            is_muzzle(self.muzzle()),
    ;

    /// Builds the turret and its muzzle.
    fn spawn_turret(&self) -> (built: (Components, Components))
        ensures
            built.0 == self.turret(),
            built.1 == self.muzzle(),
    ;
}

/// How far to its right a turret at `place` sees the point (`x`, `z`): the dot
/// product of its right axis with the way to the point, on the horizontal plane.
pub open spec fn side_of(place: GlobalTransform, x: i32, z: i32) -> int {
    place.right.x * (x - place.translation.x) + place.right.z * (z - place.translation.z)
}

/// The sense of the turn toward a point seen `side` to the right: negative about
/// the vertical axis for a point on the right or straight ahead, positive for one
/// on the left.
pub open spec fn turn_sign(side: int) -> int {
    if side >= 0 {
        -1
    } else {
        1
    }
}

/// The speed, in nanoradians per second, at which a turret closes an angle of
/// `angle` nanoradians: the angle times a rate, where the rate is the rotation
/// speed divided by the angle in radians, kept between 1 and the rotation speed.
pub open spec fn turn_speed(angle: u32) -> int {
    let full = TURRET_ROTATION_SPEED * NANOS_PER_SECOND;
    if angle >= full {
        angle as int
    } else if angle * TURRET_ROTATION_SPEED <= full {
        angle * TURRET_ROTATION_SPEED
    } else {
        full
    }
}

/// The turn about the vertical axis, in units of 10⁻¹⁸ radians, that a turret
/// makes in `delta` nanoseconds when its target lies `angle` nanoradians off and
/// is seen `side` to the right: none within the dead zone, else sense times speed
/// times time.
pub open spec fn turn(angle: u32, side: int, delta: u64) -> int {
    if angle <= DEAD_ZONE {
        0
    } else {
        turn_sign(side) * (turn_speed(angle) * delta)
    }
}

/// Whether `e` is a live turret that can be aimed: it is placed on its tank and in
/// the world.
pub open spec fn is_aimable(s: Slots, e: Entity) -> bool {
    lookup(s, e) matches Some(c) && c.turret is Some && c.transform is Some
        && c.global_transform is Some
}

/// A turret after a turn of `by`: only the yaw of its placement has changed, and
/// stops at the ends of the `i128` range.
pub open spec fn turned_by(c: Components, by: int) -> Components
    recommends
        c.transform is Some,
{
    let placement = c.transform.unwrap();
    Components {
        transform: Some(
            Transform {
                translation: placement.translation,
                yaw: clamp_i128(placement.yaw + by) as i128,
            },
        ),
        ..c
    }
}

/// The turn that the aim command `event` asks of its turret: see [`turn`]. A
/// command for anything but a live turret that can be aimed asks for none.
pub open spec fn turn_for(s: Slots, event: TurretMovement, angle: u32, delta: u64) -> int {
    if is_aimable(s, event.turret_entity) {
        let place = s[event.turret_entity as int].unwrap().global_transform.unwrap();
        turn(angle, side_of(place, event.x, event.z), delta)
    } else {
        0
    }
}

/// `s` after one aim command, where the engine measured `angle` nanoradians
/// between the turret's forward direction and the way to the target: the turret
/// has made its turn; a command for anything else is dropped.
pub open spec fn aimed(s: Slots, event: TurretMovement, angle: u32, delta: u64) -> Slots {
    if is_aimable(s, event.turret_entity) && angle > DEAD_ZONE {
        s.update(
            event.turret_entity as int,
            Some(
                turned_by(
                    s[event.turret_entity as int].unwrap(),
                    turn_for(s, event, angle, delta),
                ),
            ),
        )
    } else {
        s
    }
}

/// `s` after a run of aim commands, taken in order.
pub open spec fn aimed_all(s: Slots, aims: Seq<Aim>, delta: u64) -> Slots
    decreases aims.len(),
{
    if aims.len() == 0 {
        s
    } else {
        aimed(aimed_all(s, aims.drop_last(), delta), aims.last().movement, aims.last().angle, delta)
    }
}

/// The angle, in units of 10⁻¹⁸ radians, that is left between a turret and a
/// target that stays where it is, after the turret has turned by `by` toward it
/// from `angle` nanoradians off.
pub open spec fn angle_left(angle: u32, by: int) -> int {
    let before = angle * NANOS_PER_SECOND;
    let size = if by >= 0 {
        by
    } else {
        -by
    };
    if size <= before {
        before - size
    } else {
        size - before
    }
}

/// The side on which a turret at `place` sees the point (`x`, `z`).
fn side(place: &GlobalTransform, x: i32, z: i32) -> (side: i128)
    ensures
        side == side_of(*place, x, z),
{
    let dx: i128 = x as i128 - place.translation.x as i128;
    let dz: i128 = z as i128 - place.translation.z as i128;
    let rx: i128 = place.right.x as i128;
    let rz: i128 = place.right.z as i128;
    assert(-0x8000_0000 * 0x1_0000_0000 <= rx * dx <= 0x8000_0000 * 0x1_0000_0000)
        by (nonlinear_arith)
        requires
            -0x8000_0000 <= rx <= 0x8000_0000,
            -0x1_0000_0000 <= dx <= 0x1_0000_0000,
    ;
    assert(-0x8000_0000 * 0x1_0000_0000 <= rz * dz <= 0x8000_0000 * 0x1_0000_0000)
        by (nonlinear_arith)
        requires
            -0x8000_0000 <= rz <= 0x8000_0000,
            -0x1_0000_0000 <= dz <= 0x1_0000_0000,
    ;
    rx * dx + rz * dz
}

/// The speed at which a turret closes `angle`.
fn speed(angle: u32) -> (speed: u64)
    ensures
        speed == turn_speed(angle),
        speed <= 3 * 0xffff_ffff,
        angle > 0 ==> speed > 0,
{
    let full: u64 = TURRET_ROTATION_SPEED * NANOS_PER_SECOND;
    let angle: u64 = angle as u64;
    if angle >= full {
        angle
    } else if angle * TURRET_ROTATION_SPEED <= full {
        angle * TURRET_ROTATION_SPEED
    } else {
        full
    }
}

/// Carries out one aim command for a tick of `delta` nanoseconds. `angle` is what
/// the engine measured, in nanoradians, between the turret's forward direction
/// and the way to the target, both taken on the horizontal plane. Within the dead
/// zone the turret stays as it is. Outside it turns toward the target, the faster
/// the larger the angle, and only its yaw changes. A command for anything but a
/// live turret that can be aimed is dropped. Returns the turn that was asked for,
/// in units of 10⁻¹⁸ radians.
pub fn move_turret(world: &mut World, event: &TurretMovement, angle: u32, delta: u64) -> (by: i128)
    requires
        old(world).wf(),
    ensures
        final(world)@ == aimed(old(world)@, *event, angle, delta),
        final(world).wf(),
        by == turn_for(old(world)@, *event, angle, delta),
{
    let e = event.turret_entity;
    if let Some(c) = world.get(e) {
        if let Some(placement) = c.transform {
            if let Some(place) = c.global_transform {
                if c.turret.is_some() && angle > DEAD_ZONE {
                    let to_right = side(&place, event.x, event.z);
                    let rate = speed(angle);
                    assert(0 <= rate * delta <= 3 * 0xffff_ffff * 0xffff_ffff_ffff_ffff)
                        by (nonlinear_arith)
                        requires
                            0 <= rate <= 3 * 0xffff_ffff,
                            0 <= delta <= 0xffff_ffff_ffff_ffff,
                    ;
                    let size: i128 = rate as i128 * delta as i128;
                    let by: i128 = if to_right >= 0 {
                        -size
                    } else {
                        size
                    };
                    assert(by == turn_sign(to_right as int) * (turn_speed(angle) * delta)) by {
                        let whole = turn_speed(angle) * delta;
                        assert(-1 * whole == -whole && 1 * whole == whole);
                    }
                    let mut c = c;
                    c.transform = Some(
                        Transform {
                            translation: placement.translation,
                            yaw: saturating_add_i128(placement.yaw, by),
                        },
                    );
                    world.put(e, c);
                    return by;
                }
            }
        }
    }
    0
}

/// Carries out each aim command in turn: see [`move_turret`].
pub fn move_turrets(world: &mut World, aims: &Vec<Aim>, delta: u64)
    requires
        old(world).wf(),
    ensures
        final(world)@ == aimed_all(old(world)@, aims@, delta),
        final(world).wf(),
{
    let mut i: usize = 0;
    while i < aims.len()
        invariant
            i <= aims.len(),
            world.wf(),
            world@ == aimed_all(old(world)@, aims@.take(i as int), delta),
        decreases aims.len() - i,
    {
        let aim = aims[i];
        proof {
            assert(aims@.take(i + 1).drop_last() == aims@.take(i as int));
        }
        move_turret(world, &aim.movement, aim.angle, delta);
        i += 1;
    }
    proof {
        assert(aims@.take(aims.len() as int) == aims@);
    }
}

/// Within the dead zone an aim command changes nothing, however often it comes.
pub proof fn lemma_dead_zone_is_still(s: Slots, event: TurretMovement, angle: u32, delta: u64)
    requires
        angle <= DEAD_ZONE,
    ensures
        aimed(s, event, angle, delta) == s,
        turn_for(s, event, angle, delta) == 0,
{
}

/// Outside the dead zone, one tick brings a turret closer to a target that stays
/// where it is exactly when time has passed and the turn is less than twice the
/// angle; any tick of less than two thirds of a second is such a tick.
pub proof fn lemma_angle_decreases(angle: u32, side: int, delta: u64)
    requires
        angle > DEAD_ZONE,
    ensures
        angle_left(angle, turn(angle, side, delta)) < angle * NANOS_PER_SECOND <==> 0 < delta
            && turn_speed(angle) * delta < 2 * (angle * NANOS_PER_SECOND),
        0 < delta && 3 * delta < 2 * NANOS_PER_SECOND ==> angle_left(
            angle,
            turn(angle, side, delta),
        ) < angle * NANOS_PER_SECOND,
{
    let speed = turn_speed(angle);
    let size = speed * delta;
    assert(size >= 0 && (delta > 0 ==> size > 0) && (delta == 0 ==> size == 0))
        by (nonlinear_arith)
        requires
            size == speed * delta,
            speed > 0,
            delta >= 0,
    ;
    assert(turn(angle, side, delta) == size || turn(angle, side, delta) == -size)
        by (nonlinear_arith)
        requires
            turn(angle, side, delta) == turn_sign(side) * size,
            turn_sign(side) == 1 || turn_sign(side) == -1,
    ;
    if 0 < delta && 3 * delta < 2 * NANOS_PER_SECOND {
        assert(speed * delta < 2 * (angle * NANOS_PER_SECOND)) by (nonlinear_arith)
            requires
                0 < speed <= 3 * angle,
                0 < delta,
                3 * delta < 2 * NANOS_PER_SECOND,
                angle > 0,
        ;
    }
}

} // verus!
