//! The basic turret and the projectiles it fires.
use crate::entities::bullet::Bullet;
use crate::entities::paintable_surface::PaintingObject;
use crate::entities::tank_body::LinearVelocity;
use crate::entities::turret::{BulletSpawner, Shoot, Turret, TurretSpawner};
use crate::math::{Vec3, NANOS_PER_SECOND};
use crate::world::{lookup, Components, Entity, GlobalTransform, Slots, Transform, World};
use vstd::prelude::*;

verus! {

/// The speed of a projectile, in world units per second.
pub const BULLET_SPEED: i128 = 20;

/// The damage of a projectile of the basic turret.
pub const BULLET_DAMAGE: u8 = 50;

/// The tag of the basic turret, and the strategy that builds it.
#[derive(Clone, Copy, Debug, PartialEq, Eq, Structural)]
pub struct BasicTurret;

impl TurretSpawner for BasicTurret {
    /// The basic turret sits half a unit above its tank.
    open spec fn turret(&self) -> Components {
        Components {
            transform: Some(Transform { translation: Vec3 { x: 0, y: 500, z: 0 }, yaw: 0 }),
            turret: Some(Turret),
            basic_turret: Some(BasicTurret),
            ..Components::spec_new()
        }
    }

    /// Its muzzle lies a quarter of a unit above the turret and one unit ahead.
    open spec fn muzzle(&self) -> Components {
        Components {
            transform: Some(
                Transform { translation: Vec3 { x: 0, y: 250, z: -1000i32 }, yaw: 0 },
            ),
            bullet_spawner: Some(BulletSpawner),
            ..Components::spec_new()
        }
    }

    proof fn lemma_turret(&self) {
    }

    fn spawn_turret(&self) -> (built: (Components, Components)) {
        let mut turret = Components::new();
        turret.transform = Some(Transform { translation: Vec3 { x: 0, y: 500, z: 0 }, yaw: 0 });
        turret.turret = Some(Turret);
        turret.basic_turret = Some(BasicTurret);
        let mut muzzle = Components::new();
        muzzle.transform = Some(
            Transform { translation: Vec3 { x: 0, y: 250, z: -1000 }, yaw: 0 },
        );
        muzzle.bullet_spawner = Some(BulletSpawner);
        (turret, muzzle)
    }
}

/// Whether `e` is a muzzle of `turret` that the engine has placed: a live child of
/// it that is tagged as bullet spawner and has a place in the world.
pub open spec fn is_muzzle_of(s: Slots, turret: Entity, e: int) -> bool {
    &&& 0 <= e < s.len()
    &&& s[e] matches Some(c) && c.parent == Some(turret) && c.bullet_spawner is Some
        && c.global_transform is Some
}

/// The first muzzle of `turret` among the entities from number `from` on.
pub open spec fn muzzle_from(s: Slots, turret: Entity, from: int) -> Option<Entity>
    decreases s.len() - from,
{
    if from < 0 || from >= s.len() {
        None
    } else if is_muzzle_of(s, turret, from) {
        Some(from as Entity)
    } else {
        muzzle_from(s, turret, from + 1)
    }
}

/// The muzzle that `turret` fires from: its first one, by number.
pub open spec fn muzzle_of(s: Slots, turret: Entity) -> Option<Entity> {
    muzzle_from(s, turret, 0)
}

/// The velocity of a projectile that leaves in direction `forward`.
pub open spec fn muzzle_velocity(forward: Vec3) -> LinearVelocity {
    LinearVelocity {
        x: (forward.x * BULLET_SPEED * NANOS_PER_SECOND) as i128,
        y: (forward.y * BULLET_SPEED * NANOS_PER_SECOND) as i128,
        z: (forward.z * BULLET_SPEED * NANOS_PER_SECOND) as i128,
    }
}

/// What makes the projectile of a turret carrying `turret` paint: the colour of
/// the turret's team, with a throttle that starts at zero; nothing for a turret
/// without a team.
pub open spec fn paint_of(turret: Components) -> Option<PaintingObject> {
    match turret.team {
        Some(team) => Some(PaintingObject::fresh(team.0)),
        None => None,
    }
}

/// The projectile that a turret carrying `turret` fires from a muzzle at `muzzle`:
/// it stands where the muzzle stands, flies where the muzzle points, belongs to the
/// turret's team, paints in its colour, and has its whole lifetime ahead of it.
pub open spec fn bullet_from(turret: Components, muzzle: GlobalTransform) -> Components {
    Components {
        global_transform: Some(muzzle),
        team: turret.team,
        linear_velocity: Some(muzzle_velocity(muzzle.forward)),
        painting_object: paint_of(turret),
        bullet: Some(Bullet::fresh(BULLET_DAMAGE)),
        ..Components::spec_new()
    }
}

/// What `turret` would fire now: nothing unless it is a live basic turret with a
/// muzzle that the engine has placed.
pub open spec fn bullet_of(s: Slots, turret: Entity) -> Option<Components> {
    match lookup(s, turret) {
        Some(t) => if t.basic_turret is Some {
            match muzzle_of(s, turret) {
                Some(m) => Some(bullet_from(t, s[m as int].unwrap().global_transform.unwrap())),
                None => None,
            }
        } else {
            None
        },
        None => None,
    }
}

/// `s` after one fire command: the projectile is a new entity, or the command was
/// dropped and nothing has changed.
pub open spec fn shot(s: Slots, event: Shoot) -> Slots {
    match bullet_of(s, event.turret) {
        Some(b) => s.push(Some(b)),
        None => s,
    }
}

/// `s` after a run of fire commands, taken in order.
pub open spec fn shot_all(s: Slots, events: Seq<Shoot>) -> Slots
    decreases events.len(),
{
    if events.len() == 0 {
        s
    } else {
        shot(shot_all(s, events.drop_last()), events.last())
    }
}

/// The muzzle that `turret` fires from.
fn find_muzzle(world: &World, turret: Entity) -> (muzzle: Option<(Entity, GlobalTransform)>)
    ensures
        match muzzle {
            Some((m, place)) => muzzle_of(world@, turret) == Some(m) && is_muzzle_of(
                world@,
                turret,
                m as int,
            ) && world@[m as int].unwrap().global_transform == Some(place),
            None => muzzle_of(world@, turret) is None,
        },
{
    let n = world.len();
    let mut e: usize = 0;
    while e < n
        invariant
            n == world@.len(),
            e <= n,
            muzzle_of(world@, turret) == muzzle_from(world@, turret, e as int),
        decreases n - e,
    {
        if let Some(c) = world.get(e) {
            if let Some(place) = c.global_transform {
                if c.bullet_spawner.is_some() && c.parent == Some(turret) {
                    return Some((e, place));
                }
            }
        }
        e += 1;
    }
    None
}

/// Fires for each command in turn. A command whose turret is no live basic turret,
/// or has no muzzle that the engine has placed, is dropped. Returns the numbers of
/// the new projectiles, in the order of their commands.
pub fn shoot_bullet(world: &mut World, events: &Vec<Shoot>) -> (bullets: Vec<Entity>)
    requires
        old(world).wf(),
    ensures
        final(world)@ == shot_all(old(world)@, events@),
        final(world).wf(),
        bullets@ == Seq::new(
            (final(world)@.len() - old(world)@.len()) as nat,
            |i: int| (old(world)@.len() + i) as Entity,
        ),
{
    let mut bullets: Vec<Entity> = Vec::new();
    let mut i: usize = 0;
    while i < events.len()
        invariant
            i <= events.len(),
            world.wf(),
            world@ == shot_all(old(world)@, events@.take(i as int)),
            world@.len() >= old(world)@.len(),
            bullets@ == Seq::new(
                (world@.len() - old(world)@.len()) as nat,
                |i: int| (old(world)@.len() + i) as Entity,
            ),
        decreases events.len() - i,
    {
        let event = events[i];
        proof {
            assert(events@.take(i + 1).drop_last() == events@.take(i as int));
        }
        if let Some(t) = world.get(event.turret) {
            if t.basic_turret.is_some() {
                if let Some((_, place)) = find_muzzle(world, event.turret) {
                    let mut b = Components::new();
                    b.global_transform = Some(place);
                    b.team = t.team;
                    b.linear_velocity = Some(
                        LinearVelocity {
                            x: place.forward.x as i128 * 20_000_000_000,
                            y: place.forward.y as i128 * 20_000_000_000,
                            z: place.forward.z as i128 * 20_000_000_000,
                        },
                    );
                    b.bullet = Some(Bullet::new(BULLET_DAMAGE));
                    b.painting_object = match t.team {
                        Some(team) => Some(PaintingObject::new(team.0)),
                        None => None,
                    };
                    proof {
                        assert(place.forward.x * BULLET_SPEED * NANOS_PER_SECOND
                            == place.forward.x * 20_000_000_000) by (nonlinear_arith);
                        assert(place.forward.y * BULLET_SPEED * NANOS_PER_SECOND
                            == place.forward.y * 20_000_000_000) by (nonlinear_arith);
                        assert(place.forward.z * BULLET_SPEED * NANOS_PER_SECOND
                            == place.forward.z * 20_000_000_000) by (nonlinear_arith);
                    }
                    let e = world.push(b);
                    bullets.push(e);
                }
            }
        }
        i += 1;
    }
    proof {
        assert(events@.take(events.len() as int) == events@);
    }
    bullets
}

} // verus!
