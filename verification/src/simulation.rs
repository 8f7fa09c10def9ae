//! One tick of the simulation, with every step in its place.
use crate::entities::bullet::{
    age_bullets, aged_all, apply_collisions, collided_all, CollisionStart,
};
use crate::entities::despawn_entity::{despawn_entity, doomed, swept};
use crate::entities::paintable_surface::{paint_surface, painted_upto, RayHit};
use crate::entities::tank_body::{move_tank, moved_all, Movement, TankBodySpawner};
use crate::entities::turret::basic_turret::{shoot_bullet, shot_all};
use crate::entities::turret::{aimed_all, move_turrets, Aim, Shoot, TurretSpawner};
use crate::tank::{spawn_tank, spawned_all, tanks_of, SpawnTank, SpawnedTank};
use crate::world::{Entity, Slots, World};
use vstd::prelude::*;

verus! {

/// The commands of one tick.
pub struct Commands<T, B> {
    pub spawns: Vec<SpawnTank<T, B>>,
    pub movements: Vec<Movement>,
    pub aims: Vec<Aim>,
    pub shots: Vec<Shoot>,
}

/// What the physics engine reports for one tick: the collisions that began, and
/// what the rays below the painting entities met.
pub struct Reports {
    pub collisions: Vec<CollisionStart>,
    pub ray_hits: Vec<RayHit>,
}

/// What one tick made and removed.
pub struct Outcome {
    pub tanks: Vec<SpawnedTank>,
    pub bullets: Vec<Entity>,
    pub marks: Vec<Entity>,
    pub gone: Vec<Entity>,
}

/// `s` once the commands of a tick are carried out: the requests for tanks first,
/// then the movement commands, the aim commands and the fire commands.
pub open spec fn commanded<T: TurretSpawner, B: TankBodySpawner>(
    s: Slots,
    spawns: Seq<SpawnTank<T, B>>,
    movements: Seq<Movement>,
    aims: Seq<Aim>,
    shots: Seq<Shoot>,
    delta: u64,
) -> Slots {
    shot_all(aimed_all(moved_all(spawned_all(s, spawns), movements, delta), aims, delta), shots)
}

/// `s` once the collisions of a tick have done their damage, the projectiles have
/// aged, and every painting entity that lived by then has had its turn; nothing
/// has been removed yet.
pub open spec fn settled(
    s: Slots,
    collisions: Seq<CollisionStart>,
    ray_hits: Seq<RayHit>,
    delta: u64,
) -> Slots {
    let aged = aged_all(collided_all(s, collisions), delta);
    painted_upto(aged, ray_hits, delta, aged.len() as int)
}

/// `s` after one whole tick of `delta` nanoseconds: commands, then collisions and
/// timers, then the removal of all that was tagged on the way.
pub open spec fn ticked<T: TurretSpawner, B: TankBodySpawner>(
    s: Slots,
    spawns: Seq<SpawnTank<T, B>>,
    movements: Seq<Movement>,
    aims: Seq<Aim>,
    shots: Seq<Shoot>,
    collisions: Seq<CollisionStart>,
    ray_hits: Seq<RayHit>,
    delta: u64,
) -> Slots {
    swept(
        settled(commanded(s, spawns, movements, aims, shots, delta), collisions, ray_hits, delta),
    )
}

/// Runs one tick of `delta` nanoseconds. The commands are carried out first, each
/// kind in turn: requests for tanks, movement, aim, fire. Then the collisions do
/// their damage, the projectiles age, and the painting entities paint. Whatever
/// was tagged on the way is removed last, so that every step has seen it. When
/// the tick is over no entity carries a tag.
pub fn tick<T: TurretSpawner, B: TankBodySpawner>(
    world: &mut World,
    commands: &Commands<T, B>,
    reports: &Reports,
    delta: u64,
) -> (outcome: Outcome)
    requires
        old(world).wf(),
    ensures
        final(world).wf(),
        final(world)@ == ticked(
            old(world)@,
            commands.spawns@,
            commands.movements@,
            commands.aims@,
            commands.shots@,
            reports.collisions@,
            reports.ray_hits@,
            delta,
        ),
        outcome.tanks@ == tanks_of(old(world)@, commands.spawns@),
        forall|e: int|
            0 <= e < final(world)@.len() ==> ((#[trigger] final(world)@[e]) matches Some(c)
                ==> c.despawn_entity is None),
        ({
            let commanded = commanded(
                old(world)@,
                commands.spawns@,
                commands.movements@,
                commands.aims@,
                commands.shots@,
                delta,
            );
            let aimed = aimed_all(
                moved_all(
                    spawned_all(old(world)@, commands.spawns@),
                    commands.movements@,
                    delta,
                ),
                commands.aims@,
                delta,
            );
            let aged = aged_all(collided_all(commanded, reports.collisions@), delta);
            let settled = settled(commanded, reports.collisions@, reports.ray_hits@, delta);
            &&& outcome.bullets@ == Seq::new(
                (commanded.len() - aimed.len()) as nat,
                |i: int| (aimed.len() + i) as Entity,
            )
            &&& outcome.marks@ == Seq::new(
                (settled.len() - aged.len()) as nat,
                |i: int| (aged.len() + i) as Entity,
            )
            &&& forall|e: Entity| outcome.gone@.contains(e) <==> doomed(settled, e as int)
            &&& forall|i: int, j: int|
                0 <= i < j < outcome.gone@.len() ==> outcome.gone@[i] < outcome.gone@[j]
        }),
{
    let tanks = spawn_tank(world, &commands.spawns);
    move_tank(world, &commands.movements, delta);
    move_turrets(world, &commands.aims, delta);
    let bullets = shoot_bullet(world, &commands.shots);
    apply_collisions(world, &reports.collisions);
    age_bullets(world, delta);
    let marks = paint_surface(world, &reports.ray_hits, delta);
    let gone = despawn_entity(world);
    Outcome { tanks, bullets, marks, gone }
}

} // verus!
