//! Projectiles: the damage they deal when they hit, and their time to live.
use crate::entities::despawn_entity::{doomed, marked, swept, tagged, DespawnEntity};
use crate::tank::Health;
use crate::timer::{Timer, TimerMode};
use crate::world::{fits, lookup, slots_wf, Components, Entity, Slots, World};
use vstd::prelude::*;

verus! {

/// How long a projectile flies before it is removed: two seconds, in nanoseconds.
pub const BULLET_LIFETIME: u64 = 2_000_000_000;

/// A projectile: the damage it deals and the time it has left.
#[derive(Clone, Copy, Debug, PartialEq, Eq, Structural)]
pub struct Bullet {
    pub damage: u8,
    pub lifetime: Timer,
}

/// The physics engine's report that two entities have started to touch.
#[derive(Clone, Copy, Debug, PartialEq, Eq, Structural)]
pub struct CollisionStart {
    pub entity_a: Entity,
    pub entity_b: Entity,
}

impl Bullet {
    /// A projectile deals damage and its lifetime is a well-formed one-shot timer.
    pub open spec fn wf(self) -> bool {
        &&& self.damage > 0
        &&& self.lifetime.wf()
        &&& self.lifetime.mode == TimerMode::Once
    }

    /// A projectile of the given damage with its whole lifetime ahead of it.
    pub open spec fn fresh(damage: u8) -> Bullet {
        Bullet { damage, lifetime: Timer::fresh(BULLET_LIFETIME, TimerMode::Once) }
    }

    /// A projectile of the given damage with its whole lifetime ahead of it.
    pub fn new(damage: u8) -> (bullet: Bullet)
        requires
            damage > 0,
        ensures
            bullet == Bullet::fresh(damage),
            bullet.wf(),
    {
        Bullet { damage, lifetime: Timer::new(BULLET_LIFETIME, TimerMode::Once) }
    }
}

/// Whether `e` is a live projectile.
pub open spec fn is_bullet(s: Slots, e: Entity) -> bool {
    lookup(s, e) matches Some(c) && c.bullet is Some
}

/// Whether `e` is a live entity that a projectile can damage: one with health that
/// a player steers.
pub open spec fn is_target(s: Slots, e: Entity) -> bool {
    lookup(s, e) matches Some(c) && c.health is Some && c.player is Some
}

/// What is left of `health` after `damage`: the difference, and nothing below zero.
pub open spec fn health_after(health: u8, damage: u8) -> u8 {
    if health >= damage {
        (health - damage) as u8
    } else {
        0
    }
}

/// An entity with health after a hit of `damage`: it has lost that much health, and
/// with none left it is tagged for removal.
pub open spec fn damaged(c: Components, damage: u8) -> Components
    recommends
        c.health is Some,
{
    let left = health_after(c.health.unwrap().0, damage);
    Components {
        health: Some(Health(left)),
        despawn_entity: if left == 0 {
            Some(DespawnEntity)
        } else {
            c.despawn_entity
        },
        ..c
    }
}

/// `s` after `bullet` has hit `target`. Where the one is a live projectile and the
/// other a live entity with health that a player steers, the target is damaged and
/// the projectile is tagged for removal, whatever health the target had. Otherwise
/// nothing changes.
pub open spec fn hit(s: Slots, bullet: Entity, target: Entity) -> Slots {
    if is_bullet(s, bullet) && is_target(s, target) {
        let damage = s[bullet as int].unwrap().bullet.unwrap().damage;
        marked(s.update(target as int, Some(damaged(s[target as int].unwrap(), damage))), bullet)
    } else {
        s
    }
}

/// `s` after the collision `pair`, whichever of the two is the projectile.
pub open spec fn collided(s: Slots, pair: CollisionStart) -> Slots {
    if is_bullet(s, pair.entity_a) && is_target(s, pair.entity_b) {
        hit(s, pair.entity_a, pair.entity_b)
    } else {
        hit(s, pair.entity_b, pair.entity_a)
    }
}

/// `s` after a run of collisions, taken in order.
pub open spec fn collided_all(s: Slots, pairs: Seq<CollisionStart>) -> Slots
    decreases pairs.len(),
{
    if pairs.len() == 0 {
        s
    } else {
        collided(collided_all(s, pairs.drop_last()), pairs.last())
    }
}

/// A projectile after `delta` more nanoseconds: its lifetime has advanced, and once
/// it has run out the projectile is tagged for removal.
pub open spec fn aged(c: Components, delta: u64) -> Components
    recommends
        c.bullet is Some,
{
    let bullet = c.bullet.unwrap();
    let lifetime = bullet.lifetime.ticked(delta);
    Components {
        bullet: Some(Bullet { damage: bullet.damage, lifetime }),
        despawn_entity: if lifetime.finished {
            Some(DespawnEntity)
        } else {
            c.despawn_entity
        },
        ..c
    }
}

/// `s` after every projectile has aged by `delta` nanoseconds.
pub open spec fn aged_all(s: Slots, delta: u64) -> Slots {
    Seq::new(
        s.len(),
        |e: int|
            match s[e] {
                Some(c) => if c.bullet is Some {
                    Some(aged(c, delta))
                } else {
                    Some(c)
                },
                None => None,
            },
    )
}

/// Applies the hit of projectile `bullet` on `target`: the target loses the
/// projectile's damage and is tagged for removal when no health is left; the
/// projectile is tagged for removal. Nothing happens unless `bullet` is a live
/// projectile and `target` a live entity with health that a player steers.
pub fn on_collision_start(world: &mut World, bullet: Entity, target: Entity)
    requires
        old(world).wf(),
    ensures
        final(world)@ == hit(old(world)@, bullet, target),
        final(world).wf(),
{
    if let Some(b) = world.get(bullet) {
        if let Some(projectile) = b.bullet {
            if let Some(t) = world.get(target) {
                if let Some(health) = t.health {
                    if t.player.is_some() {
                        let left = health.0.saturating_sub(projectile.damage);
                        let mut t = t;
                        t.health = Some(Health(left));
                        if left == 0 {
                            t.despawn_entity = Some(DespawnEntity);
                        }
                        world.put(target, t);
                        crate::entities::despawn_entity::mark_for_despawn(world, bullet);
                    }
                }
            }
        }
    }
}

/// Applies the collisions that the physics engine reported, in order. A pair
/// counts where one of the two is a live projectile and the other a live entity
/// with health that a player steers; any other pair changes nothing.
pub fn apply_collisions(world: &mut World, pairs: &Vec<CollisionStart>)
    requires
        old(world).wf(),
    ensures
        final(world)@ == collided_all(old(world)@, pairs@),
        final(world).wf(),
{
    let mut i: usize = 0;
    while i < pairs.len()
        invariant
            i <= pairs.len(),
            world.wf(),
            world@ == collided_all(old(world)@, pairs@.take(i as int)),
        decreases pairs.len() - i,
    {
        let pair = pairs[i];
        proof {
            assert(pairs@.take(i + 1).drop_last() == pairs@.take(i as int));
        }
        let a_is_bullet = match world.get(pair.entity_a) {
            Some(c) => c.bullet.is_some(),
            None => false,
        };
        let b_is_target = match world.get(pair.entity_b) {
            Some(c) => c.health.is_some() && c.player.is_some(),
            None => false,
        };
        if a_is_bullet && b_is_target {
            on_collision_start(world, pair.entity_a, pair.entity_b);
        } else {
            on_collision_start(world, pair.entity_b, pair.entity_a);
        }
        i += 1;
    }
    proof {
        assert(pairs@.take(pairs.len() as int) == pairs@);
    }
}

/// Ages every projectile by `delta` nanoseconds and tags those whose lifetime has
/// run out for removal.
pub fn age_bullets(world: &mut World, delta: u64)
    requires
        old(world).wf(),
    ensures
        final(world)@ == aged_all(old(world)@, delta),
        final(world).wf(),
{
    let n = world.len();
    let mut e: usize = 0;
    while e < n
        invariant
            e <= n,
            n == world@.len(),
            world@.len() == old(world)@.len(),
            world.wf(),
            forall|j: int| 0 <= j < e ==> world@[j] == aged_all(old(world)@, delta)[j],
            forall|j: int| e <= j < n ==> world@[j] == old(world)@[j],
        decreases n - e,
    {
        if let Some(c) = world.get(e) {
            if let Some(bullet) = c.bullet {
                let mut lifetime = bullet.lifetime;
                lifetime.tick(delta);
                let mut c = c;
                c.bullet = Some(Bullet { damage: bullet.damage, lifetime });
                if lifetime.is_finished() {
                    c.despawn_entity = Some(DespawnEntity);
                }
                world.put(e, c);
            }
        }
        e += 1;
    }
    proof {
        assert(world@ =~= aged_all(old(world)@, delta));
    }
}

/// A hit takes the projectile's damage from the target's health and stops at
/// zero; health never rises. The projectile is tagged for removal whatever the
/// target's health was. A target that is not the projectile itself is tagged
/// exactly when it has no health left or was tagged before, so a hit on a target
/// without health tags nothing anew. Nothing else about the two changes, and no
/// other entity changes at all.
pub proof fn lemma_hit(s: Slots, bullet: Entity, target: Entity)
    requires
        is_bullet(s, bullet),
        is_target(s, target),
    ensures
        ({
            let after = hit(s, bullet, target);
            let damage = s[bullet as int].unwrap().bullet.unwrap().damage;
            let before = s[target as int].unwrap();
            let left = health_after(before.health.unwrap().0, damage);
            &&& after.len() == s.len()
            &&& after[target as int] matches Some(t) && t.health == Some(Health(left))
            &&& left <= before.health.unwrap().0
            &&& left == before.health.unwrap().0 - damage || left == 0
            &&& after[bullet as int] matches Some(b) && b.despawn_entity is Some
            &&& bullet != target ==> after[target as int] == Some(damaged(before, damage))
                && after[bullet as int] == Some(tagged(s[bullet as int].unwrap()))
            &&& bullet != target ==> (after[target as int].unwrap().despawn_entity is Some <==> left
                == 0 || before.despawn_entity is Some)
            &&& bullet == target ==> after[target as int] == Some(tagged(damaged(before, damage)))
            &&& forall|e: int|
                0 <= e < s.len() && e != bullet && e != target ==> after[e] == s[e]
        }),
{
}

/// A projectile that has hit is gone after the removal at the end of the tick.
pub proof fn lemma_hit_bullet_leaves(s: Slots, bullet: Entity, target: Entity)
    requires
        is_bullet(s, bullet),
        is_target(s, target),
    ensures
        doomed(hit(s, bullet, target), bullet as int),
        swept(hit(s, bullet, target))[bullet as int] is None,
{
}

/// A projectile whose lifetime runs out is gone after the removal at the end of
/// the tick; one with time left, that is not tagged and belongs to nothing, stays.
pub proof fn lemma_bullet_expires(s: Slots, bullet: Entity, delta: u64)
    requires
        slots_wf(s),
        is_bullet(s, bullet),
    ensures
        ({
            let c = s[bullet as int].unwrap();
            let lifetime = c.bullet.unwrap().lifetime;
            let after = swept(aged_all(s, delta));
            &&& lifetime.elapsed + delta >= lifetime.duration ==> after[bullet as int] is None
            &&& lifetime.elapsed + delta < lifetime.duration && c.despawn_entity is None
                && c.parent is None ==> after[bullet as int] is Some
        }),
{
    // The lifetime of a projectile in a well-formed world is well formed.
    assert(fits(s, bullet as int, s[bullet as int].unwrap()));
}

/// A slot whose entity is gone stays empty when the projectiles age.
pub proof fn lemma_aging_wakes_nothing(s: Slots, e: int, delta: u64)
    requires
        0 <= e < s.len(),
        s[e] is None,
    ensures
        aged_all(s, delta)[e] is None,
        !doomed(aged_all(s, delta), e),
{
}

} // verus!
