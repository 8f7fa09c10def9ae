//! The world: every entity under a stable number, with what it carries.
use crate::entities::bullet::Bullet;
use crate::entities::despawn_entity::DespawnEntity;
use crate::entities::paintable_surface::{Paint, PaintableSurface, PaintingObject};
use crate::entities::tank_body::basic_tank_body::BasicTankBody;
use crate::entities::tank_body::{AngularVelocity, LinearVelocity, TankBody};
use crate::entities::turret::basic_turret::BasicTurret;
use crate::entities::turret::{BulletSpawner, Turret};
use crate::maps::{GameMap, SpawnPoint};
use crate::math::Vec3;
use crate::tank::{Health, Player, Team, MAX_HEALTH};
use crate::timer::TimerMode;
use vstd::prelude::*;

verus! {

/// The number of an entity. Numbers are given out in order and never used twice.
pub type Entity = usize;

/// Where an entity was placed relative to its parent: a translation in thousandths
/// and a turn about the vertical axis in units of 10⁻¹⁸ radians.
#[derive(Clone, Copy, Debug, PartialEq, Eq, Structural)]
pub struct Transform {
    pub translation: Vec3,
    pub yaw: i128,
}

/// Where the engine last saw an entity in the world: its position, the direction
/// it faces and the direction to its right, in thousandths.
#[derive(Clone, Copy, Debug, PartialEq, Eq, Structural)]
pub struct GlobalTransform {
    pub translation: Vec3,
    pub forward: Vec3,
    pub right: Vec3,
}

/// What one entity carries. A component that is `None` is absent.
#[derive(Clone, Copy, Debug, PartialEq, Eq, Structural)]
pub struct Components {
    /// The entity this one belongs to and is removed with.
    pub parent: Option<Entity>,
    pub transform: Option<Transform>,
    pub global_transform: Option<GlobalTransform>,
    pub player: Option<Player>,
    pub team: Option<Team>,
    pub health: Option<Health>,
    /// The spawn point that this entity keeps taken while it lives.
    pub occupies: Option<Entity>,
    pub spawn_point: Option<SpawnPoint>,
    pub game_map: Option<GameMap>,
    pub tank_body: Option<TankBody>,
    pub basic_tank_body: Option<BasicTankBody>,
    pub linear_velocity: Option<LinearVelocity>,
    pub angular_velocity: Option<AngularVelocity>,
    pub turret: Option<Turret>,
    pub basic_turret: Option<BasicTurret>,
    pub bullet_spawner: Option<BulletSpawner>,
    pub bullet: Option<Bullet>,
    pub painting_object: Option<PaintingObject>,
    pub paint: Option<Paint>,
    pub paintable_surface: Option<PaintableSurface>,
    pub despawn_entity: Option<DespawnEntity>,
}

impl Components {
    /// An entity that carries nothing.
    pub open spec fn spec_new() -> Components {
        Components {
            parent: None,
            transform: None,
            global_transform: None,
            player: None,
            team: None,
            health: None,
            occupies: None,
            spawn_point: None,
            game_map: None,
            tank_body: None,
            basic_tank_body: None,
            linear_velocity: None,
            angular_velocity: None,
            turret: None,
            basic_turret: None,
            bullet_spawner: None,
            bullet: None,
            painting_object: None,
            paint: None,
            paintable_surface: None,
            despawn_entity: None,
        }
    }

    #[verifier::when_used_as_spec(spec_new)]
    pub fn new() -> (c: Components)
        ensures
            c == Components::spec_new(),
    {
        Components {
            parent: None,
            transform: None,
            global_transform: None,
            player: None,
            team: None,
            health: None,
            occupies: None,
            spawn_point: None,
            game_map: None,
            tank_body: None,
            basic_tank_body: None,
            linear_velocity: None,
            angular_velocity: None,
            turret: None,
            basic_turret: None,
            bullet_spawner: None,
            bullet: None,
            painting_object: None,
            paint: None,
            paintable_surface: None,
            despawn_entity: None,
        }
    }

    /// What holds of an entity by itself: health within its range, a projectile
    /// and a painting object well formed.
    pub open spec fn wf(self) -> bool {
        &&& self.health matches Some(h) ==> h.0 <= MAX_HEALTH
        &&& self.bullet matches Some(b) ==> b.wf()
        &&& self.painting_object matches Some(p) ==> p.wf()
    }

    /// Whether what holds of an entity by itself holds of this one.
    pub fn is_wf(&self) -> (ok: bool)
        ensures
            ok == self.wf(),
    {
        let health_ok = match self.health {
            Some(h) => h.0 <= MAX_HEALTH,
            None => true,
        };
        let bullet_ok = match self.bullet {
            Some(b) => b.damage > 0 && b.lifetime.is_wf() && match b.lifetime.mode {
                TimerMode::Once => true,
                TimerMode::Repeating => false,
            },
            None => true,
        };
        let painting_ok = match self.painting_object {
            Some(p) => p.timer.is_wf() && match p.timer.mode {
                TimerMode::Once => false,
                TimerMode::Repeating => true,
            },
            None => true,
        };
        health_ok && bullet_ok && painting_ok
    }
}

/// The slots of a world: `Some` for a live entity, `None` for one that has left.
pub type Slots = Seq<Option<Components>>;

/// What entity `e` carries, or `None` when there is no such live entity.
pub open spec fn lookup(s: Slots, e: Entity) -> Option<Components> {
    if e < s.len() {
        s[e as int]
    } else {
        None
    }
}

/// The spawn point that entity `e` keeps taken, if it lives and has one.
pub open spec fn occupant_of(s: Slots, e: int) -> Option<Entity> {
    if 0 <= e < s.len() {
        match s[e] {
            Some(c) => c.occupies,
            None => None,
        }
    } else {
        None
    }
}

/// Whether `c` can stand in slot `e` of `s`: it is well formed by itself, its
/// parent was created before it and lives, and the spawn point it keeps taken was
/// created before it and is flagged as taken as long as it lives.
pub open spec fn fits(s: Slots, e: int, c: Components) -> bool {
    &&& c.wf()
    &&& c.parent matches Some(p) ==> p < e && p < s.len() && s[p as int] is Some
    &&& c.occupies matches Some(p) ==> p < e && p < s.len() && (s[p as int] matches Some(q)
        ==> q.spawn_point == Some(SpawnPoint(true)))
}

/// Whether no live entity keeps spawn point `p` taken.
pub open spec fn unoccupied(s: Slots, p: Entity) -> bool {
    forall|a: int| #[trigger] occupant_of(s, a) != Some(p)
}

/// Whether a new entity that carries `c` can be added to `s`.
pub open spec fn admits(s: Slots, c: Components) -> bool {
    &&& fits(s, s.len() as int, c)
    &&& c.occupies matches Some(p) ==> unoccupied(s, p)
}

/// Whether anyone may add an entity that carries `c` to `s`: it is well formed by
/// itself, its parent lives, and it keeps no spawn point taken.
pub open spec fn spawnable(s: Slots, c: Components) -> bool {
    &&& c.wf()
    &&& c.occupies is None
    &&& c.parent matches Some(p) ==> lookup(s, p) is Some
}

/// Whether `c` may replace what live entity `e` carries: its links are those that
/// `e` has, and where `e` is a spawn point its flag is as before, or set, or
/// cleared while nothing keeps it taken.
pub open spec fn replaces(s: Slots, e: int, c: Components) -> bool {
    &&& 0 <= e < s.len()
    &&& c.wf()
    &&& s[e] matches Some(o) && o.parent == c.parent && o.occupies == c.occupies && (
        o.spawn_point == c.spawn_point || c.spawn_point == Some(SpawnPoint(true)) || unoccupied(
            s,
            e as Entity,
        ))
}

/// No spawn point is kept taken by two live entities.
pub open spec fn one_tank_per_point(s: Slots) -> bool {
    forall|a: int, b: int|
        a != b && (#[trigger] occupant_of(s, a)) is Some && (#[trigger] occupant_of(s, b)) is Some
            ==> occupant_of(s, a) != occupant_of(s, b)
}

/// The invariant of a world.
pub open spec fn slots_wf(s: Slots) -> bool {
    &&& forall|e: int| 0 <= e < s.len() ==> ((#[trigger] s[e]) matches Some(c) ==> fits(s, e, c))
    &&& one_tank_per_point(s)
}

/// A world stays well formed when a new entity that it admits is added.
pub proof fn lemma_push_keeps_wf(s: Slots, c: Components)
    requires
        slots_wf(s),
        admits(s, c),
    ensures
        slots_wf(s.push(Some(c))),
{
    let t = s.push(Some(c));
    assert forall|e: int| 0 <= e < t.len() implies ((#[trigger] t[e]) matches Some(d) ==> fits(
        t,
        e,
        d,
    )) by {
        if e < s.len() {
            assert(t[e] == s[e]);
        }
    }
    assert forall|a: int, b: int|
        a != b && (#[trigger] occupant_of(t, a)) is Some && (#[trigger] occupant_of(t, b)) is Some
        implies occupant_of(t, a) != occupant_of(t, b) by {
        if a < s.len() {
            assert(occupant_of(t, a) == occupant_of(s, a));
        }
        if b < s.len() {
            assert(occupant_of(t, b) == occupant_of(s, b));
        }
    }
}

/// A world stays well formed when what a live entity carries is replaced by
/// something with the same links.
pub proof fn lemma_update_keeps_wf(s: Slots, e: int, c: Components)
    requires
        slots_wf(s),
        replaces(s, e, c),
    ensures
        slots_wf(s.update(e, Some(c))),
{
    let t = s.update(e, Some(c));
    assert forall|a: int| occupant_of(t, a) == occupant_of(s, a) by {}
    assert forall|i: int| 0 <= i < t.len() implies ((#[trigger] t[i]) matches Some(d) ==> fits(
        t,
        i,
        d,
    )) by {
        if t[i] is Some {
            let d = t[i].unwrap();
            if i != e {
                assert(t[i] == s[i]);
            }
            if d.occupies is Some && d.occupies.unwrap() == e {
                assert(occupant_of(s, i) == Some(e as Entity));
            }
        }
    }
}

/// All entities that ever were, by number.
pub struct World {
    slots: Vec<Option<Components>>,
}

impl View for World {
    type V = Slots;

    closed spec fn view(&self) -> Slots {
        self.slots@
    }
}

impl World {
    pub open spec fn wf(&self) -> bool {
        slots_wf(self@)
    }

    /// A world without entities.
    pub fn new() -> (world: World)
        ensures
            world@ == Slots::empty(),
            world.wf(),
    {
        World { slots: Vec::new() }
    }

    /// How many numbers have been given out.
    pub fn len(&self) -> (n: usize)
        ensures
            n == self@.len(),
    {
        self.slots.len()
    }

    /// What entity `e` carries, or `None` when there is no such live entity.
    pub fn get(&self, e: Entity) -> (c: Option<Components>)
        ensures
            c == lookup(self@, e),
    {
        if e < self.slots.len() {
            self.slots[e]
        } else {
            None
        }
    }

    /// Adds an entity that carries `c` and returns its number.
    pub(crate) fn push(&mut self, c: Components) -> (e: Entity)
        requires
            old(self).wf(),
            admits(old(self)@, c),
        ensures
            final(self)@ == old(self)@.push(Some(c)),
            e == old(self)@.len(),
            final(self).wf(),
    {
        proof {
            lemma_push_keeps_wf(self@, c);
        }
        let e = self.slots.len();
        self.slots.push(Some(c));
        e
    }

    /// Replaces what live entity `e` carries by `c`.
    pub(crate) fn put(&mut self, e: Entity, c: Components)
        requires
            old(self).wf(),
            replaces(old(self)@, e as int, c),
        ensures
            final(self)@ == old(self)@.update(e as int, Some(c)),
            final(self).wf(),
    {
        proof {
            lemma_update_keeps_wf(self@, e as int, c);
        }
        self.slots.set(e, Some(c));
    }

    /// Adds an entity that carries `c`, where that keeps the world well formed:
    /// `c` is well formed by itself, its parent lives, and it keeps no spawn point
    /// taken. Returns the number of the new entity, or `None` where it was not
    /// added.
    pub fn spawn(&mut self, c: Components) -> (e: Option<Entity>)
        requires
            old(self).wf(),
        ensures
            final(self).wf(),
            spawnable(old(self)@, c) ==> e == Some(old(self)@.len() as Entity) && final(self)@
                == old(self)@.push(Some(c)),
            !spawnable(old(self)@, c) ==> e is None && final(self)@ == old(self)@,
    {
        let parent_ok = match c.parent {
            Some(p) => self.contains(p),
            None => true,
        };
        if c.is_wf() && c.occupies.is_none() && parent_ok {
            Some(self.push(c))
        } else {
            None
        }
    }

    /// Records where the engine sees live entity `e`. Returns whether `e` lives.
    pub fn set_global_transform(&mut self, e: Entity, place: GlobalTransform) -> (live: bool)
        requires
            old(self).wf(),
        ensures
            final(self).wf(),
            live == lookup(old(self)@, e).is_some(),
            final(self)@ == match lookup(old(self)@, e) {
                Some(c) => old(self)@.update(
                    e as int,
                    Some(Components { global_transform: Some(place), ..c }),
                ),
                None => old(self)@,
            },
    {
        match self.get(e) {
            Some(c) => {
                let mut c = c;
                c.global_transform = Some(place);
                self.put(e, c);
                true
            },
            None => false,
        }
    }

    /// Records the velocities at which the engine sees live entity `e` move, where
    /// `e` has velocities. Returns whether it has.
    pub fn set_velocity(
        &mut self,
        e: Entity,
        linear: LinearVelocity,
        angular: AngularVelocity,
    ) -> (moving: bool)
        requires
            old(self).wf(),
        ensures
            final(self).wf(),
            moving == (lookup(old(self)@, e) matches Some(c) && c.linear_velocity is Some
                && c.angular_velocity is Some),
            final(self)@ == if moving {
                old(self)@.update(
                    e as int,
                    Some(
                        Components {
                            linear_velocity: Some(linear),
                            angular_velocity: Some(angular),
                            ..old(self)@[e as int].unwrap()
                        },
                    ),
                )
            } else {
                old(self)@
            },
    {
        match self.get(e) {
            Some(c) => {
                if c.linear_velocity.is_some() && c.angular_velocity.is_some() {
                    let mut c = c;
                    c.linear_velocity = Some(linear);
                    c.angular_velocity = Some(angular);
                    self.put(e, c);
                    true
                } else {
                    false
                }
            },
            None => false,
        }
    }

    /// Replaces every slot at once.
    pub(crate) fn replace(&mut self, slots: Vec<Option<Components>>)
        requires
            slots_wf(slots@),
        ensures
            final(self)@ == slots@,
            final(self).wf(),
    {
        self.slots = slots;
    }

    /// Whether `e` is a live entity.
    pub fn contains(&self, e: Entity) -> (live: bool)
        ensures
            live == lookup(self@, e).is_some(),
    {
        self.get(e).is_some()
    }
}

} // verus!
