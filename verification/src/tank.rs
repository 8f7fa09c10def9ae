//! Tanks: who steers them, their team and health, and how they come into the world.
use crate::color::Color;
use crate::entities::tank_body::basic_tank_body::BasicTankBody;
use crate::entities::tank_body::{Movement, MovementType, TankBodySpawner};
use crate::entities::turret::basic_turret::BasicTurret;
use crate::entities::turret::{Shoot, TurretMovement, TurretSpawner};
use crate::maps::SpawnPoint;
use crate::world::{fits, occupant_of, Components, Entity, Slots, Transform, World};
use vstd::prelude::*;

verus! {

/// The health of a new tank, and the most a tank can have.
pub const MAX_HEALTH: u8 = 100;

/// Who steers a tank.
#[derive(Clone, Copy, Debug, PartialEq, Eq, Structural)]
pub enum Player {
    User,
    Program,
}

/// The colour that a tank shares with its turret, its projectiles and its paint.
#[derive(Clone, Copy, Debug, PartialEq, Eq, Structural)]
pub struct Team(pub Color);

/// What a tank can still take, from 0 to [`MAX_HEALTH`].
#[derive(Clone, Copy, Debug, PartialEq, Eq, Structural)]
pub struct Health(pub u8);

/// A request for a new tank: who steers it, its team, and how its turret and its
/// body are built.
pub struct SpawnTank<T, B> {
    pub player: Player,
    pub team: Team,
    pub turret: T,
    pub tank_body: B,
}

/// The three entities of a new tank.
#[derive(Clone, Copy, Debug, PartialEq, Eq, Structural)]
pub struct SpawnedTank {
    pub body: Entity,
    pub turret: Entity,
    pub muzzle: Entity,
}

/// Who gets the next tank. The first two requests are for users, each with a team
/// of its own; all later ones are for the program, with one team for all.
#[derive(Clone, Copy, Debug, PartialEq, Eq, Structural)]
pub struct SpawnPolicy {
    pub first_user: Team,
    pub second_user: Team,
    pub program: Team,
    /// How many requests were made so far; it stops counting at `u64::MAX`.
    pub requests: u64,
}

/// Whether `e` is a free spawn point: live, flagged as free, and placed.
pub open spec fn is_free_point(s: Slots, e: int) -> bool {
    &&& 0 <= e < s.len()
    &&& s[e] matches Some(c) && c.spawn_point == Some(SpawnPoint(false)) && c.transform is Some
}

/// The first free spawn point among the entities from number `from` on.
pub open spec fn free_point_from(s: Slots, from: int) -> Option<Entity>
    decreases s.len() - from,
{
    if from < 0 || from >= s.len() {
        None
    } else if is_free_point(s, from) {
        Some(from as Entity)
    } else {
        free_point_from(s, from + 1)
    }
}

/// The spawn point that the next tank gets: the first free one, by number.
pub open spec fn free_point(s: Slots) -> Option<Entity> {
    free_point_from(s, 0)
}

/// `c` as a spawn point that is taken.
pub open spec fn taken(c: Components) -> Components {
    Components { spawn_point: Some(SpawnPoint(true)), ..c }
}

/// The body of a new tank: what the strategy built, placed where the spawn point
/// is, with its player, its team and full health, and keeping the point taken.
pub open spec fn tank_at(
    body: Components,
    point: Entity,
    placement: Transform,
    player: Player,
    team: Team,
) -> Components {
    Components {
        transform: Some(placement),
        player: Some(player),
        team: Some(team),
        health: Some(Health(MAX_HEALTH)),
        occupies: Some(point),
        ..body
    }
}

/// `s` after one request. Where a spawn point is free, the first free one is
/// taken, and three entities are new: the body, the turret that belongs to it and
/// shares its team, and the muzzle that belongs to the turret. Where none is free,
/// the request is dropped and nothing changes.
pub open spec fn spawned<T: TurretSpawner, B: TankBodySpawner>(
    s: Slots,
    event: SpawnTank<T, B>,
) -> Slots {
    match free_point(s) {
        Some(p) => {
            let point = s[p as int].unwrap();
            let body = s.len() as Entity;
            let turret = (s.len() + 1) as Entity;
            s.update(p as int, Some(taken(point))).push(
                Some(
                    tank_at(
                        event.tank_body.body(),
                        p,
                        point.transform.unwrap(),
                        event.player,
                        event.team,
                    ),
                ),
            ).push(
                Some(
                    Components {
                        parent: Some(body),
                        team: Some(event.team),
                        ..event.turret.turret()
                    },
                ),
            ).push(Some(Components { parent: Some(turret), ..event.turret.muzzle() }))
        },
        None => s,
    }
}

/// `s` after a run of requests, taken in order.
pub open spec fn spawned_all<T: TurretSpawner, B: TankBodySpawner>(
    s: Slots,
    events: Seq<SpawnTank<T, B>>,
) -> Slots
    decreases events.len(),
{
    if events.len() == 0 {
        s
    } else {
        spawned(spawned_all(s, events.drop_last()), events.last())
    }
}

/// The tanks that a run of requests brings into `s`, in order.
pub open spec fn tanks_of<T: TurretSpawner, B: TankBodySpawner>(
    s: Slots,
    events: Seq<SpawnTank<T, B>>,
) -> Seq<SpawnedTank>
    decreases events.len(),
{
    if events.len() == 0 {
        Seq::empty()
    } else {
        let before = spawned_all(s, events.drop_last());
        let tanks = tanks_of(s, events.drop_last());
        if free_point(before) is Some {
            tanks.push(
                SpawnedTank {
                    body: before.len() as Entity,
                    turret: (before.len() + 1) as Entity,
                    muzzle: (before.len() + 2) as Entity,
                },
            )
        } else {
            tanks
        }
    }
}

/// The first free spawn point and what it carries.
fn find_free_point(world: &World) -> (found: Option<(Entity, Components)>)
    ensures
        match found {
            Some((p, c)) => free_point(world@) == Some(p) && is_free_point(world@, p as int)
                && world@[p as int] == Some(c),
            None => free_point(world@) is None,
        },
{
    let n = world.len();
    let mut e: usize = 0;
    while e < n
        invariant
            n == world@.len(),
            e <= n,
            free_point(world@) == free_point_from(world@, e as int),
        decreases n - e,
    {
        if let Some(c) = world.get(e) {
            if let Some(point) = c.spawn_point {
                if !point.0 && c.transform.is_some() {
                    return Some((e, c));
                }
            }
        }
        e += 1;
    }
    None
}

/// Serves one request.
fn spawn_one<T: TurretSpawner, B: TankBodySpawner>(
    world: &mut World,
    event: &SpawnTank<T, B>,
) -> (tank: Option<SpawnedTank>)
    requires
        old(world).wf(),
    ensures
        final(world)@ == spawned(old(world)@, *event),
        final(world).wf(),
        tank == if free_point(old(world)@) is Some {
            Some(
                SpawnedTank {
                    body: old(world)@.len() as Entity,
                    turret: (old(world)@.len() + 1) as Entity,
                    muzzle: (old(world)@.len() + 2) as Entity,
                },
            )
        } else {
            None
        },
{
    let ghost s = world@;
    let (p, point) = match find_free_point(world) {
        Some(found) => found,
        None => {
            return None;
        },
    };
    let placement = point.transform;
    let mut body = event.tank_body.spawn();
    let (mut turret, mut muzzle) = event.turret.spawn_turret();
    proof {
        event.tank_body.lemma_body();
        event.turret.lemma_turret();
    }
    let mut point = point;
    point.spawn_point = Some(SpawnPoint(true));
    world.put(p, point);
    proof {
        // Nothing keeps a point taken that was free.
        assert forall|a: int| #[trigger] occupant_of(world@, a) != Some(p) by {
            assert(occupant_of(world@, a) == occupant_of(s, a));
            if occupant_of(s, a) == Some(p) {
                assert(fits(s, a, s[a].unwrap()));
            }
        }
    }
    body.transform = placement;
    body.player = Some(event.player);
    body.team = Some(event.team);
    body.health = Some(Health(MAX_HEALTH));
    body.occupies = Some(p);
    let body = world.push(body);
    turret.parent = Some(body);
    turret.team = Some(event.team);
    let turret = world.push(turret);
    muzzle.parent = Some(turret);
    let muzzle = world.push(muzzle);
    Some(SpawnedTank { body, turret, muzzle })
}

/// Serves each request in turn: see [`spawned`]. A request that finds no free
/// spawn point is dropped. Returns the tanks that were made, in order.
pub fn spawn_tank<T: TurretSpawner, B: TankBodySpawner>(
    world: &mut World,
    events: &Vec<SpawnTank<T, B>>,
) -> (tanks: Vec<SpawnedTank>)
    requires
        old(world).wf(),
    ensures
        final(world)@ == spawned_all(old(world)@, events@),
        final(world).wf(),
        tanks@ == tanks_of(old(world)@, events@),
{
    let mut tanks: Vec<SpawnedTank> = Vec::new();
    let mut i: usize = 0;
    while i < events.len()
        invariant
            i <= events.len(),
            world.wf(),
            world@ == spawned_all(old(world)@, events@.take(i as int)),
            tanks@ == tanks_of(old(world)@, events@.take(i as int)),
        decreases events.len() - i,
    {
        proof {
            assert(events@.take(i + 1).drop_last() == events@.take(i as int));
        }
        if let Some(tank) = spawn_one(world, &events[i]) {
            tanks.push(tank);
        }
        i += 1;
    }
    proof {
        assert(events@.take(events.len() as int) == events@);
    }
    tanks
}

/// How many of the entities below number `upto` are free spawn points.
pub open spec fn free_points_below(s: Slots, upto: int) -> nat
    decreases upto,
{
    if upto <= 0 {
        0
    } else {
        free_points_below(s, upto - 1) + if is_free_point(s, upto - 1) {
            1nat
        } else {
            0nat
        }
    }
}

/// How many free spawn points there are.
pub open spec fn free_points(s: Slots) -> nat {
    free_points_below(s, s.len() as int)
}

/// The count below `upto` looks at the entities below `upto` only.
proof fn lemma_count_agrees(s: Slots, t: Slots, upto: int)
    requires
        upto <= s.len(),
        upto <= t.len(),
        forall|e: int| 0 <= e < upto ==> s[e] == t[e],
    ensures
        free_points_below(s, upto) == free_points_below(t, upto),
    decreases upto,
{
    if upto > 0 {
        lemma_count_agrees(s, t, upto - 1);
    }
}

/// A new entity that is no free spawn point leaves the count as it is.
proof fn lemma_count_push(s: Slots, c: Components)
    requires
        c.spawn_point != Some(SpawnPoint(false)),
    ensures
        free_points(s.push(Some(c))) == free_points(s),
{
    lemma_count_agrees(s, s.push(Some(c)), s.len() as int);
}

/// Taking a free spawn point lowers the count below `upto` by one where the point
/// lies below `upto`.
proof fn lemma_count_take(s: Slots, p: int, upto: int)
    requires
        is_free_point(s, p),
        0 <= upto <= s.len(),
    ensures
        free_points_below(s, upto) == free_points_below(
            s.update(p, Some(taken(s[p].unwrap()))),
            upto,
        ) + if p < upto {
            1nat
        } else {
            0nat
        },
    decreases upto,
{
    if upto > 0 {
        lemma_count_take(s, p, upto - 1);
    }
}

/// There is a first free spawn point from `from` on exactly when the count grows
/// from `from` on; and below the first one nothing is counted.
proof fn lemma_first_free(s: Slots, from: int)
    requires
        0 <= from <= s.len() <= usize::MAX,
    ensures
        free_point_from(s, from) is None <==> free_points_below(s, from) == free_points(s),
        free_point_from(s, from) matches Some(p) ==> is_free_point(s, p as int),
        free_points_below(s, from) <= free_points(s),
    decreases s.len() - from,
{
    if from < s.len() {
        lemma_first_free(s, from + 1);
    }
}

/// One request takes one free spawn point if there is one.
proof fn lemma_spawned_count<T: TurretSpawner, B: TankBodySpawner>(
    s: Slots,
    event: SpawnTank<T, B>,
)
    requires
        s.len() + 3 <= usize::MAX,
    ensures
        spawned(s, event).len() <= s.len() + 3,
        free_point(s) is Some <==> free_points(s) > 0,
        free_point(s) is Some ==> free_points(spawned(s, event)) == free_points(s) - 1,
        free_point(s) is None ==> spawned(s, event) == s,
{
    lemma_first_free(s, 0);
    if free_point(s) is Some {
        let p = free_point(s).unwrap() as int;
        event.tank_body.lemma_body();
        event.turret.lemma_turret();
        let point = s[p].unwrap();
        let s1 = s.update(p, Some(taken(point)));
        lemma_count_take(s, p, s.len() as int);
        let body = tank_at(
            event.tank_body.body(),
            p as Entity,
            point.transform.unwrap(),
            event.player,
            event.team,
        );
        lemma_count_push(s1, body);
        let s2 = s1.push(Some(body));
        let turret = Components {
            parent: Some(s.len() as Entity),
            team: Some(event.team),
            ..event.turret.turret()
        };
        lemma_count_push(s2, turret);
        let s3 = s2.push(Some(turret));
        let muzzle = Components { parent: Some((s.len() + 1) as Entity), ..event.turret.muzzle() };
        lemma_count_push(s3, muzzle);
    }
}

/// Of a run of requests, as many are served as there are free spawn points, and
/// the rest is dropped: the number of tanks made is the smaller of the number of
/// requests and the number of free spawn points, and that many points are taken
/// afterwards.
pub proof fn lemma_requests_beyond_free_points_are_dropped<T: TurretSpawner, B: TankBodySpawner>(
    s: Slots,
    events: Seq<SpawnTank<T, B>>,
)
    requires
        s.len() + 3 * events.len() <= usize::MAX,
    ensures
        spawned_all(s, events).len() <= s.len() + 3 * events.len(),
        tanks_of(s, events).len() == if events.len() <= free_points(s) {
            events.len()
        } else {
            free_points(s)
        },
        free_points(spawned_all(s, events)) == free_points(s) - tanks_of(s, events).len(),
    decreases events.len(),
{
    if events.len() > 0 {
        lemma_requests_beyond_free_points_are_dropped(s, events.drop_last());
        lemma_spawned_count(spawned_all(s, events.drop_last()), events.last());
    }
}

impl SpawnPolicy {
    /// The policy before any request: red for the first user, blue for the second,
    /// white for the program.
    pub fn new() -> (policy: SpawnPolicy)
        ensures
            policy == (SpawnPolicy {
                first_user: Team(Color::red()),
                second_user: Team(Color::blue()),
                program: Team(Color::white()),
                requests: 0,
            }),
    {
        SpawnPolicy {
            first_user: Team(Color::red()),
            second_user: Team(Color::blue()),
            program: Team(Color::white()),
            requests: 0,
        }
    }

    /// Who gets the next tank, and in which team.
    pub open spec fn assigned(self) -> (Player, Team) {
        if self.requests == 0 {
            (Player::User, self.first_user)
        } else if self.requests == 1 {
            (Player::User, self.second_user)
        } else {
            (Player::Program, self.program)
        }
    }

    /// The policy after one more request.
    pub open spec fn counted(self) -> SpawnPolicy {
        SpawnPolicy {
            requests: if self.requests < u64::MAX {
                (self.requests + 1) as u64
            } else {
                self.requests
            },
            ..self
        }
    }

    /// Says who gets the next tank, and counts the request.
    pub fn assign(&mut self) -> (who: (Player, Team))
        ensures
            who == old(self).assigned(),
            *final(self) == old(self).counted(),
    {
        let who = if self.requests == 0 {
            (Player::User, self.first_user)
        } else if self.requests == 1 {
            (Player::User, self.second_user)
        } else {
            (Player::Program, self.program)
        };
        if self.requests < u64::MAX {
            self.requests = self.requests + 1;
        }
        who
    }
}

/// Whether `e` is a live entity that a user steers.
pub open spec fn is_user(s: Slots, e: int) -> bool {
    0 <= e < s.len() && (s[e] matches Some(c) && c.player == Some(Player::User))
}

/// The first entity that a user steers, from number `from` on.
pub open spec fn user_from(s: Slots, from: int) -> Option<Entity>
    decreases s.len() - from,
{
    if from < 0 || from >= s.len() {
        None
    } else if is_user(s, from) {
        Some(from as Entity)
    } else {
        user_from(s, from + 1)
    }
}

/// The entity that the keyboard and the mouse steer: the first one of a user.
pub open spec fn user(s: Slots) -> Option<Entity> {
    user_from(s, 0)
}

/// Whether `e` is a live turret that belongs to `tank`.
pub open spec fn is_turret_of(s: Slots, tank: Entity, e: int) -> bool {
    0 <= e < s.len() && (s[e] matches Some(c) && c.parent == Some(tank) && c.turret is Some)
}

/// The first turret of `tank`, from number `from` on.
pub open spec fn turret_from(s: Slots, tank: Entity, from: int) -> Option<Entity>
    decreases s.len() - from,
{
    if from < 0 || from >= s.len() {
        None
    } else if is_turret_of(s, tank, from) {
        Some(from as Entity)
    } else {
        turret_from(s, tank, from + 1)
    }
}

/// The turret that the mouse aims and fires: the first turret of the user's tank.
pub open spec fn user_turret(s: Slots) -> Option<Entity> {
    match user(s) {
        Some(tank) => turret_from(s, tank, 0),
        None => None,
    }
}

/// What two opposite keys ask for together: 1 for the first alone, -1 for the
/// second alone, 0 for both or none.
pub open spec fn axis(plus: bool, minus: bool) -> i8 {
    if plus == minus {
        0i8
    } else if plus {
        1i8
    } else {
        -1i8
    }
}

/// The entity that the keyboard and the mouse steer.
pub fn find_user(world: &World) -> (found: Option<Entity>)
    ensures
        found == user(world@),
{
    let n = world.len();
    let mut e: usize = 0;
    while e < n
        invariant
            n == world@.len(),
            e <= n,
            user(world@) == user_from(world@, e as int),
        decreases n - e,
    {
        if let Some(c) = world.get(e) {
            if let Some(player) = c.player {
                if player == Player::User {
                    return Some(e);
                }
            }
        }
        e += 1;
    }
    None
}

/// The turret that the mouse aims and fires.
pub fn find_user_turret(world: &World) -> (found: Option<Entity>)
    ensures
        found == user_turret(world@),
{
    let tank = match find_user(world) {
        Some(tank) => tank,
        None => {
            return None;
        },
    };
    let n = world.len();
    let mut e: usize = 0;
    while e < n
        invariant
            n == world@.len(),
            e <= n,
            user(world@) == Some(tank),
            turret_from(world@, tank, 0) == turret_from(world@, tank, e as int),
        decreases n - e,
    {
        if let Some(c) = world.get(e) {
            if c.turret.is_some() && c.parent == Some(tank) {
                return Some(e);
            }
        }
        e += 1;
    }
    None
}

/// The request that the spawn key makes when it has just been pressed: a basic
/// tank for whom the policy names, which counts the request.
pub fn spawn_tank_keyboard_input(policy: &mut SpawnPolicy, just_pressed: bool) -> (request: Option<
    SpawnTank<BasicTurret, BasicTankBody>,
>)
    ensures
        just_pressed ==> *final(policy) == old(policy).counted() && request == Some(
            SpawnTank {
                player: old(policy).assigned().0,
                team: old(policy).assigned().1,
                turret: BasicTurret,
                tank_body: BasicTankBody,
            },
        ),
        !just_pressed ==> *final(policy) == *old(policy) && request is None,
{
    if just_pressed {
        let (player, team) = policy.assign();
        Some(SpawnTank { player, team, turret: BasicTurret, tank_body: BasicTankBody })
    } else {
        None
    }
}

/// The movement commands that the four movement keys make: one linear and one
/// angular command for the user's tank, each of magnitude 1, 0 or -1; none where
/// no user steers anything.
pub fn keyboard_input(world: &World, forward: bool, backward: bool, left: bool, right: bool) -> (
    commands: Vec<Movement>)
    ensures
        commands@ == match user(world@) {
            Some(entity) => seq![
                Movement { entity, movement_type: MovementType::Linear(axis(forward, backward)) },
                Movement { entity, movement_type: MovementType::Angular(axis(left, right)) },
            ],
            None => Seq::empty(),
        },
{
    let mut commands: Vec<Movement> = Vec::new();
    if let Some(entity) = find_user(world) {
        let linear: i8 = if forward == backward {
            0
        } else if forward {
            1
        } else {
            -1
        };
        let angular: i8 = if left == right {
            0
        } else if left {
            1
        } else {
            -1
        };
        commands.push(Movement { entity, movement_type: MovementType::Linear(linear) });
        commands.push(Movement { entity, movement_type: MovementType::Angular(angular) });
        proof {
            assert(commands@ =~= seq![
                Movement { entity, movement_type: MovementType::Linear(axis(forward, backward)) },
                Movement { entity, movement_type: MovementType::Angular(axis(left, right)) },
            ]);
        }
    }
    commands
}

/// The aim command that the mouse makes: the user's turret is to face `point`,
/// which is where the cursor lies on the ground; none without such a point or
/// such a turret.
pub fn mouse_input(world: &World, point: Option<(i32, i32)>) -> (command: Option<TurretMovement>)
    ensures
        command == match (point, user_turret(world@)) {
            (Some(p), Some(turret_entity)) => Some(
                TurretMovement { turret_entity, x: p.0, z: p.1 },
            ),
            _ => None,
        },
{
    match point {
        Some(p) => match find_user_turret(world) {
            Some(turret_entity) => Some(TurretMovement { turret_entity, x: p.0, z: p.1 }),
            None => None,
        },
        None => None,
    }
}

/// The fire command that the mouse button makes when it has just been pressed: one
/// for the user's turret; none without such a turret.
pub fn mouse_button_input(world: &World, just_pressed: bool) -> (command: Option<Shoot>)
    ensures
        command == match user_turret(world@) {
            Some(turret) => if just_pressed {
                Some(Shoot { turret })
            } else {
                None
            },
            None => None,
        },
{
    if just_pressed {
        match find_user_turret(world) {
            Some(turret) => Some(Shoot { turret }),
            None => None,
        }
    } else {
        None
    }
}

} // verus!
