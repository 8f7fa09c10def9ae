//! Paint: marks of a team's colour that painting entities leave on the ground.
use crate::color::Color;
use crate::entities::despawn_entity::{doomed, freed, mark_for_despawn, marked, swept};
use crate::math::Vec3;
use crate::timer::{Timer, TimerMode};
use crate::world::{
    fits, lookup, occupant_of, slots_wf, Components, Entity, Slots, Transform, World,
};
use vstd::prelude::*;

verus! {

/// The time between two marks of one painting entity: ten milliseconds, in
/// nanoseconds.
pub const PAINT_INTERVAL: u64 = 10_000_000;

/// The height above the ground at which a mark lies, in thousandths.
pub const PAINT_HEIGHT: i32 = 100;

/// How far above a painting entity its ray starts, in thousandths.
pub const PAINT_RAY_LIFT: i32 = 500;

/// How far down the ray reaches, in thousandths.
pub const PAINT_RAY_REACH: i32 = 5000;

/// A mark on the ground, with the colour of what left it.
#[derive(Clone, Copy, Debug, PartialEq, Eq, Structural)]
pub struct Paint {
    pub colour: Color,
}

/// What makes an entity leave marks: their colour and the throttle between them.
#[derive(Clone, Copy, Debug, PartialEq, Eq, Structural)]
pub struct PaintingObject {
    pub colour: Color,
    pub timer: Timer,
}

/// The tag of ground that takes paint.
#[derive(Clone, Copy, Debug, PartialEq, Eq, Structural)]
pub struct PaintableSurface;

/// What the ray that the engine cast down from a painting entity met first.
#[derive(Clone, Copy, Debug, PartialEq, Eq, Structural)]
pub struct RayHit {
    pub painter: Entity,
    pub entity: Entity,
}

impl PaintingObject {
    /// The throttle is a well-formed repeating timer.
    pub open spec fn wf(self) -> bool {
        &&& self.timer.wf()
        &&& self.timer.mode == TimerMode::Repeating
    }

    /// A painting object of the given colour whose throttle starts at zero.
    pub open spec fn fresh(colour: Color) -> PaintingObject {
        PaintingObject { colour, timer: Timer::fresh(PAINT_INTERVAL, TimerMode::Repeating) }
    }

    /// A painting object of the given colour whose throttle starts at zero.
    pub fn new(colour: Color) -> (object: PaintingObject)
        ensures
            object == PaintingObject::fresh(colour),
            object.wf(),
    {
        PaintingObject { colour, timer: Timer::new(PAINT_INTERVAL, TimerMode::Repeating) }
    }
}

/// Whether a ray cast for painting stops at `e`: at live ground that takes paint,
/// or at a live mark.
pub open spec fn takes_paint(s: Slots, e: Entity) -> bool {
    lookup(s, e) matches Some(c) && (c.paintable_surface is Some || c.paint is Some)
}

/// Whether `e` is a live entity that paints: one with a painting object and a place
/// in the world.
pub open spec fn is_painter(s: Slots, e: Entity) -> bool {
    lookup(s, e) matches Some(c) && c.painting_object is Some && c.global_transform is Some
}

/// Whether `e` is a live mark of another colour than `colour`.
pub open spec fn conflicts(s: Slots, e: Entity, colour: Color) -> bool {
    lookup(s, e) matches Some(c) && (c.paint matches Some(p) && p.colour != colour)
}

/// The mark of `colour` that an entity at `place` leaves below itself.
pub open spec fn mark_below(place: Vec3, colour: Color) -> Components {
    Components {
        transform: Some(
            Transform { translation: Vec3 { x: place.x, y: PAINT_HEIGHT, z: place.z }, yaw: 0 },
        ),
        paint: Some(Paint { colour }),
        ..Components::spec_new()
    }
}

/// `c` with its throttle advanced by `delta` nanoseconds.
pub open spec fn throttled(c: Components, delta: u64) -> Components
    recommends
        c.painting_object is Some,
{
    let object = c.painting_object.unwrap();
    Components {
        painting_object: Some(
            PaintingObject { colour: object.colour, timer: object.timer.ticked(delta) },
        ),
        ..c
    }
}

/// `s` after painting entity `painter` has had its turn, `delta` nanoseconds after
/// its last one, with `hit` being what the ray below it met. The throttle
/// advances. Where it fires and the ray met something that takes paint, a mark of
/// another colour that it met is tagged for removal, and a new mark of the
/// painter's colour is made below the painter. An entity that does not paint
/// changes nothing.
pub open spec fn painted(s: Slots, painter: Entity, hit: Option<Entity>, delta: u64) -> Slots {
    if is_painter(s, painter) {
        let c = throttled(s[painter as int].unwrap(), delta);
        let object = c.painting_object.unwrap();
        let ticked = s.update(painter as int, Some(c));
        if object.timer.times_finished_this_tick > 0 && hit is Some && takes_paint(
            ticked,
            hit.unwrap(),
        ) {
            let cleared = if conflicts(ticked, hit.unwrap(), object.colour) {
                marked(ticked, hit.unwrap())
            } else {
                ticked
            };
            cleared.push(
                Some(mark_below(c.global_transform.unwrap().translation, object.colour)),
            )
        } else {
            ticked
        }
    } else {
        s
    }
}

/// What the first report in `hits` from number `from` on says the ray of
/// `painter` met.
pub open spec fn hit_from(hits: Seq<RayHit>, painter: Entity, from: int) -> Option<Entity>
    decreases hits.len() - from,
{
    if from < 0 || from >= hits.len() {
        None
    } else if hits[from].painter == painter {
        Some(hits[from].entity)
    } else {
        hit_from(hits, painter, from + 1)
    }
}

/// What the ray of `painter` met: what the first report about it says, and nothing
/// where there is none.
pub open spec fn hit_of(hits: Seq<RayHit>, painter: Entity) -> Option<Entity> {
    hit_from(hits, painter, 0)
}

/// `s` after the entities below number `upto` have had their turn, by number.
pub open spec fn painted_upto(s: Slots, hits: Seq<RayHit>, delta: u64, upto: int) -> Slots
    decreases upto,
{
    if upto <= 0 {
        s
    } else {
        painted(
            painted_upto(s, hits, delta, upto - 1),
            (upto - 1) as Entity,
            hit_of(hits, (upto - 1) as Entity),
            delta,
        )
    }
}

/// Where a painter leaves a mark, no mark of another colour stays under it: the new
/// mark has the painter's colour, and the mark that the ray met, if it is of
/// another colour, is gone after the removal at the end of the tick.
pub proof fn lemma_no_two_colours(s: Slots, painter: Entity, target: Entity, delta: u64)
    requires
        slots_wf(s),
        s.len() < usize::MAX,
        painted(s, painter, Some(target), delta).len() > s.len(),
    ensures
        ({
            let colour = s[painter as int].unwrap().painting_object.unwrap().colour;
            let after = painted(s, painter, Some(target), delta);
            let kept = swept(after);
            &&& after.len() == s.len() + 1
            &&& after[s.len() as int].unwrap().paint == Some(Paint { colour })
            &&& after[s.len() as int].unwrap().despawn_entity is None
            &&& kept[s.len() as int] == after[s.len() as int]
            &&& kept[target as int] matches Some(c) ==> (c.paint matches Some(p) ==> p.colour
                == colour)
        }),
{
    // The new mark is no spawn point that anything kept taken.
    let after = painted(s, painter, Some(target), delta);
    assert(!freed(after, s.len() as int)) by {
        if freed(after, s.len() as int) {
            let a = choose|a: int|
                0 <= a < after.len() && doomed(after, a) && #[trigger] occupant_of(after, a)
                    == Some(s.len() as Entity);
            assert(occupant_of(after, a) == occupant_of(s, a));
            assert(fits(s, a, s[a].unwrap()));
        }
    }
}

/// Makes live entity `e` paint in `colour` from now on. Returns whether `e` lives.
pub fn start_painting(world: &mut World, e: Entity, colour: Color) -> (live: bool)
    requires
        old(world).wf(),
    ensures
        live == lookup(old(world)@, e).is_some(),
        final(world).wf(),
        final(world)@ == match lookup(old(world)@, e) {
            Some(c) => old(world)@.update(
                e as int,
                Some(Components { painting_object: Some(PaintingObject::fresh(colour)), ..c }),
            ),
            None => old(world)@,
        },
{
    match world.get(e) {
        Some(c) => {
            let mut c = c;
            c.painting_object = Some(PaintingObject::new(colour));
            world.put(e, c);
            true
        },
        None => false,
    }
}

/// Where the ray of a painting entity at `place` starts: above it by the lift, and
/// no higher than heights go.
pub open spec fn ray_origin(place: Vec3) -> Vec3 {
    Vec3 {
        x: place.x,
        y: if place.y + PAINT_RAY_LIFT > i32::MAX {
            i32::MAX
        } else {
            (place.y + PAINT_RAY_LIFT) as i32
        },
        z: place.z,
    }
}

/// Where the engine is to start the ray that it casts straight down for `painter`;
/// `None` where `painter` does not paint.
pub fn paint_ray_origin(world: &World, painter: Entity) -> (origin: Option<Vec3>)
    ensures
        origin == if is_painter(world@, painter) {
            Some(ray_origin(world@[painter as int].unwrap().global_transform.unwrap().translation))
        } else {
            None
        },
{
    let c = match world.get(painter) {
        Some(c) => c,
        None => {
            return None;
        },
    };
    if c.painting_object.is_none() {
        return None;
    }
    match c.global_transform {
        Some(place) => {
            let y = match place.translation.y.checked_add(PAINT_RAY_LIFT) {
                Some(y) => y,
                None => i32::MAX,
            };
            Some(Vec3 { x: place.translation.x, y, z: place.translation.z })
        },
        None => None,
    }
}

/// Whether a ray cast for painting stops at `e`.
pub fn stops_paint_ray(world: &World, e: Entity) -> (stops: bool)
    ensures
        stops == takes_paint(world@, e),
{
    match world.get(e) {
        Some(c) => c.paintable_surface.is_some() || c.paint.is_some(),
        None => false,
    }
}

/// Gives painting entity `painter` its turn: see [`painted`]. Returns the number
/// of the new mark, if one was made.
pub fn paint_below(world: &mut World, painter: Entity, hit: Option<Entity>, delta: u64) -> (mark:
    Option<Entity>)
    requires
        old(world).wf(),
    ensures
        final(world)@ == painted(old(world)@, painter, hit, delta),
        final(world).wf(),
        mark == if final(world)@.len() > old(world)@.len() {
            Some(old(world)@.len() as Entity)
        } else {
            None
        },
{
    let c = match world.get(painter) {
        Some(c) => c,
        None => {
            return None;
        },
    };
    let object = match c.painting_object {
        Some(object) => object,
        None => {
            return None;
        },
    };
    let place = match c.global_transform {
        Some(place) => place,
        None => {
            return None;
        },
    };
    let mut timer = object.timer;
    timer.tick(delta);
    let mut c = c;
    c.painting_object = Some(PaintingObject { colour: object.colour, timer });
    world.put(painter, c);
    if !timer.just_finished() {
        return None;
    }
    let target = match hit {
        Some(target) => target,
        None => {
            return None;
        },
    };
    let under = match world.get(target) {
        Some(under) => under,
        None => {
            return None;
        },
    };
    if under.paintable_surface.is_none() && under.paint.is_none() {
        return None;
    }
    if let Some(old_mark) = under.paint {
        if old_mark.colour != object.colour {
            mark_for_despawn(world, target);
        }
    }
    let mut mark = Components::new();
    mark.transform = Some(
        Transform {
            translation: Vec3 { x: place.translation.x, y: PAINT_HEIGHT, z: place.translation.z },
            yaw: 0,
        },
    );
    mark.paint = Some(Paint { colour: object.colour });
    Some(world.push(mark))
}

/// What the first report in `hits` about `painter` says its ray met.
fn find_hit(hits: &Vec<RayHit>, painter: Entity) -> (hit: Option<Entity>)
    ensures
        hit == hit_of(hits@, painter),
{
    let mut i: usize = 0;
    while i < hits.len()
        invariant
            i <= hits.len(),
            hit_of(hits@, painter) == hit_from(hits@, painter, i as int),
        decreases hits.len() - i,
    {
        if hits[i].painter == painter {
            return Some(hits[i].entity);
        }
        i += 1;
    }
    None
}

/// Gives every painting entity that lived when the tick began its turn, by number,
/// `delta` nanoseconds after the last one. `hits` holds what the engine's rays
/// met; a painter without a report met nothing. Returns the numbers of the new
/// marks, in the order in which they were made.
pub fn paint_surface(world: &mut World, hits: &Vec<RayHit>, delta: u64) -> (marks: Vec<Entity>)
    requires
        old(world).wf(),
    ensures
        final(world)@ == painted_upto(old(world)@, hits@, delta, old(world)@.len() as int),
        final(world).wf(),
        final(world)@.len() >= old(world)@.len(),
        marks@ == Seq::new(
            (final(world)@.len() - old(world)@.len()) as nat,
            |i: int| (old(world)@.len() + i) as Entity,
        ),
{
    let n = world.len();
    let mut marks: Vec<Entity> = Vec::new();
    let mut e: usize = 0;
    while e < n
        invariant
            e <= n,
            n == old(world)@.len(),
            world.wf(),
            world@ == painted_upto(old(world)@, hits@, delta, e as int),
            world@.len() >= n,
            marks@ == Seq::new((world@.len() - n) as nat, |i: int| (n + i) as Entity),
        decreases n - e,
    {
        let hit = find_hit(hits, e);
        if let Some(mark) = paint_below(world, e, hit, delta) {
            marks.push(mark);
        }
        e += 1;
    }
    marks
}

} // verus!
