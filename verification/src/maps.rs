//! The map and its spawn points.
use crate::entities::paintable_surface::PaintableSurface;
use crate::math::Vec3;
use crate::world::{Components, Entity, Transform, World};
use vstd::prelude::*;

verus! {

/// A place where a tank can be created; the flag is set while a tank stands for it.
#[derive(Clone, Copy, Debug, PartialEq, Eq, Structural)]
pub struct SpawnPoint(pub bool);

/// The tag of the map.
#[derive(Clone, Copy, Debug, PartialEq, Eq, Structural)]
pub struct GameMap;

/// The ground: it lies at the origin and takes paint.
pub open spec fn ground() -> Components {
    Components {
        transform: Some(Transform { translation: Vec3 { x: 0, y: 0, z: 0 }, yaw: 0 }),
        game_map: Some(GameMap),
        paintable_surface: Some(PaintableSurface),
        ..Components::spec_new()
    }
}

/// A free spawn point of `map` at `translation`.
pub open spec fn free_point_at(map: Entity, translation: Vec3) -> Components {
    Components {
        parent: Some(map),
        transform: Some(Transform { translation, yaw: 0 }),
        spawn_point: Some(SpawnPoint(false)),
        ..Components::spec_new()
    }
}

/// Adds the map: the ground, and two free spawn points that belong to it, one
/// half a unit above the origin and one four units further along both horizontal
/// axes. Returns the number of the ground; the points have the next two numbers.
pub fn spawn_map(world: &mut World) -> (map: Entity)
    requires
        old(world).wf(),
    ensures
        map == old(world)@.len(),
        final(world)@ == old(world)@.push(Some(ground())).push(
            Some(free_point_at(map, Vec3 { x: 0, y: 500, z: 0 })),
        ).push(Some(free_point_at(map, Vec3 { x: 4000, y: 500, z: 4000 }))),
        final(world).wf(),
{
    let mut ground = Components::new();
    ground.transform = Some(Transform { translation: Vec3 { x: 0, y: 0, z: 0 }, yaw: 0 });
    ground.game_map = Some(GameMap);
    ground.paintable_surface = Some(PaintableSurface);
    let map = world.push(ground);
    let mut point = Components::new();
    point.parent = Some(map);
    point.spawn_point = Some(SpawnPoint(false));
    point.transform = Some(Transform { translation: Vec3 { x: 0, y: 500, z: 0 }, yaw: 0 });
    world.push(point);
    point.transform = Some(
        Transform { translation: Vec3 { x: 4000, y: 500, z: 4000 }, yaw: 0 },
    );
    world.push(point);
    map
}

} // verus!
