use paint_tanks::color::Color;
use paint_tanks::entities::despawn_entity::{despawn_entity, mark_for_despawn, DespawnEntity};
use paint_tanks::entities::tank_body::basic_tank_body::BasicTankBody;
use paint_tanks::entities::turret::basic_turret::BasicTurret;
use paint_tanks::maps::{spawn_map, SpawnPoint};
use paint_tanks::tank::{spawn_tank, Health, Player, SpawnTank, Team};
use paint_tanks::world::{Components, World};

fn plain(world: &mut World) -> usize {
    world.spawn(Components::new()).unwrap()
}

fn child_of(world: &mut World, parent: usize) -> usize {
    let mut c = Components::new();
    c.parent = Some(parent);
    world.spawn(c).unwrap()
}

#[test]
fn tagged_entity_leaves_at_the_end_of_the_tick() {
    let mut world = World::new();
    let stays = plain(&mut world);
    let leaves = plain(&mut world);
    mark_for_despawn(&mut world, leaves);
    assert!(world.contains(leaves));
    assert_eq!(world.get(leaves).unwrap().despawn_entity, Some(DespawnEntity));
    assert_eq!(despawn_entity(&mut world), vec![leaves]);
    assert!(world.contains(stays));
    assert!(!world.contains(leaves));
    assert!(world.get(leaves).is_none());
    assert_eq!(world.len(), 2);
}

#[test]
fn tagging_twice_is_tagging_once() {
    let mut world = World::new();
    let e = plain(&mut world);
    mark_for_despawn(&mut world, e);
    mark_for_despawn(&mut world, e);
    assert_eq!(despawn_entity(&mut world), vec![e]);
    mark_for_despawn(&mut world, e);
    mark_for_despawn(&mut world, 12);
    assert_eq!(despawn_entity(&mut world), Vec::<usize>::new());
    assert_eq!(world.len(), 1);
}

#[test]
fn what_belongs_to_an_entity_leaves_with_it() {
    let mut world = World::new();
    let root = plain(&mut world);
    let other = plain(&mut world);
    let child = child_of(&mut world, root);
    let grandchild = child_of(&mut world, child);
    let bystander = child_of(&mut world, other);
    mark_for_despawn(&mut world, root);
    assert_eq!(despawn_entity(&mut world), vec![root, child, grandchild]);
    assert!(world.contains(other));
    assert!(world.contains(bystander));
}

#[test]
fn tagged_child_leaves_alone() {
    let mut world = World::new();
    let root = plain(&mut world);
    let child = child_of(&mut world, root);
    mark_for_despawn(&mut world, child);
    assert_eq!(despawn_entity(&mut world), vec![child]);
    assert!(world.contains(root));
}

#[test]
fn removal_right_after_removal_changes_nothing() {
    let mut world = World::new();
    spawn_map(&mut world);
    let request = SpawnTank {
        player: Player::User,
        team: Team(Color::red()),
        turret: BasicTurret,
        tank_body: BasicTankBody,
    };
    let tank = spawn_tank(&mut world, &vec![request])[0];
    mark_for_despawn(&mut world, tank.turret);
    assert_eq!(despawn_entity(&mut world), vec![tank.turret, tank.muzzle]);
    assert_eq!(despawn_entity(&mut world), Vec::<usize>::new());
    assert_eq!(world.get(tank.body).unwrap().health, Some(Health(100)));
    assert_eq!(world.get(1).unwrap().spawn_point, Some(SpawnPoint(true)));
}

#[test]
fn numbers_are_not_used_twice() {
    let mut world = World::new();
    let first = plain(&mut world);
    mark_for_despawn(&mut world, first);
    despawn_entity(&mut world);
    let second = plain(&mut world);
    assert_eq!(first, 0);
    assert_eq!(second, 1);
    assert!(!world.contains(first));
}

#[test]
fn removing_the_map_removes_its_points_but_not_the_tanks() {
    let mut world = World::new();
    let map = spawn_map(&mut world);
    let request = SpawnTank {
        player: Player::Program,
        team: Team(Color::white()),
        turret: BasicTurret,
        tank_body: BasicTankBody,
    };
    let tank = spawn_tank(&mut world, &vec![request])[0];
    mark_for_despawn(&mut world, map);
    assert_eq!(despawn_entity(&mut world), vec![0, 1, 2]);
    assert!(world.contains(tank.body));
    assert_eq!(world.get(tank.body).unwrap().occupies, Some(1));
    mark_for_despawn(&mut world, tank.body);
    assert_eq!(despawn_entity(&mut world), vec![3, 4, 5]);
}
