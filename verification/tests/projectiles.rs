use paint_tanks::entities::bullet::{
    age_bullets, apply_collisions, on_collision_start, Bullet, CollisionStart, BULLET_LIFETIME,
};
use paint_tanks::entities::despawn_entity::despawn_entity;
use paint_tanks::entities::paintable_surface::PaintableSurface;
use paint_tanks::tank::{Health, Player};
use paint_tanks::timer::TimerMode;
use paint_tanks::world::{Components, World};

fn tank(world: &mut World, health: u8) -> usize {
    let mut c = Components::new();
    c.health = Some(Health(health));
    c.player = Some(Player::User);
    world.spawn(c).unwrap()
}

fn bullet(world: &mut World, damage: u8) -> usize {
    let mut c = Components::new();
    c.bullet = Some(Bullet::new(damage));
    world.spawn(c).unwrap()
}

#[test]
fn new_bullet_has_two_seconds_to_live() {
    let b = Bullet::new(50);
    assert_eq!(b.damage, 50);
    assert_eq!(BULLET_LIFETIME, 2_000_000_000);
    assert_eq!(b.lifetime.duration, 2_000_000_000);
    assert_eq!(b.lifetime.elapsed, 0);
    assert_eq!(b.lifetime.mode, TimerMode::Once);
    assert!(!b.lifetime.finished);
}

#[test]
fn three_hits_of_fifty_stop_at_zero() {
    let mut world = World::new();
    let target = tank(&mut world, 100);
    let first = bullet(&mut world, 50);
    let second = bullet(&mut world, 50);
    let third = bullet(&mut world, 50);

    on_collision_start(&mut world, first, target);
    assert_eq!(world.get(target).unwrap().health, Some(Health(50)));
    assert!(world.get(target).unwrap().despawn_entity.is_none());
    assert!(world.get(first).unwrap().despawn_entity.is_some());

    on_collision_start(&mut world, second, target);
    assert_eq!(world.get(target).unwrap().health, Some(Health(0)));
    assert!(world.get(target).unwrap().despawn_entity.is_some());

    on_collision_start(&mut world, third, target);
    assert_eq!(world.get(target).unwrap().health, Some(Health(0)));
    assert!(world.get(target).unwrap().despawn_entity.is_some());
    assert!(world.get(third).unwrap().despawn_entity.is_some());

    let gone = despawn_entity(&mut world);
    assert_eq!(gone, vec![target, first, second, third]);
    assert_eq!(despawn_entity(&mut world), Vec::<usize>::new());
}

#[test]
fn one_bullet_hitting_three_times_also_stops_at_zero() {
    let mut world = World::new();
    let target = tank(&mut world, 100);
    let shot = bullet(&mut world, 50);
    on_collision_start(&mut world, shot, target);
    assert_eq!(world.get(target).unwrap().health, Some(Health(50)));
    on_collision_start(&mut world, shot, target);
    assert_eq!(world.get(target).unwrap().health, Some(Health(0)));
    on_collision_start(&mut world, shot, target);
    assert_eq!(world.get(target).unwrap().health, Some(Health(0)));
    assert_eq!(despawn_entity(&mut world), vec![target, shot]);
}

#[test]
fn damage_beyond_health_leaves_zero() {
    let mut world = World::new();
    let target = tank(&mut world, 30);
    let shot = bullet(&mut world, 255);
    on_collision_start(&mut world, shot, target);
    assert_eq!(world.get(target).unwrap().health, Some(Health(0)));
    assert!(world.get(target).unwrap().despawn_entity.is_some());
}

#[test]
fn collision_without_health_is_ignored() {
    let mut world = World::new();
    let mut ground = Components::new();
    ground.paintable_surface = Some(PaintableSurface);
    let ground = world.spawn(ground).unwrap();
    let shot = bullet(&mut world, 50);
    let mut unsteered = Components::new();
    unsteered.health = Some(Health(100));
    let unsteered = world.spawn(unsteered).unwrap();

    on_collision_start(&mut world, shot, ground);
    on_collision_start(&mut world, shot, unsteered);
    on_collision_start(&mut world, shot, 99);
    on_collision_start(&mut world, ground, unsteered);
    assert!(world.get(shot).unwrap().despawn_entity.is_none());
    assert_eq!(world.get(unsteered).unwrap().health, Some(Health(100)));
    assert_eq!(despawn_entity(&mut world), Vec::<usize>::new());
}

#[test]
fn collision_pairs_count_in_either_order() {
    let mut world = World::new();
    let target = tank(&mut world, 100);
    let first = bullet(&mut world, 20);
    let second = bullet(&mut world, 30);
    let pairs = vec![
        CollisionStart { entity_a: first, entity_b: target },
        CollisionStart { entity_a: target, entity_b: second },
        CollisionStart { entity_a: first, entity_b: second },
        CollisionStart { entity_a: 7, entity_b: 8 },
    ];
    apply_collisions(&mut world, &pairs);
    assert_eq!(world.get(target).unwrap().health, Some(Health(50)));
    assert!(world.get(target).unwrap().despawn_entity.is_none());
    assert!(world.get(first).unwrap().despawn_entity.is_some());
    assert!(world.get(second).unwrap().despawn_entity.is_some());
}

#[test]
fn bullet_expires_after_two_seconds() {
    let mut world = World::new();
    let shot = bullet(&mut world, 50);
    age_bullets(&mut world, 1_999_999_999);
    assert!(world.get(shot).unwrap().despawn_entity.is_none());
    assert_eq!(world.get(shot).unwrap().bullet.unwrap().lifetime.elapsed, 1_999_999_999);
    assert_eq!(despawn_entity(&mut world), Vec::<usize>::new());
    assert!(world.contains(shot));

    age_bullets(&mut world, 1);
    assert!(world.get(shot).unwrap().despawn_entity.is_some());
    assert!(world.get(shot).unwrap().bullet.unwrap().lifetime.finished);
    assert_eq!(despawn_entity(&mut world), vec![shot]);
    assert!(!world.contains(shot));
}

#[test]
fn bullet_that_hit_is_removed_once() {
    let mut world = World::new();
    let target = tank(&mut world, 100);
    let shot = bullet(&mut world, 50);
    age_bullets(&mut world, 500_000_000);
    on_collision_start(&mut world, shot, target);
    assert_eq!(despawn_entity(&mut world), vec![shot]);
    assert!(!world.contains(shot));
    assert!(world.contains(target));

    age_bullets(&mut world, 2_000_000_000);
    assert!(world.get(shot).is_none());
    assert_eq!(despawn_entity(&mut world), Vec::<usize>::new());
    assert_eq!(world.len(), 2);
    assert_eq!(world.get(target).unwrap().health, Some(Health(50)));
}

#[test]
fn aging_leaves_other_entities_alone() {
    let mut world = World::new();
    let target = tank(&mut world, 100);
    let shot = bullet(&mut world, 50);
    age_bullets(&mut world, 3_000_000_000);
    assert!(world.get(target).unwrap().despawn_entity.is_none());
    assert_eq!(world.get(target).unwrap().health, Some(Health(100)));
    assert_eq!(world.get(shot).unwrap().bullet.unwrap().lifetime.elapsed, 2_000_000_000);
}
