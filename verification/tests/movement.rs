use paint_tanks::entities::tank_body::basic_tank_body::BasicTankBody;
use paint_tanks::entities::tank_body::{
    move_tank, AngularVelocity, LinearVelocity, Movement, MovementType, TankBodySpawner,
    ANGULAR_MOVEMENT_SPEED, LINEAR_MOVEMENT_SPEED,
};
use paint_tanks::math::{saturating_add_i128, Vec3, NANOS_PER_SECOND, UNIT};
use paint_tanks::world::{Components, GlobalTransform, World};

const FRAME: u64 = 16_666_667;

fn facing(forward: Vec3) -> GlobalTransform {
    GlobalTransform { translation: Vec3::new(0, 500, 0), forward, right: Vec3::new(1000, 0, 0) }
}

fn tank_facing(world: &mut World, forward: Vec3) -> usize {
    let mut body = BasicTankBody.spawn();
    body.global_transform = Some(facing(forward));
    world.spawn(body).unwrap()
}

fn linear(entity: usize, amount: i8) -> Movement {
    Movement { entity, movement_type: MovementType::Linear(amount) }
}

fn angular(entity: usize, amount: i8) -> Movement {
    Movement { entity, movement_type: MovementType::Angular(amount) }
}

#[test]
fn units_and_speeds() {
    assert_eq!(UNIT, 1000);
    assert_eq!(NANOS_PER_SECOND, 1_000_000_000);
    assert_eq!(LINEAR_MOVEMENT_SPEED, 10);
    assert_eq!(ANGULAR_MOVEMENT_SPEED, 50);
}

#[test]
fn linear_command_pushes_a_tank_at_rest_along_its_forward_direction() {
    let mut world = World::new();
    let tank = tank_facing(&mut world, Vec3::new(0, 0, -1000));
    move_tank(&mut world, &vec![linear(tank, 1)], FRAME);
    let after = world.get(tank).unwrap();
    assert_eq!(
        after.linear_velocity,
        Some(LinearVelocity { x: 0, y: 0, z: -166_666_670_000 })
    );
    assert_eq!(after.angular_velocity, Some(AngularVelocity { y: 0 }));
}

#[test]
fn linear_command_uses_both_horizontal_components() {
    let mut world = World::new();
    let tank = tank_facing(&mut world, Vec3::new(600, 700, -800));
    move_tank(&mut world, &vec![linear(tank, -1)], 1_000_000);
    assert_eq!(
        world.get(tank).unwrap().linear_velocity,
        Some(LinearVelocity { x: -6_000_000_000, y: 0, z: 8_000_000_000 })
    );
}

#[test]
fn command_of_magnitude_zero_changes_nothing() {
    let mut world = World::new();
    let tank = tank_facing(&mut world, Vec3::new(0, 0, -1000));
    move_tank(&mut world, &vec![linear(tank, 1), angular(tank, 1)], FRAME);
    let before = world.get(tank).unwrap();
    move_tank(&mut world, &vec![linear(tank, 0), angular(tank, 0)], FRAME);
    let after = world.get(tank).unwrap();
    assert_eq!(after.linear_velocity, before.linear_velocity);
    assert_eq!(after.angular_velocity, before.angular_velocity);
}

#[test]
fn angular_command_adds_to_the_yaw_velocity() {
    let mut world = World::new();
    let tank = tank_facing(&mut world, Vec3::new(0, 0, -1000));
    move_tank(&mut world, &vec![angular(tank, -1)], FRAME);
    let after = world.get(tank).unwrap();
    assert_eq!(after.angular_velocity, Some(AngularVelocity { y: -833_333_350 }));
    assert_eq!(after.linear_velocity, Some(LinearVelocity { x: 0, y: 0, z: 0 }));
}

#[test]
fn commands_add_up() {
    let mut world = World::new();
    let tank = tank_facing(&mut world, Vec3::new(1000, 0, 0));
    let commands = vec![linear(tank, 1), linear(tank, 1), angular(tank, 1), linear(tank, -1)];
    move_tank(&mut world, &commands, 1_000);
    move_tank(&mut world, &vec![linear(tank, 1)], 2_000);
    let after = world.get(tank).unwrap();
    assert_eq!(after.linear_velocity, Some(LinearVelocity { x: 30_000_000, y: 0, z: 0 }));
    assert_eq!(after.angular_velocity, Some(AngularVelocity { y: 50_000 }));
}

#[test]
fn command_for_what_cannot_move_is_dropped() {
    let mut world = World::new();
    let unplaced = world.spawn(BasicTankBody.spawn()).unwrap();
    let mut rock = Components::new();
    rock.global_transform = Some(facing(Vec3::new(0, 0, -1000)));
    rock.linear_velocity = Some(LinearVelocity { x: 0, y: 0, z: 0 });
    rock.angular_velocity = Some(AngularVelocity { y: 0 });
    let rock = world.spawn(rock).unwrap();
    move_tank(&mut world, &vec![linear(unplaced, 1), linear(rock, 1), linear(50, 1)], FRAME);
    assert_eq!(
        world.get(unplaced).unwrap().linear_velocity,
        Some(LinearVelocity { x: 0, y: 0, z: 0 })
    );
    assert_eq!(world.get(rock).unwrap().linear_velocity, Some(LinearVelocity { x: 0, y: 0, z: 0 }));
    assert_eq!(world.len(), 2);
}

#[test]
fn largest_command_is_exact() {
    let mut world = World::new();
    let tank = tank_facing(&mut world, Vec3::new(i32::MIN, 0, i32::MAX));
    move_tank(&mut world, &vec![linear(tank, i8::MIN)], u64::MAX);
    let after = world.get(tank).unwrap().linear_velocity.unwrap();
    assert_eq!(after.x, (i32::MIN as i128) * (i8::MIN as i128) * (u64::MAX as i128) * 10);
    assert_eq!(after.z, (i32::MAX as i128) * (i8::MIN as i128) * (u64::MAX as i128) * 10);
}

#[test]
fn velocity_stops_at_the_end_of_its_range() {
    let mut world = World::new();
    let mut body = BasicTankBody.spawn();
    body.global_transform = Some(facing(Vec3::new(1000, 0, -1000)));
    body.linear_velocity = Some(LinearVelocity { x: i128::MAX - 5, y: 3, z: i128::MIN + 5 });
    body.angular_velocity = Some(AngularVelocity { y: i128::MAX });
    let tank = world.spawn(body).unwrap();
    move_tank(&mut world, &vec![linear(tank, 1), angular(tank, 1)], 1);
    let after = world.get(tank).unwrap();
    assert_eq!(
        after.linear_velocity,
        Some(LinearVelocity { x: i128::MAX, y: 3, z: i128::MIN })
    );
    assert_eq!(after.angular_velocity, Some(AngularVelocity { y: i128::MAX }));
}

#[test]
fn saturating_sum() {
    assert_eq!(saturating_add_i128(1, 2), 3);
    assert_eq!(saturating_add_i128(i128::MAX, 1), i128::MAX);
    assert_eq!(saturating_add_i128(i128::MIN, -1), i128::MIN);
    assert_eq!(saturating_add_i128(i128::MIN, i128::MAX), -1);
}

#[test]
fn push_adds_to_what_the_engine_reports() {
    let mut world = World::new();
    let tank = tank_facing(&mut world, Vec3::new(0, 0, -1000));
    let damped = LinearVelocity { x: 5, y: -7, z: 1_000_000_000_000 };
    assert!(world.set_velocity(tank, damped, AngularVelocity { y: -40 }));
    move_tank(&mut world, &vec![linear(tank, 1), angular(tank, 1)], 1_000_000);
    let after = world.get(tank).unwrap();
    assert_eq!(
        after.linear_velocity,
        Some(LinearVelocity { x: 5, y: -7, z: 1_000_000_000_000 - 10_000_000_000 })
    );
    assert_eq!(after.angular_velocity, Some(AngularVelocity { y: 50_000_000 - 40 }));

    let mut still = Components::new();
    still.linear_velocity = Some(LinearVelocity { x: 0, y: 0, z: 0 });
    let still = world.spawn(still).unwrap();
    assert!(!world.set_velocity(still, damped, AngularVelocity { y: 1 }));
    assert!(!world.set_velocity(9, damped, AngularVelocity { y: 1 }));
    assert_eq!(
        world.get(still).unwrap().linear_velocity,
        Some(LinearVelocity { x: 0, y: 0, z: 0 })
    );
}
