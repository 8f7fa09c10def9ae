use paint_tanks::color::Color;
use paint_tanks::entities::bullet::CollisionStart;
use paint_tanks::entities::paintable_surface::RayHit;
use paint_tanks::entities::tank_body::basic_tank_body::BasicTankBody;
use paint_tanks::entities::tank_body::{LinearVelocity, Movement, MovementType};
use paint_tanks::entities::turret::basic_turret::BasicTurret;
use paint_tanks::entities::turret::{move_turrets, Aim, Shoot, TurretMovement};
use paint_tanks::maps::{spawn_map, SpawnPoint};
use paint_tanks::math::Vec3;
use paint_tanks::simulation::{tick, Commands, Reports};
use paint_tanks::tank::{Health, Player, SpawnTank, SpawnedTank, Team};
use paint_tanks::world::{GlobalTransform, World};

const FRAME: u64 = 16_666_667;

type Asked = Commands<BasicTurret, BasicTankBody>;

fn nothing_asked() -> Asked {
    Commands { spawns: vec![], movements: vec![], aims: vec![], shots: vec![] }
}

fn nothing_reported() -> Reports {
    Reports { collisions: vec![], ray_hits: vec![] }
}

fn request(player: Player, colour: Color) -> SpawnTank<BasicTurret, BasicTankBody> {
    SpawnTank { player, team: Team(colour), turret: BasicTurret, tank_body: BasicTankBody }
}

fn at(x: i32, y: i32, z: i32) -> GlobalTransform {
    GlobalTransform {
        translation: Vec3::new(x, y, z),
        forward: Vec3::new(0, 0, -1000),
        right: Vec3::new(1000, 0, 0),
    }
}

fn two_tanks(world: &mut World) -> Vec<SpawnedTank> {
    spawn_map(world);
    let mut asked = nothing_asked();
    asked.spawns = vec![request(Player::User, Color::red()), request(Player::User, Color::blue())];
    let tanks = tick(world, &asked, &nothing_reported(), FRAME).tanks;
    for tank in &tanks {
        let body = world.get(tank.body).unwrap().transform.unwrap().translation;
        world.set_global_transform(tank.body, at(body.x, body.y, body.z));
        world.set_global_transform(tank.turret, at(body.x, body.y + 500, body.z));
        world.set_global_transform(tank.muzzle, at(body.x, body.y + 750, body.z - 1000));
    }
    tanks
}

#[test]
fn quiet_tick_changes_nothing() {
    let mut world = World::new();
    let tanks = two_tanks(&mut world);
    let outcome = tick(&mut world, &nothing_asked(), &nothing_reported(), FRAME);
    assert!(outcome.tanks.is_empty());
    assert!(outcome.bullets.is_empty());
    assert!(outcome.marks.is_empty());
    assert!(outcome.gone.is_empty());
    assert_eq!(world.len(), 9);
    assert_eq!(world.get(tanks[0].body).unwrap().health, Some(Health(100)));
}

#[test]
fn commands_of_one_tick_are_carried_out_in_order() {
    let mut world = World::new();
    let tanks = two_tanks(&mut world);
    let asked = Commands {
        spawns: vec![request(Player::Program, Color::white())],
        movements: vec![
            Movement { entity: tanks[0].body, movement_type: MovementType::Linear(1) },
            Movement { entity: tanks[1].body, movement_type: MovementType::Angular(1) },
        ],
        aims: vec![Aim {
            movement: TurretMovement { turret_entity: tanks[0].turret, x: -3000, z: -3000 },
            angle: 785_398_163,
        }],
        shots: vec![Shoot { turret: tanks[1].turret }],
    };
    let outcome = tick(&mut world, &asked, &nothing_reported(), FRAME);
    assert!(outcome.tanks.is_empty());
    assert_eq!(outcome.bullets, vec![9]);
    assert!(outcome.marks.is_empty());
    assert!(outcome.gone.is_empty());

    assert_eq!(
        world.get(tanks[0].body).unwrap().linear_velocity,
        Some(LinearVelocity { x: 0, y: 0, z: -166_666_670_000 })
    );
    assert_eq!(world.get(tanks[1].body).unwrap().angular_velocity.unwrap().y, 833_333_350);
    assert_eq!(
        world.get(tanks[0].turret).unwrap().transform.unwrap().yaw,
        3 * 785_398_163 * 16_666_667
    );
    let shot = world.get(9).unwrap();
    assert_eq!(shot.team, Some(Team(Color::blue())));
    assert_eq!(shot.bullet.unwrap().lifetime.elapsed, FRAME);
    assert_eq!(shot.painting_object.unwrap().timer.elapsed, 6_666_667);
}

#[test]
fn shot_flies_paints_hits_and_is_removed() {
    let mut world = World::new();
    let tanks = two_tanks(&mut world);
    let mut asked = nothing_asked();
    asked.shots = vec![Shoot { turret: tanks[0].turret }];
    let shot = tick(&mut world, &asked, &nothing_reported(), FRAME).bullets[0];

    let mut reports = nothing_reported();
    reports.ray_hits = vec![RayHit { painter: shot, entity: 0 }];
    let outcome = tick(&mut world, &nothing_asked(), &reports, FRAME);
    assert_eq!(outcome.marks, vec![10]);
    assert_eq!(world.get(10).unwrap().paint.unwrap().colour, Color::red());

    let mut reports = nothing_reported();
    reports.collisions = vec![CollisionStart { entity_a: tanks[1].body, entity_b: shot }];
    let outcome = tick(&mut world, &nothing_asked(), &reports, FRAME);
    assert_eq!(outcome.gone, vec![shot]);
    assert_eq!(world.get(tanks[1].body).unwrap().health, Some(Health(50)));
    assert!(!world.contains(shot));

    let outcome = tick(&mut world, &nothing_asked(), &nothing_reported(), 2_000_000_000);
    assert!(outcome.gone.is_empty());
    assert!(world.contains(10));
}

#[test]
fn shot_that_hits_nothing_is_removed_after_two_seconds() {
    let mut world = World::new();
    let tanks = two_tanks(&mut world);
    let mut asked = nothing_asked();
    asked.shots = vec![Shoot { turret: tanks[0].turret }];
    let shot = tick(&mut world, &asked, &nothing_reported(), 0).bullets[0];
    for _ in 0..119 {
        let outcome = tick(&mut world, &nothing_asked(), &nothing_reported(), FRAME);
        assert!(outcome.gone.is_empty());
    }
    assert_eq!(world.get(shot).unwrap().bullet.unwrap().lifetime.elapsed, 1_983_333_373);
    let outcome = tick(&mut world, &nothing_asked(), &nothing_reported(), FRAME);
    assert_eq!(outcome.gone, vec![shot]);
    let outcome = tick(&mut world, &nothing_asked(), &nothing_reported(), FRAME);
    assert!(outcome.gone.is_empty());
}

#[test]
fn tank_shot_twice_dies_and_its_point_is_free_for_the_next() {
    let mut world = World::new();
    let tanks = two_tanks(&mut world);
    let mut asked = nothing_asked();
    asked.shots = vec![Shoot { turret: tanks[0].turret }, Shoot { turret: tanks[0].turret }];
    asked.spawns = vec![request(Player::Program, Color::white())];
    let outcome = tick(&mut world, &asked, &nothing_reported(), FRAME);
    assert!(outcome.tanks.is_empty());
    let shots = outcome.bullets;
    assert_eq!(shots, vec![9, 10]);

    let mut reports = nothing_reported();
    reports.collisions = vec![
        CollisionStart { entity_a: shots[0], entity_b: tanks[1].body },
        CollisionStart { entity_a: shots[1], entity_b: tanks[1].body },
    ];
    let mut asked = nothing_asked();
    asked.spawns = vec![request(Player::Program, Color::white())];
    let outcome = tick(&mut world, &asked, &reports, FRAME);
    assert!(outcome.tanks.is_empty());
    assert_eq!(outcome.gone, vec![tanks[1].body, tanks[1].turret, tanks[1].muzzle, 9, 10]);
    assert_eq!(world.get(2).unwrap().spawn_point, Some(SpawnPoint(false)));
    assert_eq!(world.get(1).unwrap().spawn_point, Some(SpawnPoint(true)));

    let outcome = tick(&mut world, &asked, &nothing_reported(), FRAME);
    assert_eq!(outcome.tanks, vec![SpawnedTank { body: 11, turret: 12, muzzle: 13 }]);
    assert_eq!(world.get(11).unwrap().occupies, Some(2));
    assert_eq!(world.get(11).unwrap().player, Some(Player::Program));
}

#[test]
fn aim_commands_are_carried_out_in_turn() {
    let mut world = World::new();
    let tanks = two_tanks(&mut world);
    let aims = vec![
        Aim {
            movement: TurretMovement { turret_entity: tanks[0].turret, x: 3000, z: 0 },
            angle: 1_570_796_327,
        },
        Aim {
            movement: TurretMovement { turret_entity: tanks[0].turret, x: 3000, z: 0 },
            angle: 1_520_796_327,
        },
        Aim {
            movement: TurretMovement { turret_entity: tanks[1].turret, x: 3000, z: 0 },
            angle: 10_000_000,
        },
    ];
    move_turrets(&mut world, &aims, FRAME);
    assert_eq!(
        world.get(tanks[0].turret).unwrap().transform.unwrap().yaw,
        -2 * 3_000_000_000 * 16_666_667
    );
    assert_eq!(world.get(tanks[1].turret).unwrap().transform.unwrap().yaw, 0);
}
