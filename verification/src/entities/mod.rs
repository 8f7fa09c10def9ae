pub mod bullet;
pub mod despawn_entity;
pub mod paintable_surface;
pub mod tank_body;
pub mod turret;
