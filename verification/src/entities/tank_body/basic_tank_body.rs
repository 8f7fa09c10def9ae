//! The basic tank body.
use crate::entities::tank_body::{AngularVelocity, LinearVelocity, TankBody, TankBodySpawner};
use crate::world::Components;
use vstd::prelude::*;

verus! {

/// The tag of the basic tank body, and the strategy that builds it.
#[derive(Clone, Copy, Debug, PartialEq, Eq, Structural)]
pub struct BasicTankBody;

impl TankBodySpawner for BasicTankBody {
    open spec fn body(&self) -> Components {
        Components {
            tank_body: Some(TankBody),
            basic_tank_body: Some(BasicTankBody),
            linear_velocity: Some(LinearVelocity { x: 0, y: 0, z: 0 }),
            angular_velocity: Some(AngularVelocity { y: 0 }),
            ..Components::spec_new()
        }
    }

    proof fn lemma_body(&self) {
    }

    fn spawn(&self) -> (c: Components) {
        let mut c = Components::new();
        c.tank_body = Some(TankBody);
        c.basic_tank_body = Some(BasicTankBody);
        c.linear_velocity = Some(LinearVelocity { x: 0, y: 0, z: 0 });
        c.angular_velocity = Some(AngularVelocity { y: 0 });
        c
    }
}

} // verus!
