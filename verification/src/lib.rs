pub mod color;
pub mod entities;
pub mod maps;
pub mod math;
pub mod simulation;
pub mod tank;
pub mod timer;
pub mod world;
