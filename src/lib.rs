//! A small gravity simulation: a player and a swarm of enemies attract each
//! other, move under integrated forces, collide, and stay inside an arena.
//!
//! All quantities are fixed-point integers. A length unit is a millionth of
//! an arena pixel, a time unit is a millisecond, and masses are plain units.

mod geom;
mod physics;
mod object;
mod player;
mod enemy;
mod world;

pub use geom::{Direction, MAX_BOUND, Vector2, restrict_to_bounds};
pub use physics::{
    DEFAULT_RADIUS, GRAVITY, MAX_COORD, MAX_DT, MAX_FORCE, MAX_MASS, MAX_PAIR_FORCE, MAX_RADIUS, MAX_SPEED,
    PhysicalObject, PhysicsError,
};
pub use object::{GameObject, calculate_interaction, collides, distance_squared, interact};
pub use player::{PLAYER_DRIFT, PLAYER_MASS, PLAYER_SIZE, PLAYER_THRUST, Player};
pub use enemy::{ENEMY_MASS, ENEMY_RADIUS, Enemy};
pub use world::{App, Key, MAX_ENEMIES, SPAWN_BATCH, accumulate_forces};
