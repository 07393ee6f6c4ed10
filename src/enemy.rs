use vstd::prelude::*;

use crate::geom::Vector2;
use crate::object::GameObject;
use crate::physics::{MAX_COORD, MAX_DT, PhysicalObject, arena_ok, in_coord_range};

verus! {

/// Mass of an enemy.
pub const ENEMY_MASS: i128 = 1_000_000_000;

/// Half the side of the square drawn for an enemy: ten pixels.
pub const ENEMY_RADIUS: i128 = 10_000_000;

/// A body that drifts under gravity alone.
#[derive(Clone, Copy)]
pub struct Enemy {
    pub physical_object: PhysicalObject,
    pub size: i128,
}

/// Relies on `rand::Rng::gen_range` over `rand::thread_rng()`: a value drawn
/// uniformly from `[0, max)`. It panics on an empty range, which `requires`
/// leaves out.
#[verifier::external_body]
fn random_below(max: i128) -> (r: i128)
    requires
        max > 0,
    ensures
        0 <= r < max,
{
    rand::Rng::gen_range(&mut rand::thread_rng(), 0..max)
}

impl Enemy {
    pub open spec fn wf(&self) -> bool {
        self.physical_object.wf()
    }

    /// A resting enemy at `(x, y)`.
    pub fn new(x: i128, y: i128) -> (r: Enemy)
        requires
            in_coord_range(Vector2 { x, y }),
        ensures
            r.wf(),
            r.physical_object == PhysicalObject::resting(ENEMY_MASS as int, Vector2 { x, y }),
            r.size == ENEMY_RADIUS * 2,
    {
        Enemy {
            physical_object: PhysicalObject::with_mass(ENEMY_MASS, Vector2::new(x, y)),
            size: ENEMY_RADIUS * 2,
        }
    }

    /// A resting enemy at a random place in `[0, max_x) x [0, max_y)`.
    pub fn new_rand(max_x: i128, max_y: i128) -> (r: Enemy)
        requires
            0 < max_x <= MAX_COORD,
            0 < max_y <= MAX_COORD,
        ensures
            r.wf(),
            0 <= r.physical_object.position.x < max_x,
            0 <= r.physical_object.position.y < max_y,
            r.physical_object == PhysicalObject::resting(
                ENEMY_MASS as int,
                r.physical_object.position,
            ),
            r.size == ENEMY_RADIUS * 2,
    {
        let x = random_below(max_x);
        let y = random_below(max_y);
        Enemy::new(x, y)
    }

    /// One tick: the enemy moves at its velocity for `dt` and is kept inside
    /// the arena `[0, width] x [0, height]`.
    pub fn update(&mut self, dt: u64, width: i128, height: i128)
        requires
            old(self).wf(),
            dt <= MAX_DT,
            arena_ok(width as int, height as int),
        ensures
            final(self).wf(),
            final(self).physical_object == old(self).physical_object.integrated(
                dt as int,
            ).clamped(width as int, height as int),
            final(self).size == old(self).size,
    {
        self.physical_object.update(dt);
        self.physical_object.keep_in(width, height);
    }
}

impl GameObject for Enemy {
    open spec fn body(&self) -> PhysicalObject {
        self.physical_object
    }

    fn get_physical_object(&self) -> (r: &PhysicalObject) {
        &self.physical_object
    }

    fn physical_object(&mut self) -> (r: &mut PhysicalObject) {
        &mut self.physical_object
    }
}

} // verus!
