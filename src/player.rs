use vstd::prelude::*;

use crate::geom::{Direction, Vector2};
use crate::object::GameObject;
use crate::physics::{MAX_DT, PhysicalObject, arena_ok, in_coord_range};

verus! {

/// Mass of the player.
pub const PLAYER_MASS: i128 = 1_000_000;

/// Force of the player's thrust on one axis.
pub const PLAYER_THRUST: i128 = 200_000_000;

/// Side of the square drawn for the player: twenty pixels.
pub const PLAYER_SIZE: i128 = 20_000_000;

/// How long, in milliseconds, the player is meant to drift after a movement
/// key is released. No decay uses it yet: velocity simply persists.
pub const PLAYER_DRIFT: u64 = 200;

/// The body the user steers.
#[derive(Clone, Copy)]
pub struct Player {
    pub physical_object: PhysicalObject,
    pub size: i128,
    pub drift_ttl: u64,
    /// The force the player currently thrusts with.
    pub move_offset: Vector2,
}

/// A thrust has each component at zero or at the thrust's full force.
pub open spec fn thrust_ok(v: Vector2) -> bool {
    &&& (v.x == 0 || v.x == PLAYER_THRUST || v.x == -PLAYER_THRUST)
    &&& (v.y == 0 || v.y == PLAYER_THRUST || v.y == -PLAYER_THRUST)
}

/// The thrust after a movement key is pressed: the key's axis pushes its way,
/// the other axis is kept.
pub open spec fn thrust_started(v: Vector2, dir: Direction) -> Vector2 {
    match dir {
        Direction::WEST => Vector2 { x: (-PLAYER_THRUST) as i128, y: v.y },
        Direction::NORTH => Vector2 { x: v.x, y: (-PLAYER_THRUST) as i128 },
        Direction::EAST => Vector2 { x: PLAYER_THRUST, y: v.y },
        Direction::SOUTH => Vector2 { x: v.x, y: PLAYER_THRUST },
    }
}

/// The thrust after a movement key is released: the key's axis stops pushing.
pub open spec fn thrust_stopped(v: Vector2, dir: Direction) -> Vector2 {
    match dir {
        Direction::WEST | Direction::EAST => Vector2 { x: 0, y: v.y },
        Direction::NORTH | Direction::SOUTH => Vector2 { x: v.x, y: 0 },
    }
}

impl Player {
    pub open spec fn wf(&self) -> bool {
        self.physical_object.wf() && thrust_ok(self.move_offset)
    }

    /// A resting player at `(x, y)`, not thrusting.
    pub fn new(x: i128, y: i128) -> (r: Player)
        requires
            in_coord_range(Vector2 { x, y }),
        ensures
            r.wf(),
            r.physical_object == PhysicalObject::resting(PLAYER_MASS as int, Vector2 { x, y }),
            r.move_offset == (Vector2 { x: 0, y: 0 }),
            r.size == PLAYER_SIZE,
            r.drift_ttl == 0,
    {
        Player {
            physical_object: PhysicalObject::with_mass(PLAYER_MASS, Vector2::new(x, y)),
            drift_ttl: 0,
            move_offset: Vector2::new(0, 0),
            size: PLAYER_SIZE,
        }
    }

    /// Starts thrusting toward `dir`.
    pub fn start_move(&mut self, dir: Direction)
        requires
            old(self).wf(),
        ensures
            final(self).wf(),
            final(self).move_offset == thrust_started(old(self).move_offset, dir),
            final(self).physical_object == old(self).physical_object,
            final(self).size == old(self).size,
            final(self).drift_ttl == old(self).drift_ttl,
    {
        match dir {
            Direction::WEST => self.move_offset.x = -PLAYER_THRUST,
            Direction::NORTH => self.move_offset.y = -PLAYER_THRUST,
            Direction::EAST => self.move_offset.x = PLAYER_THRUST,
            Direction::SOUTH => self.move_offset.y = PLAYER_THRUST,
        }
    }

    /// Stops thrusting on the axis of `dir`.
    pub fn stop_move(&mut self, dir: Direction)
        requires
            old(self).wf(),
        ensures
            final(self).wf(),
            final(self).move_offset == thrust_stopped(old(self).move_offset, dir),
            final(self).physical_object == old(self).physical_object,
            final(self).size == old(self).size,
            final(self).drift_ttl == old(self).drift_ttl,
    {
        match dir {
            Direction::WEST => self.move_offset.x = 0,
            Direction::NORTH => self.move_offset.y = 0,
            Direction::EAST => self.move_offset.x = 0,
            Direction::SOUTH => self.move_offset.y = 0,
        }
    }

    /// One tick: the thrust acts for `dt`, the player moves, and is kept
    /// inside the arena `[0, width] x [0, height]`.
    pub fn update(&mut self, dt: u64, width: i128, height: i128)
        requires
            old(self).wf(),
            dt <= MAX_DT,
            arena_ok(width as int, height as int),
        ensures
            final(self).wf(),
            final(self).physical_object == old(self).physical_object.applied(
                dt as int,
                old(self).move_offset,
            ).integrated(dt as int).clamped(width as int, height as int),
            final(self).move_offset == old(self).move_offset,
            final(self).size == old(self).size,
            final(self).drift_ttl == old(self).drift_ttl,
    {
        let offset = self.move_offset;
        self.physical_object.apply(dt, &offset);
        self.physical_object.update(dt);
        self.physical_object.keep_in(width, height);
    }
}

impl GameObject for Player {
    open spec fn body(&self) -> PhysicalObject {
        self.physical_object
    }

    fn get_physical_object(&self) -> (r: &PhysicalObject) {
        &self.physical_object
    }

    fn physical_object(&mut self) -> (r: &mut PhysicalObject) {
        &mut self.physical_object
    }
}

} // verus!
