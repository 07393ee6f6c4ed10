use vstd::prelude::*;

verus! {

/// The four directions in which the player can thrust.
#[derive(Clone, Copy, Debug, PartialEq, Eq, Structural)]
pub enum Direction {
    WEST,
    NORTH,
    EAST,
    SOUTH,
}

/// A two-dimensional vector of fixed-point integers.
#[derive(Clone, Copy, Debug, PartialEq, Eq, Structural)]
pub struct Vector2 {
    pub x: i128,
    pub y: i128,
}

/// Largest magnitude of an arena bound handed to `restrict_to_bounds`.
pub const MAX_BOUND: i128 = 18_446_744_073_709_551_616;

impl Vector2 {
    pub fn new(x: i128, y: i128) -> (r: Vector2)
        ensures
            r.x == x,
            r.y == y,
    {
        Vector2 { x, y }
    }

    /// Adds `other` into `self`, component by component.
    pub fn add(&mut self, other: &Vector2)
        requires
            i128::MIN <= old(self).x + other.x <= i128::MAX,
            i128::MIN <= old(self).y + other.y <= i128::MAX,
        ensures
            final(self).x == old(self).x + other.x,
            final(self).y == old(self).y + other.y,
    {
        self.x = self.x + other.x;
        self.y = self.y + other.y;
    }
}

/// Where one coordinate ends up when a body whose extent is `offset` is kept
/// inside `[0, max]`.
pub open spec fn clamp_axis(p: int, offset: int, max: int) -> int {
    if p - offset <= 0 {
        offset
    } else if p + offset >= max {
        max - offset
    } else {
        p
    }
}

/// The bounds are `[offset_x, offset_y, max_x, max_y]`.
pub open spec fn bounds_ok(bounds: [i128; 4]) -> bool {
    forall|i: int| 0 <= i < 4 ==> -MAX_BOUND <= #[trigger] bounds[i] <= MAX_BOUND
}

/// Clamps `pos` so that a body with the given offsets stays inside the arena
/// `[0, max_x] x [0, max_y]`. Velocity is not touched: this is a hard stop,
/// not a bounce.
pub fn restrict_to_bounds(pos: &mut Vector2, bounds: [i128; 4])
    requires
        bounds_ok(bounds),
    ensures
        *final(pos) == restricted(*old(pos), bounds),
{
    let ox = bounds[0];
    let oy = bounds[1];
    let mx = bounds[2];
    let my = bounds[3];
    assert(-MAX_BOUND <= bounds[0] <= MAX_BOUND && -MAX_BOUND <= bounds[1] <= MAX_BOUND);
    assert(-MAX_BOUND <= bounds[2] <= MAX_BOUND && -MAX_BOUND <= bounds[3] <= MAX_BOUND);
    if pos.x <= ox {
        pos.x = ox;
    } else if pos.x >= mx - ox {
        pos.x = mx - ox;
    }
    if pos.y <= oy {
        pos.y = oy;
    } else if pos.y >= my - oy {
        pos.y = my - oy;
    }
}

/// The position that `restrict_to_bounds` leaves.
pub open spec fn restricted(pos: Vector2, bounds: [i128; 4]) -> Vector2 {
    Vector2 {
        x: clamp_axis(pos.x as int, bounds[0] as int, bounds[2] as int) as i128,
        y: clamp_axis(pos.y as int, bounds[1] as int, bounds[3] as int) as i128,
    }
}

/// Restricting a position twice gives what restricting it once gives,
/// whenever the arena is at least twice the offset on each axis.
pub proof fn lemma_restrict_idempotent(pos: Vector2, bounds: [i128; 4])
    requires
        bounds_ok(bounds),
        2 * bounds[0] <= bounds[2],
        2 * bounds[1] <= bounds[3],
    ensures
        restricted(restricted(pos, bounds), bounds) == restricted(pos, bounds),
{
    assert(-MAX_BOUND <= bounds[0] <= MAX_BOUND && -MAX_BOUND <= bounds[1] <= MAX_BOUND);
    assert(-MAX_BOUND <= bounds[2] <= MAX_BOUND && -MAX_BOUND <= bounds[3] <= MAX_BOUND);
}

} // verus!
