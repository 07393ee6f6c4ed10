use vstd::prelude::*;

use crate::geom::{Vector2, clamp_axis, restrict_to_bounds};

verus! {

/// Largest magnitude of a coordinate; integration saturates here.
pub const MAX_COORD: i128 = 1_099_511_627_776;

/// Largest magnitude of a velocity component; force application saturates here.
pub const MAX_SPEED: i128 = 1_099_511_627_776;

/// Largest mass a body may have.
pub const MAX_MASS: i128 = 2_147_483_648;

/// Largest radius a body may have.
pub const MAX_RADIUS: i128 = 1_099_511_627_776;

/// Largest magnitude of a force component handed to `apply`.
pub const MAX_FORCE: i128 = 1_267_650_600_228_229_401_496_703_205_376;

/// Longest time step, in milliseconds.
pub const MAX_DT: u64 = 16_777_216;

/// Gravitational constant, in length units cubed per mass unit per
/// millisecond squared.
pub const GRAVITY: i128 = 667_400_000;

/// `GRAVITY * MAX_MASS * MAX_MASS`: no attraction, nor the attraction times
/// the squared distance, goes beyond it.
pub const MAX_PAIR_FORCE: i128 = 3_077_839_248_698_438_687_129_600_000;

/// Radius of a freshly built physical object: one pixel.
pub const DEFAULT_RADIUS: i128 = 1_000_000;

/// Why a physical object could not be built.
#[derive(Clone, Copy, Debug, PartialEq, Eq, Structural)]
pub enum PhysicsError {
    NonPositiveMass,
    MassTooLarge,
    PositionOutOfRange,
}

/// Mass, extent and motion of one body.
#[derive(Clone, Copy, Debug, PartialEq, Eq, Structural)]
pub struct PhysicalObject {
    pub radius: i128,
    pub mass: i128,
    pub position: Vector2,
    pub velocity: Vector2,
}

pub open spec fn clamp(v: int, lim: int) -> int {
    if v > lim {
        lim
    } else if v < -lim {
        -lim
    } else {
        v
    }
}

/// Integer division rounding toward zero, for a positive divisor.
pub open spec fn tdiv(a: int, b: int) -> int {
    if a >= 0 {
        a / b
    } else {
        -((-a) / b)
    }
}

/// A velocity component after a force component acted on a mass for `dt`.
pub open spec fn velocity_after(v: int, f: int, dt: int, mass: int) -> int {
    clamp(v + tdiv(f * dt, mass), MAX_SPEED as int)
}

/// A coordinate after moving at velocity `v` for `dt`.
pub open spec fn position_after(p: int, v: int, dt: int) -> int {
    clamp(p + v * dt, MAX_COORD as int)
}

pub open spec fn in_coord_range(p: Vector2) -> bool {
    -MAX_COORD <= p.x <= MAX_COORD && -MAX_COORD <= p.y <= MAX_COORD
}

/// An arena of the given size fits the coordinate range.
pub open spec fn arena_ok(width: int, height: int) -> bool {
    0 <= width <= MAX_COORD && 0 <= height <= MAX_COORD
}

pub open spec fn force_ok(f: Vector2) -> bool {
    -MAX_FORCE <= f.x <= MAX_FORCE && -MAX_FORCE <= f.y <= MAX_FORCE
}

pub open spec fn dist2(a: Vector2, b: Vector2) -> int {
    (a.x - b.x) * (a.x - b.x) + (a.y - b.y) * (a.y - b.y)
}

/// Newtonian attraction `G * m1 * m2 / r^2` between two bodies, rounded
/// down; zero when their centers coincide.
pub open spec fn gravity_magnitude(a: PhysicalObject, b: PhysicalObject) -> int {
    let r2 = dist2(a.position, b.position);
    if r2 == 0 {
        0
    } else {
        (GRAVITY * a.mass * b.mass) / r2
    }
}

/// One component of the pull on a body at coordinate `p` toward a body at
/// coordinate `q`: the magnitude `f` is shared out by `d^2 / r^2`, where `d`
/// is the offset on this axis, and points toward `q`.
pub open spec fn pull_component(f: int, p: int, q: int, r2: int) -> int {
    if r2 == 0 {
        0
    } else {
        let m = f * ((p - q) * (p - q)) / r2;
        if p > q {
            -m
        } else {
            m
        }
    }
}

/// The gravitational force that `b` exerts on `a`.
pub open spec fn gravity_force(a: PhysicalObject, b: PhysicalObject) -> Vector2 {
    let f = gravity_magnitude(a, b);
    let r2 = dist2(a.position, b.position);
    Vector2 {
        x: pull_component(f, a.position.x as int, b.position.x as int, r2) as i128,
        y: pull_component(f, a.position.y as int, b.position.y as int, r2) as i128,
    }
}

/// Two circles touch or overlap: `(r1 - r2)^2 <= d^2 <= (r1 + r2)^2`.
pub open spec fn circles_collide(a: PhysicalObject, b: PhysicalObject) -> bool {
    let d2 = dist2(a.position, b.position);
    (a.radius - b.radius) * (a.radius - b.radius) <= d2 && d2 <= (a.radius + b.radius) * (
    a.radius + b.radius)
}

impl PhysicalObject {
    pub open spec fn wf(&self) -> bool {
        &&& 0 < self.radius <= MAX_RADIUS
        &&& 0 < self.mass <= MAX_MASS
        &&& in_coord_range(self.position)
        &&& -MAX_SPEED <= self.velocity.x <= MAX_SPEED
        &&& -MAX_SPEED <= self.velocity.y <= MAX_SPEED
    }

    /// The object with its position kept inside the arena `[0, w] x [0, h]`,
    /// its radius as the margin.
    pub open spec fn clamped(self, w: int, h: int) -> PhysicalObject {
        PhysicalObject {
            position: Vector2 {
                x: clamp_axis(self.position.x as int, self.radius as int, w) as i128,
                y: clamp_axis(self.position.y as int, self.radius as int, h) as i128,
            },
            ..self
        }
    }

    /// Keeps the object inside the arena `[0, width] x [0, height]`.
    pub(crate) fn keep_in(&mut self, width: i128, height: i128)
        requires
            old(self).wf(),
            arena_ok(width as int, height as int),
        ensures
            final(self).wf(),
            *final(self) == old(self).clamped(width as int, height as int),
    {
        let r = self.radius;
        restrict_to_bounds(&mut self.position, [r, r, width, height]);
    }

    /// A resting object of the given mass and the default radius.
    pub open spec fn resting(mass: int, position: Vector2) -> PhysicalObject {
        PhysicalObject {
            radius: DEFAULT_RADIUS,
            mass: mass as i128,
            position,
            velocity: (Vector2 { x: 0, y: 0 }),
        }
    }

    /// The object after `force` acted on it for `dt`.
    pub open spec fn applied(self, dt: int, force: Vector2) -> PhysicalObject {
        PhysicalObject {
            velocity: Vector2 {
                x: velocity_after(self.velocity.x as int, force.x as int, dt, self.mass as int)
                    as i128,
                y: velocity_after(self.velocity.y as int, force.y as int, dt, self.mass as int)
                    as i128,
            },
            ..self
        }
    }

    /// The object after moving at its velocity for `dt`.
    pub open spec fn integrated(self, dt: int) -> PhysicalObject {
        PhysicalObject {
            position: Vector2 {
                x: position_after(self.position.x as int, self.velocity.x as int, dt) as i128,
                y: position_after(self.position.y as int, self.velocity.y as int, dt) as i128,
            },
            ..self
        }
    }

    /// Builds a resting object of the given mass; the radius is the default.
    pub(crate) fn with_mass(mass: i128, position: Vector2) -> (r: PhysicalObject)
        requires
            0 < mass <= MAX_MASS,
            in_coord_range(position),
        ensures
            r.wf(),
            r == PhysicalObject::resting(mass as int, position),
    {
        PhysicalObject { radius: DEFAULT_RADIUS, mass, position, velocity: Vector2::new(0, 0) }
    }

    /// Builds a resting object; a mass that is not positive is refused, as is
    /// one or a position beyond what the fixed-point model holds.
    pub fn new(mass: i128, position: Vector2) -> (r: Result<PhysicalObject, PhysicsError>)
        ensures
            mass <= 0 ==> r == Err::<PhysicalObject, PhysicsError>(PhysicsError::NonPositiveMass),
            mass > MAX_MASS ==> r == Err::<PhysicalObject, PhysicsError>(
                PhysicsError::MassTooLarge,
            ),
            0 < mass <= MAX_MASS && !in_coord_range(position) ==> r == Err::<
                PhysicalObject,
                PhysicsError,
            >(PhysicsError::PositionOutOfRange),
            0 < mass <= MAX_MASS && in_coord_range(position) ==> r == Ok::<
                PhysicalObject,
                PhysicsError,
            >(PhysicalObject::resting(mass as int, position)),
    {
        if mass <= 0 {
            Err(PhysicsError::NonPositiveMass)
        } else if mass > MAX_MASS {
            Err(PhysicsError::MassTooLarge)
        } else if position.x < -MAX_COORD || position.x > MAX_COORD || position.y < -MAX_COORD
            || position.y > MAX_COORD {
            Err(PhysicsError::PositionOutOfRange)
        } else {
            Ok(PhysicalObject::with_mass(mass, position))
        }
    }

    /// Moves the object at its velocity for `dt` (semi-implicit Euler: call
    /// after every `apply` of the tick).
    pub fn update(&mut self, dt: u64)
        requires
            old(self).wf(),
            dt <= MAX_DT,
        ensures
            final(self).wf(),
            *final(self) == old(self).integrated(dt as int),
    {
        let d = dt as i128;
        assert(-MAX_SPEED * (dt as int) <= self.velocity.x * (dt as int) <= MAX_SPEED * (dt as int))
            by (nonlinear_arith)
            requires
                -MAX_SPEED <= self.velocity.x <= MAX_SPEED,
                0 <= dt <= MAX_DT,
        ;
        assert(-MAX_SPEED * (dt as int) <= self.velocity.y * (dt as int) <= MAX_SPEED * (dt as int))
            by (nonlinear_arith)
            requires
                -MAX_SPEED <= self.velocity.y <= MAX_SPEED,
                0 <= dt <= MAX_DT,
        ;
        let nx = saturate(self.position.x + self.velocity.x * d, MAX_COORD);
        let ny = saturate(self.position.y + self.velocity.y * d, MAX_COORD);
        self.position = Vector2::new(nx, ny);
    }

    /// Lets `force` act on the object for `dt`: `v += (F / m) * dt`.
    pub fn apply(&mut self, dt: u64, force: &Vector2)
        requires
            old(self).wf(),
            dt <= MAX_DT,
            force_ok(*force),
        ensures
            final(self).wf(),
            *final(self) == old(self).applied(dt as int, *force),
    {
        let d = dt as i128;
        assert(-MAX_FORCE * (dt as int) <= force.x * (dt as int) <= MAX_FORCE * (dt as int))
            by (nonlinear_arith)
            requires
                -MAX_FORCE <= force.x <= MAX_FORCE,
                0 <= dt <= MAX_DT,
        ;
        assert(-MAX_FORCE * (dt as int) <= force.y * (dt as int) <= MAX_FORCE * (dt as int))
            by (nonlinear_arith)
            requires
                -MAX_FORCE <= force.y <= MAX_FORCE,
                0 <= dt <= MAX_DT,
        ;
        let dvx = div_toward_zero(force.x * d, self.mass);
        let dvy = div_toward_zero(force.y * d, self.mass);
        let vx = saturate(self.velocity.x + dvx, MAX_SPEED);
        let vy = saturate(self.velocity.y + dvy, MAX_SPEED);
        self.velocity = Vector2::new(vx, vy);
    }

    /// Squared distance between the two centers.
    pub fn distance_squared(&self, other: &PhysicalObject) -> (r: i128)
        requires
            self.wf(),
            other.wf(),
        ensures
            r == dist2(self.position, other.position),
            0 <= r <= 8 * MAX_COORD * MAX_COORD,
            (self.position.x - other.position.x) * (self.position.x - other.position.x) <= r,
            (self.position.y - other.position.y) * (self.position.y - other.position.y) <= r,
    {
        let dx = self.position.x - other.position.x;
        let dy = self.position.y - other.position.y;
        assert(0 <= dx * dx <= 4 * MAX_COORD * MAX_COORD) by (nonlinear_arith)
            requires
                -2 * MAX_COORD <= dx <= 2 * MAX_COORD,
        ;
        assert(0 <= dy * dy <= 4 * MAX_COORD * MAX_COORD) by (nonlinear_arith)
            requires
                -2 * MAX_COORD <= dy <= 2 * MAX_COORD,
        ;
        let r = dx * dx + dy * dy;
        assert(r == dist2(self.position, other.position));
        r
    }

    /// Magnitude of the gravitational attraction between the two bodies.
    pub fn gravity_magnitude(&self, other: &PhysicalObject) -> (r: i128)
        requires
            self.wf(),
            other.wf(),
        ensures
            r == gravity_magnitude(*self, *other),
            0 <= r <= MAX_PAIR_FORCE,
            r * dist2(self.position, other.position) <= MAX_PAIR_FORCE,
    {
        proof {
            lemma_magnitude_bounded(*self, *other);
        }
        let r2 = self.distance_squared(other);
        if r2 == 0 {
            0
        } else {
            let m1 = self.mass;
            let m2 = other.mass;
            assert(0 < m1 * m2 <= MAX_MASS * MAX_MASS) by (nonlinear_arith)
                requires
                    0 < m1 <= MAX_MASS,
                    0 < m2 <= MAX_MASS,
            ;
            assert(GRAVITY * m1 * m2 == GRAVITY * (m1 * m2)) by (nonlinear_arith);
            let p = m1 * m2;
            let k = GRAVITY * p;
            k / r2
        }
    }

    /// The gravitational force that `other` exerts on this body. Nothing is
    /// changed; see `interact` for the mutual application.
    pub fn calculate_interaction(&self, other: &PhysicalObject) -> (r: Vector2)
        requires
            self.wf(),
            other.wf(),
        ensures
            r == gravity_force(*self, *other),
            -MAX_PAIR_FORCE <= r.x <= MAX_PAIR_FORCE,
            -MAX_PAIR_FORCE <= r.y <= MAX_PAIR_FORCE,
    {
        let f = self.gravity_magnitude(other);
        let r2 = self.distance_squared(other);
        let fx = pull(f, self.position.x, other.position.x, r2);
        let fy = pull(f, self.position.y, other.position.y, r2);
        Vector2::new(fx, fy)
    }

    /// Lets the two bodies attract each other for `dt`: this body receives
    /// the force of `other`, and `other` the opposite force. Returns the
    /// magnitude of the attraction.
    pub fn interact(&mut self, dt: u64, other: &mut PhysicalObject) -> (r: i128)
        requires
            old(self).wf(),
            old(other).wf(),
            dt <= MAX_DT,
        ensures
            r == gravity_magnitude(*old(self), *old(other)),
            final(self).wf(),
            final(other).wf(),
            *final(self) == old(self).applied(dt as int, gravity_force(*old(self), *old(other))),
            *final(other) == old(other).applied(dt as int, gravity_force(*old(other), *old(self))),
    {
        let f = self.gravity_magnitude(other);
        let force = self.calculate_interaction(other);
        let back = Vector2::new(-force.x, -force.y);
        proof {
            lemma_reaction(*self, *other);
        }
        self.apply(dt, &force);
        other.apply(dt, &back);
        f
    }

    /// Whether the two circles touch or overlap.
    pub fn collides(&self, other: &PhysicalObject) -> (r: bool)
        requires
            self.wf(),
            other.wf(),
        ensures
            r == circles_collide(*self, *other),
    {
        let d2 = self.distance_squared(other);
        let lo = self.radius - other.radius;
        let hi = self.radius + other.radius;
        assert(0 <= lo * lo <= 4 * MAX_RADIUS * MAX_RADIUS) by (nonlinear_arith)
            requires
                -2 * MAX_RADIUS <= lo <= 2 * MAX_RADIUS,
        ;
        assert(0 <= hi * hi <= 4 * MAX_RADIUS * MAX_RADIUS) by (nonlinear_arith)
            requires
                0 <= hi <= 2 * MAX_RADIUS,
        ;
        lo * lo <= d2 && d2 <= hi * hi
    }
}

/// The share of `f` on one axis, pointing from `p` toward `q`.
fn pull(f: i128, p: i128, q: i128, r2: i128) -> (r: i128)
    requires
        0 <= f,
        f * r2 <= MAX_PAIR_FORCE,
        -MAX_COORD <= p <= MAX_COORD,
        -MAX_COORD <= q <= MAX_COORD,
        (p - q) * (p - q) <= r2,
    ensures
        r == pull_component(f as int, p as int, q as int, r2 as int),
        -f <= r <= f,
{
    if r2 == 0 {
        0
    } else {
        let d = p - q;
        assert(0 <= d * d <= 4 * MAX_COORD * MAX_COORD) by (nonlinear_arith)
            requires
                -2 * MAX_COORD <= d <= 2 * MAX_COORD,
        ;
        assert(0 <= f * (d * d) <= f * r2) by (nonlinear_arith)
            requires
                0 <= f,
                0 <= d * d <= r2,
        ;
        let n = f * (d * d);
        let m = n / r2;
        proof {
            vstd::arithmetic::div_mod::lemma_fundamental_div_mod(n as int, r2 as int);
            vstd::arithmetic::div_mod::lemma_div_pos_is_pos(n as int, r2 as int);
            vstd::arithmetic::div_mod::lemma_mod_pos_bound(n as int, r2 as int);
            assert(m * r2 <= n) by (nonlinear_arith)
                requires
                    n == r2 * m + n % r2,
                    n % r2 >= 0,
            ;
            assert(m <= f) by (nonlinear_arith)
                requires
                    m >= 0,
                    m * r2 <= n,
                    n == f * (d * d),
                    d * d <= r2,
                    r2 > 0,
                    f >= 0,
            ;
        }
        if p > q {
            -m
        } else {
            m
        }
    }
}

/// Clamps `v` into `[-lim, lim]`.
fn saturate(v: i128, lim: i128) -> (r: i128)
    requires
        lim >= 0,
    ensures
        r == clamp(v as int, lim as int),
{
    if v > lim {
        lim
    } else if v < -lim {
        -lim
    } else {
        v
    }
}

fn div_toward_zero(a: i128, b: i128) -> (r: i128)
    requires
        b > 0,
        a > i128::MIN,
    ensures
        r == tdiv(a as int, b as int),
        a >= 0 ==> 0 <= r <= a,
        a < 0 ==> a <= r <= 0,
{
    if a >= 0 {
        assert(a / b <= a) by (nonlinear_arith) requires a >= 0, b > 0;
        a / b
    } else {
        let n = -a;
        assert(n / b <= n) by (nonlinear_arith) requires n >= 0, b > 0;
        -(n / b)
    }
}

pub open spec fn iabs(v: int) -> int {
    if v < 0 {
        -v
    } else {
        v
    }
}

/// Each share `f * x2 / r2` of a magnitude lies between zero and the whole.
proof fn lemma_share_bounded(f: int, x2: int, r2: int)
    requires
        f >= 0,
        0 <= x2 <= r2,
        r2 > 0,
    ensures
        0 <= f * x2 / r2 <= f,
{
    vstd::arithmetic::mul::lemma_mul_nonnegative(f, x2);
    vstd::arithmetic::div_mod::lemma_div_pos_is_pos(f * x2, r2);
    vstd::arithmetic::mul::lemma_mul_inequality(x2, r2, f);
    vstd::arithmetic::div_mod::lemma_div_is_ordered(f * x2, f * r2, r2);
    vstd::arithmetic::div_mod::lemma_div_by_multiple(f, r2);
    assert(f * r2 == r2 * f) by (nonlinear_arith);
}

/// The two shares of a magnitude add up to it, less at most one unit lost to
/// rounding.
proof fn lemma_shares_sum(f: int, x2: int, y2: int)
    requires
        f >= 0,
        x2 >= 0,
        y2 >= 0,
        x2 + y2 > 0,
    ensures
        f - 1 <= f * x2 / (x2 + y2) + f * y2 / (x2 + y2) <= f,
{
    let r2 = x2 + y2;
    let ax = f * x2 / r2;
    let ay = f * y2 / r2;
    vstd::arithmetic::div_mod::lemma_fundamental_div_mod(f * x2, r2);
    vstd::arithmetic::div_mod::lemma_fundamental_div_mod(f * y2, r2);
    vstd::arithmetic::div_mod::lemma_mod_pos_bound(f * x2, r2);
    vstd::arithmetic::div_mod::lemma_mod_pos_bound(f * y2, r2);
    let ex = (f * x2) % r2;
    let ey = (f * y2) % r2;
    assert(f * x2 + f * y2 == f * r2) by (nonlinear_arith)
        requires
            r2 == x2 + y2,
    ;
    assert((ax + ay) * r2 == f * r2 - ex - ey) by (nonlinear_arith)
        requires
            f * x2 == r2 * ax + ex,
            f * y2 == r2 * ay + ey,
            f * x2 + f * y2 == f * r2,
    ;
    assert(ax + ay <= f) by (nonlinear_arith)
        requires
            (ax + ay) * r2 == f * r2 - ex - ey,
            ex >= 0,
            ey >= 0,
            r2 > 0,
    ;
    assert(f - 1 <= ax + ay) by (nonlinear_arith)
        requires
            (ax + ay) * r2 == f * r2 - ex - ey,
            ex < r2,
            ey < r2,
            r2 > 0,
    ;
}

/// Neither the attraction nor the attraction times the squared distance
/// goes beyond `MAX_PAIR_FORCE`.
proof fn lemma_magnitude_bounded(a: PhysicalObject, b: PhysicalObject)
    requires
        a.wf(),
        b.wf(),
    ensures
        0 <= gravity_magnitude(a, b) <= MAX_PAIR_FORCE,
        gravity_magnitude(a, b) * dist2(a.position, b.position) <= MAX_PAIR_FORCE,
        dist2(a.position, b.position) >= 0,
{
    let m1 = a.mass as int;
    let m2 = b.mass as int;
    assert(0 < m1 * m2 <= MAX_MASS * MAX_MASS) by (nonlinear_arith)
        requires
            0 < m1 <= MAX_MASS,
            0 < m2 <= MAX_MASS,
    ;
    let r2 = dist2(a.position, b.position);
    let dx = a.position.x - b.position.x;
    let dy = a.position.y - b.position.y;
    assert(dx * dx >= 0 && dy * dy >= 0) by (nonlinear_arith);
    if r2 != 0 {
        let k = GRAVITY * m1 * m2;
        let q = k / r2;
        assert(k == GRAVITY * (m1 * m2)) by (nonlinear_arith)
            requires
                k == GRAVITY * m1 * m2,
        ;
        assert(k <= MAX_PAIR_FORCE) by (nonlinear_arith)
            requires
                k == GRAVITY * (m1 * m2),
                0 < m1 * m2 <= MAX_MASS * MAX_MASS,
        ;
        vstd::arithmetic::div_mod::lemma_fundamental_div_mod(k, r2);
        vstd::arithmetic::div_mod::lemma_div_pos_is_pos(k, r2);
        vstd::arithmetic::div_mod::lemma_mod_pos_bound(k, r2);
        assert(q * r2 <= k) by (nonlinear_arith)
            requires
                k == r2 * q + k % r2,
                k % r2 >= 0,
        ;
        assert(q <= q * r2) by (nonlinear_arith)
            requires
                q >= 0,
                r2 >= 1,
        ;
    }
}

/// Between two separated bodies the attraction is `G * m1 * m2 / r^2`, and
/// its components, shared out by `dx^2 / r^2` and `dy^2 / r^2` (weights that
/// add up to one), never exceed it together: `|Fx| + |Fy| <= F`, hence
/// `Fx^2 + Fy^2 <= F^2`. Rounding loses at most one unit of the whole.
pub proof fn lemma_gravity_split(a: PhysicalObject, b: PhysicalObject)
    requires
        a.wf(),
        b.wf(),
        dist2(a.position, b.position) > 0,
    ensures
        gravity_magnitude(a, b) == (GRAVITY * a.mass * b.mass) / dist2(a.position, b.position),
        (a.position.x - b.position.x) * (a.position.x - b.position.x) + (a.position.y
            - b.position.y) * (a.position.y - b.position.y) == dist2(a.position, b.position),
        iabs(gravity_force(a, b).x as int) + iabs(gravity_force(a, b).y as int)
            <= gravity_magnitude(a, b),
        gravity_magnitude(a, b) - 1 <= iabs(gravity_force(a, b).x as int) + iabs(
            gravity_force(a, b).y as int,
        ),
        gravity_force(a, b).x * gravity_force(a, b).x + gravity_force(a, b).y * gravity_force(
            a,
            b,
        ).y <= gravity_magnitude(a, b) * gravity_magnitude(a, b),
{
    lemma_magnitude_bounded(a, b);
    let f = gravity_magnitude(a, b);
    let dx = a.position.x - b.position.x;
    let dy = a.position.y - b.position.y;
    let x2 = dx * dx;
    let y2 = dy * dy;
    let r2 = dist2(a.position, b.position);
    assert(dx * dx >= 0 && dy * dy >= 0) by (nonlinear_arith);
    lemma_share_bounded(f, x2, r2);
    lemma_share_bounded(f, y2, r2);
    lemma_shares_sum(f, x2, y2);
    let ax = f * x2 / r2;
    let ay = f * y2 / r2;
    assert(iabs(pull_component(f, a.position.x as int, b.position.x as int, r2)) == ax);
    assert(iabs(pull_component(f, a.position.y as int, b.position.y as int, r2)) == ay);
    let g = gravity_force(a, b);
    assert(iabs(g.x as int) == ax);
    assert(iabs(g.y as int) == ay);
    let gx = g.x as int;
    let gy = g.y as int;
    assert(gx * gx == iabs(gx) * iabs(gx)) by (nonlinear_arith);
    assert(gy * gy == iabs(gy) * iabs(gy)) by (nonlinear_arith);
    assert(g.x * g.x + g.y * g.y <= f * f) by (nonlinear_arith)
        requires
            iabs(g.x as int) + iabs(g.y as int) <= f,
            g.x * g.x == iabs(g.x as int) * iabs(g.x as int),
            g.y * g.y == iabs(g.y as int) * iabs(g.y as int),
            iabs(g.x as int) >= 0,
            iabs(g.y as int) >= 0,
    ;
}

/// Collision is symmetric.
pub proof fn lemma_collides_symmetric(a: PhysicalObject, b: PhysicalObject)
    ensures
        circles_collide(a, b) == circles_collide(b, a),
{
    assert(dist2(a.position, b.position) == dist2(b.position, a.position)) by (nonlinear_arith);
    assert((a.radius - b.radius) * (a.radius - b.radius) == (b.radius - a.radius) * (b.radius
        - a.radius)) by (nonlinear_arith);
}

/// Two circles of the same radius at the same center collide. (With unequal
/// radii the smaller lies strictly inside the larger, and the boundaries do
/// not meet.)
pub proof fn lemma_concentric_collide(a: PhysicalObject, b: PhysicalObject)
    requires
        a.position == b.position,
        a.radius == b.radius,
        a.radius > 0,
    ensures
        circles_collide(a, b),
{
    assert(dist2(a.position, b.position) == 0);
    assert(0 <= (a.radius + b.radius) * (a.radius + b.radius)) by (nonlinear_arith);
}

/// Two circles whose centers lie farther apart than the sum of their radii do
/// not collide.
pub proof fn lemma_apart_no_collision(a: PhysicalObject, b: PhysicalObject)
    requires
        dist2(a.position, b.position) > (a.radius + b.radius) * (a.radius + b.radius),
    ensures
        !circles_collide(a, b),
{
}

/// With no force, a step keeps the velocity and moves the position by exactly
/// `velocity * dt`, as long as that stays within the coordinate range.
pub proof fn lemma_coast(o: PhysicalObject, dt: int)
    requires
        o.wf(),
        0 <= dt,
    ensures
        o.applied(dt, Vector2 { x: 0, y: 0 }).velocity == o.velocity,
        in_coord_range(
            Vector2 {
                x: (o.position.x + o.velocity.x * dt) as i128,
                y: (o.position.y + o.velocity.y * dt) as i128,
            },
        ) && -MAX_COORD <= o.position.x + o.velocity.x * dt <= MAX_COORD && -MAX_COORD
            <= o.position.y + o.velocity.y * dt <= MAX_COORD ==> o.applied(
            dt,
            Vector2 { x: 0, y: 0 },
        ).integrated(dt).position.x == o.position.x + o.velocity.x * dt && o.applied(
            dt,
            Vector2 { x: 0, y: 0 },
        ).integrated(dt).position.y == o.position.y + o.velocity.y * dt,
{
    assert(0 * dt == 0);
}

/// Action and reaction: the force that `b` exerts on `a` is the opposite of
/// the force that `a` exerts on `b`.
pub proof fn lemma_reaction(a: PhysicalObject, b: PhysicalObject)
    requires
        a.wf(),
        b.wf(),
    ensures
        gravity_force(b, a).x == -gravity_force(a, b).x,
        gravity_force(b, a).y == -gravity_force(a, b).y,
        gravity_magnitude(b, a) == gravity_magnitude(a, b),
{
    lemma_magnitude_bounded(a, b);
    let r2 = dist2(a.position, b.position);
    assert(dist2(a.position, b.position) == dist2(b.position, a.position)) by (nonlinear_arith);
    assert(GRAVITY * a.mass * b.mass == GRAVITY * b.mass * a.mass) by (nonlinear_arith);
    let f = gravity_magnitude(a, b);
    let dx = a.position.x - b.position.x;
    let dy = a.position.y - b.position.y;
    assert(dx * dx >= 0 && dy * dy >= 0) by (nonlinear_arith);
    assert((b.position.x - a.position.x) * (b.position.x - a.position.x) == dx * dx)
        by (nonlinear_arith)
        requires
            dx == a.position.x - b.position.x,
    ;
    assert((b.position.y - a.position.y) * (b.position.y - a.position.y) == dy * dy)
        by (nonlinear_arith)
        requires
            dy == a.position.y - b.position.y,
    ;
    assert(gravity_magnitude(b, a) == f);
    assert(dist2(b.position, a.position) == r2);
    if r2 > 0 {
        lemma_share_bounded(f, dx * dx, r2);
        lemma_share_bounded(f, dy * dy, r2);
        assert(f * 0 == 0);
        let px = pull_component(f, a.position.x as int, b.position.x as int, r2);
        let qx = pull_component(f, b.position.x as int, a.position.x as int, r2);
        let ax = a.position.x as int;
        let bx = b.position.x as int;
        assert(f * ((bx - ax) * (bx - ax)) / r2 == f * ((ax - bx) * (ax - bx)) / r2);
        if ax == bx {
            assert(ax - bx == 0);
            assert((ax - bx) * (ax - bx) == 0 * 0);
            assert(f * ((ax - bx) * (ax - bx)) == 0);
        }
        assert(qx == -px);
        let py = pull_component(f, a.position.y as int, b.position.y as int, r2);
        let qy = pull_component(f, b.position.y as int, a.position.y as int, r2);
        let ay = a.position.y as int;
        let by = b.position.y as int;
        assert(f * ((by - ay) * (by - ay)) / r2 == f * ((ay - by) * (ay - by)) / r2);
        if ay == by {
            assert(ay - by == 0);
            assert((ay - by) * (ay - by) == 0 * 0);
            assert(f * ((ay - by) * (ay - by)) == 0);
        }
        assert(qy == -py);
    }
}

} // verus!
