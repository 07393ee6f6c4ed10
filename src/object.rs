use vstd::prelude::*;

use crate::geom::Vector2;
use crate::physics::{
    MAX_DT, PhysicalObject, circles_collide, dist2, gravity_force, gravity_magnitude,
};

verus! {

/// What every body in the arena can do. Implementers give access to their
/// physical object; the rest is shared.
pub trait GameObject {
    /// The physical state of the body.
    spec fn body(&self) -> PhysicalObject;

    fn get_physical_object(&self) -> (r: &PhysicalObject)
        ensures
            *r == self.body(),
    ;

    fn physical_object(&mut self) -> (r: &mut PhysicalObject)
        ensures
            *r == old(self).body(),
            final(self).body() == *final(r),
    ;

    fn get_position(&self) -> (r: Vector2)
        ensures
            r == self.body().position,
    {
        self.get_physical_object().position
    }

    fn radius(&self) -> (r: i128)
        ensures
            r == self.body().radius,
    {
        self.get_physical_object().radius
    }
}

pub fn distance_squared<S: GameObject, O: GameObject>(this: &S, other: &O) -> (r: i128)
    requires
        this.body().wf(),
        other.body().wf(),
    ensures
        r == dist2(this.body().position, other.body().position),
{
    this.get_physical_object().distance_squared(other.get_physical_object())
}

/// Whether the two bodies' circles touch or overlap.
pub fn collides<S: GameObject, O: GameObject>(this: &S, other: &O) -> (r: bool)
    requires
        this.body().wf(),
        other.body().wf(),
    ensures
        r == circles_collide(this.body(), other.body()),
{
    this.get_physical_object().collides(other.get_physical_object())
}

/// The force `other` exerts on `this`; neither is changed.
pub fn calculate_interaction<S: GameObject, O: GameObject>(this: &S, other: &O) -> (r: Vector2)
    requires
        this.body().wf(),
        other.body().wf(),
    ensures
        r == gravity_force(this.body(), other.body()),
{
    this.get_physical_object().calculate_interaction(other.get_physical_object())
}

/// Lets the two bodies attract each other for `dt`: `this` receives the
/// force of `other`, and `other` the opposite force (see `lemma_reaction`).
/// Returns the magnitude of the attraction.
pub fn interact<S: GameObject, O: GameObject>(this: &mut S, dt: u64, other: &mut O) -> (r: i128)
    requires
        old(this).body().wf(),
        old(other).body().wf(),
        dt <= MAX_DT,
    ensures
        r == gravity_magnitude(old(this).body(), old(other).body()),
        final(this).body().wf(),
        final(other).body().wf(),
        final(this).body() == old(this).body().applied(
            dt as int,
            gravity_force(old(this).body(), old(other).body()),
        ),
        final(other).body() == old(other).body().applied(
            dt as int,
            gravity_force(old(other).body(), old(this).body()),
        ),
{
    this.physical_object().interact(dt, other.physical_object())
}

} // verus!
