//! One tick of a whole collection of bodies.

use vstd::prelude::*;
use crate::engine::{Circle, PhysicsObject, UniverseOptions};
use crate::model::{after_collisions, after_turns, stepped, turn, Body};

verus! {

/// The models of a collection of circles, in order.
pub open spec fn snapshot(circles: Seq<Circle>) -> Seq<Body> {
    Seq::new(circles.len(), |i: int| circles[i]@)
}

/// Advances every body by one tick.
///
/// The bodies take their turns in order. In its turn a body responds to every
/// other body of the collection, in order, and is then updated. The turns are
/// interleaved: a later body responds to the earlier ones as their turns left
/// them, and to the later ones as the tick found them.
pub fn step(bodies: &mut Vec<Circle>, universe: &UniverseOptions)
    ensures
        final(bodies)@.len() == old(bodies)@.len(),
        snapshot(final(bodies)@) == stepped(snapshot(old(bodies)@), universe@),
{
    let n: usize = bodies.len();
    let mut i: usize = 0;
    while i < n
        invariant
            bodies@.len() == n,
            old(bodies)@.len() == n,
            i <= n,
            snapshot(bodies@) == after_turns(snapshot(old(bodies)@), universe@, i as nat),
        decreases n - i,
    {
        let ghost start = snapshot(bodies@);
        let mut current: Circle = bodies[i].copy();
        let mut j: usize = 0;
        while j < n
            invariant
                bodies@.len() == n,
                i < n,
                j <= n,
                snapshot(bodies@) == start,
                current@ == after_collisions(start[i as int], start, i as int, j as nat),
            decreases n - j,
        {
            if j != i {
                let other: Circle = bodies[j].copy();
                current.collide(&other);
            }
            j += 1;
        }
        current.update(universe);
        bodies.set(i, current);
        assert(snapshot(bodies@) =~= turn(start, universe@, i as int));
        i += 1;
    }
}

} // verus!
