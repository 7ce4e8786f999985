//! What holds of the rules of the simulation, for every body and every arena.

use vstd::prelude::*;
use crate::fixed::{magnitude, reflect, representable, saturate, scaled_product, UNIT};
use crate::model::{after_collisions, after_turns, stepped, turn, Arena, Body};

verus! {

/// With no elasticity a reflected component comes to rest.
pub proof fn no_elasticity_stops(v: int)
    ensures
        reflect(0, v) == 0,
{
}

/// With an elasticity of one whole unit a reflection keeps the size of a
/// component and flips its sign. The least `i64` is left out: its negation is
/// not an `i64`.
pub proof fn full_elasticity_flips(v: int)
    requires
        i64::MIN < v <= i64::MAX,
    ensures
        reflect(UNIT as int, v) == -v,
{
    assert(scaled_product(UNIT as int, v) == v);
}

/// With an elasticity between nothing and one whole unit, a reflected
/// component is no larger than the component was, and does not point the same
/// way.
pub proof fn reflection_never_speeds_up(elasticity: int, v: int)
    requires
        0 <= elasticity <= UNIT as int,
        representable(v),
    ensures
        magnitude(reflect(elasticity, v)) <= magnitude(v),
        v > 0 ==> reflect(elasticity, v) <= 0,
        v < 0 ==> reflect(elasticity, v) >= 0,
{
    let m = magnitude(v);
    let p = elasticity * v;
    assert(magnitude(p) == elasticity * m && magnitude(p) <= (UNIT as int) * m
        && (v > 0 ==> p >= 0) && (v < 0 ==> p <= 0)) by (nonlinear_arith)
        requires
            0 <= elasticity <= UNIT as int,
            m == magnitude(v),
            p == elasticity * v,
    ;
    assert(magnitude(p) / (UNIT as int) <= m);
}

/// A body that is at least one radius above the floor, and that no wall
/// reflects, loses exactly the gravity of the arena from its vertical
/// velocity, as far as an `i64` holds the difference.
pub proof fn gravity_takes_from_vertical_velocity(body: Body, arena: Arena)
    requires
        body.y >= body.radius,
        !body.pulled(arena).meets_wall(arena),
    ensures
        body.updated(arena).dy == saturate(body.dy - arena.gravity),
        representable(body.dy - arena.gravity) ==> body.updated(arena).dy == body.dy
            - arena.gravity,
        body.updated(arena).dx == body.dx,
{
}

/// A body about to cross the right wall while moving right has its horizontal
/// velocity reflected. Left out is the body that is also about to cross the
/// left wall and whose reflected velocity points left: that one is reflected
/// a second time.
pub proof fn right_wall_reflects(body: Body, arena: Arena)
    requires
        body.right() > arena.width,
        body.dx > 0,
        body.left() >= 0 || reflect(body.elasticity, body.dx) >= 0,
    ensures
        body.updated(arena).dx == reflect(body.elasticity, body.dx),
{
}

/// A body about to cross the left wall while moving left has its horizontal
/// velocity reflected.
pub proof fn left_wall_reflects(body: Body, arena: Arena)
    requires
        body.left() < 0,
        body.dx < 0,
    ensures
        body.updated(arena).dx == reflect(body.elasticity, body.dx),
{
}

/// A body about to cross the ceiling while rising, gravity taken into
/// account, has its vertical velocity reflected. Left out is the body that is
/// also about to cross the floor and whose reflected velocity points down.
pub proof fn top_wall_reflects(body: Body, arena: Arena)
    requires
        body.pulled(arena).top() > arena.height,
        body.pulled(arena).dy > 0,
        body.pulled(arena).bottom() >= 0 || reflect(body.elasticity, body.pulled(arena).dy) >= 0,
    ensures
        body.updated(arena).dy == reflect(body.elasticity, body.pulled(arena).dy),
{
}

/// A body about to cross the floor while falling, gravity taken into account,
/// has its vertical velocity reflected.
pub proof fn bottom_wall_reflects(body: Body, arena: Arena)
    requires
        body.pulled(arena).bottom() < 0,
        body.pulled(arena).dy < 0,
    ensures
        body.updated(arena).dy == reflect(body.elasticity, body.pulled(arena).dy),
{
}

/// A body that moves left keeps its horizontal velocity however far past the
/// right wall it is, unless it is about to cross the left wall.
pub proof fn moving_left_of_right_wall_keeps_dx(body: Body, arena: Arena)
    requires
        body.dx <= 0,
        body.left() >= 0,
    ensures
        body.updated(arena).dx == body.dx,
{
}

/// A body that moves right keeps its horizontal velocity however far past the
/// left wall it is, unless it is about to cross the right wall.
pub proof fn moving_right_of_left_wall_keeps_dx(body: Body, arena: Arena)
    requires
        body.dx >= 0,
        body.right() <= arena.width,
    ensures
        body.updated(arena).dx == body.dx,
{
}

/// A body that falls keeps the vertical velocity that gravity left it however
/// far past the ceiling it is, unless it is about to cross the floor.
pub proof fn moving_down_from_ceiling_keeps_dy(body: Body, arena: Arena)
    requires
        body.pulled(arena).dy <= 0,
        body.pulled(arena).bottom() >= 0,
    ensures
        body.updated(arena).dy == body.pulled(arena).dy,
{
}

/// A body that rises keeps the vertical velocity that gravity left it however
/// far past the floor it is, unless it is about to cross the ceiling.
pub proof fn moving_up_from_floor_keeps_dy(body: Body, arena: Arena)
    requires
        body.pulled(arena).dy >= 0,
        body.pulled(arena).top() <= arena.height,
    ensures
        body.updated(arena).dy == body.pulled(arena).dy,
{
}

/// A body does not respond to a snapshot that carries its own identity,
/// wherever the two are and however they move.
pub proof fn own_identity_is_ignored(body: Body, other: Body)
    requires
        other.id == body.id,
    ensures
        body.collided(other) == body,
{
}

/// A body whose predicted box overlaps that of a body with another identity
/// has both velocity components reflected by its own elasticity, and nothing
/// else changed. What the other body is like plays no part beyond the overlap.
pub proof fn overlap_reflects_both_components(body: Body, other: Body)
    requires
        other.id != body.id,
        body.overlaps(other),
    ensures
        body.collided(other) == (Body {
            dx: reflect(body.elasticity, body.dx),
            dy: reflect(body.elasticity, body.dy),
            ..body
        }),
{
}

/// A body whose predicted box overlaps no other keeps its velocity.
pub proof fn no_overlap_no_response(body: Body, other: Body)
    requires
        !body.overlaps(other),
    ensures
        body.collided(other) == body,
{
}

/// Containment is approximate. A body that is between the left and the right
/// wall before a tick may be past one of them after it, by no more than the
/// size of the horizontal velocity that the tick leaves it with; and with an
/// elasticity between nothing and one whole unit, by no more than the size of
/// the horizontal velocity that it came with.
pub proof fn horizontal_overshoot_is_bounded(body: Body, arena: Arena)
    requires
        body.in_range(),
        0 <= body.x - body.radius,
        body.x + body.radius <= arena.width,
    ensures
        ({
            let after = body.updated(arena);
            &&& after.x + after.radius - arena.width <= magnitude(after.dx)
            &&& 0 - (after.x - after.radius) <= magnitude(after.dx)
            &&& 0 <= body.elasticity <= UNIT as int ==> magnitude(after.dx) <= magnitude(body.dx)
        }),
{
    let first = if body.right() > arena.width && body.dx > 0 {
        reflect(body.elasticity, body.dx)
    } else {
        body.dx
    };
    if 0 <= body.elasticity <= UNIT as int {
        reflection_never_speeds_up(body.elasticity, body.dx);
        reflection_never_speeds_up(body.elasticity, first);
    }
}

/// Containment is approximate. A body that is between the floor and the
/// ceiling before a tick may be past one of them after it, by no more than
/// the size of the vertical velocity that the tick leaves it with; and with
/// an elasticity between nothing and one whole unit, by no more than the size
/// of the vertical velocity that gravity left it.
pub proof fn vertical_overshoot_is_bounded(body: Body, arena: Arena)
    requires
        body.in_range(),
        0 <= body.y - body.radius,
        body.y + body.radius <= arena.height,
    ensures
        ({
            let pulled = body.pulled(arena);
            let after = body.updated(arena);
            &&& after.y + after.radius - arena.height <= magnitude(after.dy)
            &&& 0 - (after.y - after.radius) <= magnitude(after.dy)
            &&& 0 <= body.elasticity <= UNIT as int ==> magnitude(after.dy) <= magnitude(
                pulled.dy,
            )
        }),
{
    let pulled = body.pulled(arena);
    let first = if pulled.top() > arena.height && pulled.dy > 0 {
        reflect(pulled.elasticity, pulled.dy)
    } else {
        pulled.dy
    };
    if 0 <= body.elasticity <= UNIT as int {
        reflection_never_speeds_up(pulled.elasticity, pulled.dy);
        reflection_never_speeds_up(pulled.elasticity, first);
    }
}

/// A response changes the velocity of a body and nothing else.
pub proof fn response_changes_velocity_only(body: Body, other: Body)
    ensures
        body.collided(other) == (Body {
            dx: body.collided(other).dx,
            dy: body.collided(other).dy,
            ..body
        }),
{
}

/// An update changes the position and the velocity of a body and nothing
/// else.
pub proof fn update_keeps_shape(body: Body, arena: Arena)
    ensures
        body.updated(arena).same_shape(body),
{
}

/// However many others a body has met, only its velocity has changed.
pub proof fn collisions_change_velocity_only(body: Body, others: Seq<Body>, own: int, n: nat)
    ensures
        after_collisions(body, others, own, n) == (Body {
            dx: after_collisions(body, others, own, n).dx,
            dy: after_collisions(body, others, own, n).dy,
            ..body
        }),
    decreases n,
{
    if n > 0 {
        collisions_change_velocity_only(body, others, own, (n - 1) as nat);
    }
}

/// A body that meets only bodies whose predicted boxes it does not overlap
/// comes out as it went in.
pub proof fn collisions_without_overlap_change_nothing(
    body: Body,
    others: Seq<Body>,
    own: int,
    n: nat,
)
    requires
        n <= others.len(),
        forall|j: int| 0 <= j < n && j != own ==> !body.overlaps(#[trigger] others[j]),
    ensures
        after_collisions(body, others, own, n) == body,
    decreases n,
{
    if n > 0 {
        collisions_without_overlap_change_nothing(body, others, own, (n - 1) as nat);
    }
}

/// The turns of the first `k` bodies keep the number of bodies, the shape of
/// each, and every body from index `k` on as it was.
pub proof fn turns_keep_shapes(bodies: Seq<Body>, arena: Arena, k: nat)
    ensures
        after_turns(bodies, arena, k).len() == bodies.len(),
        forall|i: int|
            0 <= i < bodies.len() ==> (#[trigger] after_turns(bodies, arena, k)[i]).same_shape(
                bodies[i],
            ),
        forall|i: int|
            k <= i < bodies.len() ==> #[trigger] after_turns(bodies, arena, k)[i] == bodies[i],
    decreases k,
{
    if k > 0 && k <= bodies.len() {
        let before = after_turns(bodies, arena, (k - 1) as nat);
        turns_keep_shapes(bodies, arena, (k - 1) as nat);
        collisions_change_velocity_only(before[k - 1], before, k - 1, before.len());
        assert(after_turns(bodies, arena, k) == turn(before, arena, k - 1));
    }
}

/// A tick keeps the number of bodies and their order, and the identity,
/// radius, colour and elasticity of each.
pub proof fn step_keeps_shapes(bodies: Seq<Body>, arena: Arena)
    ensures
        stepped(bodies, arena).len() == bodies.len(),
        forall|i: int|
            0 <= i < bodies.len() ==> (#[trigger] stepped(bodies, arena)[i]).same_shape(bodies[i]),
{
    turns_keep_shapes(bodies, arena, bodies.len());
}

/// A tick of a single body is its update.
pub proof fn step_of_one_is_its_update(body: Body, arena: Arena)
    ensures
        stepped(seq![body], arena) == seq![body.updated(arena)],
{
    let bodies = seq![body];
    reveal_with_fuel(after_turns, 2);
    reveal_with_fuel(after_collisions, 2);
    assert(after_collisions(body, bodies, 0, 1) == body);
    assert(stepped(bodies, arena) =~= seq![body.updated(arena)]);
}

/// In a tick the first body meets the others as the tick found them: its
/// new state is its update after those meetings.
pub proof fn first_turn_sees_the_tick_as_found(bodies: Seq<Body>, arena: Arena)
    requires
        bodies.len() > 0,
    ensures
        stepped(bodies, arena)[0] == after_collisions(
            bodies[0],
            bodies,
            0,
            bodies.len(),
        ).updated(arena),
{
    turn_result_is_final(bodies, arena, 1, bodies.len());
    reveal_with_fuel(after_turns, 2);
}

/// Once a body has had its turn, the later turns of the tick leave it alone.
pub proof fn turn_result_is_final(bodies: Seq<Body>, arena: Arena, k: nat, later: nat)
    requires
        k <= later <= bodies.len(),
    ensures
        forall|i: int|
            0 <= i < k ==> #[trigger] after_turns(bodies, arena, later)[i] == after_turns(
                bodies,
                arena,
                k,
            )[i],
    decreases later - k,
{
    if k < later {
        turn_result_is_final(bodies, arena, k, (later - 1) as nat);
        turns_keep_shapes(bodies, arena, (later - 1) as nat);
    }
}

} // verus!
