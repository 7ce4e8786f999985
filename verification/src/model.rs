//! The mathematical model of the simulation: bodies and the arena as records
//! of integers, and the rules of one tick as functions on them.

use vstd::prelude::*;
use crate::fixed::{reflect, representable, saturate};

verus! {

/// The fixed configuration of a run.
pub struct Arena {
    /// What every tick takes from the vertical velocity of a falling body.
    pub gravity: int,
    /// Ticks per unit of time. The rules never read it.
    pub tick_rate: int,
    /// The arena spans `[0, width]` horizontally.
    pub width: int,
    /// The arena spans `[0, height]` vertically.
    pub height: int,
}

/// One circular body.
pub struct Body {
    pub id: int,
    pub radius: int,
    pub x: int,
    pub y: int,
    pub dx: int,
    pub dy: int,
    pub colour: int,
    pub elasticity: int,
}

/// A velocity component after the walls of one axis had their say.
///
/// `low` and `high` are the predicted edges of the body on that axis, and the
/// walls stand at `0` and `limit`. The far wall is tested first; the near wall
/// is tested on what the far wall left.
pub open spec fn bounce(low: int, high: int, limit: int, elasticity: int, v: int) -> int {
    let first = if high > limit && v > 0 {
        reflect(elasticity, v)
    } else {
        v
    };
    if low < 0 && first < 0 {
        reflect(elasticity, first)
    } else {
        first
    }
}

impl Body {
    /// Whether every scalar of the body is one that an `i64` holds.
    pub open spec fn in_range(self) -> bool {
        &&& representable(self.radius)
        &&& representable(self.x)
        &&& representable(self.y)
        &&& representable(self.dx)
        &&& representable(self.dy)
        &&& representable(self.elasticity)
    }

    /// Whether the two agree in what a body keeps for life: identity,
    /// radius, colour and elasticity.
    pub open spec fn same_shape(self, other: Body) -> bool {
        &&& self.id == other.id
        &&& self.radius == other.radius
        &&& self.colour == other.colour
        &&& self.elasticity == other.elasticity
    }

    /// The predicted left edge: where it will be once the velocity is added.
    pub open spec fn left(self) -> int {
        self.x + self.dx - self.radius
    }

    /// The predicted right edge.
    pub open spec fn right(self) -> int {
        self.x + self.dx + self.radius
    }

    /// The predicted bottom edge.
    pub open spec fn bottom(self) -> int {
        self.y + self.dy - self.radius
    }

    /// The predicted top edge.
    pub open spec fn top(self) -> int {
        self.y + self.dy + self.radius
    }

    /// Gravity: a body whose centre is at least one radius above the floor
    /// loses `gravity` of vertical velocity.
    pub open spec fn pulled(self, arena: Arena) -> Body {
        if self.y >= self.radius {
            Body { dy: saturate(self.dy - arena.gravity), ..self }
        } else {
            self
        }
    }

    /// Whether any of the four walls reflects this body.
    pub open spec fn meets_wall(self, arena: Arena) -> bool {
        ||| self.right() > arena.width && self.dx > 0
        ||| self.left() < 0 && self.dx < 0
        ||| self.top() > arena.height && self.dy > 0
        ||| self.bottom() < 0 && self.dy < 0
    }

    /// Wall reflection, each axis by itself.
    pub open spec fn bounced(self, arena: Arena) -> Body {
        Body {
            dx: bounce(self.left(), self.right(), arena.width, self.elasticity, self.dx),
            dy: bounce(self.bottom(), self.top(), arena.height, self.elasticity, self.dy),
            ..self
        }
    }

    /// The position advanced by the velocity.
    pub open spec fn moved(self) -> Body {
        Body { x: saturate(self.x + self.dx), y: saturate(self.y + self.dy), ..self }
    }

    /// One tick of a body by itself: gravity, then the walls, then the move.
    pub open spec fn updated(self, arena: Arena) -> Body {
        self.pulled(arena).bounced(arena).moved()
    }

    /// Whether the predicted bounding boxes of the two bodies overlap.
    pub open spec fn overlaps(self, other: Body) -> bool {
        &&& self.left() < other.right()
        &&& self.right() > other.left()
        &&& self.top() > other.bottom()
        &&& self.bottom() < other.top()
    }

    /// Both velocity components reflected.
    pub open spec fn rebounded(self) -> Body {
        Body {
            dx: reflect(self.elasticity, self.dx),
            dy: reflect(self.elasticity, self.dy),
            ..self
        }
    }

    /// The response of this body to `other`: a body with the same identity is
    /// ignored, one whose predicted box overlaps reflects both components.
    pub open spec fn collided(self, other: Body) -> Body {
        if other.id != self.id && self.overlaps(other) {
            self.rebounded()
        } else {
            self
        }
    }
}

/// `body` after it has met the first `n` of `others` in order, the one at
/// index `own` left out.
pub open spec fn after_collisions(body: Body, others: Seq<Body>, own: int, n: nat) -> Body
    decreases n,
{
    if n == 0 {
        body
    } else {
        let before = after_collisions(body, others, own, (n - 1) as nat);
        if n - 1 == own || n > others.len() {
            before
        } else {
            before.collided(others[n - 1])
        }
    }
}

/// The turn of the body at index `i`: it meets every other body as the
/// collection stands, then is updated.
pub open spec fn turn(bodies: Seq<Body>, arena: Arena, i: int) -> Seq<Body>
    recommends
        0 <= i < bodies.len(),
{
    bodies.update(i, after_collisions(bodies[i], bodies, i, bodies.len()).updated(arena))
}

/// The collection after the first `k` bodies have had their turn. A later
/// body meets the earlier ones as their turns left them.
pub open spec fn after_turns(bodies: Seq<Body>, arena: Arena, k: nat) -> Seq<Body>
    decreases k,
{
    if k == 0 || k > bodies.len() {
        bodies
    } else {
        turn(after_turns(bodies, arena, (k - 1) as nat), arena, k - 1)
    }
}

/// One tick of the whole collection.
pub open spec fn stepped(bodies: Seq<Body>, arena: Arena) -> Seq<Body> {
    after_turns(bodies, arena, bodies.len())
}

} // verus!
