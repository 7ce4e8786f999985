//! The bodies of the simulation and its configuration.

use vstd::prelude::*;
use crate::fixed::{rebound, saturate, saturating, saturating_difference, saturating_sum};
use crate::model::{bounce, Arena, Body};

verus! {

/// The capabilities of a simulated object: geometry queries, and the two
/// operations that change its state.
pub trait PhysicsObject {
    /// Advances the object by one tick inside `universe`.
    fn update(&mut self, universe: &UniverseOptions);

    /// Responds to the snapshot of another object.
    fn collide(&mut self, physics_object: &Circle);

    /// The sides of the object's bounding box.
    fn hit_box_size(&self) -> Area;

    /// The current position of the centre.
    fn center_coords(&self) -> Coords;

    /// The current velocity.
    fn velocity(&self) -> Velocity;

    /// The share of a velocity component that a reflection keeps.
    fn elasticity(&self) -> i64;

    /// The handle that tells this object from the others.
    fn sprite_id(&self) -> u64;

    /// Overwrites the velocity.
    fn change_velocity(&mut self, velocity: Velocity);
}

/// The fixed configuration of a run.
pub struct UniverseOptions {
    gravity: i64,
    fps: u64,
    canvas_height: i64,
    canvas_width: i64,
}

impl View for UniverseOptions {
    type V = Arena;

    closed spec fn view(&self) -> Arena {
        Arena {
            gravity: self.gravity as int,
            tick_rate: self.fps as int,
            width: self.canvas_width as int,
            height: self.canvas_height as int,
        }
    }
}

impl UniverseOptions {
    pub fn new(gravity: i64, fps: u64, canvas_height: i64, canvas_width: i64) -> (universe:
        UniverseOptions)
        ensures
            universe@ == (Arena {
                gravity: gravity as int,
                tick_rate: fps as int,
                width: canvas_width as int,
                height: canvas_height as int,
            }),
    {
        UniverseOptions { gravity, fps, canvas_height, canvas_width }
    }

    pub fn gravity(&self) -> (g: i64)
        ensures
            g as int == self@.gravity,
    {
        self.gravity
    }

    pub fn fps(&self) -> (f: u64)
        ensures
            f as int == self@.tick_rate,
    {
        self.fps
    }

    pub fn canvas_height(&self) -> (h: i64)
        ensures
            h as int == self@.height,
    {
        self.canvas_height
    }

    pub fn canvas_width(&self) -> (w: i64)
        ensures
            w as int == self@.width,
    {
        self.canvas_width
    }
}

/// A position.
pub struct Coords {
    pub x: i64,
    pub y: i64,
}

/// The sides of a bounding box.
pub struct Area {
    pub height: i64,
    pub width: i64,
}

/// A velocity, in units per tick.
pub struct Velocity {
    pub dx: i64,
    pub dy: i64,
}

/// A circular body.
///
/// `sprite_id` tells it from the others, `radius` is its radius, `x` and `y`
/// are the centre, `dx` and `dy` the change of the centre per tick. `colour`
/// is a packed colour that the simulation carries and never reads.
/// `elasticity` is the share of a velocity component that a reflection keeps:
/// with 0 nothing is kept, with one whole unit everything.
pub struct Circle {
    sprite_id: u64,
    radius: i64,
    x: i64,
    y: i64,
    dx: i64,
    dy: i64,
    colour: u32,
    elasticity: i64,
}

impl View for Circle {
    type V = Body;

    closed spec fn view(&self) -> Body {
        Body {
            id: self.sprite_id as int,
            radius: self.radius as int,
            x: self.x as int,
            y: self.y as int,
            dx: self.dx as int,
            dy: self.dy as int,
            colour: self.colour as int,
            elasticity: self.elasticity as int,
        }
    }
}

/// A velocity component after the walls of one axis had their say.
fn bounce_axis(low: i128, high: i128, limit: i64, elasticity: i64, v: i64) -> (r: i64)
    ensures
        r as int == bounce(low as int, high as int, limit as int, elasticity as int, v as int),
{
    let mut r: i64 = v;
    if high > limit as i128 && r > 0 {
        r = rebound(elasticity, r);
    }
    if low < 0 && r < 0 {
        r = rebound(elasticity, r);
    }
    r
}

impl Circle {
    /// The model of a circle holds only scalars that an `i64` holds.
    pub proof fn view_in_range(self)
        ensures
            self@.in_range(),
    {
    }

    pub fn new(
        sprite_id: u64,
        radius: i64,
        x: i64,
        y: i64,
        dx: i64,
        dy: i64,
        colour: u32,
        elasticity: i64,
    ) -> (circle: Circle)
        ensures
            circle@ == (Body {
                id: sprite_id as int,
                radius: radius as int,
                x: x as int,
                y: y as int,
                dx: dx as int,
                dy: dy as int,
                colour: colour as int,
                elasticity: elasticity as int,
            }),
    {
        Circle { sprite_id, radius, x, y, dx, dy, colour, elasticity }
    }

    /// A snapshot of this body.
    pub fn copy(&self) -> (circle: Circle)
        ensures
            circle@ == self@,
    {
        Circle {
            sprite_id: self.sprite_id,
            radius: self.radius,
            x: self.x,
            y: self.y,
            dx: self.dx,
            dy: self.dy,
            colour: self.colour,
            elasticity: self.elasticity,
        }
    }

    /// The packed colour that the body was made with.
    pub fn colour(&self) -> (c: u32)
        ensures
            c as int == self@.colour,
    {
        self.colour
    }
}

impl PhysicsObject for Circle {
    fn update(&mut self, universe: &UniverseOptions)
        ensures
            final(self)@ == old(self)@.updated(universe@),
    {
        if self.y >= self.radius {
            self.dy = saturating_difference(self.dy, universe.gravity);
        }
        let right: i128 = self.x as i128 + self.dx as i128 + self.radius as i128;
        let left: i128 = self.x as i128 + self.dx as i128 - self.radius as i128;
        let top: i128 = self.y as i128 + self.dy as i128 + self.radius as i128;
        let bottom: i128 = self.y as i128 + self.dy as i128 - self.radius as i128;

        self.dx = bounce_axis(left, right, universe.canvas_width, self.elasticity, self.dx);
        self.dy = bounce_axis(bottom, top, universe.canvas_height, self.elasticity, self.dy);

        self.x = saturating_sum(self.x, self.dx);
        self.y = saturating_sum(self.y, self.dy);
    }

    fn collide(&mut self, physics_object: &Circle)
        ensures
            final(self)@ == old(self)@.collided(physics_object@),
    {
        if physics_object.sprite_id == self.sprite_id {
            return ;
        }
        let right_1: i128 = self.x as i128 + self.dx as i128 + self.radius as i128;
        let left_1: i128 = self.x as i128 + self.dx as i128 - self.radius as i128;
        let top_1: i128 = self.y as i128 + self.dy as i128 + self.radius as i128;
        let bottom_1: i128 = self.y as i128 + self.dy as i128 - self.radius as i128;

        let other_x: i128 = physics_object.x as i128 + physics_object.dx as i128;
        let other_y: i128 = physics_object.y as i128 + physics_object.dy as i128;
        let half: i128 = physics_object.radius as i128;

        if left_1 < other_x + half && right_1 > other_x - half && top_1 > other_y - half
            && bottom_1 < other_y + half {
            self.dy = rebound(self.elasticity, self.dy);
            self.dx = rebound(self.elasticity, self.dx);
        }
    }

    fn hit_box_size(&self) -> (area: Area)
        ensures
            area.height as int == saturate(2 * self@.radius),
            area.width as int == saturate(2 * self@.radius),
    {
        let side: i64 = saturating(2 * (self.radius as i128));
        Area { height: side, width: side }
    }

    fn center_coords(&self) -> (coords: Coords)
        ensures
            coords.x as int == self@.x,
            coords.y as int == self@.y,
    {
        Coords { x: self.x, y: self.y }
    }

    fn velocity(&self) -> (velocity: Velocity)
        ensures
            velocity.dx as int == self@.dx,
            velocity.dy as int == self@.dy,
    {
        Velocity { dx: self.dx, dy: self.dy }
    }

    fn elasticity(&self) -> (e: i64)
        ensures
            e as int == self@.elasticity,
    {
        self.elasticity
    }

    fn sprite_id(&self) -> (id: u64)
        ensures
            id as int == self@.id,
    {
        self.sprite_id
    }

    fn change_velocity(&mut self, velocity: Velocity)
        ensures
            final(self)@ == (Body {
                dx: velocity.dx as int,
                dy: velocity.dy as int,
                ..old(self)@
            }),
    {
        self.dx = velocity.dx;
        self.dy = velocity.dy;
    }
}

} // verus!
