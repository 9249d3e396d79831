//! The ball: a circle that travels at constant speed along both axes.

use vstd::prelude::*;
use crate::shape::{foreground, Shape};

verus! {

/// Radius of the ball, in arena units.
pub const BALL_RADIUS: i32 = 20;

/// Distance the ball travels along each axis per tick.
pub const BALL_SPEED: i32 = 2;

/// Where the ball's centre starts a match, on both axes.
pub const BALL_START: i32 = 50;

/// The ball, placed by its centre.
#[derive(Clone, Copy, Debug, PartialEq, Eq, Structural)]
pub struct Ball {
    pub radius: i32,
    pub x: i32,
    pub y: i32,
    pub vel_x: i32,
    pub vel_y: i32,
}

/// A ball over the mathematical integers.
pub struct BallView {
    pub radius: int,
    pub x: int,
    pub y: int,
    pub vel_x: int,
    pub vel_y: int,
}

impl BallView {
    /// The ball has the fixed radius, and on each axis it travels at the
    /// fixed speed one way or the other.
    pub open spec fn wf(self) -> bool {
        &&& self.radius == BALL_RADIUS
        &&& (self.vel_x == BALL_SPEED || self.vel_x == -BALL_SPEED)
        &&& (self.vel_y == BALL_SPEED || self.vel_y == -BALL_SPEED)
    }

    /// The ball at its starting point, heading down and to the right.
    pub open spec fn at_start() -> BallView {
        BallView {
            radius: BALL_RADIUS as int,
            x: BALL_START as int,
            y: BALL_START as int,
            vel_x: BALL_SPEED as int,
            vel_y: BALL_SPEED as int,
        }
    }

    /// The ball one tick later: its centre has advanced by its velocity.
    pub open spec fn moved(self) -> BallView {
        BallView { x: self.x + self.vel_x, y: self.y + self.vel_y, ..self }
    }

    /// The ball with its centre put at `(x, y)` and its velocity kept.
    pub open spec fn placed(self, x: int, y: int) -> BallView {
        BallView { x, y, ..self }
    }

    /// The least `x` that the ball covers.
    pub open spec fn left(self) -> int {
        self.x - self.radius
    }

    /// The greatest `x` that the ball covers.
    pub open spec fn right(self) -> int {
        self.x + self.radius
    }

    /// The least `y` that the ball covers; `y` grows downwards.
    pub open spec fn top(self) -> int {
        self.y - self.radius
    }

    /// The greatest `y` that the ball covers.
    pub open spec fn bottom(self) -> int {
        self.y + self.radius
    }
}

impl View for Ball {
    type V = BallView;

    open spec fn view(&self) -> BallView {
        BallView {
            radius: self.radius as int,
            x: self.x as int,
            y: self.y as int,
            vel_x: self.vel_x as int,
            vel_y: self.vel_y as int,
        }
    }
}

impl Ball {
    /// See [`BallView::wf`].
    pub open spec fn wf(self) -> bool {
        self@.wf()
    }

    /// What the ball looks like: a filled circle about its centre.
    pub open spec fn shape(self) -> Shape {
        Shape::Circle { color: foreground(), x: self.x, y: self.y, radius: self.radius }
    }

    /// The ball at its starting point, heading down and to the right.
    pub fn new() -> (b: Ball)
        ensures
            b@ == BallView::at_start(),
            b.wf(),
    {
        Ball {
            radius: BALL_RADIUS,
            x: BALL_START,
            y: BALL_START,
            vel_x: BALL_SPEED,
            vel_y: BALL_SPEED,
        }
    }

    /// Whether the ball is well formed.
    pub fn is_valid(&self) -> (ok: bool)
        ensures
            ok == self.wf(),
    {
        let across: bool = self.vel_x == BALL_SPEED || self.vel_x == -BALL_SPEED;
        let down: bool = self.vel_y == BALL_SPEED || self.vel_y == -BALL_SPEED;
        self.radius == BALL_RADIUS && across && down
    }

    /// Puts the ball's centre at `(x, y)`; radius and velocity stay.
    pub fn reset(&mut self, x: i32, y: i32)
        ensures
            final(self)@ == old(self)@.placed(x as int, y as int),
    {
        self.x = x;
        self.y = y;
    }

    /// The ball as a draw primitive.
    pub fn render(&self) -> (shape: Shape)
        ensures
            shape == self.shape(),
    {
        Shape::Circle { color: foreground(), x: self.x, y: self.y, radius: self.radius }
    }
}

} // verus!
