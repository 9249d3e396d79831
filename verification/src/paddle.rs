//! The paddle: a fixed-size bat that slides vertically along one wall.

use vstd::prelude::*;
use crate::shape::{foreground, Shape};

verus! {

/// Width of a paddle's face, in arena units.
pub const PADDLE_WIDTH: i32 = 30;

/// Height of a paddle, in arena units.
pub const PADDLE_HEIGHT: i32 = 150;

/// Distance a moving paddle travels per tick.
pub const PADDLE_SPEED: i32 = 2;

/// A paddle, placed by the top-left corner of its bounding square.
#[derive(Clone, Copy, Debug, PartialEq, Eq, Structural)]
pub struct Paddle {
    pub x: i32,
    pub y: i32,
    /// Direction of travel: -1 (up), 0 (still) or 1 (down).
    pub vel: i32,
    /// Speed multiplier applied to `vel` on every tick.
    pub vel_mod: i32,
    pub width: i32,
    pub height: i32,
}

/// A paddle over the mathematical integers.
pub struct PaddleView {
    pub x: int,
    pub y: int,
    pub vel: int,
    pub vel_mod: int,
    pub width: int,
    pub height: int,
}

impl PaddleView {
    /// A paddle has the fixed size and speed, and a direction in {-1, 0, 1}.
    pub open spec fn wf(self) -> bool {
        &&& -1 <= self.vel <= 1
        &&& self.vel_mod == PADDLE_SPEED
        &&& self.width == PADDLE_WIDTH
        &&& self.height == PADDLE_HEIGHT
    }

    /// A motionless paddle of the fixed size at the origin.
    pub open spec fn at_origin() -> PaddleView {
        PaddleView {
            x: 0,
            y: 0,
            vel: 0,
            vel_mod: PADDLE_SPEED as int,
            width: PADDLE_WIDTH as int,
            height: PADDLE_HEIGHT as int,
        }
    }

    /// The paddle one tick later: it has slid by direction times speed, with
    /// no limit at the arena's top or bottom.
    pub open spec fn moved(self) -> PaddleView {
        PaddleView { y: self.y + self.vel * self.vel_mod, ..self }
    }

    /// The paddle with its corner put at `(x, y)`.
    pub open spec fn placed(self, x: int, y: int) -> PaddleView {
        PaddleView { x, y, ..self }
    }

    /// The paddle with its direction replaced.
    pub open spec fn heading(self, vel: int) -> PaddleView {
        PaddleView { vel, ..self }
    }
}

impl View for Paddle {
    type V = PaddleView;

    open spec fn view(&self) -> PaddleView {
        PaddleView {
            x: self.x as int,
            y: self.y as int,
            vel: self.vel as int,
            vel_mod: self.vel_mod as int,
            width: self.width as int,
            height: self.height as int,
        }
    }
}

impl Paddle {
    /// See [`PaddleView::wf`].
    pub open spec fn wf(self) -> bool {
        self@.wf()
    }

    /// What the paddle looks like: a filled square whose side is the
    /// paddle's height, with its top-left corner at the paddle's position.
    pub open spec fn shape(self) -> Shape {
        Shape::Square { color: foreground(), x: self.x, y: self.y, side: self.height }
    }

    /// A motionless paddle of the fixed size at the origin.
    pub fn new() -> (p: Paddle)
        ensures
            p@ == PaddleView::at_origin(),
            p.wf(),
    {
        Paddle {
            x: 0,
            y: 0,
            vel: 0,
            vel_mod: PADDLE_SPEED,
            width: PADDLE_WIDTH,
            height: PADDLE_HEIGHT,
        }
    }

    /// Whether the paddle is well formed.
    pub fn is_valid(&self) -> (ok: bool)
        ensures
            ok == self.wf(),
    {
        let direction: bool = -1 <= self.vel && self.vel <= 1;
        let size: bool = self.width == PADDLE_WIDTH && self.height == PADDLE_HEIGHT;
        direction && self.vel_mod == PADDLE_SPEED && size
    }

    /// Places the paddle at `(x, y)`; direction, speed and size stay.
    pub fn set_pos(&mut self, x: i32, y: i32)
        ensures
            final(self)@ == old(self)@.placed(x as int, y as int),
    {
        self.x = x;
        self.y = y;
    }

    /// The paddle as a draw primitive.
    pub fn render(&self) -> (shape: Shape)
        ensures
            shape == self.shape(),
    {
        Shape::Square { color: foreground(), x: self.x, y: self.y, side: self.height }
    }
}

} // verus!
