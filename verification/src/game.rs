//! The match: two paddles, one ball and the score, advanced tick by tick.

use vstd::prelude::*;
use crate::ball::{Ball, BallView};
use crate::paddle::{Paddle, PaddleView};
use crate::shape::{background, Frame, Shape};

verus! {

/// The score at which a match is won.
pub const SCORE_LIMIT: i32 = 5;

/// How close to a paddle's top or bottom end a hit must be to count as a
/// hit on the paddle's edge.
pub const EDGE_MARGIN: i32 = 10;

/// A player, named by the wall that player's paddle guards.
#[derive(Clone, Copy, Debug, PartialEq, Eq, Structural)]
pub enum Side {
    Left,
    Right,
}

/// A key of the keyboard, as far as the match tells keys apart.
#[derive(Clone, Copy, Debug, PartialEq, Eq, Structural)]
pub enum Key {
    /// Moves the right paddle up.
    Up,
    /// Moves the right paddle down.
    Down,
    /// Moves the left paddle up.
    W,
    /// Moves the left paddle down.
    S,
    /// Any other key; the match ignores it.
    Other,
}

/// The size of the arena.
#[derive(Clone, Copy, Debug, PartialEq, Eq, Structural)]
pub struct Size {
    pub width: u32,
    pub height: u32,
}

/// What a tick brought about.
#[derive(Clone, Copy, Debug, PartialEq, Eq)]
pub struct Tick {
    /// The player who scored on this tick, if any.
    pub scored: Option<Side>,
    /// The player who has won the match, once it is over.
    pub winner: Option<Side>,
}

/// The whole state of a match.
#[derive(Clone, Copy, Debug, PartialEq, Eq, Structural)]
pub struct Game {
    pub left_score: i32,
    pub right_score: i32,
    pub left_paddle: Paddle,
    pub right_paddle: Paddle,
    pub ball: Ball,
    pub width: i32,
    pub height: i32,
}

/// A match over the mathematical integers.
pub struct GameView {
    pub left_score: int,
    pub right_score: int,
    pub left_paddle: PaddleView,
    pub right_paddle: PaddleView,
    pub ball: BallView,
    pub width: int,
    pub height: int,
}

/// Whether `v` can be held in an `i32`.
pub open spec fn fits(v: int) -> bool {
    i32::MIN <= v <= i32::MAX
}

/// Computes [`fits`].
fn in_range(v: i64) -> (ok: bool)
    ensures
        ok == fits(v as int),
{
    i32::MIN as i64 <= v && v <= i32::MAX as i64
}

impl GameView {
    /// Paddles and ball are well formed, the arena has no negative extent,
    /// and neither score is negative or beyond the limit.
    pub open spec fn wf(self) -> bool {
        &&& self.left_paddle.wf()
        &&& self.right_paddle.wf()
        &&& self.ball.wf()
        &&& 0 <= self.width
        &&& 0 <= self.height
        &&& 0 <= self.left_score <= SCORE_LIMIT
        &&& 0 <= self.right_score <= SCORE_LIMIT
    }

    /// The match is still being played: nobody has reached the limit.
    pub open spec fn playing(self) -> bool {
        self.left_score < SCORE_LIMIT && self.right_score < SCORE_LIMIT
    }

    /// The player who has reached the limit, if any; the left player is
    /// looked at first.
    pub open spec fn winner(self) -> Option<Side> {
        if self.left_score >= SCORE_LIMIT {
            Some(Side::Left)
        } else if self.right_score >= SCORE_LIMIT {
            Some(Side::Right)
        } else {
            None
        }
    }

    /// A match about to begin in an arena of the given size: no points yet,
    /// the ball at its starting point, and each paddle motionless against
    /// its wall, centred vertically. The left paddle's square hangs out of
    /// the arena so that only a strip as wide as the paddle's face shows.
    pub open spec fn start(width: int, height: int) -> GameView {
        let paddle = PaddleView::at_origin();
        let y = height / 2 - paddle.height / 2;
        GameView {
            left_score: 0,
            right_score: 0,
            left_paddle: PaddleView { x: -paddle.height + paddle.width, y, ..paddle },
            right_paddle: PaddleView { x: width - paddle.width, y, ..paddle },
            ball: BallView::at_start(),
            width,
            height,
        }
    }

    /// Motion: the ball advances by its velocity and each paddle slides by
    /// its direction times its speed.
    pub open spec fn moved(self) -> GameView {
        GameView {
            ball: self.ball.moved(),
            left_paddle: self.left_paddle.moved(),
            right_paddle: self.right_paddle.moved(),
            ..self
        }
    }

    /// The ball's left extent has reached the face of the left paddle.
    pub open spec fn at_left_face(self) -> bool {
        self.ball.left() <= self.left_paddle.width
    }

    /// The ball's right extent has reached the face of the right paddle.
    pub open spec fn at_right_face(self) -> bool {
        self.ball.right() >= self.width - self.right_paddle.width
    }

    /// The ball's vertical extent overlaps the vertical span of `paddle`.
    pub open spec fn level_with(self, paddle: PaddleView) -> bool {
        self.ball.bottom() >= paddle.y && self.ball.top() <= paddle.y + paddle.height
    }

    /// The ball collides with a paddle: it has reached a paddle's face and
    /// is level with that paddle.
    pub open spec fn hits_paddle(self) -> bool {
        ||| self.at_left_face() && self.level_with(self.left_paddle)
        ||| self.at_right_face() && self.level_with(self.right_paddle)
    }

    /// The ball lies wholly below the last `EDGE_MARGIN` units of `paddle`,
    /// or wholly above its first `EDGE_MARGIN` units.
    pub open spec fn beyond_margin(self, paddle: PaddleView) -> bool {
        ||| self.ball.top() > paddle.y + paddle.height - EDGE_MARGIN
        ||| self.ball.bottom() < paddle.y + EDGE_MARGIN
    }

    /// The ball is beyond the margin of a paddle whose face it has reached.
    pub open spec fn hits_edge(self) -> bool {
        ||| self.beyond_margin(self.right_paddle) && self.at_right_face()
        ||| self.beyond_margin(self.left_paddle) && self.at_left_face()
    }

    /// Paddle collision: a ball that hits a paddle turns back horizontally,
    /// and vertically too if it hits an edge. Which paddle was hit makes no
    /// difference, and a ball near both turns once.
    pub open spec fn deflected(self) -> GameView {
        if self.hits_paddle() {
            GameView {
                ball: BallView {
                    vel_x: -self.ball.vel_x,
                    vel_y: if self.hits_edge() {
                        -self.ball.vel_y
                    } else {
                        self.ball.vel_y
                    },
                    ..self.ball
                },
                ..self
            }
        } else {
            self
        }
    }

    /// The ball reaches past the floor, or its centre is less than a radius
    /// from the ceiling.
    pub open spec fn hits_wall(self) -> bool {
        self.ball.bottom() > self.height || self.ball.y < self.ball.radius
    }

    /// Ceiling and floor: a ball that hits either turns back vertically.
    /// Its position is left as it is.
    pub open spec fn rebounded(self) -> GameView {
        if self.hits_wall() {
            GameView { ball: BallView { vel_y: -self.ball.vel_y, ..self.ball }, ..self }
        } else {
            self
        }
    }

    /// The player who scores: the right one once the ball has wholly left
    /// the arena on the left, the left one once it has wholly left on the
    /// right.
    pub open spec fn scorer(self) -> Option<Side> {
        if self.ball.right() < 0 {
            Some(Side::Right)
        } else if self.ball.left() > self.width {
            Some(Side::Left)
        } else {
            None
        }
    }

    /// The match with one more point for `side`.
    pub open spec fn credited(self, side: Side) -> GameView {
        match side {
            Side::Left => GameView { left_score: self.left_score + 1, ..self },
            Side::Right => GameView { right_score: self.right_score + 1, ..self },
        }
    }

    /// Scoring: the scorer, if there is one, gets a point and the ball goes
    /// back to the middle of the arena with its velocity unchanged.
    pub open spec fn scored(self) -> GameView {
        match self.scorer() {
            Some(side) => GameView {
                ball: self.ball.placed(self.width / 2, self.height / 2),
                ..self.credited(side)
            },
            None => self,
        }
    }

    /// One tick: motion, then paddle collision, then ceiling and floor,
    /// then scoring.
    pub open spec fn tick(self) -> GameView {
        self.moved().deflected().rebounded().scored()
    }

    /// The player who scores on the coming tick, if any.
    pub open spec fn tick_scorer(self) -> Option<Side> {
        self.moved().deflected().rebounded().scorer()
    }

    /// Every coordinate that the coming tick computes can be held in an
    /// `i32`: the ball's four extents and each paddle's two ends, all after
    /// motion.
    pub open spec fn tick_fits(self) -> bool {
        let m = self.moved();
        &&& fits(m.ball.left())
        &&& fits(m.ball.right())
        &&& fits(m.ball.top())
        &&& fits(m.ball.bottom())
        &&& fits(m.left_paddle.y)
        &&& fits(m.left_paddle.y + m.left_paddle.height)
        &&& fits(m.right_paddle.y)
        &&& fits(m.right_paddle.y + m.right_paddle.height)
    }

    /// The match after `key` went down: `Up` and `Down` send the right
    /// paddle up and down, `W` and `S` the left one; other keys do nothing.
    pub open spec fn pressed(self, key: Key) -> GameView {
        match key {
            Key::Up => GameView { right_paddle: self.right_paddle.heading(-1), ..self },
            Key::Down => GameView { right_paddle: self.right_paddle.heading(1), ..self },
            Key::W => GameView { left_paddle: self.left_paddle.heading(-1), ..self },
            Key::S => GameView { left_paddle: self.left_paddle.heading(1), ..self },
            Key::Other => self,
        }
    }

    /// The match after `key` came up: the paddle that the key steers stops,
    /// whichever way it was going; other keys do nothing.
    pub open spec fn released(self, key: Key) -> GameView {
        match key {
            Key::Up | Key::Down => GameView { right_paddle: self.right_paddle.heading(0), ..self },
            Key::W | Key::S => GameView { left_paddle: self.left_paddle.heading(0), ..self },
            Key::Other => self,
        }
    }
}

impl View for Game {
    type V = GameView;

    open spec fn view(&self) -> GameView {
        GameView {
            left_score: self.left_score as int,
            right_score: self.right_score as int,
            left_paddle: self.left_paddle@,
            right_paddle: self.right_paddle@,
            ball: self.ball@,
            width: self.width as int,
            height: self.height as int,
        }
    }
}

impl Game {
    /// See [`GameView::wf`].
    pub open spec fn wf(self) -> bool {
        self@.wf()
    }

    /// A match about to begin in an arena of the given size.
    pub fn new(size: Size) -> (game: Game)
        requires
            size.width <= i32::MAX,
            size.height <= i32::MAX,
        ensures
            game@ == GameView::start(size.width as int, size.height as int),
            game.wf(),
            game@.playing(),
    {
        let width: i32 = size.width as i32;
        let height: i32 = size.height as i32;

        let mut left_paddle = Paddle::new();
        let left_paddle_x: i32 = -left_paddle.height + left_paddle.width;
        let left_paddle_y: i32 = (height / 2) - (left_paddle.height / 2);
        left_paddle.set_pos(left_paddle_x, left_paddle_y);

        let mut right_paddle = Paddle::new();
        let right_paddle_x: i32 = width - right_paddle.width;
        let right_paddle_y: i32 = (height / 2) - (right_paddle.height / 2);
        right_paddle.set_pos(right_paddle_x, right_paddle_y);

        Game {
            left_score: 0,
            right_score: 0,
            left_paddle,
            right_paddle,
            ball: Ball::new(),
            width,
            height,
        }
    }

    /// Whether the match is well formed.
    pub fn is_valid(&self) -> (ok: bool)
        ensures
            ok == self.wf(),
    {
        let pieces: bool = self.left_paddle.is_valid() && self.right_paddle.is_valid()
            && self.ball.is_valid();
        let arena: bool = 0 <= self.width && 0 <= self.height;
        let left: bool = 0 <= self.left_score && self.left_score <= SCORE_LIMIT;
        let right: bool = 0 <= self.right_score && self.right_score <= SCORE_LIMIT;
        pieces && arena && left && right
    }

    /// Whether `update` may be called: the match is well formed and still
    /// on, and the coordinates that the coming tick computes fit.
    pub fn can_update(&self) -> (ok: bool)
        ensures
            ok == (self.wf() && self@.playing() && self@.tick_fits()),
    {
        if !self.is_valid() || self.winner().is_some() {
            return false;
        }
        let ball_x: i64 = self.ball.x as i64 + self.ball.vel_x as i64;
        let ball_y: i64 = self.ball.y as i64 + self.ball.vel_y as i64;
        let radius: i64 = self.ball.radius as i64;
        let left_step: i32 = self.left_paddle.vel * self.left_paddle.vel_mod;
        let right_step: i32 = self.right_paddle.vel * self.right_paddle.vel_mod;
        let left_y: i64 = self.left_paddle.y as i64 + left_step as i64;
        let right_y: i64 = self.right_paddle.y as i64 + right_step as i64;
        let left_end: i64 = left_y + self.left_paddle.height as i64;
        let right_end: i64 = right_y + self.right_paddle.height as i64;
        let ball: bool = in_range(ball_x - radius) && in_range(ball_x + radius) && in_range(
            ball_y - radius,
        ) && in_range(ball_y + radius);
        let paddles: bool = in_range(left_y) && in_range(left_end) && in_range(right_y)
            && in_range(right_end);
        ball && paddles
    }

    /// Advances the match by one tick and reports who scored and who has
    /// won. The match must still be on, and the coordinates that the tick
    /// computes must fit the machine's integers.
    pub fn update(&mut self) -> (tick: Tick)
        requires
            old(self).wf(),
            old(self)@.playing(),
            old(self)@.tick_fits(),
        ensures
            final(self)@ == old(self)@.tick(),
            tick.scored == old(self)@.tick_scorer(),
            tick.winner == final(self)@.winner(),
            final(self).wf(),
            tick.scored is None ==> final(self).ball.x == old(self).ball.x + old(self).ball.vel_x
                && final(self).ball.y == old(self).ball.y + old(self).ball.vel_y,
            tick.scored is Some ==> final(self).ball.x == old(self).width / 2 && final(self).ball.y
                == old(self).height / 2,
            tick.winner == Some(Side::Left) <==> final(self).left_score == SCORE_LIMIT,
            tick.winner == Some(Side::Right) <==> final(self).right_score == SCORE_LIMIT,
    {
        self.ball.y = self.ball.y + self.ball.vel_y;
        self.ball.x = self.ball.x + self.ball.vel_x;
        self.left_paddle.y = self.left_paddle.y + self.left_paddle.vel * self.left_paddle.vel_mod;
        self.right_paddle.y = self.right_paddle.y + self.right_paddle.vel
            * self.right_paddle.vel_mod;

        let at_left: bool = self.at_left_face();
        let at_right: bool = self.at_right_face();
        let hits_left: bool = at_left && self.level_with(&self.left_paddle);
        let hits_right: bool = at_right && self.level_with(&self.right_paddle);
        if hits_left || hits_right {
            self.ball.vel_x = -self.ball.vel_x;
            let edge_right: bool = at_right && self.beyond_margin(&self.right_paddle);
            let edge_left: bool = at_left && self.beyond_margin(&self.left_paddle);
            if edge_right || edge_left {
                self.ball.vel_y = -self.ball.vel_y;
            }
        }

        if self.hits_wall() {
            self.ball.vel_y = -self.ball.vel_y;
        }

        let scored: Option<Side> = self.scorer();
        match scored {
            Some(Side::Left) => {
                self.left_score = self.left_score + 1;
                self.ball.reset(self.width / 2, self.height / 2);
            },
            Some(Side::Right) => {
                self.right_score = self.right_score + 1;
                self.ball.reset(self.width / 2, self.height / 2);
            },
            None => {},
        }

        Tick { scored, winner: self.winner() }
    }

    /// Computes [`GameView::at_left_face`].
    fn at_left_face(&self) -> (at: bool)
        requires
            fits(self.ball@.left()),
        ensures
            at == self@.at_left_face(),
    {
        self.ball.x - self.ball.radius <= self.left_paddle.width
    }

    /// Computes [`GameView::at_right_face`].
    fn at_right_face(&self) -> (at: bool)
        requires
            fits(self.ball@.right()),
            fits(self.width - self.right_paddle.width),
        ensures
            at == self@.at_right_face(),
    {
        self.ball.x + self.ball.radius >= self.width - self.right_paddle.width
    }

    /// Computes [`GameView::level_with`].
    fn level_with(&self, paddle: &Paddle) -> (level: bool)
        requires
            fits(self.ball@.top()),
            fits(self.ball@.bottom()),
            fits(paddle.y + paddle.height),
        ensures
            level == self@.level_with(paddle@),
    {
        let top: i32 = self.ball.y - self.ball.radius;
        let bottom: i32 = self.ball.y + self.ball.radius;
        bottom >= paddle.y && top <= paddle.y + paddle.height
    }

    /// Computes [`GameView::beyond_margin`].
    fn beyond_margin(&self, paddle: &Paddle) -> (beyond: bool)
        requires
            fits(self.ball@.top()),
            fits(self.ball@.bottom()),
            fits(paddle.y + paddle.height),
            fits(paddle.y + paddle.height - EDGE_MARGIN),
            fits(paddle.y + EDGE_MARGIN),
        ensures
            beyond == self@.beyond_margin(paddle@),
    {
        let top: i32 = self.ball.y - self.ball.radius;
        let bottom: i32 = self.ball.y + self.ball.radius;
        top > paddle.y + paddle.height - EDGE_MARGIN || bottom < paddle.y + EDGE_MARGIN
    }

    /// Computes [`GameView::hits_wall`].
    fn hits_wall(&self) -> (hit: bool)
        requires
            fits(self.ball@.bottom()),
        ensures
            hit == self@.hits_wall(),
    {
        self.ball.y + self.ball.radius > self.height || self.ball.y < self.ball.radius
    }

    /// Computes [`GameView::scorer`].
    fn scorer(&self) -> (side: Option<Side>)
        requires
            fits(self.ball@.left()),
            fits(self.ball@.right()),
        ensures
            side == self@.scorer(),
    {
        if self.ball.x + self.ball.radius < 0 {
            Some(Side::Right)
        } else if self.ball.x - self.ball.radius > self.width {
            Some(Side::Left)
        } else {
            None
        }
    }

    /// The player who has won the match, or `None` while it is still on.
    pub fn winner(&self) -> (winner: Option<Side>)
        ensures
            winner == self@.winner(),
            winner is None <==> self@.playing(),
    {
        if self.left_score >= SCORE_LIMIT {
            Some(Side::Left)
        } else if self.right_score >= SCORE_LIMIT {
            Some(Side::Right)
        } else {
            None
        }
    }

    /// Takes note that `key` went down.
    pub fn press(&mut self, key: Key)
        ensures
            final(self)@ == old(self)@.pressed(key),
            old(self).wf() ==> final(self).wf(),
    {
        match key {
            Key::Up => {
                self.right_paddle.vel = -1;
            },
            Key::Down => {
                self.right_paddle.vel = 1;
            },
            Key::W => {
                self.left_paddle.vel = -1;
            },
            Key::S => {
                self.left_paddle.vel = 1;
            },
            Key::Other => {},
        }
    }

    /// Takes note that `key` came up.
    pub fn release(&mut self, key: Key)
        ensures
            final(self)@ == old(self)@.released(key),
            old(self).wf() ==> final(self).wf(),
            key == Key::Up || key == Key::Down ==> final(self).right_paddle.vel == 0,
            key == Key::W || key == Key::S ==> final(self).left_paddle.vel == 0,
    {
        match key {
            Key::Up => {
                self.right_paddle.vel = 0;
            },
            Key::Down => {
                self.right_paddle.vel = 0;
            },
            Key::W => {
                self.left_paddle.vel = 0;
            },
            Key::S => {
                self.left_paddle.vel = 0;
            },
            Key::Other => {},
        }
    }

    /// The frame that shows the match as it stands: over the background,
    /// the left paddle, the right paddle and the ball, in that order.
    pub fn render(&self) -> (frame: Frame)
        ensures
            frame.background == background(),
            frame.shapes@ == seq![
                self.left_paddle.shape(),
                self.right_paddle.shape(),
                self.ball.shape(),
            ],
    {
        let mut shapes: Vec<Shape> = Vec::new();
        shapes.push(self.left_paddle.render());
        shapes.push(self.right_paddle.render());
        shapes.push(self.ball.render());
        Frame { background: background(), shapes }
    }
}

} // verus!
