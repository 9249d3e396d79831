//! What holds of every match, proved from the definition of a tick.

use vstd::prelude::*;
use crate::game::{GameView, Key, Side, SCORE_LIMIT};

verus! {

/// A tick first carries the ball along by exactly its velocity. The paddle,
/// ceiling and floor tests are made on the ball where motion has put it,
/// and they change its velocity only. So unless a point is scored, the tick
/// leaves the ball one velocity step from where it was.
pub proof fn motion_comes_first(g: GameView)
    ensures
        g.moved().ball.x == g.ball.x + g.ball.vel_x,
        g.moved().ball.y == g.ball.y + g.ball.vel_y,
        g.moved().ball.vel_x == g.ball.vel_x,
        g.moved().ball.vel_y == g.ball.vel_y,
        g.moved().deflected().ball.x == g.moved().ball.x,
        g.moved().deflected().ball.y == g.moved().ball.y,
        g.moved().deflected().rebounded().ball.x == g.moved().ball.x,
        g.moved().deflected().rebounded().ball.y == g.moved().ball.y,
        g.tick() == g.moved().deflected().rebounded().scored(),
        g.tick_scorer() == g.moved().scorer(),
        g.tick_scorer() is None ==> g.tick().ball.x == g.ball.x + g.ball.vel_x,
        g.tick_scorer() is None ==> g.tick().ball.y == g.ball.y + g.ball.vel_y,
{
}

/// A tick slides each paddle by its direction times its speed and changes
/// nothing else about it; a still paddle stays where it is. The arena and
/// the ball's radius stay as they are.
pub proof fn tick_keeps_fixtures(g: GameView)
    ensures
        g.tick().left_paddle == g.left_paddle.moved(),
        g.tick().right_paddle == g.right_paddle.moved(),
        g.tick().left_paddle.y == g.left_paddle.y + g.left_paddle.vel * g.left_paddle.vel_mod,
        g.tick().right_paddle.y == g.right_paddle.y + g.right_paddle.vel
            * g.right_paddle.vel_mod,
        g.tick().left_paddle.x == g.left_paddle.x,
        g.tick().right_paddle.x == g.right_paddle.x,
        g.left_paddle.vel == 0 ==> g.tick().left_paddle == g.left_paddle,
        g.right_paddle.vel == 0 ==> g.tick().right_paddle == g.right_paddle,
        g.tick().width == g.width,
        g.tick().height == g.height,
        g.tick().ball.radius == g.ball.radius,
{
}

/// A well-formed match that is still on stays well formed over a tick.
pub proof fn tick_keeps_well_formed(g: GameView)
    requires
        g.wf(),
        g.playing(),
    ensures
        g.tick().wf(),
{
}

/// Whenever the ball is found at the ceiling or floor its vertical velocity
/// is negated and its position kept. So the test holds again of the result,
/// and a second contact gives the first velocity back: from contact to
/// contact the vertical velocity alternates in sign.
pub proof fn wall_contact_alternates(g: GameView)
    requires
        g.hits_wall(),
    ensures
        g.rebounded().ball.vel_y == -g.ball.vel_y,
        g.rebounded().ball.vel_x == g.ball.vel_x,
        g.rebounded().ball.x == g.ball.x,
        g.rebounded().ball.y == g.ball.y,
        g.rebounded().hits_wall(),
        g.rebounded().rebounded() == g,
        g.ball.vel_y > 0 ==> g.rebounded().ball.vel_y < 0,
        g.ball.vel_y < 0 ==> g.rebounded().ball.vel_y > 0,
{
}

/// Away from the ceiling and floor nothing turns the ball there.
pub proof fn no_wall_contact_no_turn(g: GameView)
    requires
        !g.hits_wall(),
    ensures
        g.rebounded() == g,
{
}

/// A tick that finds the ball at the ceiling or floor, and not on a
/// paddle's edge, negates the ball's vertical velocity.
pub proof fn tick_at_wall_turns_ball(g: GameView)
    requires
        g.moved().hits_wall(),
        !(g.moved().hits_paddle() && g.moved().hits_edge()),
    ensures
        g.tick().ball.vel_y == -g.ball.vel_y,
{
}

/// Two ticks in a row that find the ball at the ceiling or floor, and not on
/// a paddle's edge, leave its vertical velocity as it was before the first.
pub proof fn two_wall_ticks_restore_velocity(g: GameView)
    requires
        g.moved().hits_wall(),
        !(g.moved().hits_paddle() && g.moved().hits_edge()),
        g.tick().moved().hits_wall(),
        !(g.tick().moved().hits_paddle() && g.tick().moved().hits_edge()),
    ensures
        g.tick().ball.vel_y == -g.ball.vel_y,
        g.tick().tick().ball.vel_y == g.ball.vel_y,
{
    tick_at_wall_turns_ball(g);
    tick_at_wall_turns_ball(g.tick());
}

/// When a point is scored the ball goes to the middle of the arena, the
/// scorer's tally grows by exactly one, the other tally stays, and the
/// ball's velocity and all else stay as they were.
pub proof fn scoring_credits_one_and_recentres(g: GameView, side: Side)
    requires
        g.scorer() == Some(side),
    ensures
        g.scored().ball.x == g.width / 2,
        g.scored().ball.y == g.height / 2,
        g.scored().ball.vel_x == g.ball.vel_x,
        g.scored().ball.vel_y == g.ball.vel_y,
        g.scored().ball.radius == g.ball.radius,
        side == Side::Left ==> g.scored().left_score == g.left_score + 1,
        side == Side::Left ==> g.scored().right_score == g.right_score,
        side == Side::Right ==> g.scored().right_score == g.right_score + 1,
        side == Side::Right ==> g.scored().left_score == g.left_score,
        g.scored().left_paddle == g.left_paddle,
        g.scored().right_paddle == g.right_paddle,
        g.scored().width == g.width,
        g.scored().height == g.height,
{
}

/// When nobody scores, nothing changes at that point of the tick.
pub proof fn no_scorer_no_change(g: GameView)
    requires
        g.scorer() is None,
    ensures
        g.scored() == g,
{
}

/// The same of a whole tick on which `side` scores: the ball ends in the
/// middle of the arena with the velocity that the collisions of that tick
/// gave it, which is the velocity it came with unless it was turned on that
/// very tick, and only the scorer's tally changes, by one.
pub proof fn tick_with_point(g: GameView, side: Side)
    requires
        g.tick_scorer() == Some(side),
    ensures
        g.tick().ball.x == g.width / 2,
        g.tick().ball.y == g.height / 2,
        g.tick().ball.vel_x == g.moved().deflected().rebounded().ball.vel_x,
        g.tick().ball.vel_y == g.moved().deflected().rebounded().ball.vel_y,
        !g.moved().hits_paddle() ==> g.tick().ball.vel_x == g.ball.vel_x,
        !g.moved().hits_paddle() && !g.moved().hits_wall() ==> g.tick().ball.vel_y
            == g.ball.vel_y,
        side == Side::Left ==> g.tick().left_score == g.left_score + 1,
        side == Side::Left ==> g.tick().right_score == g.right_score,
        side == Side::Right ==> g.tick().right_score == g.right_score + 1,
        side == Side::Right ==> g.tick().left_score == g.left_score,
{
}

/// A tick on which nobody scores leaves both tallies alone.
pub proof fn tick_without_point(g: GameView)
    requires
        g.tick_scorer() is None,
    ensures
        g.tick().left_score == g.left_score,
        g.tick().right_score == g.right_score,
{
}

/// Neither tally ever goes down, and a tick adds at most one point in all.
pub proof fn tallies_only_grow(g: GameView)
    ensures
        g.tick().left_score >= g.left_score,
        g.tick().right_score >= g.right_score,
        g.tick().left_score + g.tick().right_score <= g.left_score + g.right_score + 1,
{
}

/// The ball cannot be out on both sides at once: it has wholly left on the
/// left exactly when the right player scores, and on the right exactly when
/// the left player does.
pub proof fn scorer_by_exit(g: GameView)
    requires
        g.wf(),
    ensures
        g.scorer() == Some(Side::Right) <==> g.ball.x + g.ball.radius < 0,
        g.scorer() == Some(Side::Left) <==> g.ball.x - g.ball.radius > g.width,
{
}

/// After a tick the ball is never wholly outside the arena to the left or
/// to the right: a ball that got there has been put back in the middle.
pub proof fn ball_stays_within_reach(g: GameView)
    requires
        g.wf(),
    ensures
        -g.ball.radius <= g.tick().ball.x <= g.width + g.ball.radius,
        g.tick().scorer() is None,
{
}

/// A match is won exactly when a tally stands at the limit, and never
/// beyond it: after a tick of a match that was still on, there is a winner
/// if and only if that player scored on this tick from one below the
/// limit. The other player is then below the limit.
pub proof fn win_exactly_at_limit(g: GameView)
    requires
        g.wf(),
        g.playing(),
    ensures
        g.tick().left_score <= SCORE_LIMIT,
        g.tick().right_score <= SCORE_LIMIT,
        g.tick().winner() == Some(Side::Left) <==> g.tick().left_score == SCORE_LIMIT,
        g.tick().winner() == Some(Side::Right) <==> g.tick().right_score == SCORE_LIMIT,
        g.tick().winner() is None <==> g.tick().playing(),
        g.tick().winner() == Some(Side::Left) <==> g.tick_scorer() == Some(Side::Left)
            && g.left_score == SCORE_LIMIT - 1,
        g.tick().winner() == Some(Side::Right) <==> g.tick_scorer() == Some(Side::Right)
            && g.right_score == SCORE_LIMIT - 1,
        !(g.tick().left_score == SCORE_LIMIT && g.tick().right_score == SCORE_LIMIT),
{
}

/// There is a winner exactly when a tally has reached the limit; no tally
/// below the limit makes one.
pub proof fn no_win_below_limit(g: GameView)
    ensures
        g.winner() is None <==> g.left_score < SCORE_LIMIT && g.right_score < SCORE_LIMIT,
        g.winner() is None <==> g.playing(),
        g.winner() == Some(Side::Left) <==> g.left_score >= SCORE_LIMIT,
        g.winner() == Some(Side::Right) <==> g.left_score < SCORE_LIMIT && g.right_score
            >= SCORE_LIMIT,
{
}

/// A key that goes down sets the direction of the paddle it steers and
/// changes nothing else, whatever went before.
pub proof fn press_sets_direction(g: GameView, key: Key)
    ensures
        key == Key::Up ==> g.pressed(key).right_paddle.vel == -1,
        key == Key::Down ==> g.pressed(key).right_paddle.vel == 1,
        key == Key::W ==> g.pressed(key).left_paddle.vel == -1,
        key == Key::S ==> g.pressed(key).left_paddle.vel == 1,
        key == Key::Up || key == Key::Down ==> g.pressed(key) == (GameView {
            right_paddle: g.right_paddle.heading(g.pressed(key).right_paddle.vel),
            ..g
        }),
        key == Key::W || key == Key::S ==> g.pressed(key) == (GameView {
            left_paddle: g.left_paddle.heading(g.pressed(key).left_paddle.vel),
            ..g
        }),
        key == Key::Other ==> g.pressed(key) == g,
        g.wf() ==> g.pressed(key).wf(),
{
}

/// A key that comes up stops the paddle it steers, whichever way that
/// paddle was going and whatever other keys are held, and changes nothing
/// else.
pub proof fn release_stops_paddle(g: GameView, key: Key)
    ensures
        key == Key::Up || key == Key::Down ==> g.released(key).right_paddle.vel == 0,
        key == Key::W || key == Key::S ==> g.released(key).left_paddle.vel == 0,
        key == Key::Up || key == Key::Down ==> g.released(key) == (GameView {
            right_paddle: g.right_paddle.heading(0),
            ..g
        }),
        key == Key::W || key == Key::S ==> g.released(key) == (GameView {
            left_paddle: g.left_paddle.heading(0),
            ..g
        }),
        key == Key::Other ==> g.released(key) == g,
        g.wf() ==> g.released(key).wf(),
{
}

/// The last event wins. Whatever key went down before, a key that comes up
/// leaves the paddle it steers still; and whatever key came up before, a
/// key that goes down sets the paddle it steers moving.
pub proof fn last_event_wins(g: GameView, down: Key, up: Key)
    ensures
        up == Key::Up || up == Key::Down ==> g.pressed(down).released(up).right_paddle.vel == 0,
        up == Key::W || up == Key::S ==> g.pressed(down).released(up).left_paddle.vel == 0,
        down == Key::Up ==> g.released(up).pressed(down).right_paddle.vel == -1,
        down == Key::Down ==> g.released(up).pressed(down).right_paddle.vel == 1,
        down == Key::W ==> g.released(up).pressed(down).left_paddle.vel == -1,
        down == Key::S ==> g.released(up).pressed(down).left_paddle.vel == 1,
{
}

} // verus!
