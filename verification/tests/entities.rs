use pong::ball::{Ball, BALL_RADIUS, BALL_SPEED, BALL_START};
use pong::game::{Game, Size, SCORE_LIMIT};
use pong::paddle::{Paddle, PADDLE_HEIGHT, PADDLE_SPEED, PADDLE_WIDTH};

#[test]
fn constants_have_the_fixed_values() {
    assert_eq!(PADDLE_WIDTH, 30);
    assert_eq!(PADDLE_HEIGHT, 150);
    assert_eq!(PADDLE_SPEED, 2);
    assert_eq!(BALL_RADIUS, 20);
    assert_eq!(BALL_SPEED, 2);
    assert_eq!(BALL_START, 50);
    assert_eq!(SCORE_LIMIT, 5);
}

#[test]
fn new_paddle_rests_at_origin() {
    let p = Paddle::new();
    assert_eq!(p, Paddle { x: 0, y: 0, vel: 0, vel_mod: 2, width: 30, height: 150 });
    assert!(p.is_valid());
}

#[test]
fn set_pos_moves_only_the_corner() {
    let mut p = Paddle::new();
    p.vel = -1;
    p.set_pos(770, 225);
    assert_eq!(p, Paddle { x: 770, y: 225, vel: -1, vel_mod: 2, width: 30, height: 150 });
    p.set_pos(-120, -7);
    assert_eq!(p, Paddle { x: -120, y: -7, vel: -1, vel_mod: 2, width: 30, height: 150 });
}

#[test]
fn paddle_validity_checks_each_field() {
    let good = Paddle::new();
    assert!(Paddle { vel: 1, ..good }.is_valid());
    assert!(Paddle { vel: -1, ..good }.is_valid());
    assert!(Paddle { x: i32::MIN, y: i32::MAX, ..good }.is_valid());
    assert!(!Paddle { vel: 2, ..good }.is_valid());
    assert!(!Paddle { vel: -2, ..good }.is_valid());
    assert!(!Paddle { vel_mod: 3, ..good }.is_valid());
    assert!(!Paddle { width: 31, ..good }.is_valid());
    assert!(!Paddle { height: 149, ..good }.is_valid());
}

#[test]
fn new_ball_starts_near_the_corner() {
    let b = Ball::new();
    assert_eq!(b, Ball { radius: 20, x: 50, y: 50, vel_x: 2, vel_y: 2 });
    assert!(b.is_valid());
}

#[test]
fn reset_keeps_velocity_and_radius() {
    let mut b = Ball::new();
    b.vel_x = -2;
    b.reset(400, 300);
    assert_eq!(b, Ball { radius: 20, x: 400, y: 300, vel_x: -2, vel_y: 2 });
    b.vel_y = -2;
    b.reset(-5, 7);
    assert_eq!(b, Ball { radius: 20, x: -5, y: 7, vel_x: -2, vel_y: -2 });
}

#[test]
fn ball_validity_checks_each_field() {
    let good = Ball::new();
    assert!(Ball { vel_x: -2, vel_y: -2, ..good }.is_valid());
    assert!(Ball { x: i32::MAX, y: i32::MIN, ..good }.is_valid());
    assert!(!Ball { radius: 21, ..good }.is_valid());
    assert!(!Ball { vel_x: 0, ..good }.is_valid());
    assert!(!Ball { vel_x: 3, ..good }.is_valid());
    assert!(!Ball { vel_y: 1, ..good }.is_valid());
    assert!(!Ball { vel_y: -4, ..good }.is_valid());
}

#[test]
fn new_game_in_the_standard_arena() {
    let g = Game::new(Size { width: 800, height: 600 });
    assert_eq!(g.left_score, 0);
    assert_eq!(g.right_score, 0);
    assert_eq!(g.width, 800);
    assert_eq!(g.height, 600);
    assert_eq!(
        g.left_paddle,
        Paddle { x: -120, y: 225, vel: 0, vel_mod: 2, width: 30, height: 150 }
    );
    assert_eq!(
        g.right_paddle,
        Paddle { x: 770, y: 225, vel: 0, vel_mod: 2, width: 30, height: 150 }
    );
    assert_eq!(g.ball, Ball { radius: 20, x: 50, y: 50, vel_x: 2, vel_y: 2 });
    assert!(g.is_valid());
    assert!(g.can_update());
    assert_eq!(g.winner(), None);
}

#[test]
fn new_game_in_other_arenas() {
    let g = Game::new(Size { width: 0, height: 0 });
    assert_eq!(g.left_paddle.x, -120);
    assert_eq!(g.left_paddle.y, -75);
    assert_eq!(g.right_paddle.x, -30);
    assert_eq!(g.right_paddle.y, -75);
    assert!(g.is_valid());

    let g = Game::new(Size { width: 641, height: 481 });
    assert_eq!(g.left_paddle.y, 165);
    assert_eq!(g.right_paddle.x, 611);
    assert_eq!(g.right_paddle.y, 165);

    let g = Game::new(Size { width: i32::MAX as u32, height: i32::MAX as u32 });
    assert_eq!(g.width, i32::MAX);
    assert_eq!(g.height, i32::MAX);
    assert_eq!(g.right_paddle.x, i32::MAX - 30);
    assert_eq!(g.left_paddle.y, 1073741823 - 75);
    assert!(g.is_valid());
}

#[test]
fn game_validity_checks_scores_and_arena() {
    let good = Game::new(Size { width: 800, height: 600 });
    assert!(Game { left_score: 5, ..good }.is_valid());
    assert!(Game { right_score: 5, ..good }.is_valid());
    assert!(!Game { left_score: 6, ..good }.is_valid());
    assert!(!Game { right_score: -1, ..good }.is_valid());
    assert!(!Game { width: -1, ..good }.is_valid());
    assert!(!Game { height: -1, ..good }.is_valid());
    assert!(!Game { ball: Ball { radius: 5, ..good.ball }, ..good }.is_valid());
    assert!(!Game { left_paddle: Paddle { vel: 7, ..good.left_paddle }, ..good }.is_valid());
    assert!(!Game { right_paddle: Paddle { width: 1, ..good.right_paddle }, ..good }.is_valid());
}
