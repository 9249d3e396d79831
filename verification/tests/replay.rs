use pong::game::{Game, Key, Side, Size, Tick};

/// The rules of a tick on bare integers: a second opinion for long runs.
#[derive(Clone, Copy, Debug, PartialEq, Eq)]
struct Plain {
    bx: i64,
    by: i64,
    vx: i64,
    vy: i64,
    ly: i64,
    lv: i64,
    ry: i64,
    rv: i64,
    ls: i64,
    rs: i64,
    w: i64,
    h: i64,
}

impl Plain {
    fn of(g: &Game) -> Plain {
        Plain {
            bx: g.ball.x as i64,
            by: g.ball.y as i64,
            vx: g.ball.vel_x as i64,
            vy: g.ball.vel_y as i64,
            ly: g.left_paddle.y as i64,
            lv: g.left_paddle.vel as i64,
            ry: g.right_paddle.y as i64,
            rv: g.right_paddle.vel as i64,
            ls: g.left_score as i64,
            rs: g.right_score as i64,
            w: g.width as i64,
            h: g.height as i64,
        }
    }

    fn step(&mut self) -> (Option<Side>, Option<Side>) {
        self.by += self.vy;
        self.bx += self.vx;
        self.ly += self.lv * 2;
        self.ry += self.rv * 2;
        let at_left = self.bx - 20 <= 30;
        let at_right = self.bx + 20 >= self.w - 30;
        let level_left = self.by + 20 >= self.ly && self.by - 20 <= self.ly + 150;
        let level_right = self.by + 20 >= self.ry && self.by - 20 <= self.ry + 150;
        if (at_left && level_left) || (at_right && level_right) {
            self.vx = -self.vx;
            let off_right = self.by - 20 > self.ry + 140 || self.by + 20 < self.ry + 10;
            let off_left = self.by - 20 > self.ly + 140 || self.by + 20 < self.ly + 10;
            if (off_right && at_right) || (off_left && at_left) {
                self.vy = -self.vy;
            }
        }
        if self.by + 20 > self.h || self.by < 20 {
            self.vy = -self.vy;
        }
        let mut scored = None;
        if self.bx + 20 < 0 {
            self.rs += 1;
            scored = Some(Side::Right);
        } else if self.bx - 20 > self.w {
            self.ls += 1;
            scored = Some(Side::Left);
        }
        if scored.is_some() {
            self.bx = self.w / 2;
            self.by = self.h / 2;
        }
        let winner = if self.ls >= 5 {
            Some(Side::Left)
        } else if self.rs >= 5 {
            Some(Side::Right)
        } else {
            None
        };
        (scored, winner)
    }
}

/// A small generator of numbers, so that runs differ but repeat.
struct Dice(u64);

impl Dice {
    fn roll(&mut self, sides: u64) -> u64 {
        self.0 = self.0.wrapping_mul(6364136223846793005).wrapping_add(1442695040888963407);
        (self.0 >> 33) % sides
    }
}

fn key(n: u64) -> Key {
    match n {
        0 => Key::Up,
        1 => Key::Down,
        2 => Key::W,
        3 => Key::S,
        _ => Key::Other,
    }
}

fn play(seed: u64, size: Size, max_ticks: usize) -> (Game, usize) {
    let mut dice = Dice(seed);
    let mut g = Game::new(size);
    let mut ticks = 0;
    while ticks < max_ticks && g.winner().is_none() {
        if dice.roll(8) == 0 {
            g.press(key(dice.roll(5)));
        }
        if dice.roll(16) == 0 {
            g.release(key(dice.roll(5)));
        }
        assert!(g.can_update());
        let mut plain = Plain::of(&g);
        let before = g;
        let (scored, winner) = plain.step();
        let tick = g.update();
        assert_eq!(tick, Tick { scored, winner });
        assert_eq!(Plain::of(&g), plain);
        assert!(g.is_valid());
        assert_eq!(g.left_paddle.x, before.left_paddle.x);
        assert_eq!(g.right_paddle.x, before.right_paddle.x);
        assert!(g.left_score <= 5 && g.right_score <= 5);
        assert!(g.left_score >= before.left_score && g.right_score >= before.right_score);
        assert!(-20 <= g.ball.x && g.ball.x <= g.width + 20);
        assert_eq!(g.winner(), winner);
        if tick.scored.is_none() {
            assert_eq!(g.ball.x, before.ball.x + before.ball.vel_x);
            assert_eq!(g.ball.y, before.ball.y + before.ball.vel_y);
            assert_eq!((g.left_score, g.right_score), (before.left_score, before.right_score));
        } else {
            assert_eq!((g.ball.x, g.ball.y), (g.width / 2, g.height / 2));
            assert_eq!(g.left_score + g.right_score, before.left_score + before.right_score + 1);
        }
        ticks += 1;
    }
    (g, ticks)
}

#[test]
fn long_runs_agree_with_the_plain_tick() {
    for seed in 0..40u64 {
        play(seed, Size { width: 800, height: 600 }, 20_000);
    }
}

#[test]
fn long_runs_in_odd_arenas_agree_with_the_plain_tick() {
    for seed in 0..20u64 {
        play(100 + seed, Size { width: 321, height: 203 }, 20_000);
        play(200 + seed, Size { width: 60, height: 90 }, 5_000);
        play(300 + seed, Size { width: 0, height: 0 }, 2_000);
    }
}

#[test]
fn unattended_game_is_won_by_the_right_player() {
    // With nobody at the keys the paddles stay centred; the ball starts in
    // the top-left corner heading down and right.
    let mut g = Game::new(Size { width: 800, height: 600 });
    let mut points: Vec<Side> = Vec::new();
    let mut ticks = 0;
    while g.winner().is_none() {
        assert!(ticks < 1_000_000);
        assert!(g.can_update());
        let tick = g.update();
        if let Some(side) = tick.scored {
            points.push(side);
        }
        ticks += 1;
    }
    assert_eq!(points.len() as i32, g.left_score + g.right_score);
    assert!(g.left_score == 5 || g.right_score == 5);
    assert!(!(g.left_score == 5 && g.right_score == 5));
    let last = *points.last().unwrap();
    assert_eq!(g.winner(), Some(last));
}
