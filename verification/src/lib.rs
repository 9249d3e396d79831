//! A two-player Pong simulation: two paddles, a ball, and a score kept to a
//! fixed limit, advanced one tick at a time over integer coordinates.

pub mod ball;
pub mod game;
pub mod message;
pub mod paddle;
pub mod shape;
pub mod theorems;
