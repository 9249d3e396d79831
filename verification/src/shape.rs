//! Draw primitives: what one rendered frame consists of, as plain integers.

use vstd::prelude::*;

verus! {

/// An RGBA colour. Each channel is in tenths of full intensity, 0 to 10.
#[derive(Clone, Copy, Debug, PartialEq, Eq, Structural)]
pub struct Color {
    pub red: u8,
    pub green: u8,
    pub blue: u8,
    pub alpha: u8,
}

/// Paddles and ball: white at 0.8 opacity.
#[verifier::allow_in_spec]
pub fn foreground() -> Color
    returns
        (Color { red: 10, green: 10, blue: 10, alpha: 8 }),
{
    Color { red: 10, green: 10, blue: 10, alpha: 8 }
}

/// The fill behind them: black at 0.8 opacity.
#[verifier::allow_in_spec]
pub fn background() -> Color
    returns
        (Color { red: 0, green: 0, blue: 0, alpha: 8 }),
{
    Color { red: 0, green: 0, blue: 0, alpha: 8 }
}

/// One filled figure of a frame.
#[derive(Clone, Copy, Debug, PartialEq, Eq, Structural)]
pub enum Shape {
    /// A square whose top-left corner is at `(x, y)`.
    Square { color: Color, x: i32, y: i32, side: i32 },
    /// A circle whose centre is at `(x, y)`.
    Circle { color: Color, x: i32, y: i32, radius: i32 },
}

/// A frame: the background fill, then the figures in drawing order.
#[derive(Debug, PartialEq, Eq)]
pub struct Frame {
    pub background: Color,
    pub shapes: Vec<Shape>,
}

} // verus!
