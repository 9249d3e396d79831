//! The lines that tell the players of a point and of the end of the match.

use vstd::prelude::*;
use vstd::string::StringExecFns;
use crate::game::Side;

verus! {

/// The character for a single decimal digit.
pub open spec fn digit(d: int) -> char {
    if d == 0 {
        '0'
    } else if d == 1 {
        '1'
    } else if d == 2 {
        '2'
    } else if d == 3 {
        '3'
    } else if d == 4 {
        '4'
    } else if d == 5 {
        '5'
    } else if d == 6 {
        '6'
    } else if d == 7 {
        '7'
    } else if d == 8 {
        '8'
    } else {
        '9'
    }
}

/// The decimal digits of `n`, most significant first, without leading
/// zeros; a single `0` for zero.
pub open spec fn digits(n: nat) -> Seq<char>
    decreases n,
{
    if n < 10 {
        seq![digit(n as int)]
    } else {
        digits(n / 10).push(digit((n % 10) as int))
    }
}

/// `n` in decimal, with a minus sign in front if it is negative.
pub open spec fn decimal(n: int) -> Seq<char> {
    if n < 0 {
        seq!['-'] + digits((-n) as nat)
    } else {
        digits(n as nat)
    }
}

/// The name of a player.
pub open spec fn side_name(side: Side) -> Seq<char> {
    match side {
        Side::Left => "Left"@,
        Side::Right => "Right"@,
    }
}

/// The line for a point: who scored, and the tally, left score first.
pub open spec fn score_text(side: Side, left_score: int, right_score: int) -> Seq<char> {
    side_name(side) + " scores! "@ + decimal(left_score) + " - "@ + decimal(right_score)
}

/// The line for the end of the match: who won, and the tally, left score
/// first.
pub open spec fn win_text(side: Side, left_score: int, right_score: int) -> Seq<char> {
    side_name(side) + " wins! "@ + decimal(left_score) + " - "@ + decimal(right_score)
}

fn digit_str(d: u32) -> (s: &'static str)
    requires
        d < 10,
    ensures
        s@ == seq![digit(d as int)],
{
    proof {
        reveal_strlit("0");
        reveal_strlit("1");
        reveal_strlit("2");
        reveal_strlit("3");
        reveal_strlit("4");
        reveal_strlit("5");
        reveal_strlit("6");
        reveal_strlit("7");
        reveal_strlit("8");
        reveal_strlit("9");
    }
    let s = if d == 0 {
        "0"
    } else if d == 1 {
        "1"
    } else if d == 2 {
        "2"
    } else if d == 3 {
        "3"
    } else if d == 4 {
        "4"
    } else if d == 5 {
        "5"
    } else if d == 6 {
        "6"
    } else if d == 7 {
        "7"
    } else if d == 8 {
        "8"
    } else {
        "9"
    };
    assert(s@ =~= seq![digit(d as int)]);
    s
}

fn push_digits(out: &mut String, n: u32)
    ensures
        final(out)@ == old(out)@ + digits(n as nat),
    decreases n,
{
    if n >= 10 {
        push_digits(out, n / 10);
    }
    out.append(digit_str(n % 10));
    assert(out@ =~= old(out)@ + digits(n as nat));
}

fn push_decimal(out: &mut String, n: i32)
    ensures
        final(out)@ == old(out)@ + decimal(n as int),
{
    if n < 0 {
        proof {
            reveal_strlit("-");
        }
        out.append("-");
        let magnitude: i64 = -(n as i64);
        push_digits(out, magnitude as u32);
        assert(out@ =~= old(out)@ + decimal(n as int));
    } else {
        push_digits(out, n as u32);
    }
}

/// `n` in decimal.
pub fn decimal_string(n: i32) -> (s: String)
    ensures
        s@ == decimal(n as int),
{
    let mut s = String::new();
    push_decimal(&mut s, n);
    assert(s@ =~= decimal(n as int));
    s
}

fn side_str(side: Side) -> (s: &'static str)
    ensures
        s@ == side_name(side),
{
    match side {
        Side::Left => "Left",
        Side::Right => "Right",
    }
}

/// The line that tells of a point for `side`, with the tally after it.
pub fn score_message(side: Side, left_score: i32, right_score: i32) -> (line: String)
    ensures
        line@ == score_text(side, left_score as int, right_score as int),
{
    let mut line = String::from_str(side_str(side));
    line.append(" scores! ");
    push_decimal(&mut line, left_score);
    line.append(" - ");
    push_decimal(&mut line, right_score);
    line
}

/// The line that tells of `side` having won, with the final tally.
pub fn win_message(side: Side, left_score: i32, right_score: i32) -> (line: String)
    ensures
        line@ == win_text(side, left_score as int, right_score as int),
{
    let mut line = String::from_str(side_str(side));
    line.append(" wins! ");
    push_decimal(&mut line, left_score);
    line.append(" - ");
    push_decimal(&mut line, right_score);
    line
}

} // verus!
