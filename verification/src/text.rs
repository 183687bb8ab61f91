//! Decimal rendering of the counters, and the exact text of every label the
//! game puts on screen or prints.

use vstd::prelude::*;

verus! {

/// The decimal digit character for a value below ten.
pub open spec fn digit_char(d: nat) -> char {
    if d == 0 {
        '0'
    } else if d == 1 {
        '1'
    } else if d == 2 {
        '2'
    } else if d == 3 {
        '3'
    } else if d == 4 {
        '4'
    } else if d == 5 {
        '5'
    } else if d == 6 {
        '6'
    } else if d == 7 {
        '7'
    } else if d == 8 {
        '8'
    } else {
        '9'
    }
}

/// The decimal digits of `n`, most significant first, with no leading zeros
/// (zero itself is the single digit '0').
pub open spec fn dec_digits(n: nat) -> Seq<char>
    decreases n,
{
    if n < 10 {
        seq![digit_char(n)]
    } else {
        dec_digits(n / 10).push(digit_char(n % 10))
    }
}

/// The decimal rendering of a signed value: the digits of its magnitude,
/// preceded by '-' when it is negative.
pub open spec fn dec_signed(i: int) -> Seq<char> {
    if i < 0 {
        seq!['-'] + dec_digits((-i) as nat)
    } else {
        dec_digits(i as nat)
    }
}

fn digit_str(d: u32) -> (r: &'static str)
    requires
        d < 10,
    ensures
        r@ == seq![digit_char(d as nat)],
{
    let r: &'static str = match d {
        0 => "0",
        1 => "1",
        2 => "2",
        3 => "3",
        4 => "4",
        5 => "5",
        6 => "6",
        7 => "7",
        8 => "8",
        _ => "9",
    };
    proof {
        reveal_strlit("0");
        reveal_strlit("1");
        reveal_strlit("2");
        reveal_strlit("3");
        reveal_strlit("4");
        reveal_strlit("5");
        reveal_strlit("6");
        reveal_strlit("7");
        reveal_strlit("8");
        reveal_strlit("9");
        assert(r@ =~= seq![digit_char(d as nat)]);
    }
    r
}

/// The decimal rendering of an unsigned counter.
pub fn u32_string(n: u32) -> (r: String)
    ensures
        r@ == dec_digits(n as nat),
    decreases n,
{
    if n < 10 {
        digit_str(n).to_owned()
    } else {
        let mut r = u32_string(n / 10);
        r.append(digit_str(n % 10));
        proof {
            assert(r@ =~= dec_digits(n as nat));
        }
        r
    }
}

/// The decimal rendering of a signed counter.
pub fn i32_string(i: i32) -> (r: String)
    ensures
        r@ == dec_signed(i as int),
{
    if i >= 0 {
        u32_string(i as u32)
    } else {
        let mag: u32 = (-(i as i64)) as u32;
        let mut r = "-".to_owned();
        proof {
            reveal_strlit("-");
        }
        let digits = u32_string(mag);
        r.append(digits.as_str());
        proof {
            assert(r@ =~= dec_signed(i as int));
        }
        r
    }
}

/// The score overlay's text for a given score.
pub open spec fn score_text(n: u32) -> Seq<char> {
    "Score: "@ + dec_digits(n as nat)
}

/// The high-score overlay's text for a given high score.
pub open spec fn high_score_text(n: u32) -> Seq<char> {
    "High-Score: "@ + dec_digits(n as nat)
}

/// The line announcing the running score after a collect.
pub open spec fn announce_text(n: u32) -> Seq<char> {
    "Current score: "@ + dec_digits(n as nat)
}

/// The sprite label minted for the car with the given index. The trailing
/// space is part of the label.
pub open spec fn car_label_text(i: i32) -> Seq<char> {
    "Ferris"@ + dec_signed(i as int) + " "@
}

/// Builds the score overlay's text.
pub fn score_label(n: u32) -> (r: String)
    ensures
        r@ == score_text(n),
{
    let mut r = "Score: ".to_owned();
    let digits = u32_string(n);
    r.append(digits.as_str());
    r
}

/// Builds the high-score overlay's text.
pub fn high_score_label(n: u32) -> (r: String)
    ensures
        r@ == high_score_text(n),
{
    let mut r = "High-Score: ".to_owned();
    let digits = u32_string(n);
    r.append(digits.as_str());
    r
}

/// Builds the line announcing the running score after a collect.
pub fn announce_line(n: u32) -> (r: String)
    ensures
        r@ == announce_text(n),
{
    let mut r = "Current score: ".to_owned();
    let digits = u32_string(n);
    r.append(digits.as_str());
    r
}

/// Builds the sprite label for the car with the given index.
pub fn car_label(i: i32) -> (r: String)
    ensures
        r@ == car_label_text(i),
{
    let mut r = "Ferris".to_owned();
    let digits = i32_string(i);
    r.append(digits.as_str());
    r.append(" ");
    proof {
        assert(r@ =~= car_label_text(i));
    }
    r
}

} // verus!
