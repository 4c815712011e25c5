//! Small helpers for the text of replies.

use vstd::prelude::*;
use vstd::string::*;

verus! {

/// The text of `msg` when addressed to `mb_target`: prefixed with the
/// target's name, a colon and a space where there is a target, and left as it
/// is where there is none.
pub open spec fn addressed(msg: Seq<char>, mb_target: Option<Seq<char>>) -> Seq<char> {
    match mb_target {
        Some(target) => target + ": "@ + msg,
        None => msg,
    }
}

/// The text held by an optional string slice.
pub open spec fn slice_text(value: Option<&str>) -> Option<Seq<char>> {
    match value {
        Some(text) => Some(text@),
        None => None,
    }
}

/// Addresses `msg` to `mb_target`, if there is one.
pub fn with_target(msg: &str, mb_target: &Option<&str>) -> (text: String)
    ensures
        text@ == addressed(msg@, slice_text(*mb_target)),
{
    match mb_target {
        Some(target) => String::from_str(target).concat(": ").concat(msg),
        None => String::from_str(msg),
    }
}

/// The character of a decimal digit.
pub open spec fn digit(value: int) -> char {
    if value == 0 {
        '0'
    } else if value == 1 {
        '1'
    } else if value == 2 {
        '2'
    } else if value == 3 {
        '3'
    } else if value == 4 {
        '4'
    } else if value == 5 {
        '5'
    } else if value == 6 {
        '6'
    } else if value == 7 {
        '7'
    } else if value == 8 {
        '8'
    } else {
        '9'
    }
}

/// A natural number written in decimal, without leading zeros.
pub open spec fn natural_text(value: nat) -> Seq<char>
    decreases value,
{
    if value < 10 {
        seq![digit(value as int)]
    } else {
        natural_text(value / 10).push(digit((value % 10) as int))
    }
}

/// An integer written in decimal, with a minus sign where it is negative.
pub open spec fn decimal_text(value: int) -> Seq<char> {
    if value < 0 {
        seq!['-'] + natural_text((-value) as nat)
    } else {
        natural_text(value as nat)
    }
}

/// The text of one decimal digit.
fn digit_text(value: u64) -> (text: &'static str)
    requires
        value < 10,
    ensures
        text@ == seq![digit(value as int)],
{
    proof {
        reveal_strlit("0");
        reveal_strlit("1");
        reveal_strlit("2");
        reveal_strlit("3");
        reveal_strlit("4");
        reveal_strlit("5");
        reveal_strlit("6");
        reveal_strlit("7");
        reveal_strlit("8");
        reveal_strlit("9");
    }
    let text = match value {
        0 => "0",
        1 => "1",
        2 => "2",
        3 => "3",
        4 => "4",
        5 => "5",
        6 => "6",
        7 => "7",
        8 => "8",
        _ => "9",
    };
    assert(text@ =~= seq![digit(value as int)]);
    text
}

/// Writes a natural number in decimal.
pub fn natural(value: u64) -> (text: String)
    ensures
        text@ == natural_text(value as nat),
    decreases value,
{
    if value < 10 {
        String::from_str(digit_text(value))
    } else {
        let text = natural(value / 10).concat(digit_text(value % 10));
        proof {
            assert(text@ =~= natural_text((value / 10) as nat).push(digit((value % 10) as int)));
        }
        text
    }
}

/// Writes an integer in decimal.
pub fn decimal(value: i64) -> (text: String)
    ensures
        text@ == decimal_text(value as int),
{
    if value < 0 {
        proof {
            reveal_strlit("-");
            assert("-"@ =~= seq!['-']);
        }
        let magnitude: u64 = if value == i64::MIN {
            9223372036854775808u64
        } else {
            (-value) as u64
        };
        let digits = natural(magnitude);
        String::from_str("-").concat(digits.as_str())
    } else {
        natural(value as u64)
    }
}

/// A natural number written in decimal on at least two digits.
pub open spec fn padded_text(value: nat) -> Seq<char> {
    if value < 10 {
        seq!['0'] + natural_text(value)
    } else {
        natural_text(value)
    }
}

/// Writes a small number on at least two digits, as the hours, minutes and
/// seconds of a clock are.
pub fn two_digits(value: u8) -> (text: String)
    ensures
        text@ == padded_text(value as nat),
{
    if value < 10 {
        proof {
            reveal_strlit("0");
            assert("0"@ =~= seq!['0']);
        }
        String::from_str("0").concat(natural(value as u64).as_str())
    } else {
        natural(value as u64)
    }
}

} // verus!
