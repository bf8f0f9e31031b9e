//! The text of the message about an illegal parameter.
//!
//! A kernel that meets an illegal parameter names the routine and the position
//! of the parameter, counted from one. This module words the message; writing
//! it out is left to the caller.

use vstd::prelude::*;
use vstd::string::*;
use crate::types::blasint;

verus! {

/// The routine that a message is about, as far as it is known.
pub enum Routine<'a> {
    /// No name was given.
    Unknown,
    /// A name was given that is not text.
    Invalid,
    /// The name of the routine.
    Named(&'a str),
}

/// The decimal digit for a number below ten.
pub open spec fn digit(d: nat) -> char {
    if d == 0 {
        '0'
    } else if d == 1 {
        '1'
    } else if d == 2 {
        '2'
    } else if d == 3 {
        '3'
    } else if d == 4 {
        '4'
    } else if d == 5 {
        '5'
    } else if d == 6 {
        '6'
    } else if d == 7 {
        '7'
    } else if d == 8 {
        '8'
    } else {
        '9'
    }
}

/// The decimal digits of a natural number, without leading zeros.
pub open spec fn decimal(n: nat) -> Seq<char>
    decreases n,
{
    if n < 10 {
        seq![digit(n)]
    } else {
        decimal(n / 10).push(digit(n % 10))
    }
}

/// The decimal notation of an integer, with a minus sign if it is negative.
pub open spec fn signed_decimal(n: int) -> Seq<char> {
    if n < 0 {
        seq!['-'] + decimal((-n) as nat)
    } else {
        decimal(n as nat)
    }
}

impl<'a> Routine<'a> {
    /// The words that stand for the routine in a message.
    pub open spec fn label(self) -> Seq<char> {
        match self {
            Routine::Unknown => "<unknown>"@,
            Routine::Invalid => "<invalid>"@,
            Routine::Named(name) => name@,
        }
    }
}

/// The message for parameter number `p` of `routine`.
pub open spec fn message_text(p: int, routine: Routine<'_>) -> Seq<char> {
    "** On entry to "@ + routine.label() + " parameter number "@ + signed_decimal(p)
        + " had an illegal value"@
}

fn digit_str(d: u32) -> (s: &'static str)
    requires
        d < 10,
    ensures
        s@ == seq![digit(d as nat)],
{
    proof {
        reveal_strlit("0");
        reveal_strlit("1");
        reveal_strlit("2");
        reveal_strlit("3");
        reveal_strlit("4");
        reveal_strlit("5");
        reveal_strlit("6");
        reveal_strlit("7");
        reveal_strlit("8");
        reveal_strlit("9");
    }
    let s = if d == 0 {
        "0"
    } else if d == 1 {
        "1"
    } else if d == 2 {
        "2"
    } else if d == 3 {
        "3"
    } else if d == 4 {
        "4"
    } else if d == 5 {
        "5"
    } else if d == 6 {
        "6"
    } else if d == 7 {
        "7"
    } else if d == 8 {
        "8"
    } else {
        "9"
    };
    assert(s@ =~= seq![digit(d as nat)]);
    s
}

fn decimal_string(n: u32) -> (s: String)
    ensures
        s@ == decimal(n as nat),
    decreases n,
{
    if n < 10 {
        String::from_str(digit_str(n))
    } else {
        let s = decimal_string(n / 10).concat(digit_str(n % 10));
        assert(s@ =~= decimal(n as nat));
        s
    }
}

/// Words the message that parameter number `p` of `routine` had an illegal
/// value.
pub fn xerbla_message(p: blasint, routine: Routine<'_>) -> (msg: String)
    ensures
        msg@ == message_text(p as int, routine),
{
    let name: &str = match routine {
        Routine::Unknown => "<unknown>",
        Routine::Invalid => "<invalid>",
        Routine::Named(name) => name,
    };
    let number = if p < 0 {
        proof {
            reveal_strlit("-");
        }
        let magnitude: u32 = if p == i32::MIN {
            2147483648u32
        } else {
            (-p) as u32
        };
        String::from_str("-").concat(decimal_string(magnitude).as_str())
    } else {
        decimal_string(p as u32)
    };
    assert(number@ =~= signed_decimal(p as int));
    let msg = String::from_str("** On entry to ").concat(name).concat(" parameter number ").concat(
        number.as_str(),
    ).concat(" had an illegal value");
    msg
}

} // verus!
