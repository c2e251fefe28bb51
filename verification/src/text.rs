//! Strings as plain text, and numbers as the text that a user reads.

use vstd::prelude::*;
use vstd::string::StringExecFns;

verus! {

/// The texts that `strings` hold, in their order.
pub open spec fn texts(strings: Seq<String>) -> Seq<Seq<char>> {
    Seq::new(strings.len(), |i: int| strings[i]@)
}

/// The character that stands for the digit `d`.
pub open spec fn digit(d: int) -> char {
    if d == 0 {
        '0'
    } else if d == 1 {
        '1'
    } else if d == 2 {
        '2'
    } else if d == 3 {
        '3'
    } else if d == 4 {
        '4'
    } else if d == 5 {
        '5'
    } else if d == 6 {
        '6'
    } else if d == 7 {
        '7'
    } else if d == 8 {
        '8'
    } else {
        '9'
    }
}

/// The digits of `n` to the base ten, the most significant first, with no
/// leading zero but for zero itself.
pub open spec fn natural(n: nat) -> Seq<char>
    decreases n,
{
    if n < 10 {
        seq![digit(n as int)]
    } else {
        natural(n / 10).push(digit((n % 10) as int))
    }
}

/// `n` to the base ten, with a minus sign in front where it is negative.
pub open spec fn decimal(n: int) -> Seq<char> {
    if n < 0 {
        seq!['-'] + natural((-n) as nat)
    } else {
        natural(n as nat)
    }
}

/// The digit `d` as a string of one character.
fn digit_text(d: u64) -> (text: &'static str)
    requires
        d < 10,
    ensures
        text@ == seq![digit(d as int)],
{
    proof {
        reveal_strlit("0");
        reveal_strlit("1");
        reveal_strlit("2");
        reveal_strlit("3");
        reveal_strlit("4");
        reveal_strlit("5");
        reveal_strlit("6");
        reveal_strlit("7");
        reveal_strlit("8");
        reveal_strlit("9");
    }
    let text = if d == 0 {
        "0"
    } else if d == 1 {
        "1"
    } else if d == 2 {
        "2"
    } else if d == 3 {
        "3"
    } else if d == 4 {
        "4"
    } else if d == 5 {
        "5"
    } else if d == 6 {
        "6"
    } else if d == 7 {
        "7"
    } else if d == 8 {
        "8"
    } else {
        "9"
    };
    assert(text@ =~= seq![digit(d as int)]);
    text
}

/// The digits of `n` to the base ten.
pub fn natural_text(n: u64) -> (text: String)
    ensures
        text@ == natural(n as nat),
    decreases n,
{
    if n < 10 {
        String::from_str(digit_text(n))
    } else {
        let front = natural_text(n / 10);
        let last = digit_text(n % 10);
        let text = front.concat(last);
        assert(text@ =~= natural(n as nat));
        text
    }
}

/// `n` to the base ten, with a minus sign in front where it is negative.
pub fn decimal_text(n: i32) -> (text: String)
    ensures
        text@ == decimal(n as int),
{
    if n < 0 {
        proof {
            reveal_strlit("-");
        }
        let wide: i64 = n as i64;
        let magnitude: u64 = (0 - wide) as u64;
        let digits = natural_text(magnitude);
        let text = String::from_str("-").concat(digits.as_str());
        assert(text@ =~= decimal(n as int));
        text
    } else {
        natural_text(n as u64)
    }
}

} // verus!
