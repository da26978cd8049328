//! Source locations of borrows, and the text of failure messages.
use vstd::prelude::*;
use vstd::string::StringExecFns;

verus! {

/// Where in the source a borrow was taken.
#[derive(Copy, Clone, Debug)]
pub struct BorrowLocation {
    pub file: &'static str,
    pub line: u32,
    pub column: u32,
}

/// The character of a decimal digit.
pub open spec fn digit_char(d: nat) -> char {
    if d == 0 {
        '0'
    } else if d == 1 {
        '1'
    } else if d == 2 {
        '2'
    } else if d == 3 {
        '3'
    } else if d == 4 {
        '4'
    } else if d == 5 {
        '5'
    } else if d == 6 {
        '6'
    } else if d == 7 {
        '7'
    } else if d == 8 {
        '8'
    } else {
        '9'
    }
}

/// The decimal digits of `n`, most significant first, without leading zeros.
pub open spec fn decimal(n: nat) -> Seq<char>
    decreases n,
{
    if n < 10 {
        seq![digit_char(n)]
    } else {
        decimal(n / 10) + seq![digit_char(n % 10)]
    }
}

/// A location written as `file:line:column`.
pub open spec fn location_text(at: BorrowLocation) -> Seq<char> {
    at.file@ + ":"@ + decimal(at.line as nat) + ":"@ + decimal(at.column as nat)
}

/// The text of a single digit.
fn digit_str(d: u32) -> (r: &'static str)
    requires
        d < 10,
    ensures
        r@ == seq![digit_char(d as nat)],
{
    proof {
        reveal_strlit("0");
        reveal_strlit("1");
        reveal_strlit("2");
        reveal_strlit("3");
        reveal_strlit("4");
        reveal_strlit("5");
        reveal_strlit("6");
        reveal_strlit("7");
        reveal_strlit("8");
        reveal_strlit("9");
    }
    match d {
        0 => "0",
        1 => "1",
        2 => "2",
        3 => "3",
        4 => "4",
        5 => "5",
        6 => "6",
        7 => "7",
        8 => "8",
        _ => "9",
    }
}

/// Appends the decimal digits of `n` to `s`.
pub fn push_decimal(s: &mut String, n: u32)
    ensures
        final(s)@ == old(s)@ + decimal(n as nat),
    decreases n,
{
    if n >= 10 {
        push_decimal(s, n / 10);
    }
    s.append(digit_str(n % 10));
}

/// Appends `file:line:column` for `at` to `s`.
pub fn push_location(s: &mut String, at: BorrowLocation)
    ensures
        final(s)@ == old(s)@ + location_text(at),
{
    s.append(at.file);
    s.append(":");
    push_decimal(s, at.line);
    s.append(":");
    push_decimal(s, at.column);
}

} // verus!
