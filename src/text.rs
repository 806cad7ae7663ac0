//! Decimal rendering of crew counts for overlay labels.
use vstd::prelude::*;

verus! {

/// The character of a decimal digit.
pub open spec fn digit_char(d: nat) -> char {
    if d == 0 {
        '0'
    } else if d == 1 {
        '1'
    } else if d == 2 {
        '2'
    } else if d == 3 {
        '3'
    } else if d == 4 {
        '4'
    } else if d == 5 {
        '5'
    } else if d == 6 {
        '6'
    } else if d == 7 {
        '7'
    } else if d == 8 {
        '8'
    } else {
        '9'
    }
}

/// The decimal representation of `n`, without leading zeros.
pub open spec fn decimal(n: nat) -> Seq<char>
    decreases n,
{
    if n < 10 {
        seq![digit_char(n)]
    } else {
        decimal(n / 10).push(digit_char(n % 10))
    }
}

fn digit_str(d: u32) -> (s: &'static str)
    requires
        d < 10,
    ensures
        s@ == seq![digit_char(d as nat)],
{
    proof {
        reveal_strlit("0");
        reveal_strlit("1");
        reveal_strlit("2");
        reveal_strlit("3");
        reveal_strlit("4");
        reveal_strlit("5");
        reveal_strlit("6");
        reveal_strlit("7");
        reveal_strlit("8");
        reveal_strlit("9");
    }
    if d == 0 {
        "0"
    } else if d == 1 {
        "1"
    } else if d == 2 {
        "2"
    } else if d == 3 {
        "3"
    } else if d == 4 {
        "4"
    } else if d == 5 {
        "5"
    } else if d == 6 {
        "6"
    } else if d == 7 {
        "7"
    } else if d == 8 {
        "8"
    } else {
        "9"
    }
}

/// Appends the decimal representation of `n` to `s`.
pub fn push_decimal(s: &mut String, n: u32)
    ensures
        final(s)@ == old(s)@ + decimal(n as nat),
    decreases n,
{
    if n >= 10 {
        push_decimal(s, n / 10);
    }
    s.append(digit_str(n % 10));
    assert(final(s)@ =~= old(s)@ + decimal(n as nat));
}

/// `"<count> crew waiting"`, the label text of a planet.
pub open spec fn waiting_text(count: nat) -> Seq<char> {
    decimal(count) + " crew waiting"@
}

/// `"<count> crew onboard"`, the label text of a ship.
pub open spec fn onboard_text(count: nat) -> Seq<char> {
    decimal(count) + " crew onboard"@
}

pub fn waiting_label(count: u32) -> (s: String)
    ensures
        s@ == waiting_text(count as nat),
{
    let mut s = String::new();
    push_decimal(&mut s, count);
    s.append(" crew waiting");
    s
}

pub fn onboard_label(count: u32) -> (s: String)
    ensures
        s@ == onboard_text(count as nat),
{
    let mut s = String::new();
    push_decimal(&mut s, count);
    s.append(" crew onboard");
    s
}

} // verus!
