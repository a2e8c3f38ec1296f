//! Decimal rendering of small numbers, as it appears in generated identifiers.

use vstd::prelude::*;

verus! {

/// The character of a decimal digit.
pub open spec fn digit(d: int) -> char {
    if d == 0 {
        '0'
    } else if d == 1 {
        '1'
    } else if d == 2 {
        '2'
    } else if d == 3 {
        '3'
    } else if d == 4 {
        '4'
    } else if d == 5 {
        '5'
    } else if d == 6 {
        '6'
    } else if d == 7 {
        '7'
    } else if d == 8 {
        '8'
    } else {
        '9'
    }
}

/// Whether `c` is one of the characters `0` to `9`.
pub open spec fn is_digit(c: char) -> bool {
    exists|d: int| 0 <= d <= 9 && c == digit(d)
}

/// A number in decimal, without leading zeros.
pub open spec fn decimal(n: nat) -> Seq<char>
    decreases n,
{
    if n < 10 {
        seq![digit(n as int)]
    } else {
        decimal(n / 10).push(digit((n % 10) as int))
    }
}

/// A number in decimal, with zeros in front up to a width of three.
pub open spec fn padded3(n: nat) -> Seq<char> {
    if n < 10 {
        seq!['0', '0'] + decimal(n)
    } else if n < 100 {
        seq!['0'] + decimal(n)
    } else {
        decimal(n)
    }
}

/// Below a thousand the padded form is exactly the three digits of the number.
pub proof fn lemma_padded3_digits(n: nat)
    requires
        n < 1000,
    ensures
        padded3(n) =~= seq![
            digit((n / 100) as int),
            digit((n / 10 % 10) as int),
            digit((n % 10) as int),
        ],
        is_digit(padded3(n)[0]),
        is_digit(padded3(n)[1]),
        is_digit(padded3(n)[2]),
{
    reveal_with_fuel(decimal, 3);
    assert(is_digit(digit((n / 100) as int)));
    assert(is_digit(digit((n / 10 % 10) as int)));
    assert(is_digit(digit((n % 10) as int)));
}

fn digit_str(d: u32) -> (s: &'static str)
    requires
        d < 10,
    ensures
        s@ =~= seq![digit(d as int)],
{
    proof {
        reveal_strlit("0");
        reveal_strlit("1");
        reveal_strlit("2");
        reveal_strlit("3");
        reveal_strlit("4");
        reveal_strlit("5");
        reveal_strlit("6");
        reveal_strlit("7");
        reveal_strlit("8");
        reveal_strlit("9");
    }
    match d {
        0 => "0",
        1 => "1",
        2 => "2",
        3 => "3",
        4 => "4",
        5 => "5",
        6 => "6",
        7 => "7",
        8 => "8",
        _ => "9",
    }
}

/// Renders `n` in decimal.
pub fn to_decimal(n: u32) -> (s: String)
    ensures
        s@ == decimal(n as nat),
    decreases n,
{
    if n < 10 {
        String::from_str(digit_str(n))
    } else {
        let mut s = to_decimal(n / 10);
        s.append(digit_str(n % 10));
        assert(s@ =~= decimal(n as nat));
        s
    }
}

/// Renders `n` in decimal, zero-padded to three characters.
pub fn to_padded3(n: u32) -> (s: String)
    ensures
        s@ == padded3(n as nat),
{
    proof {
        reveal_strlit("00");
        reveal_strlit("0");
        reveal_strlit("");
    }
    let mut s = if n < 10 {
        String::from_str("00")
    } else if n < 100 {
        String::from_str("0")
    } else {
        String::from_str("")
    };
    let tail = to_decimal(n);
    s.append(tail.as_str());
    assert(s@ =~= padded3(n as nat));
    s
}

} // verus!
