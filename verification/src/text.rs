//! The English text of an ordinal number.

use vstd::prelude::*;
use vstd::string::*;

verus! {

/// The character that writes the digit `d`.
pub open spec fn digit_char(d: nat) -> char
    recommends
        d < 10,
{
    if d == 0 {
        '0'
    } else if d == 1 {
        '1'
    } else if d == 2 {
        '2'
    } else if d == 3 {
        '3'
    } else if d == 4 {
        '4'
    } else if d == 5 {
        '5'
    } else if d == 6 {
        '6'
    } else if d == 7 {
        '7'
    } else if d == 8 {
        '8'
    } else {
        '9'
    }
}

/// The decimal numeral of `n`: most significant digit first, no leading zero.
pub open spec fn decimal(n: nat) -> Seq<char>
    decreases n,
{
    if n < 10 {
        seq![digit_char(n)]
    } else {
        decimal(n / 10).push(digit_char(n % 10))
    }
}

/// The two letters that follow the numeral of the 1-based number `n`.
pub open spec fn suffix(n: nat) -> Seq<char> {
    let digit = n % 10;
    let two_digits = n % 100;
    if digit == 1 && two_digits != 11 {
        "st"@
    } else if digit == 2 && two_digits != 12 {
        "nd"@
    } else if digit == 3 && two_digits != 13 {
        "rd"@
    } else {
        "th"@
    }
}

/// The English text of the ordinal whose 1-based number is `n`.
pub open spec fn ordinal_text(n: nat) -> Seq<char> {
    if n == 1 {
        "first"@
    } else if n == 2 {
        "second"@
    } else if n == 3 {
        "third"@
    } else {
        decimal(n) + suffix(n)
    }
}

fn digit_str(d: u128) -> (s: &'static str)
    requires
        d < 10,
    ensures
        s@ == seq![digit_char(d as nat)],
{
    proof {
        reveal_strlit("0");
        reveal_strlit("1");
        reveal_strlit("2");
        reveal_strlit("3");
        reveal_strlit("4");
        reveal_strlit("5");
        reveal_strlit("6");
        reveal_strlit("7");
        reveal_strlit("8");
        reveal_strlit("9");
    }
    let s = if d == 0 {
        "0"
    } else if d == 1 {
        "1"
    } else if d == 2 {
        "2"
    } else if d == 3 {
        "3"
    } else if d == 4 {
        "4"
    } else if d == 5 {
        "5"
    } else if d == 6 {
        "6"
    } else if d == 7 {
        "7"
    } else if d == 8 {
        "8"
    } else {
        "9"
    };
    assert(s@ =~= seq![digit_char(d as nat)]);
    s
}

fn push_decimal(out: &mut String, n: u128)
    ensures
        final(out)@ == old(out)@ + decimal(n as nat),
    decreases n,
{
    if n >= 10 {
        push_decimal(out, n / 10);
    }
    out.append(digit_str(n % 10));
}

fn suffix_str(n: u128) -> (s: &'static str)
    ensures
        s@ == suffix(n as nat),
{
    let digit = n % 10;
    let two_digits = n % 100;
    if digit == 1 && two_digits != 11 {
        "st"
    } else if digit == 2 && two_digits != 12 {
        "nd"
    } else if digit == 3 && two_digits != 13 {
        "rd"
    } else {
        "th"
    }
}

/// Writes the English text of the ordinal whose 1-based number is `n`.
pub fn ordinal_string(n: u128) -> (s: String)
    ensures
        s@ == ordinal_text(n as nat),
{
    if n == 1 {
        String::from_str("first")
    } else if n == 2 {
        String::from_str("second")
    } else if n == 3 {
        String::from_str("third")
    } else {
        let mut s = String::new();
        push_decimal(&mut s, n);
        s.append(suffix_str(n));
        s
    }
}

fn trial_text() {
    let s = ordinal_string(111);
    proof {
        reveal_strlit("111th");
        reveal_strlit("th");
        reveal_with_fuel(decimal, 4);
    }
    assert(s@ =~= "111th"@);
    let t = ordinal_string(21);
    proof {
        reveal_strlit("21st");
        reveal_strlit("st");
    }
    assert(t@ =~= "21st"@);
}

} // verus!
