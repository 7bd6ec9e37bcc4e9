//! Decimal text for fixed-point readings.
//!
//! Fractional quantities are carried as scaled integers: a reading with
//! `places` decimal places is the integer `value`, meaning
//! `value / 10^places`.

use vstd::prelude::*;
use vstd::string::*;

verus! {

/// The character of a single decimal digit.
pub open spec fn digit(d: int) -> char {
    if d == 0 {
        '0'
    } else if d == 1 {
        '1'
    } else if d == 2 {
        '2'
    } else if d == 3 {
        '3'
    } else if d == 4 {
        '4'
    } else if d == 5 {
        '5'
    } else if d == 6 {
        '6'
    } else if d == 7 {
        '7'
    } else if d == 8 {
        '8'
    } else {
        '9'
    }
}

/// The decimal digits of `n`, most significant first, without leading zeros.
pub open spec fn decimal(n: nat) -> Seq<char>
    decreases n,
{
    if n < 10 {
        seq![digit(n as int)]
    } else {
        decimal(n / 10).push(digit((n % 10) as int))
    }
}

/// The last `places` decimal digits of `n`, zero-padded on the left.
pub open spec fn low_digits(n: nat, places: nat) -> Seq<char>
    decreases places,
{
    if places == 0 {
        Seq::empty()
    } else {
        low_digits(n / 10, (places - 1) as nat).push(digit((n % 10) as int))
    }
}

/// Ten to the power `k`.
pub open spec fn pow10(k: nat) -> nat
    decreases k,
{
    if k == 0 {
        1
    } else {
        10 * pow10((k - 1) as nat)
    }
}

/// The absolute value of `v`.
pub open spec fn magnitude(v: int) -> nat {
    if v < 0 {
        (-v) as nat
    } else {
        v as nat
    }
}

/// The text of the fixed-point reading `value / 10^places`: a minus sign for
/// negative values, the whole part, a point, and exactly `places` digits.
pub open spec fn fixed_point(value: int, places: nat) -> Seq<char> {
    let sign = if value < 0 {
        seq!['-']
    } else {
        Seq::empty()
    };
    let whole = magnitude(value) / pow10(places);
    let part = magnitude(value) % pow10(places);
    sign + decimal(whole) + seq!['.'] + low_digits(part, places)
}

/// The text of one decimal digit.
fn digit_text(d: u64) -> (t: &'static str)
    requires
        d < 10,
    ensures
        t@ == seq![digit(d as int)],
{
    proof {
        reveal_strlit("0");
        reveal_strlit("1");
        reveal_strlit("2");
        reveal_strlit("3");
        reveal_strlit("4");
        reveal_strlit("5");
        reveal_strlit("6");
        reveal_strlit("7");
        reveal_strlit("8");
        reveal_strlit("9");
    }
    if d == 0 {
        "0"
    } else if d == 1 {
        "1"
    } else if d == 2 {
        "2"
    } else if d == 3 {
        "3"
    } else if d == 4 {
        "4"
    } else if d == 5 {
        "5"
    } else if d == 6 {
        "6"
    } else if d == 7 {
        "7"
    } else if d == 8 {
        "8"
    } else {
        "9"
    }
}

/// Writes `n` in decimal.
pub fn decimal_text(n: u64) -> (t: String)
    ensures
        t@ == decimal(n as nat),
    decreases n,
{
    if n < 10 {
        String::from_str(digit_text(n))
    } else {
        let mut t = decimal_text(n / 10);
        t.append(digit_text(n % 10));
        t
    }
}

/// Writes the last `places` digits of `n`.
fn low_digits_text(n: u64, places: usize) -> (t: String)
    ensures
        t@ == low_digits(n as nat, places as nat),
    decreases places,
{
    if places == 0 {
        String::new()
    } else {
        let mut t = low_digits_text(n / 10, places - 1);
        t.append(digit_text(n % 10));
        t
    }
}

/// The absolute value of `v`, which always fits the unsigned type.
fn magnitude_of(v: i64) -> (m: u64)
    ensures
        m == magnitude(v as int),
{
    if v >= 0 {
        v as u64
    } else {
        let below: i64 = -(v + 1);
        below as u64 + 1
    }
}

/// Writes a fixed-point reading with the given scale.
fn fixed_text(value: i64, places: usize, scale: u64) -> (t: String)
    requires
        scale == pow10(places as nat),
        scale > 0,
    ensures
        t@ == fixed_point(value as int, places as nat),
{
    let m = magnitude_of(value);
    let mut t = if value < 0 {
        proof {
            reveal_strlit("-");
        }
        String::from_str("-")
    } else {
        String::new()
    };
    let whole = decimal_text(m / scale);
    t.append(whole.as_str());
    proof {
        reveal_strlit(".");
    }
    t.append(".");
    let part = low_digits_text(m % scale, places);
    t.append(part.as_str());
    t
}

/// Writes a reading held in tenths with one decimal place: `725` is `72.5`,
/// `-4` is `-0.4`.
pub fn tenths_text(tenths: i64) -> (t: String)
    ensures
        t@ == fixed_point(tenths as int, 1),
{
    assert(pow10(1) == 10) by {
        reveal_with_fuel(pow10, 2);
    }
    fixed_text(tenths, 1, 10)
}

/// Writes a reading held in ten-thousandths with four decimal places:
/// `339519` is `33.9519`.
pub fn ten_thousandths_text(value: i64) -> (t: String)
    ensures
        t@ == fixed_point(value as int, 4),
{
    assert(pow10(4) == 10000) by {
        reveal_with_fuel(pow10, 5);
    }
    fixed_text(value, 4, 10000)
}

} // verus!
