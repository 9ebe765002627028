//! Decimal numerals.

use vstd::prelude::*;
use vstd::string::*;

verus! {

/// The character of a decimal digit.
pub open spec fn digit(d: int) -> char {
    if d == 0 {
        '0'
    } else if d == 1 {
        '1'
    } else if d == 2 {
        '2'
    } else if d == 3 {
        '3'
    } else if d == 4 {
        '4'
    } else if d == 5 {
        '5'
    } else if d == 6 {
        '6'
    } else if d == 7 {
        '7'
    } else if d == 8 {
        '8'
    } else {
        '9'
    }
}

/// The decimal numeral of a number: no sign, no leading zero, `0` for zero.
pub open spec fn decimal(n: nat) -> Seq<char>
    decreases n,
{
    if n < 10 {
        seq![digit(n as int)]
    } else {
        decimal(n / 10).push(digit(n as int % 10))
    }
}

/// The last `width` decimal digits of a number, with leading zeros.
pub open spec fn padded(n: nat, width: nat) -> Seq<char>
    decreases width,
{
    if width == 0 {
        Seq::empty()
    } else {
        padded(n / 10, (width - 1) as nat).push(digit(n as int % 10))
    }
}

/// The numeral of a fixed-point number given in millionths: a minus sign
/// where it is negative, the whole part, a point, and six decimals.
pub open spec fn micro_numeral(v: int) -> Seq<char> {
    let magnitude = if v < 0 {
        (-v) as nat
    } else {
        v as nat
    };
    let sign = if v < 0 {
        seq!['-']
    } else {
        Seq::empty()
    };
    sign + decimal(magnitude / 1_000_000) + seq!['.'] + padded(magnitude % 1_000_000, 6)
}

fn digit_str(d: u8) -> (r: &'static str)
    requires
        d < 10,
    ensures
        r@ == seq![digit(d as int)],
{
    proof {
        reveal_strlit("0");
        reveal_strlit("1");
        reveal_strlit("2");
        reveal_strlit("3");
        reveal_strlit("4");
        reveal_strlit("5");
        reveal_strlit("6");
        reveal_strlit("7");
        reveal_strlit("8");
        reveal_strlit("9");
    }
    let r = match d {
        0 => "0",
        1 => "1",
        2 => "2",
        3 => "3",
        4 => "4",
        5 => "5",
        6 => "6",
        7 => "7",
        8 => "8",
        _ => "9",
    };
    assert(r@ =~= seq![digit(d as int)]);
    r
}

/// Appends the decimal numeral of `n` to `buf`.
pub fn push_decimal(buf: &mut String, n: u128)
    ensures
        final(buf)@ == old(buf)@ + decimal(n as nat),
    decreases n,
{
    if n >= 10 {
        push_decimal(buf, n / 10);
    }
    buf.append(digit_str((n % 10) as u8));
    assert(final(buf)@ =~= old(buf)@ + decimal(n as nat));
}

/// Appends the last `width` decimal digits of `n` to `buf`, with leading zeros.
pub fn push_padded(buf: &mut String, n: u128, width: u8)
    ensures
        final(buf)@ == old(buf)@ + padded(n as nat, width as nat),
    decreases width,
{
    if width > 0 {
        push_padded(buf, n / 10, width - 1);
        buf.append(digit_str((n % 10) as u8));
    }
    assert(final(buf)@ =~= old(buf)@ + padded(n as nat, width as nat));
}

/// Appends the numeral of a fixed-point number given in millionths to `buf`.
pub fn push_micro(buf: &mut String, v: i32)
    ensures
        final(buf)@ == old(buf)@ + micro_numeral(v as int),
{
    let magnitude: u128 = if v < 0 {
        proof {
            reveal_strlit("-");
        }
        buf.append("-");
        (-(v as i64)) as u128
    } else {
        v as u128
    };
    push_decimal(buf, magnitude / 1_000_000);
    proof {
        reveal_strlit(".");
    }
    buf.append(".");
    push_padded(buf, magnitude % 1_000_000, 6);
    assert(final(buf)@ =~= old(buf)@ + micro_numeral(v as int));
}

} // verus!
