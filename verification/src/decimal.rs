//! Decimal text of integers, as it stands in links and timestamps.

use vstd::prelude::*;
use vstd::string::StringExecFns;

verus! {

/// The character of the decimal digit `d`; `'9'` where `d` is no digit.
pub open spec fn digit_char(d: int) -> char {
    if d == 0 {
        '0'
    } else if d == 1 {
        '1'
    } else if d == 2 {
        '2'
    } else if d == 3 {
        '3'
    } else if d == 4 {
        '4'
    } else if d == 5 {
        '5'
    } else if d == 6 {
        '6'
    } else if d == 7 {
        '7'
    } else if d == 8 {
        '8'
    } else {
        '9'
    }
}

/// Whether `c` is one of the ten decimal digits.
pub open spec fn is_digit(c: char) -> bool {
    '0' <= c && c <= '9'
}

/// The decimal text of `n`: no sign, no leading zero, `"0"` for zero.
pub open spec fn decimal_of(n: nat) -> Seq<char>
    decreases n,
{
    if n < 10 {
        seq![digit_char(n as int)]
    } else {
        decimal_of(n / 10).push(digit_char((n % 10) as int))
    }
}

/// The text of `n` in exactly `width` digits, zeros in front; the digits of
/// `n` above that width are left out.
pub open spec fn padded_of(n: nat, width: nat) -> Seq<char>
    decreases width,
{
    if width == 0 {
        Seq::<char>::empty()
    } else {
        padded_of(n / 10, (width - 1) as nat).push(digit_char((n % 10) as int))
    }
}

/// The digit `d` as a text of one character; `"9"` where `d` is above
/// nine.
pub fn digit_text(d: u8) -> (text: &'static str)
    ensures
        text@ == seq![digit_char(d as int)],
{
    proof {
        reveal_strlit("0");
        reveal_strlit("1");
        reveal_strlit("2");
        reveal_strlit("3");
        reveal_strlit("4");
        reveal_strlit("5");
        reveal_strlit("6");
        reveal_strlit("7");
        reveal_strlit("8");
        reveal_strlit("9");
    }
    let text = match d {
        0 => "0",
        1 => "1",
        2 => "2",
        3 => "3",
        4 => "4",
        5 => "5",
        6 => "6",
        7 => "7",
        8 => "8",
        _ => "9",
    };
    proof {
        assert(text@ =~= seq![digit_char(d as int)]);
    }
    text
}

/// Appends the digit `d` to `out`.
fn push_digit(out: &mut String, d: u8)
    ensures
        final(out)@ == old(out)@.push(digit_char(d as int)),
{
    out.append(digit_text(d));
    proof {
        assert(old(out)@ + seq![digit_char(d as int)] =~= old(out)@.push(digit_char(d as int)));
    }
}

/// Appends the decimal text of `n` to `out`.
pub fn push_decimal(out: &mut String, n: u64)
    ensures
        final(out)@ == old(out)@ + decimal_of(n as nat),
    decreases n,
{
    if n >= 10 {
        push_decimal(out, n / 10);
    }
    let d: u8 = (n % 10) as u8;
    push_digit(out, d);
    proof {
        if n >= 10 {
            assert(old(out)@ + decimal_of(n as nat) =~= (old(out)@ + decimal_of((n / 10) as nat)).push(
                digit_char((n % 10) as int),
            ));
        } else {
            assert(old(out)@ + decimal_of(n as nat) =~= old(out)@.push(digit_char(n as int)));
        }
    }
}

/// Appends `n` in exactly `width` digits, zeros in front.
pub fn push_padded(out: &mut String, n: u64, width: u8)
    ensures
        final(out)@ == old(out)@ + padded_of(n as nat, width as nat),
    decreases width,
{
    if width > 0 {
        push_padded(out, n / 10, width - 1);
        let d: u8 = (n % 10) as u8;
        push_digit(out, d);
        proof {
            assert(old(out)@ + padded_of(n as nat, width as nat) =~= (old(out)@ + padded_of(
                (n / 10) as nat,
                (width - 1) as nat,
            )).push(digit_char((n % 10) as int)));
        }
    } else {
        proof {
            assert(old(out)@ + padded_of(n as nat, width as nat) =~= old(out)@);
        }
    }
}

/// The decimal text of `n` as a string of its own.
pub fn decimal(n: u64) -> (text: String)
    ensures
        text@ == decimal_of(n as nat),
{
    let mut text = String::new();
    push_decimal(&mut text, n);
    proof {
        assert(Seq::<char>::empty() + decimal_of(n as nat) =~= decimal_of(n as nat));
    }
    text
}

/// A padded text has exactly the width asked for, and holds digits only.
pub proof fn padded_is_digits(n: nat, width: nat)
    ensures
        padded_of(n, width).len() == width,
        forall|i: int| 0 <= i < width ==> is_digit(#[trigger] padded_of(n, width)[i]),
    decreases width,
{
    if width > 0 {
        padded_is_digits(n / 10, (width - 1) as nat);
    }
}

/// A decimal text is not empty and holds digits only.
pub proof fn decimal_is_digits(n: nat)
    ensures
        decimal_of(n).len() >= 1,
        forall|i: int| 0 <= i < decimal_of(n).len() ==> is_digit(#[trigger] decimal_of(n)[i]),
    decreases n,
{
    if n >= 10 {
        decimal_is_digits(n / 10);
    }
}

/// The number that the digit `c` stands for; `0` for any other character.
pub open spec fn digit_value(c: char) -> nat {
    if c == '1' {
        1
    } else if c == '2' {
        2
    } else if c == '3' {
        3
    } else if c == '4' {
        4
    } else if c == '5' {
        5
    } else if c == '6' {
        6
    } else if c == '7' {
        7
    } else if c == '8' {
        8
    } else if c == '9' {
        9
    } else {
        0
    }
}

/// The number that a text of digits stands for, read from the left.
pub open spec fn decimal_value(text: Seq<char>) -> nat
    decreases text.len(),
{
    if text.len() == 0 {
        0
    } else {
        decimal_value(text.drop_last()) * 10 + digit_value(text.last())
    }
}

/// The decimal text of a number, read back, is that number: no two numbers
/// share a text.
pub proof fn decimal_reads_back(n: nat)
    ensures
        decimal_value(decimal_of(n)) == n,
    decreases n,
{
    if n < 10 {
        assert(decimal_of(n).drop_last() =~= Seq::<char>::empty());
        assert(decimal_value(decimal_of(n).drop_last()) == 0);
        assert(decimal_of(n).last() == digit_char(n as int));
    } else {
        decimal_reads_back(n / 10);
        assert(decimal_of(n).drop_last() =~= decimal_of(n / 10));
        assert(decimal_of(n).last() == digit_char((n % 10) as int));
    }
}

/// Ten to the power of `width`: the least number that does not fit into
/// `width` digits.
pub open spec fn pow10(width: nat) -> nat
    decreases width,
{
    if width == 0 {
        1
    } else {
        10 * pow10((width - 1) as nat)
    }
}

/// A number that fits into `width` digits, padded to that width, reads back
/// as itself.
pub proof fn padded_reads_back(n: nat, width: nat)
    requires
        n < pow10(width),
    ensures
        decimal_value(padded_of(n, width)) == n,
    decreases width,
{
    if width == 0 {
        assert(padded_of(n, width).len() == 0);
    } else {
        padded_reads_back(n / 10, (width - 1) as nat);
        assert(padded_of(n, width).drop_last() =~= padded_of(n / 10, (width - 1) as nat));
        assert(padded_of(n, width).last() == digit_char((n % 10) as int));
    }
}

/// The decimal text of a signed number: that of its magnitude, behind a
/// minus sign where it is negative.
pub open spec fn signed_decimal_of(n: int) -> Seq<char> {
    if n < 0 {
        seq!['-'] + decimal_of((-n) as nat)
    } else {
        decimal_of(n as nat)
    }
}

/// Appends the decimal text of the signed number `n` to `out`.
pub fn push_signed_decimal(out: &mut String, n: i64)
    ensures
        final(out)@ == old(out)@ + signed_decimal_of(n as int),
{
    if n < 0 {
        out.append("-");
        proof {
            reveal_strlit("-");
            assert(old(out)@ + "-"@ =~= old(out)@.push('-'));
        }
        let magnitude: u64 = (-(n as i128)) as u64;
        push_decimal(out, magnitude);
        proof {
            assert(old(out)@ + signed_decimal_of(n as int) =~= old(out)@.push('-') + decimal_of(
                (-n) as nat,
            ));
        }
    } else {
        push_decimal(out, n as u64);
    }
}

} // verus!
