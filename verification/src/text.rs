//! Numbers as text: decimal and upper-case hexadecimal digits, padded with
//! zeros on the left to a least width.

use vstd::prelude::*;
use vstd::string::StringExecFns;

verus! {

/// The character that stands for the digit `d`: `0` to `9`, then `A` to `F`.
pub open spec fn digit_char(d: int) -> char {
    if d == 0 {
        '0'
    } else if d == 1 {
        '1'
    } else if d == 2 {
        '2'
    } else if d == 3 {
        '3'
    } else if d == 4 {
        '4'
    } else if d == 5 {
        '5'
    } else if d == 6 {
        '6'
    } else if d == 7 {
        '7'
    } else if d == 8 {
        '8'
    } else if d == 9 {
        '9'
    } else if d == 10 {
        'A'
    } else if d == 11 {
        'B'
    } else if d == 12 {
        'C'
    } else if d == 13 {
        'D'
    } else if d == 14 {
        'E'
    } else {
        'F'
    }
}

/// The digits of `n`, most significant first and without leading zeros, in
/// base 16 where `base` is 16 and in base 10 otherwise; zero is the one
/// digit `0`.
pub open spec fn digits(n: nat, base: nat) -> Seq<char>
    decreases n,
{
    if base == 16 {
        if n < 16 {
            seq![digit_char(n as int)]
        } else {
            digits(n / 16, 16).push(digit_char((n % 16) as int))
        }
    } else {
        if n < 10 {
            seq![digit_char(n as int)]
        } else {
            digits(n / 10, base).push(digit_char((n % 10) as int))
        }
    }
}

/// `count` zeros.
pub open spec fn zeros(count: nat) -> Seq<char> {
    Seq::new(count, |k: int| '0')
}

/// The digits of `n` in the given base, with zeros in front where there are
/// fewer than `width` of them.
pub open spec fn padded(n: nat, base: nat, width: nat) -> Seq<char> {
    if digits(n, base).len() < width {
        zeros((width - digits(n, base).len()) as nat) + digits(n, base)
    } else {
        digits(n, base)
    }
}

/// One hexadecimal digit.
pub open spec fn hex1(d: u8) -> Seq<char> {
    seq![digit_char(d as int)]
}

/// A byte as two hexadecimal digits.
pub open spec fn hex2(b: u8) -> Seq<char> {
    seq![digit_char(b as int / 16), digit_char(b as int % 16)]
}

/// A 12-bit number as three hexadecimal digits.
pub open spec fn hex3(a: u16) -> Seq<char> {
    seq![digit_char(a as int / 256), digit_char((a as int / 16) % 16), digit_char(a as int % 16)]
}

/// A 16-bit number as four hexadecimal digits.
pub open spec fn hex4(a: u16) -> Seq<char> {
    seq![
        digit_char(a as int / 4096),
        digit_char((a as int / 256) % 16),
        digit_char((a as int / 16) % 16),
        digit_char(a as int % 16),
    ]
}

/// The digit `d` as a one-character string.
pub fn digit_str(d: u8) -> (s: &'static str)
    requires
        d < 16,
    ensures
        s@ == seq![digit_char(d as int)],
{
    proof {
        reveal_strlit("0");
        reveal_strlit("1");
        reveal_strlit("2");
        reveal_strlit("3");
        reveal_strlit("4");
        reveal_strlit("5");
        reveal_strlit("6");
        reveal_strlit("7");
        reveal_strlit("8");
        reveal_strlit("9");
        reveal_strlit("A");
        reveal_strlit("B");
        reveal_strlit("C");
        reveal_strlit("D");
        reveal_strlit("E");
        reveal_strlit("F");
    }
    let s = match d {
        0 => "0",
        1 => "1",
        2 => "2",
        3 => "3",
        4 => "4",
        5 => "5",
        6 => "6",
        7 => "7",
        8 => "8",
        9 => "9",
        10 => "A",
        11 => "B",
        12 => "C",
        13 => "D",
        14 => "E",
        _ => "F",
    };
    assert(s@ =~= seq![digit_char(d as int)]);
    s
}

/// Appends one hexadecimal digit.
pub fn push_hex1(out: &mut String, d: u8)
    requires
        d < 16,
    ensures
        final(out)@ == old(out)@ + hex1(d),
{
    out.append(digit_str(d));
}

/// Appends a byte as two hexadecimal digits.
pub fn push_hex2(out: &mut String, b: u8)
    ensures
        final(out)@ == old(out)@ + hex2(b),
{
    out.append(digit_str(b / 16));
    out.append(digit_str(b % 16));
    assert(out@ =~= old(out)@ + hex2(b));
}

/// Appends a 12-bit number as three hexadecimal digits.
pub fn push_hex3(out: &mut String, a: u16)
    requires
        a < 4096,
    ensures
        final(out)@ == old(out)@ + hex3(a),
{
    out.append(digit_str((a / 256) as u8));
    out.append(digit_str(((a / 16) % 16) as u8));
    out.append(digit_str((a % 16) as u8));
    assert(out@ =~= old(out)@ + hex3(a));
}

/// Appends a 16-bit number as four hexadecimal digits.
pub fn push_hex4(out: &mut String, a: u16)
    ensures
        final(out)@ == old(out)@ + hex4(a),
{
    out.append(digit_str((a / 4096) as u8));
    out.append(digit_str(((a / 256) % 16) as u8));
    out.append(digit_str(((a / 16) % 16) as u8));
    out.append(digit_str((a % 16) as u8));
    assert(out@ =~= old(out)@ + hex4(a));
}

/// Appends the digits of `n` in base 10 or 16.
pub fn push_digits(out: &mut String, n: usize, base: usize)
    requires
        base == 10 || base == 16,
    ensures
        final(out)@ == old(out)@ + digits(n as nat, base as nat),
    decreases n,
{
    if n >= base {
        push_digits(out, n / base, base);
    }
    out.append(digit_str((n % base) as u8));
    assert(out@ =~= old(out)@ + digits(n as nat, base as nat));
}

/// The number of digits of `n` in base 10 or 16.
pub fn digit_count(n: usize, base: usize) -> (count: usize)
    requires
        base == 10 || base == 16,
    ensures
        count == digits(n as nat, base as nat).len(),
{
    let mut count: usize = 1;
    let mut rest: usize = n;
    while rest >= base
        invariant
            base == 10 || base == 16,
            count + rest <= n + 1,
            count + digits(rest as nat, base as nat).len() == digits(n as nat, base as nat).len() + 1,
        decreases rest,
    {
        rest = rest / base;
        count += 1;
    }
    count
}

/// Appends the digits of `n` in base 10 or 16, with zeros in front where
/// there are fewer than `width` of them.
pub fn push_padded(out: &mut String, n: usize, base: usize, width: usize)
    requires
        base == 10 || base == 16,
    ensures
        final(out)@ == old(out)@ + padded(n as nat, base as nat, width as nat),
{
    let count = digit_count(n, base);
    let mut k: usize = count;
    while k < width
        invariant
            count <= k,
            count < width ==> k <= width,
            count >= width ==> k == count,
            out@ == old(out)@ + zeros((k - count) as nat),
        decreases width - k,
    {
        out.append("0");
        proof {
            reveal_strlit("0");
            assert(out@ =~= old(out)@ + zeros((k + 1 - count) as nat));
        }
        k += 1;
    }
    let ghost zeroed = out@;
    push_digits(out, n, base);
    proof {
        let d = digits(n as nat, base as nat);
        if count < width {
            assert(k == width);
            assert(zeroed + d =~= old(out)@ + (zeros((width - count) as nat) + d));
        } else {
            assert(k == count);
            assert(zeroed =~= old(out)@);
        }
    }
}

} // verus!
