//! Numbers written out as text, for the messages of errors and commands.
use vstd::prelude::*;
use vstd::string::StringExecFns;

verus! {

/// The text of the decimal digit `d`.
pub open spec fn digit_text(d: int) -> Seq<char> {
    if d == 0 {
        "0"@
    } else if d == 1 {
        "1"@
    } else if d == 2 {
        "2"@
    } else if d == 3 {
        "3"@
    } else if d == 4 {
        "4"@
    } else if d == 5 {
        "5"@
    } else if d == 6 {
        "6"@
    } else if d == 7 {
        "7"@
    } else if d == 8 {
        "8"@
    } else if d == 9 {
        "9"@
    } else if d == 10 {
        "a"@
    } else if d == 11 {
        "b"@
    } else if d == 12 {
        "c"@
    } else if d == 13 {
        "d"@
    } else if d == 14 {
        "e"@
    } else {
        "f"@
    }
}

/// `n` in decimal, without leading zeros.
pub open spec fn decimal(n: nat) -> Seq<char>
    decreases n,
{
    if n < 10 {
        digit_text(n as int)
    } else {
        decimal(n / 10) + digit_text((n % 10) as int)
    }
}

/// The lowest `width` hexadecimal digits of `n`, lower case, most significant first.
pub open spec fn hex_digits(n: nat, width: nat) -> Seq<char>
    decreases width,
{
    if width == 0 {
        Seq::empty()
    } else {
        hex_digits(n / 16, (width - 1) as nat) + digit_text((n % 16) as int)
    }
}

/// `n` as `0x` and four hexadecimal digits, as `{:#06x}` writes a `u16`.
pub open spec fn hex4(n: u16) -> Seq<char> {
    "0x"@ + hex_digits(n as nat, 4)
}

/// `n` as `0x` and two hexadecimal digits, as `{:#04x}` writes a `u8`.
pub open spec fn hex2(n: u8) -> Seq<char> {
    "0x"@ + hex_digits(n as nat, 2)
}

/// The text of the digit `d`, up to 15.
fn digit_str(d: u64) -> (r: &'static str)
    requires
        d < 16,
    ensures
        r@ == digit_text(d as int),
{
    match d {
        0 => "0",
        1 => "1",
        2 => "2",
        3 => "3",
        4 => "4",
        5 => "5",
        6 => "6",
        7 => "7",
        8 => "8",
        9 => "9",
        10 => "a",
        11 => "b",
        12 => "c",
        13 => "d",
        14 => "e",
        _ => "f",
    }
}

/// Append `n` in decimal to `s`.
pub fn push_decimal(s: &mut String, n: u64)
    ensures
        final(s)@ == old(s)@ + decimal(n as nat),
    decreases n,
{
    if n >= 10 {
        push_decimal(s, n / 10);
    }
    s.append(digit_str(n % 10));
    proof {
        if n >= 10 {
            assert(old(s)@ + decimal((n / 10) as nat) + digit_text((n % 10) as int) =~= old(s)@
                + decimal(n as nat));
        }
    }
}

/// Append the lowest `width` hexadecimal digits of `n` to `s`.
fn push_hex_digits(s: &mut String, n: u64, width: u64)
    ensures
        final(s)@ == old(s)@ + hex_digits(n as nat, width as nat),
    decreases width,
{
    if width > 0 {
        push_hex_digits(s, n / 16, width - 1);
        s.append(digit_str(n % 16));
        proof {
            assert(old(s)@ + hex_digits((n / 16) as nat, (width - 1) as nat) + digit_text(
                (n % 16) as int,
            ) =~= old(s)@ + hex_digits(n as nat, width as nat));
        }
    } else {
        assert(old(s)@ + Seq::<char>::empty() =~= old(s)@);
    }
}

/// Append `n` as `0x` and four hexadecimal digits to `s`.
pub fn push_hex4(s: &mut String, n: u16)
    ensures
        final(s)@ == old(s)@ + hex4(n),
{
    s.append("0x");
    push_hex_digits(s, n as u64, 4);
    assert(old(s)@ + "0x"@ + hex_digits(n as nat, 4) =~= old(s)@ + hex4(n));
}

/// Append `n` as `0x` and two hexadecimal digits to `s`.
pub fn push_hex2(s: &mut String, n: u8)
    ensures
        final(s)@ == old(s)@ + hex2(n),
{
    s.append("0x");
    push_hex_digits(s, n as u64, 2);
    assert(old(s)@ + "0x"@ + hex_digits(n as nat, 2) =~= old(s)@ + hex2(n));
}

} // verus!
