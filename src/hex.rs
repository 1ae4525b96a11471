//! Lowercase hexadecimal rendering of addresses.
use vstd::prelude::*;
use vstd::string::StringExecFns;

verus! {

/// The single lowercase hex digit for a value below sixteen.
pub open spec fn hex_digit(d: nat) -> Seq<char> {
    if d == 0 { "0"@ }
    else if d == 1 { "1"@ }
    else if d == 2 { "2"@ }
    else if d == 3 { "3"@ }
    else if d == 4 { "4"@ }
    else if d == 5 { "5"@ }
    else if d == 6 { "6"@ }
    else if d == 7 { "7"@ }
    else if d == 8 { "8"@ }
    else if d == 9 { "9"@ }
    else if d == 10 { "a"@ }
    else if d == 11 { "b"@ }
    else if d == 12 { "c"@ }
    else if d == 13 { "d"@ }
    else if d == 14 { "e"@ }
    else { "f"@ }
}

/// Lowercase hex digits of `n`, most significant first, without leading
/// zeros; zero is written as a single `0`.
pub open spec fn hex_digits(n: nat) -> Seq<char>
    decreases n,
{
    if n < 16 {
        hex_digit(n)
    } else {
        hex_digits(n / 16) + hex_digit(n % 16)
    }
}

/// `0x` followed by the lowercase hex digits of `n`.
pub open spec fn hex_address(n: nat) -> Seq<char> {
    "0x"@ + hex_digits(n)
}

fn digit_str(d: u64) -> (r: &'static str)
    requires
        d < 16,
    ensures
        r@ == hex_digit(d as nat),
{
    match d {
        0 => "0",
        1 => "1",
        2 => "2",
        3 => "3",
        4 => "4",
        5 => "5",
        6 => "6",
        7 => "7",
        8 => "8",
        9 => "9",
        10 => "a",
        11 => "b",
        12 => "c",
        13 => "d",
        14 => "e",
        _ => "f",
    }
}

/// Appends the hex digits of `n` to `out`.
fn push_hex_digits(out: &mut String, n: u64)
    ensures
        final(out)@ == old(out)@ + hex_digits(n as nat),
    decreases n,
{
    if n < 16 {
        out.append(digit_str(n));
    } else {
        push_hex_digits(out, n / 16);
        out.append(digit_str(n % 16));
        assert(out@ =~= old(out)@ + hex_digits(n as nat));
    }
}

/// Lowercase hex digits of `n` with no prefix and no padding.
pub fn to_hex(n: u64) -> (r: String)
    ensures
        r@ == hex_digits(n as nat),
{
    let mut s = String::new();
    push_hex_digits(&mut s, n);
    assert(s@ =~= hex_digits(n as nat));
    s
}

/// `0x` followed by the lowercase hex digits of `n`.
pub fn to_hex_address(n: u64) -> (r: String)
    ensures
        r@ == hex_address(n as nat),
{
    let mut s = String::from_str("0x");
    push_hex_digits(&mut s, n);
    s
}

} // verus!
