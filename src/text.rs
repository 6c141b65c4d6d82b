//! Decimal and hexadecimal renderings of integers, built up as strings.

use vstd::prelude::*;
use vstd::string::StringExecFns;

verus! {

/// The character of the decimal digit `d` (below 10).
pub open spec fn digit_char(d: nat) -> char {
    if d == 0 { '0' } else if d == 1 { '1' } else if d == 2 { '2' } else if d == 3 { '3' }
    else if d == 4 { '4' } else if d == 5 { '5' } else if d == 6 { '6' } else if d == 7 { '7' }
    else if d == 8 { '8' } else { '9' }
}

/// Decimal digits of `n`, most significant first, without leading zeros.
pub open spec fn decimal(n: nat) -> Seq<char>
    decreases n,
{
    if n < 10 {
        seq![digit_char(n)]
    } else {
        decimal(n / 10).push(digit_char(n % 10))
    }
}

/// Decimal rendering of a signed integer: a minus sign before the digits
/// of a negative value.
pub open spec fn signed_decimal(n: int) -> Seq<char> {
    if n < 0 {
        seq!['-'] + decimal((-n) as nat)
    } else {
        decimal(n as nat)
    }
}

/// The character of the lowercase hexadecimal digit `d` (below 16).
pub open spec fn hex_char(d: nat) -> char {
    if d < 10 { digit_char(d) } else if d == 10 { 'a' } else if d == 11 { 'b' } else if d == 12 { 'c' }
    else if d == 13 { 'd' } else if d == 14 { 'e' } else { 'f' }
}

/// Two lowercase hexadecimal digits for each byte, in order.
pub open spec fn hex_of(bytes: Seq<u8>) -> Seq<char>
    decreases bytes.len(),
{
    if bytes.len() == 0 {
        Seq::empty()
    } else {
        let b = bytes.last() as nat;
        hex_of(bytes.drop_last()).push(hex_char(b / 16)).push(hex_char(b % 16))
    }
}

fn digit_str(d: u8) -> (s: &'static str)
    requires
        d < 16,
    ensures
        s@ == seq![hex_char(d as nat)],
{
    proof {
        reveal_strlit("0"); reveal_strlit("1"); reveal_strlit("2"); reveal_strlit("3");
        reveal_strlit("4"); reveal_strlit("5"); reveal_strlit("6"); reveal_strlit("7");
        reveal_strlit("8"); reveal_strlit("9"); reveal_strlit("a"); reveal_strlit("b");
        reveal_strlit("c"); reveal_strlit("d"); reveal_strlit("e"); reveal_strlit("f");
    }
    let s = match d {
        0 => "0", 1 => "1", 2 => "2", 3 => "3", 4 => "4", 5 => "5", 6 => "6", 7 => "7",
        8 => "8", 9 => "9", 10 => "a", 11 => "b", 12 => "c", 13 => "d", 14 => "e", _ => "f",
    };
    assert(s@ =~= seq![hex_char(d as nat)]);
    s
}

/// Decimal rendering of `n`.
pub fn decimal_string(n: u64) -> (s: String)
    ensures
        s@ == decimal(n as nat),
    decreases n,
{
    if n < 10 {
        let s = String::from_str(digit_str(n as u8));
        s
    } else {
        let mut s = decimal_string(n / 10);
        s.append(digit_str((n % 10) as u8));
        s
    }
}

/// Decimal rendering of a signed `n`.
pub fn signed_decimal_string(n: i64) -> (s: String)
    ensures
        s@ == signed_decimal(n as int),
{
    if n < 0 {
        let magnitude: u64 = if n == i64::MIN { 9_223_372_036_854_775_808u64 } else { (-n) as u64 };
        proof { reveal_strlit("-"); }
        let mut s = String::from_str("-");
        let digits = decimal_string(magnitude);
        s.append(digits.as_str());
        assert(s@ =~= seq!['-'] + decimal((-n) as nat));
        s
    } else {
        decimal_string(n as u64)
    }
}

/// Lowercase hexadecimal rendering of `bytes`, two digits per byte.
pub fn hex_string(bytes: &[u8]) -> (s: String)
    ensures
        s@ == hex_of(bytes@),
{
    let mut s = String::new();
    let mut i: usize = 0;
    while i < bytes.len()
        invariant
            0 <= i <= bytes@.len(),
            s@ == hex_of(bytes@.subrange(0, i as int)),
        decreases bytes@.len() - i,
    {
        proof {
            assert(bytes@.subrange(0, i + 1).drop_last() =~= bytes@.subrange(0, i as int));
        }
        let b = bytes[i];
        s.append(digit_str(b / 16));
        s.append(digit_str(b % 16));
        i += 1;
    }
    proof {
        assert(bytes@.subrange(0, bytes@.len() as int) =~= bytes@);
    }
    s
}

/// Each byte takes two digits.
pub proof fn lemma_hex_len(bytes: Seq<u8>)
    ensures
        hex_of(bytes).len() == 2 * bytes.len(),
    decreases bytes.len(),
{
    if bytes.len() > 0 {
        lemma_hex_len(bytes.drop_last());
    }
}

} // verus!
