use vstd::prelude::*;
use vstd::string::StringExecFns;

verus! {

/// The character of hexadecimal digit `d` (upper case), also used for decimal digits.
#[verifier::opaque]
pub open spec fn digit_char(d: nat) -> char {
    if d == 0 { '0' }
    else if d == 1 { '1' }
    else if d == 2 { '2' }
    else if d == 3 { '3' }
    else if d == 4 { '4' }
    else if d == 5 { '5' }
    else if d == 6 { '6' }
    else if d == 7 { '7' }
    else if d == 8 { '8' }
    else if d == 9 { '9' }
    else if d == 10 { 'A' }
    else if d == 11 { 'B' }
    else if d == 12 { 'C' }
    else if d == 13 { 'D' }
    else if d == 14 { 'E' }
    else { 'F' }
}

/// Decimal notation of `n`, without leading zeros.
#[verifier::opaque]
pub open spec fn dec(n: nat) -> Seq<char>
    decreases n,
{
    if n < 10 {
        seq![digit_char(n)]
    } else {
        dec(n / 10) + seq![digit_char(n % 10)]
    }
}

/// Four upper-case hexadecimal digits of `n`, zero-padded.
#[verifier::opaque]
pub open spec fn hex4(n: u16) -> Seq<char> {
    seq![
        digit_char((n / 4096) as nat),
        digit_char(((n / 256) % 16) as nat),
        digit_char(((n / 16) % 16) as nat),
        digit_char((n % 16) as nat),
    ]
}

/// The one-character string of digit `d`.
fn digit_str(d: u16) -> (r: &'static str)
    requires
        d < 16,
    ensures
        r@ == seq![digit_char(d as nat)],
{
    proof {
        reveal(digit_char);
        reveal_strlit("0");
        reveal_strlit("1");
        reveal_strlit("2");
        reveal_strlit("3");
        reveal_strlit("4");
        reveal_strlit("5");
        reveal_strlit("6");
        reveal_strlit("7");
        reveal_strlit("8");
        reveal_strlit("9");
        reveal_strlit("A");
        reveal_strlit("B");
        reveal_strlit("C");
        reveal_strlit("D");
        reveal_strlit("E");
        reveal_strlit("F");
    }
    match d {
        0 => "0",
        1 => "1",
        2 => "2",
        3 => "3",
        4 => "4",
        5 => "5",
        6 => "6",
        7 => "7",
        8 => "8",
        9 => "9",
        10 => "A",
        11 => "B",
        12 => "C",
        13 => "D",
        14 => "E",
        _ => "F",
    }
}

/// Appends the decimal notation of `n`.
pub(crate) fn push_dec(s: &mut String, n: u8)
    ensures
        final(s)@ == old(s)@ + dec(n as nat),
{
    let ghost start = s@;
    if n >= 100 {
        s.append(digit_str((n / 100) as u16));
    }
    if n >= 10 {
        s.append(digit_str(((n / 10) % 10) as u16));
    }
    s.append(digit_str((n % 10) as u16));
    proof {
        reveal_with_fuel(dec, 3);
        if n >= 100 {
            assert(dec((n / 10) as nat) == dec((n / 100) as nat) + seq![digit_char(((n / 10) % 10) as nat)]);
        }
    }
    assert(s@ =~= start + dec(n as nat));
}

/// Appends `n` as four upper-case hexadecimal digits.
pub(crate) fn push_hex4(s: &mut String, n: u16)
    ensures
        final(s)@ == old(s)@ + hex4(n),
{
    let ghost start = s@;
    proof {
        reveal(hex4);
    }
    s.append(digit_str(n / 4096));
    s.append(digit_str((n / 256) % 16));
    s.append(digit_str((n / 16) % 16));
    s.append(digit_str(n % 16));
    assert(s@ =~= start + hex4(n));
}

} // verus!
