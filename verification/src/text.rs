//! Verified rendering of numbers as text.
//!
//! Log lines, request signatures and order identifiers all need decimal,
//! hexadecimal and fixed-point renderings of integers. Each executable
//! function here produces exactly the character sequence that its
//! specification-level counterpart (`dec_seq`, `hex_seq`, `milli_seq`)
//! describes.

use vstd::prelude::*;

verus! {

/// The character for one digit value below sixteen.
pub open spec fn digit_char(d: nat) -> char {
    if d == 0 {
        '0'
    } else if d == 1 {
        '1'
    } else if d == 2 {
        '2'
    } else if d == 3 {
        '3'
    } else if d == 4 {
        '4'
    } else if d == 5 {
        '5'
    } else if d == 6 {
        '6'
    } else if d == 7 {
        '7'
    } else if d == 8 {
        '8'
    } else if d == 9 {
        '9'
    } else if d == 10 {
        'a'
    } else if d == 11 {
        'b'
    } else if d == 12 {
        'c'
    } else if d == 13 {
        'd'
    } else if d == 14 {
        'e'
    } else {
        'f'
    }
}

/// Decimal rendering of a natural number, most significant digit first,
/// without leading zeros.
pub open spec fn dec_seq(n: nat) -> Seq<char>
    decreases n,
{
    if n < 10 {
        seq![digit_char(n)]
    } else {
        dec_seq(n / 10).push(digit_char(n % 10))
    }
}

/// Hexadecimal rendering of a natural number, most significant digit first,
/// without leading zeros.
pub open spec fn hex_seq(n: nat) -> Seq<char>
    decreases n,
{
    if n < 16 {
        seq![digit_char(n)]
    } else {
        hex_seq(n / 16).push(digit_char(n % 16))
    }
}

/// Three zero-padded decimal digits for a value below one thousand: the
/// fractional part of a milli-unit rendering.
pub open spec fn frac3_seq(f: nat) -> Seq<char> {
    seq![digit_char(f / 100), digit_char((f / 10) % 10), digit_char(f % 10)]
}

/// Rendering of a fixed-point milli-unit value with three decimal places,
/// e.g. `-1970.500`.
pub open spec fn milli_seq(v: int) -> Seq<char> {
    if v < 0 {
        seq!['-'] + dec_seq(((-v) / 1000) as nat) + seq!['.'] + frac3_seq(((-v) % 1000) as nat)
    } else {
        dec_seq((v / 1000) as nat) + seq!['.'] + frac3_seq((v % 1000) as nat)
    }
}

/// The one-character string for one digit value below sixteen.
fn digit_str(d: u64) -> (s: &'static str)
    requires
        d < 16,
    ensures
        s@ == seq![digit_char(d as nat)],
{
    let s: &'static str = if d == 0 {
        "0"
    } else if d == 1 {
        "1"
    } else if d == 2 {
        "2"
    } else if d == 3 {
        "3"
    } else if d == 4 {
        "4"
    } else if d == 5 {
        "5"
    } else if d == 6 {
        "6"
    } else if d == 7 {
        "7"
    } else if d == 8 {
        "8"
    } else if d == 9 {
        "9"
    } else if d == 10 {
        "a"
    } else if d == 11 {
        "b"
    } else if d == 12 {
        "c"
    } else if d == 13 {
        "d"
    } else if d == 14 {
        "e"
    } else {
        "f"
    };
    proof {
        reveal_strlit("0");
        reveal_strlit("1");
        reveal_strlit("2");
        reveal_strlit("3");
        reveal_strlit("4");
        reveal_strlit("5");
        reveal_strlit("6");
        reveal_strlit("7");
        reveal_strlit("8");
        reveal_strlit("9");
        reveal_strlit("a");
        reveal_strlit("b");
        reveal_strlit("c");
        reveal_strlit("d");
        reveal_strlit("e");
        reveal_strlit("f");
        assert(s@ =~= seq![digit_char(d as nat)]);
    }
    s
}

/// Decimal rendering of a `u64`.
pub fn u64_to_dec(n: u64) -> (s: String)
    ensures
        s@ == dec_seq(n as nat),
    decreases n,
{
    if n < 10 {
        String::from_str(digit_str(n))
    } else {
        let mut s = u64_to_dec(n / 10);
        s.append(digit_str(n % 10));
        proof {
            assert(s@ =~= dec_seq(n as nat));
        }
        s
    }
}

/// Hexadecimal rendering of a `u64`.
pub fn u64_to_hex(n: u64) -> (s: String)
    ensures
        s@ == hex_seq(n as nat),
    decreases n,
{
    if n < 16 {
        String::from_str(digit_str(n))
    } else {
        let mut s = u64_to_hex(n / 16);
        s.append(digit_str(n % 16));
        proof {
            assert(s@ =~= hex_seq(n as nat));
        }
        s
    }
}

/// Rendering of a fixed-point milli-unit value with three decimal places.
pub fn milli_to_dec(v: i64) -> (s: String)
    ensures
        s@ == milli_seq(v as int),
{
    let mag: u64 = if v < 0 {
        (-(v as i128)) as u64
    } else {
        v as u64
    };
    let mut s = if v < 0 {
        let mut t = String::from_str("-");
        proof {
            reveal_strlit("-");
            assert(t@ =~= seq!['-']);
        }
        t.append(u64_to_dec(mag / 1000).as_str());
        t
    } else {
        u64_to_dec(mag / 1000)
    };
    s.append(".");
    proof {
        reveal_strlit(".");
        assert("."@ =~= seq!['.']);
    }
    let f = mag % 1000;
    s.append(digit_str(f / 100));
    s.append(digit_str((f / 10) % 10));
    s.append(digit_str(f % 10));
    proof {
        assert(s@ =~= milli_seq(v as int));
    }
    s
}

} // verus!
