//! Decimal rendering of integers and fixed-point values, and text helpers.
use vstd::prelude::*;

verus! {

/// The ASCII digit for `d` (0..=9).
pub open spec fn digit_char(d: int) -> char {
    (48 + d) as char
}

/// Decimal digits of `n`, without leading zeros.
pub open spec fn nat_text(n: nat) -> Seq<char>
    decreases n,
{
    if n < 10 {
        seq![digit_char(n as int)]
    } else {
        nat_text(n / 10).push(digit_char((n % 10) as int))
    }
}

/// The last `width` decimal digits of `n`, padded with leading zeros.
pub open spec fn padded_text(n: nat, width: nat) -> Seq<char>
    decreases width,
{
    if width == 0 {
        seq![]
    } else {
        padded_text(n / 10, (width - 1) as nat).push(digit_char((n % 10) as int))
    }
}

pub open spec fn pow10(k: nat) -> nat
    decreases k,
{
    if k == 0 {
        1
    } else {
        10 * pow10((k - 1) as nat)
    }
}

/// `m / unit` rounded to the nearest integer, ties to even.
pub open spec fn round_half_even(m: nat, unit: nat) -> nat
    recommends
        unit > 0,
{
    let q = m / unit;
    let r = m % unit;
    if 2 * r > unit || (2 * r == unit && q % 2 == 1) {
        q + 1
    } else {
        q
    }
}

/// A fixed-point value `v` (in millionths) rendered with `places` decimals,
/// rounded to nearest with ties to even; negative values keep their sign.
pub open spec fn micro_text(v: int, places: nat) -> Seq<char>
    recommends
        places <= 6,
{
    let sign: Seq<char> = if v < 0 {
        seq!['-']
    } else {
        seq![]
    };
    let m: nat = if v < 0 {
        (-v) as nat
    } else {
        v as nat
    };
    let q = round_half_even(m, pow10((6 - places) as nat));
    let whole = q / pow10(places);
    if places == 0 {
        sign + nat_text(whole)
    } else {
        sign + nat_text(whole) + seq!['.'] + padded_text(q % pow10(places), places)
    }
}

fn digit_str(d: u64) -> (s: &'static str)
    requires
        d < 10,
    ensures
        s@ == seq![digit_char(d as int)],
{
    proof {
        reveal_strlit("0");
        reveal_strlit("1");
        reveal_strlit("2");
        reveal_strlit("3");
        reveal_strlit("4");
        reveal_strlit("5");
        reveal_strlit("6");
        reveal_strlit("7");
        reveal_strlit("8");
        reveal_strlit("9");
    }
    match d {
        0 => "0",
        1 => "1",
        2 => "2",
        3 => "3",
        4 => "4",
        5 => "5",
        6 => "6",
        7 => "7",
        8 => "8",
        _ => "9",
    }
}

/// Appends the decimal digits of `n`.
pub fn push_nat(s: &mut String, n: u64)
    ensures
        final(s)@ == old(s)@ + nat_text(n as nat),
    decreases n,
{
    if n < 10 {
        s.append(digit_str(n));
    } else {
        push_nat(s, n / 10);
        s.append(digit_str(n % 10));
    }
}

/// Appends the last `width` decimal digits of `n`, zero padded.
fn push_padded(s: &mut String, n: u64, width: u32)
    ensures
        final(s)@ == old(s)@ + padded_text(n as nat, width as nat),
    decreases width,
{
    if width > 0 {
        push_padded(s, n / 10, width - 1);
        s.append(digit_str(n % 10));
    }
}

fn pow10_exec(k: u32) -> (r: u64)
    requires
        k <= 6,
    ensures
        r == pow10(k as nat),
        1 <= r <= 1_000_000,
{
    let mut r: u64 = 1;
    let mut i: u32 = 0;
    while i < k
        invariant
            i <= k <= 6,
            r == pow10(i as nat),
            1 <= r <= 1_000_000,
            r == 1 || r == 10 || r == 100 || r == 1000 || r == 10000 || r == 100000 || r == 1000000,
            i == 0 ==> r == 1,
            i == 1 ==> r == 10,
            i == 2 ==> r == 100,
            i == 3 ==> r == 1000,
            i == 4 ==> r == 10000,
            i == 5 ==> r == 100000,
            i == 6 ==> r == 1000000,
        decreases k - i,
    {
        proof {
            assert(pow10((i + 1) as nat) == 10 * pow10(i as nat));
            if i < 6 {
                assert(pow10(0) == 1);
                assert(pow10(1) == 10);
                assert(pow10(2) == 100);
                assert(pow10(3) == 1000);
                assert(pow10(4) == 10000);
                assert(pow10(5) == 100000);
            }
        }
        r = r * 10;
        i = i + 1;
    }
    r
}

/// Appends a non-negative fixed-point value `m` (in millionths) with
/// `places` decimals.
fn push_unsigned_micro(s: &mut String, m: u64, places: u32)
    requires
        places <= 6,
        m <= 0x8000_0000_0000_0000,
    ensures
        final(s)@ == old(s)@ + micro_text(m as int, places as nat),
{
    let ghost start = s@;
    let unit = pow10_exec(6 - places);
    let q0 = m / unit;
    let r = m % unit;
    let q = if 2 * r > unit || (2 * r == unit && q0 % 2 == 1) {
        q0 + 1
    } else {
        q0
    };
    let scale = pow10_exec(places);
    push_nat(s, q / scale);
    if places > 0 {
        s.append(".");
        proof {
            reveal_strlit(".");
        }
        push_padded(s, q % scale, places);
    }
    assert(s@ =~= start + micro_text(m as int, places as nat));
}

/// Renders a fixed-point value (in millionths) with `places` decimals.
pub fn micro_string(v: i64, places: u32) -> (s: String)
    requires
        places <= 6,
    ensures
        s@ == micro_text(v as int, places as nat),
{
    let mut s = String::new();
    if v < 0 {
        s.append("-");
        proof {
            reveal_strlit("-");
        }
    }
    let m: u64 = if v < 0 {
        (0i128 - v as i128) as u64
    } else {
        v as u64
    };
    push_unsigned_micro(&mut s, m, places);
    assert(s@ =~= micro_text(v as int, places as nat));
    s
}

/// Renders the magnitude of a fixed-point value (in millionths) with
/// `places` decimals.
pub fn magnitude_string(v: i64, places: u32) -> (s: String)
    requires
        places <= 6,
    ensures
        s@ == micro_text(
            if v >= 0 {
                v as int
            } else {
                -v
            },
            places as nat,
        ),
{
    let mut s = String::new();
    let m: u64 = if v < 0 {
        (0i128 - v as i128) as u64
    } else {
        v as u64
    };
    push_unsigned_micro(&mut s, m, places);
    s
}

/// Whether two string slices hold the same characters.
pub fn str_eq(a: &str, b: &str) -> (r: bool)
    ensures
        r == (a@ == b@),
{
    let x = String::from_str(a);
    let y = String::from_str(b);
    x == y
}

} // verus!
