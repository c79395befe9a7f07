//! Human-readable byte counts.
//!
//! Sizes are rendered in binary (1024-based) units with two decimals,
//! choosing the largest unit in which the value is at least 1; values below
//! 1024 are rendered as an integer number of bytes.

use vstd::prelude::*;

verus! {

pub const KB: u64 = 1024;

pub const MB: u64 = 1024 * 1024;

pub const GB: u64 = 1024 * 1024 * 1024;

pub const TB: u64 = 1024 * 1024 * 1024 * 1024;

/// The decimal digit character for `d` (meaningful for `d < 10`).
pub open spec fn digit_char(d: nat) -> char {
    if d == 0 { '0' }
    else if d == 1 { '1' }
    else if d == 2 { '2' }
    else if d == 3 { '3' }
    else if d == 4 { '4' }
    else if d == 5 { '5' }
    else if d == 6 { '6' }
    else if d == 7 { '7' }
    else if d == 8 { '8' }
    else { '9' }
}

/// Decimal representation of `n`, most significant digit first, no leading
/// zeros (a single `'0'` for zero).
pub open spec fn dec_rep(n: nat) -> Seq<char>
    decreases n,
{
    if n < 10 {
        seq![digit_char(n)]
    } else {
        dec_rep(n / 10).push(digit_char(n % 10))
    }
}

/// `n` rendered with at least two digits (meaningful for `n < 100`).
pub open spec fn two_digits(n: nat) -> Seq<char> {
    if n < 10 {
        seq!['0'].push(digit_char(n))
    } else {
        dec_rep(n)
    }
}

/// `b * 100 / unit`, rounded to the nearest integer with ties going to the
/// even neighbour: the number of hundredths shown when `b` bytes are
/// displayed in a unit of `unit` bytes.
pub open spec fn hundredths_of(b: nat, unit: nat) -> nat
    recommends
        unit > 0,
{
    let q = b * 100 / unit;
    let r = b * 100 % unit;
    if 2 * r > unit {
        q + 1
    } else if 2 * r < unit {
        q
    } else if q % 2 == 1 {
        q + 1
    } else {
        q
    }
}

/// `b` bytes scaled to `unit` and rendered with two decimals.
pub open spec fn scaled_two_dec(b: nat, unit: nat) -> Seq<char>
    recommends
        unit > 0,
{
    let h = hundredths_of(b, unit);
    dec_rep(h / 100) + seq!['.'] + two_digits(h % 100)
}

/// The full human-readable rendering of `b` bytes.
pub open spec fn formatted_bytes(b: nat) -> Seq<char> {
    if b >= TB {
        scaled_two_dec(b, TB as nat) + " TB"@
    } else if b >= GB {
        scaled_two_dec(b, GB as nat) + " GB"@
    } else if b >= MB {
        scaled_two_dec(b, MB as nat) + " MB"@
    } else if b >= KB {
        scaled_two_dec(b, KB as nat) + " KB"@
    } else {
        dec_rep(b) + " B"@
    }
}

/// One decimal digit as a string slice.
fn digit_str(d: u64) -> (r: &'static str)
    requires
        d < 10,
    ensures
        r@ == seq![digit_char(d as nat)],
{
    match d {
        0 => {
            proof { reveal_strlit("0"); }
            let r = "0";
            proof { assert(r@ =~= seq![digit_char(0)]); }
            r
        },
        1 => {
            proof { reveal_strlit("1"); }
            let r = "1";
            proof { assert(r@ =~= seq![digit_char(1)]); }
            r
        },
        2 => {
            proof { reveal_strlit("2"); }
            let r = "2";
            proof { assert(r@ =~= seq![digit_char(2)]); }
            r
        },
        3 => {
            proof { reveal_strlit("3"); }
            let r = "3";
            proof { assert(r@ =~= seq![digit_char(3)]); }
            r
        },
        4 => {
            proof { reveal_strlit("4"); }
            let r = "4";
            proof { assert(r@ =~= seq![digit_char(4)]); }
            r
        },
        5 => {
            proof { reveal_strlit("5"); }
            let r = "5";
            proof { assert(r@ =~= seq![digit_char(5)]); }
            r
        },
        6 => {
            proof { reveal_strlit("6"); }
            let r = "6";
            proof { assert(r@ =~= seq![digit_char(6)]); }
            r
        },
        7 => {
            proof { reveal_strlit("7"); }
            let r = "7";
            proof { assert(r@ =~= seq![digit_char(7)]); }
            r
        },
        8 => {
            proof { reveal_strlit("8"); }
            let r = "8";
            proof { assert(r@ =~= seq![digit_char(8)]); }
            r
        },
        _ => {
            proof { reveal_strlit("9"); }
            let r = "9";
            proof { assert(r@ =~= seq![digit_char(9)]); }
            r
        },
    }
}

/// Decimal rendering of `n`.
pub fn u64_to_dec(n: u64) -> (r: String)
    ensures
        r@ == dec_rep(n as nat),
    decreases n,
{
    if n < 10 {
        digit_str(n).to_owned()
    } else {
        let mut r = u64_to_dec(n / 10);
        r.append(digit_str(n % 10));
        proof {
            assert(r@ =~= dec_rep(n as nat));
        }
        r
    }
}

/// Two-digit rendering of `n < 100`.
fn two_digits_exec(n: u64) -> (r: String)
    requires
        n < 100,
    ensures
        r@ == two_digits(n as nat),
{
    if n < 10 {
        let mut r = digit_str(0).to_owned();
        r.append(digit_str(n));
        proof {
            assert(r@ =~= two_digits(n as nat));
        }
        r
    } else {
        u64_to_dec(n)
    }
}

/// `b` scaled to `unit` (at least 1024) and rendered with two decimals.
fn scaled_exec(b: u64, unit: u64) -> (r: String)
    requires
        unit >= 1024,
    ensures
        r@ == scaled_two_dec(b as nat, unit as nat),
{
    let num: u128 = (b as u128) * 100;
    let u: u128 = unit as u128;
    let q: u128 = num / u;
    let rem: u128 = num % u;
    let h: u128 = if 2 * rem > u {
        q + 1
    } else if 2 * rem < u {
        q
    } else if q % 2 == 1 {
        q + 1
    } else {
        q
    };
    proof {
        assert(q <= num / 1024) by {
            vstd::arithmetic::div_mod::lemma_div_is_ordered_by_denominator(num as int, 1024, u as int);
        }
        assert(h as nat == hundredths_of(b as nat, unit as nat));
    }
    let h64: u64 = h as u64;
    let mut r = u64_to_dec(h64 / 100);
    r.append(".");
    let frac = two_digits_exec(h64 % 100);
    r.append(frac.as_str());
    proof {
        reveal_strlit(".");
        assert("."@ =~= seq!['.']);
        assert(r@ =~= scaled_two_dec(b as nat, unit as nat));
    }
    r
}

/// Render a byte count with binary units and two decimals; byte counts below
/// 1024 are rendered as `<n> B`.
pub fn format_bytes(bytes: u64) -> (r: String)
    ensures
        r@ == formatted_bytes(bytes as nat),
{
    if bytes >= TB {
        let mut r = scaled_exec(bytes, TB);
        r.append(" TB");
        r
    } else if bytes >= GB {
        let mut r = scaled_exec(bytes, GB);
        r.append(" GB");
        r
    } else if bytes >= MB {
        let mut r = scaled_exec(bytes, MB);
        r.append(" MB");
        r
    } else if bytes >= KB {
        let mut r = scaled_exec(bytes, KB);
        r.append(" KB");
        r
    } else {
        let mut r = u64_to_dec(bytes);
        r.append(" B");
        r
    }
}

} // verus!
