//! Text for byte counts, byte rates and percentages.
//!
//! A number is shown with a fixed count of decimal places. Where the exact
//! value has more, it is rounded to the nearest, and a value midway between
//! two candidates goes to the one whose last digit is even. A byte count is
//! first rounded to the 53 significant bits that the IEEE 754 binary64 format
//! holds, which changes nothing below two to the power of 53.

use vstd::prelude::*;
use vstd::string::StringExecFns;
use crate::models::quantity::Percentage;

verus! {

/// The character of the decimal digit `d`.
pub open spec fn digit_char(d: nat) -> char {
    if d == 0 {
        '0'
    } else if d == 1 {
        '1'
    } else if d == 2 {
        '2'
    } else if d == 3 {
        '3'
    } else if d == 4 {
        '4'
    } else if d == 5 {
        '5'
    } else if d == 6 {
        '6'
    } else if d == 7 {
        '7'
    } else if d == 8 {
        '8'
    } else {
        '9'
    }
}

/// The decimal digits of `n`, without leading zeros.
pub open spec fn decimal(n: nat) -> Seq<char>
    decreases n,
{
    if n < 10 {
        seq![digit_char(n)]
    } else {
        decimal(n / 10).push(digit_char(n % 10))
    }
}

/// `numerator / denominator` rounded to the nearest whole number, a tie going
/// to the even one.
pub open spec fn round_half_even(numerator: nat, denominator: nat) -> nat {
    let quotient = numerator / denominator;
    let rest = numerator % denominator;
    if 2 * rest > denominator || (2 * rest == denominator && quotient % 2 == 1) {
        quotient + 1
    } else {
        quotient
    }
}

/// A number of tenths, written with one decimal place.
pub open spec fn one_place(tenths: nat) -> Seq<char> {
    decimal(tenths / 10) + seq!['.', digit_char(tenths % 10)]
}

/// A number of hundredths, written with two decimal places.
pub open spec fn two_places(hundredths: nat) -> Seq<char> {
    decimal(hundredths / 100) + seq!['.', digit_char((hundredths / 10) % 10), digit_char(hundredths % 10)]
}

/// The digit `d` as text.
fn digit_text(d: u8) -> (text: &'static str)
    requires
        d < 10,
    ensures
        text@ == seq![digit_char(d as nat)],
{
    proof {
        reveal_strlit("0");
        reveal_strlit("1");
        reveal_strlit("2");
        reveal_strlit("3");
        reveal_strlit("4");
        reveal_strlit("5");
        reveal_strlit("6");
        reveal_strlit("7");
        reveal_strlit("8");
        reveal_strlit("9");
    }
    let text = if d == 0 {
        "0"
    } else if d == 1 {
        "1"
    } else if d == 2 {
        "2"
    } else if d == 3 {
        "3"
    } else if d == 4 {
        "4"
    } else if d == 5 {
        "5"
    } else if d == 6 {
        "6"
    } else if d == 7 {
        "7"
    } else if d == 8 {
        "8"
    } else {
        "9"
    };
    proof {
        assert(text@ =~= seq![digit_char(d as nat)]);
    }
    text
}

/// Appends the decimal digits of `n` to `text`.
fn append_decimal(text: &mut String, n: u128)
    ensures
        final(text)@ == old(text)@ + decimal(n as nat),
    decreases n,
{
    if n >= 10 {
        append_decimal(text, n / 10);
    }
    let last: u8 = (n % 10) as u8;
    text.append(digit_text(last));
    proof {
        if n >= 10 {
            assert(final(text)@ =~= old(text)@ + decimal(n as nat)) by {
                assert(text@ =~= old(text)@ + decimal((n / 10) as nat).push(digit_char((n % 10) as nat)));
            }
        } else {
            assert(text@ =~= old(text)@ + decimal(n as nat));
        }
    }
}

/// Divides and rounds to the nearest whole number, a tie going to the even
/// one.
fn rounded_quotient(numerator: u128, denominator: u128) -> (rounded: u128)
    requires
        denominator > 0,
    ensures
        rounded == round_half_even(numerator as nat, denominator as nat),
{
    let quotient: u128 = numerator / denominator;
    let rest: u128 = numerator % denominator;
    let other: u128 = denominator - rest;
    proof {
        assert(numerator == quotient * denominator + rest) by (nonlinear_arith)
            requires
                denominator > 0,
                quotient == numerator / denominator,
                rest == numerator % denominator,
        ;
        if rest > 0 {
            assert(quotient < numerator) by (nonlinear_arith)
                requires
                    numerator == quotient * denominator + rest,
                    rest > 0,
                    denominator > 0,
            ;
        }
    }
    if rest > other || (rest == other && quotient % 2 == 1) {
        quotient + 1
    } else {
        quotient
    }
}

/// Two to the power of 53. Every count up to here has 53 significant bits at
/// most; beyond it neighbouring counts share one 53-bit form.
pub const BINARY64_EXACT: u64 = 9_007_199_254_740_992;

/// Bytes in a kilobyte, a megabyte, a gigabyte and a terabyte.
pub const KILOBYTE: u64 = 1024;

pub const MEGABYTE: u64 = 1_048_576;

pub const GIGABYTE: u64 = 1_073_741_824;

pub const TERABYTE: u64 = 1_099_511_627_776;

/// The distance between neighbouring 53-bit values around `n`: a power of two.
pub open spec fn binary64_step(n: nat) -> nat
    decreases n,
{
    if n < BINARY64_EXACT {
        1
    } else {
        2 * binary64_step(n / 2)
    }
}

/// `n` rounded to 53 significant bits, a tie going to the even significand.
/// Up to `BINARY64_EXACT` this is `n` itself.
pub open spec fn nearest_binary64(n: nat) -> nat {
    round_half_even(n, binary64_step(n)) * binary64_step(n)
}

/// The unit a count is shown in: 0 for bytes, then kilo-, mega-, giga- and
/// terabytes. The unit grows as long as the count holds 1024 of it.
pub open spec fn unit_index(shown: nat) -> nat {
    if shown < KILOBYTE {
        0
    } else if shown < MEGABYTE {
        1
    } else if shown < GIGABYTE {
        2
    } else if shown < TERABYTE {
        3
    } else {
        4
    }
}

/// The bytes in one of unit `index`.
pub open spec fn unit_size(index: nat) -> nat {
    if index == 0 {
        1
    } else if index == 1 {
        KILOBYTE as nat
    } else if index == 2 {
        MEGABYTE as nat
    } else if index == 3 {
        GIGABYTE as nat
    } else {
        TERABYTE as nat
    }
}

/// The name of unit `index`.
pub open spec fn unit_name(index: nat) -> Seq<char> {
    if index == 0 {
        seq!['B']
    } else if index == 1 {
        seq!['K', 'B']
    } else if index == 2 {
        seq!['M', 'B']
    } else if index == 3 {
        seq!['G', 'B']
    } else {
        seq!['T', 'B']
    }
}

/// The text of a byte count: the count in its unit with one decimal place, a
/// space, and the unit's name. Counts from `BINARY64_EXACT` on are rounded to
/// 53 significant bits first.
pub open spec fn bytes_text(bytes: u64) -> Seq<char> {
    let shown = nearest_binary64(bytes as nat);
    let unit = unit_index(shown);
    one_place(round_half_even(shown * 10, unit_size(unit))) + seq![' '] + unit_name(unit)
}

/// The text of a byte rate: that of the count, then `/s`.
pub open spec fn rate_text(bytes_per_sec: u64) -> Seq<char> {
    bytes_text(bytes_per_sec) + seq!['/', 's']
}

/// A percentage in hundredths of a percent, rounded to the nearest.
pub open spec fn rounded_hundredths(p: Percentage) -> nat {
    if p.whole == 0 {
        0
    } else {
        round_half_even(p.part as nat * 10_000, p.whole as nat)
    }
}

/// The text of a percentage: two decimal places and a percent sign.
pub open spec fn percentage_text(p: Percentage) -> Seq<char> {
    two_places(rounded_hundredths(p)) + seq!['%']
}

/// A count below `BINARY64_EXACT` is shown as it is.
pub proof fn lemma_small_counts_are_exact(n: nat)
    requires
        n < BINARY64_EXACT,
    ensures
        nearest_binary64(n) == n,
{
    assert(binary64_step(n) == 1);
    assert(n / 1 == n && n % 1 == 0);
    assert(round_half_even(n, 1) == n);
}

/// The count that is shown for `bytes`: `bytes` rounded to 53 significant
/// bits.
fn shown_count(bytes: u64) -> (shown: u128)
    ensures
        shown == nearest_binary64(bytes as nat),
        shown <= 0x1000_0000_0000_0000_0000,
{
    let mut step: u64 = 1;
    let mut rest: u64 = bytes;
    while rest >= BINARY64_EXACT
        invariant
            binary64_step(bytes as nat) == step * binary64_step(rest as nat),
            rest * step <= bytes,
            1 <= step <= 4096,
        decreases rest,
    {
        proof {
            let half = (rest / 2) as nat;
            assert(binary64_step(rest as nat) == 2 * binary64_step(half));
            assert(step * (2 * binary64_step(half)) == (step * 2) * binary64_step(half))
                by (nonlinear_arith);
            assert(step * 2 <= 4096 && (rest / 2) * (step * 2) <= rest * step) by (nonlinear_arith)
                requires
                    rest >= 9_007_199_254_740_992,
                    rest * step <= 0xffff_ffff_ffff_ffff,
                    step >= 1,
            ;
        }
        rest = rest / 2;
        step = step * 2;
    }
    let rounded: u128 = rounded_quotient(bytes as u128, step as u128);
    proof {
        let n = bytes as nat;
        let d = step as nat;
        assert(binary64_step(rest as nat) == 1);
        assert(binary64_step(n) == d) by (nonlinear_arith)
            requires
                binary64_step(n) == d * binary64_step(rest as nat),
                binary64_step(rest as nat) == 1,
        ;
        assert(n / d <= n) by (nonlinear_arith)
            requires
                d >= 1,
        ;
        assert(rounded * step <= (n + 1) * 4096) by (nonlinear_arith)
            requires
                rounded <= n + 1,
                step <= 4096,
        ;
    }
    rounded * (step as u128)
}

/// Formats a byte count with one decimal place and its unit.
pub fn format_bytes(bytes: u64) -> (text: String)
    ensures
        text@ == bytes_text(bytes),
{
    let shown: u128 = shown_count(bytes);
    proof {
        reveal_strlit("B");
        reveal_strlit("KB");
        reveal_strlit("MB");
        reveal_strlit("GB");
        reveal_strlit("TB");
        reveal_strlit(".");
        reveal_strlit(" ");
    }
    let size: u128;
    let name: &str;
    if shown < KILOBYTE as u128 {
        size = 1;
        name = "B";
    } else if shown < MEGABYTE as u128 {
        size = KILOBYTE as u128;
        name = "KB";
    } else if shown < GIGABYTE as u128 {
        size = MEGABYTE as u128;
        name = "MB";
    } else if shown < TERABYTE as u128 {
        size = GIGABYTE as u128;
        name = "GB";
    } else {
        size = TERABYTE as u128;
        name = "TB";
    }
    let ghost unit = unit_index(shown as nat);
    proof {
        assert(size == unit_size(unit));
        assert(name@ =~= unit_name(unit));
    }
    let tenths: u128 = rounded_quotient(shown * 10, size);
    let mut text = String::new();
    append_decimal(&mut text, tenths / 10);
    text.append(".");
    text.append(digit_text((tenths % 10) as u8));
    text.append(" ");
    text.append(name);
    proof {
        assert(text@ =~= bytes_text(bytes));
    }
    text
}

/// Formats a byte rate: the count per second, then `/s`.
pub fn format_rate(bytes_per_sec: u64) -> (text: String)
    ensures
        text@ == rate_text(bytes_per_sec),
{
    let mut text = format_bytes(bytes_per_sec);
    proof {
        reveal_strlit("/s");
    }
    text.append("/s");
    proof {
        assert(text@ =~= rate_text(bytes_per_sec));
    }
    text
}

/// Formats a percentage with two decimal places and a percent sign.
pub fn format_percentage(p: Percentage) -> (text: String)
    ensures
        text@ == percentage_text(p),
{
    let hundredths: u128 = if p.whole == 0 {
        0
    } else {
        rounded_quotient((p.part as u128) * 10_000, p.whole as u128)
    };
    proof {
        reveal_strlit(".");
        reveal_strlit("%");
    }
    let mut text = String::new();
    append_decimal(&mut text, hundredths / 100);
    text.append(".");
    text.append(digit_text(((hundredths / 10) % 10) as u8));
    text.append(digit_text((hundredths % 10) as u8));
    text.append("%");
    proof {
        assert(text@ =~= percentage_text(p));
    }
    text
}

} // verus!
