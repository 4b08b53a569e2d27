//! Bandwidth formatter: converts a raw byte rate into a fixed-scale,
//! human-readable string.
//!
//! Rates above 999,999,999 bytes per second are shown in gigabytes per
//! second, above 999,999 in megabytes, above 999 in kilobytes, and
//! otherwise as the raw byte count.  The scaled variants carry exactly two
//! decimal places; the raw variant prints the plain integer.

use vstd::prelude::*;
use vstd::arithmetic::div_mod::{lemma_div_is_ordered, lemma_div_is_ordered_by_denominator};

verus! {

/// The decimal digit character for a single digit value.
pub open spec fn spec_digit_char(d: nat) -> char {
    if d == 0 {
        '0'
    } else if d == 1 {
        '1'
    } else if d == 2 {
        '2'
    } else if d == 3 {
        '3'
    } else if d == 4 {
        '4'
    } else if d == 5 {
        '5'
    } else if d == 6 {
        '6'
    } else if d == 7 {
        '7'
    } else if d == 8 {
        '8'
    } else {
        '9'
    }
}

/// The decimal representation of `n`, most significant digit first, with no
/// leading zeros (a single `'0'` for zero).
pub open spec fn spec_dec(n: nat) -> Seq<char>
    decreases n,
{
    if n < 10 {
        seq![spec_digit_char(n)]
    } else {
        spec_dec(n / 10).push(spec_digit_char(n % 10))
    }
}

/// `n` scaled down by `unit` with exactly two decimal places, rounding the
/// third decimal half away from zero: the digits of
/// `(100 * n + unit / 2) / unit`, split by a decimal point before the last
/// two.
pub open spec fn spec_two_decimals(n: nat, unit: nat) -> Seq<char>
    recommends
        unit >= 2,
{
    let h = (100 * n + unit / 2) / unit;
    spec_dec(h / 100).push('.').push(spec_digit_char((h % 100) / 10)).push(
        spec_digit_char(h % 10),
    )
}

/// The unit suffix the formatter appends for a rate of `n` bytes per second.
pub open spec fn spec_unit_suffix(n: nat) -> Seq<char> {
    if n > 999999999 {
        seq!['G', 'B', 'p', 's']
    } else if n > 999999 {
        seq!['M', 'B', 'p', 's']
    } else if n > 999 {
        seq!['K', 'B', 'p', 's']
    } else {
        seq!['B', 'p', 's']
    }
}

/// The numeric part of the formatted rate, without its unit suffix.
pub open spec fn spec_value_part(n: nat) -> Seq<char> {
    if n > 999999999 {
        spec_two_decimals(n, 1000000000)
    } else if n > 999999 {
        spec_two_decimals(n, 1000000)
    } else if n > 999 {
        spec_two_decimals(n, 1000)
    } else {
        spec_dec(n)
    }
}

/// The full human-readable rendering of a rate of `n` bytes per second.
pub open spec fn spec_display_bandwidth(n: nat) -> Seq<char> {
    spec_value_part(n) + spec_unit_suffix(n)
}

/// Whether `c` is a decimal digit character.
pub open spec fn is_digit_char(c: char) -> bool {
    c == '0' || c == '1' || c == '2' || c == '3' || c == '4' || c == '5' || c == '6' || c == '7'
        || c == '8' || c == '9'
}

/// Whether `s` ends in `suffix`.
pub open spec fn ends_with(s: Seq<char>, suffix: Seq<char>) -> bool {
    suffix.len() <= s.len() && s.skip(s.len() - suffix.len()) == suffix
}

/// The numeric part of a formatted rate is never empty and always ends in
/// a decimal digit.
pub proof fn lemma_value_part_ends_in_digit(n: nat)
    ensures
        spec_value_part(n).len() >= 1,
        is_digit_char(spec_value_part(n).last()),
{
    if n > 999 {
        let unit: nat = if n > 999999999 {
            1000000000
        } else if n > 999999 {
            1000000
        } else {
            1000
        };
        let h = (100 * n + unit / 2) / unit;
        assert(spec_value_part(n).last() == spec_digit_char(h % 10));
    } else {
        if n < 10 {
            assert(spec_value_part(n).last() == spec_digit_char(n));
        } else {
            assert(spec_value_part(n).last() == spec_digit_char(n % 10));
        }
    }
}

/// Law: the unit suffix of a formatted rate is decided exactly by the
/// thresholds.  The output ends in `"GBps"` if and only if the rate
/// exceeds 999,999,999 bytes per second, in `"MBps"` if and only if it
/// lies in (999,999; 999,999,999], in `"KBps"` if and only if it lies in
/// (999; 999,999], and always ends in `"Bps"` — a rate of at most 999
/// bytes per second ends in none of the scaled suffixes.
pub proof fn lemma_unit_thresholds(n: nat)
    ensures
        ends_with(spec_display_bandwidth(n), seq!['G', 'B', 'p', 's']) <==> n > 999999999,
        ends_with(spec_display_bandwidth(n), seq!['M', 'B', 'p', 's']) <==> (999999 < n
            <= 999999999),
        ends_with(spec_display_bandwidth(n), seq!['K', 'B', 'p', 's']) <==> (999 < n <= 999999),
        ends_with(spec_display_bandwidth(n), seq!['B', 'p', 's']),
{
    let v = spec_value_part(n);
    let s = spec_display_bandwidth(n);
    lemma_value_part_ends_in_digit(n);
    let tail3 = s.skip(s.len() - 3);
    if n > 999 {
        let suffix = spec_unit_suffix(n);
        assert(suffix.len() == 4);
        let tail4 = s.skip(s.len() - 4);
        assert(tail4 =~= suffix);
        assert(tail3 =~= seq!['B', 'p', 's']);
        assert(!ends_with(s, seq!['G', 'B', 'p', 's']) || tail4[0] == 'G');
        assert(!ends_with(s, seq!['M', 'B', 'p', 's']) || tail4[0] == 'M');
        assert(!ends_with(s, seq!['K', 'B', 'p', 's']) || tail4[0] == 'K');
    } else {
        assert(s =~= v + seq!['B', 'p', 's']);
        assert(s.len() == v.len() + 3);
        let tail4 = s.skip(s.len() - 4);
        assert(tail4 =~= seq![v.last(), 'B', 'p', 's']);
        assert(is_digit_char(tail4[0]));
        assert(!ends_with(s, seq!['G', 'B', 'p', 's']) || tail4[0] == 'G');
        assert(!ends_with(s, seq!['M', 'B', 'p', 's']) || tail4[0] == 'M');
        assert(!ends_with(s, seq!['K', 'B', 'p', 's']) || tail4[0] == 'K');
        assert(tail3 =~= seq!['B', 'p', 's']);
    }
}

/// A one-character string slice holding the decimal digit `d`.
fn digit_str(d: u64) -> (r: &'static str)
    requires
        d < 10,
    ensures
        r@ =~= seq![spec_digit_char(d as nat)],
{
    proof {
        reveal_strlit("0");
        reveal_strlit("1");
        reveal_strlit("2");
        reveal_strlit("3");
        reveal_strlit("4");
        reveal_strlit("5");
        reveal_strlit("6");
        reveal_strlit("7");
        reveal_strlit("8");
        reveal_strlit("9");
    }
    if d == 0 {
        "0"
    } else if d == 1 {
        "1"
    } else if d == 2 {
        "2"
    } else if d == 3 {
        "3"
    } else if d == 4 {
        "4"
    } else if d == 5 {
        "5"
    } else if d == 6 {
        "6"
    } else if d == 7 {
        "7"
    } else if d == 8 {
        "8"
    } else {
        "9"
    }
}

/// The decimal representation of `n` as an owned string.
pub fn u64_to_string(n: u64) -> (r: String)
    ensures
        r@ == spec_dec(n as nat),
    decreases n,
{
    if n < 10 {
        String::from_str(digit_str(n))
    } else {
        let mut s = u64_to_string(n / 10);
        s.append(digit_str(n % 10));
        proof {
            assert(s@ =~= spec_dec((n / 10) as nat).push(spec_digit_char((n % 10) as nat)));
        }
        s
    }
}

/// `n` scaled down by `unit`, printed with exactly two decimal places.
fn two_decimals(n: u64, unit: u64) -> (r: String)
    requires
        1000 <= unit <= 1000000000,
    ensures
        r@ == spec_two_decimals(n as nat, unit as nat),
{
    let num: u128 = 100u128 * (n as u128) + ((unit / 2) as u128);
    let wide: u128 = num / (unit as u128);
    proof {
        lemma_div_is_ordered(
            num as int,
            100 * (u64::MAX as int) + 500000000,
            unit as int,
        );
        lemma_div_is_ordered_by_denominator(
            100 * (u64::MAX as int) + 500000000,
            1000,
            unit as int,
        );
        assert((100 * (u64::MAX as int) + 500000000) / 1000 <= u64::MAX as int);
    }
    let h: u64 = wide as u64;
    let mut s = u64_to_string(h / 100);
    proof {
        reveal_strlit(".");
    }
    s.append(".");
    s.append(digit_str((h % 100) / 10));
    s.append(digit_str(h % 10));
    proof {
        assert(s@ =~= spec_dec((h / 100) as nat).push('.').push(spec_digit_char(
            (((h % 100) / 10)) as nat,
        )).push(spec_digit_char((h % 10) as nat)));
    }
    s
}

/// Formats a byte rate as a human-readable string with a fixed-scale unit.
pub fn display_bandwidth(bytes_per_second: u64) -> (r: String)
    ensures
        r@ == spec_display_bandwidth(bytes_per_second as nat),
{
    proof {
        reveal_strlit("GBps");
        reveal_strlit("MBps");
        reveal_strlit("KBps");
        reveal_strlit("Bps");
    }
    if bytes_per_second > 999999999 {
        let r = two_decimals(bytes_per_second, 1000000000).concat("GBps");
        proof {
            assert(r@ =~= spec_display_bandwidth(bytes_per_second as nat));
        }
        r
    } else if bytes_per_second > 999999 {
        let r = two_decimals(bytes_per_second, 1000000).concat("MBps");
        proof {
            assert(r@ =~= spec_display_bandwidth(bytes_per_second as nat));
        }
        r
    } else if bytes_per_second > 999 {
        let r = two_decimals(bytes_per_second, 1000).concat("KBps");
        proof {
            assert(r@ =~= spec_display_bandwidth(bytes_per_second as nat));
        }
        r
    } else {
        let r = u64_to_string(bytes_per_second).concat("Bps");
        proof {
            assert(r@ =~= spec_display_bandwidth(bytes_per_second as nat));
        }
        r
    }
}

} // verus!
