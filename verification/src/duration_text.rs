//! Rendering of the illustrative travel-time figure: a distance in meters is
//! divided by a fixed probe speed, scaled to a magnitude-appropriate unit
//! (days / years / thousand years / million years), rounded half-up to one
//! decimal place, and printed as text.

use vstd::prelude::*;
use vstd::arithmetic::div_mod::lemma_multiply_divide_le;
use vstd::string::StringExecFns;

verus! {

/// Meters the probe covers in one day at 61,200 km/h (17 km/s).
pub const METERS_PER_TRAVEL_DAY: u64 = 1_468_800_000;

/// Meters the probe covers in one Julian year (365.25 days) at 61,200 km/h.
pub const METERS_PER_TRAVEL_YEAR: u64 = 536_479_200_000;

/// The largest meter distance the pipeline can produce: the largest elapsed
/// time in whole seconds times the speed of light in meters per second.
pub const MAX_LIGHT_METERS: u128 = 18_446_744_073_709_551_615 * 299_792_458;

/// The character for one decimal digit.
pub open spec fn digit_char(d: nat) -> char {
    if d == 0 {
        '0'
    } else if d == 1 {
        '1'
    } else if d == 2 {
        '2'
    } else if d == 3 {
        '3'
    } else if d == 4 {
        '4'
    } else if d == 5 {
        '5'
    } else if d == 6 {
        '6'
    } else if d == 7 {
        '7'
    } else if d == 8 {
        '8'
    } else {
        '9'
    }
}

/// The decimal digit string of a non-negative integer, most significant
/// digit first.
pub open spec fn dec_seq(n: nat) -> Seq<char>
    decreases n,
{
    if n < 10 {
        seq![digit_char(n)]
    } else {
        dec_seq(n / 10).push(digit_char(n % 10))
    }
}

/// The decimal rendering of a value held in tenths: integer part, a decimal
/// point, and exactly one fractional digit.
pub open spec fn tenths_seq(t: nat) -> Seq<char> {
    dec_seq(t / 10) + seq!['.'] + seq![digit_char(t % 10)]
}

/// `n / d` scaled to tenths and rounded half-up (`d` even).
pub open spec fn round_tenths(n: int, d: int) -> int {
    (10 * n + d / 2) / d
}

/// The travel-time text for a distance of `m` meters: the first matching
/// magnitude bucket wins, and each shows one half-up-rounded decimal.
pub open spec fn travel_time_text(m: int) -> Seq<char> {
    if m < METERS_PER_TRAVEL_YEAR {
        tenths_seq(round_tenths(m, METERS_PER_TRAVEL_DAY as int) as nat) + " days"@
    } else if m < 1000 * (METERS_PER_TRAVEL_YEAR as int) {
        tenths_seq(round_tenths(m, METERS_PER_TRAVEL_YEAR as int) as nat) + " years"@
    } else if m < 1_000_000 * (METERS_PER_TRAVEL_YEAR as int) {
        tenths_seq(round_tenths(m, 1000 * (METERS_PER_TRAVEL_YEAR as int)) as nat)
            + " thousand years"@
    } else {
        tenths_seq(round_tenths(m, 1_000_000 * (METERS_PER_TRAVEL_YEAR as int)) as nat)
            + " million years"@
    }
}

/// Appends the single decimal digit `d` to `s`.
fn push_digit(s: &mut String, d: u64)
    requires
        d < 10,
    ensures
        final(s)@ == old(s)@ + seq![digit_char(d as nat)],
{
    if d == 0 {
        s.append("0");
        proof {
            reveal_strlit("0");
            assert("0"@ =~= seq![digit_char(d as nat)]);
        }
    } else if d == 1 {
        s.append("1");
        proof {
            reveal_strlit("1");
            assert("1"@ =~= seq![digit_char(d as nat)]);
        }
    } else if d == 2 {
        s.append("2");
        proof {
            reveal_strlit("2");
            assert("2"@ =~= seq![digit_char(d as nat)]);
        }
    } else if d == 3 {
        s.append("3");
        proof {
            reveal_strlit("3");
            assert("3"@ =~= seq![digit_char(d as nat)]);
        }
    } else if d == 4 {
        s.append("4");
        proof {
            reveal_strlit("4");
            assert("4"@ =~= seq![digit_char(d as nat)]);
        }
    } else if d == 5 {
        s.append("5");
        proof {
            reveal_strlit("5");
            assert("5"@ =~= seq![digit_char(d as nat)]);
        }
    } else if d == 6 {
        s.append("6");
        proof {
            reveal_strlit("6");
            assert("6"@ =~= seq![digit_char(d as nat)]);
        }
    } else if d == 7 {
        s.append("7");
        proof {
            reveal_strlit("7");
            assert("7"@ =~= seq![digit_char(d as nat)]);
        }
    } else if d == 8 {
        s.append("8");
        proof {
            reveal_strlit("8");
            assert("8"@ =~= seq![digit_char(d as nat)]);
        }
    } else {
        s.append("9");
        proof {
            reveal_strlit("9");
            assert("9"@ =~= seq![digit_char(d as nat)]);
        }
    }
}

/// Appends the decimal digits of `n` to `s`.
fn push_decimal(s: &mut String, n: u64)
    ensures
        final(s)@ == old(s)@ + dec_seq(n as nat),
    decreases n,
{
    if n < 10 {
        push_digit(s, n);
    } else {
        push_decimal(s, n / 10);
        push_digit(s, n % 10);
        proof {
            assert(old(s)@ + dec_seq((n / 10) as nat) + seq![digit_char((n % 10) as nat)] =~= old(
                s,
            )@ + dec_seq(n as nat));
        }
    }
}

/// Renders a tenths-scaled value with one decimal place.
fn tenths_string(t: u64) -> (r: String)
    ensures
        r@ == tenths_seq(t as nat),
{
    let mut s = String::new();
    push_decimal(&mut s, t / 10);
    s.append(".");
    push_digit(&mut s, t % 10);
    proof {
        reveal_strlit(".");
        assert("."@ =~= seq!['.']);
        assert(s@ =~= tenths_seq(t as nat));
    }
    s
}

/// Computes `n / d` in tenths, rounded half-up.
fn scaled_tenths(n: u128, d: u64) -> (t: u64)
    requires
        2 <= d,
        d % 2 == 0,
        n <= MAX_LIGHT_METERS,
        10 * (n as int) + (d as int) / 2 <= (u64::MAX as int) * (d as int),
    ensures
        t == round_tenths(n as int, d as int),
{
    let t_wide: u128 = (10 * n + (d as u128) / 2) / (d as u128);
    proof {
        lemma_multiply_divide_le(
            10 * (n as int) + (d as int) / 2,
            d as int,
            u64::MAX as int,
        );
    }
    t_wide as u64
}

/// The travel-time figure at the fixed probe speed for a distance of
/// `meters` meters, e.g. "204.1 days", "2.0 years", "70.5 thousand years".
pub fn travel_time_description(meters: u128) -> (r: String)
    requires
        meters <= MAX_LIGHT_METERS,
    ensures
        r@ == travel_time_text(meters as int),
{
    if meters < METERS_PER_TRAVEL_YEAR as u128 {
        let t = scaled_tenths(meters, METERS_PER_TRAVEL_DAY);
        let mut s = tenths_string(t);
        s.append(" days");
        s
    } else if meters < 1000 * (METERS_PER_TRAVEL_YEAR as u128) {
        let t = scaled_tenths(meters, METERS_PER_TRAVEL_YEAR);
        let mut s = tenths_string(t);
        s.append(" years");
        s
    } else if meters < 1_000_000 * (METERS_PER_TRAVEL_YEAR as u128) {
        let t = scaled_tenths(meters, 1000 * METERS_PER_TRAVEL_YEAR);
        let mut s = tenths_string(t);
        s.append(" thousand years");
        s
    } else {
        let t = scaled_tenths(meters, 1_000_000 * METERS_PER_TRAVEL_YEAR);
        let mut s = tenths_string(t);
        s.append(" million years");
        s
    }
}

} // verus!
