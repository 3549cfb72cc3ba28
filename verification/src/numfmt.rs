//! Verified plain-text rendering of the numbers that appear in the report:
//! decimal and hexadecimal integers, fixed one-decimal-place quantities, and
//! the rounded tenths used for percentages and averages.

use vstd::prelude::*;
use vstd::string::StringExecFns;

verus! {

/// The character for a single decimal digit value.
pub open spec fn spec_digit(d: nat) -> char {
    if d == 0 {
        '0'
    } else if d == 1 {
        '1'
    } else if d == 2 {
        '2'
    } else if d == 3 {
        '3'
    } else if d == 4 {
        '4'
    } else if d == 5 {
        '5'
    } else if d == 6 {
        '6'
    } else if d == 7 {
        '7'
    } else if d == 8 {
        '8'
    } else {
        '9'
    }
}

/// The decimal representation of a natural number, most significant digit
/// first, with no leading zeros (zero itself is the single digit `0`).
pub open spec fn spec_dec(n: nat) -> Seq<char>
    decreases n,
{
    if n < 10 {
        seq![spec_digit(n)]
    } else {
        spec_dec(n / 10) + seq![spec_digit(n % 10)]
    }
}

fn digit_str(d: u128) -> (r: &'static str)
    requires
        d < 10,
    ensures
        r@ == seq![spec_digit(d as nat)],
{
    if d == 0 {
        proof {
            reveal_strlit("0");
            assert("0"@ =~= seq![spec_digit(0)]);
        }
        "0"
    } else if d == 1 {
        proof {
            reveal_strlit("1");
            assert("1"@ =~= seq![spec_digit(1)]);
        }
        "1"
    } else if d == 2 {
        proof {
            reveal_strlit("2");
            assert("2"@ =~= seq![spec_digit(2)]);
        }
        "2"
    } else if d == 3 {
        proof {
            reveal_strlit("3");
            assert("3"@ =~= seq![spec_digit(3)]);
        }
        "3"
    } else if d == 4 {
        proof {
            reveal_strlit("4");
            assert("4"@ =~= seq![spec_digit(4)]);
        }
        "4"
    } else if d == 5 {
        proof {
            reveal_strlit("5");
            assert("5"@ =~= seq![spec_digit(5)]);
        }
        "5"
    } else if d == 6 {
        proof {
            reveal_strlit("6");
            assert("6"@ =~= seq![spec_digit(6)]);
        }
        "6"
    } else if d == 7 {
        proof {
            reveal_strlit("7");
            assert("7"@ =~= seq![spec_digit(7)]);
        }
        "7"
    } else if d == 8 {
        proof {
            reveal_strlit("8");
            assert("8"@ =~= seq![spec_digit(8)]);
        }
        "8"
    } else {
        proof {
            reveal_strlit("9");
            assert("9"@ =~= seq![spec_digit(d as nat)]);
        }
        "9"
    }
}

/// Renders a number in decimal.
pub fn dec_str(n: u128) -> (r: String)
    ensures
        r@ == spec_dec(n as nat),
    decreases n,
{
    if n < 10 {
        digit_str(n).to_owned()
    } else {
        let mut s = dec_str(n / 10);
        s.append(digit_str(n % 10));
        s
    }
}

/// Renders a `usize` in decimal.
pub fn dec_str_usize(n: usize) -> (r: String)
    ensures
        r@ == spec_dec(n as nat),
{
    dec_str(n as u128)
}

/// The character for a single hexadecimal digit value, lower case.
pub open spec fn spec_hex_digit(d: nat) -> char {
    if d < 10 {
        spec_digit(d)
    } else if d == 10 {
        'a'
    } else if d == 11 {
        'b'
    } else if d == 12 {
        'c'
    } else if d == 13 {
        'd'
    } else if d == 14 {
        'e'
    } else {
        'f'
    }
}

/// The hexadecimal representation of a natural number, most significant
/// digit first, with no leading zeros and no prefix.
pub open spec fn spec_hex(n: nat) -> Seq<char>
    decreases n,
{
    if n < 16 {
        seq![spec_hex_digit(n)]
    } else {
        spec_hex(n / 16) + seq![spec_hex_digit(n % 16)]
    }
}

fn hex_digit_str(d: u64) -> (r: &'static str)
    requires
        d < 16,
    ensures
        r@ == seq![spec_hex_digit(d as nat)],
{
    if d < 10 {
        digit_str(d as u128)
    } else if d == 10 {
        proof {
            reveal_strlit("a");
            assert("a"@ =~= seq![spec_hex_digit(10)]);
        }
        "a"
    } else if d == 11 {
        proof {
            reveal_strlit("b");
            assert("b"@ =~= seq![spec_hex_digit(11)]);
        }
        "b"
    } else if d == 12 {
        proof {
            reveal_strlit("c");
            assert("c"@ =~= seq![spec_hex_digit(12)]);
        }
        "c"
    } else if d == 13 {
        proof {
            reveal_strlit("d");
            assert("d"@ =~= seq![spec_hex_digit(13)]);
        }
        "d"
    } else if d == 14 {
        proof {
            reveal_strlit("e");
            assert("e"@ =~= seq![spec_hex_digit(14)]);
        }
        "e"
    } else {
        proof {
            reveal_strlit("f");
            assert("f"@ =~= seq![spec_hex_digit(d as nat)]);
        }
        "f"
    }
}

/// The display form of a bytecode address: `0x` followed by hex digits.
pub open spec fn spec_addr(a: nat) -> Seq<char> {
    "0x"@ + spec_hex(a)
}

fn hex_str(n: u64) -> (r: String)
    ensures
        r@ == spec_hex(n as nat),
    decreases n,
{
    if n < 16 {
        hex_digit_str(n).to_owned()
    } else {
        let mut s = hex_str(n / 16);
        s.append(hex_digit_str(n % 16));
        s
    }
}

/// Renders a bytecode address as `0x` followed by its hex digits.
pub fn addr_str(a: u64) -> (r: String)
    ensures
        r@ == spec_addr(a as nat),
{
    let mut s = "0x".to_owned();
    s.append(hex_str(a).as_str());
    s
}

/// A quantity of tenths rendered with exactly one decimal place, such as
/// `2.5` for twenty-five tenths.
pub open spec fn spec_one_decimal(t: nat) -> Seq<char> {
    spec_dec(t / 10) + "."@ + seq![spec_digit(t % 10)]
}

/// Renders a quantity of tenths with one decimal place.
pub fn one_decimal_str(t: u128) -> (r: String)
    ensures
        r@ == spec_one_decimal(t as nat),
{
    let mut s = dec_str(t / 10);
    s.append(".");
    s.append(digit_str(t % 10));
    s
}

/// The percentage `num / den * 100`, rounded half-up to tenths of a percent;
/// zero whenever the denominator is zero, so that no division can fault.
pub open spec fn spec_percent_tenths(num: nat, den: nat) -> nat {
    if den == 0 {
        0
    } else {
        (num * 1000 + den / 2) / den
    }
}

/// Computes a percentage in tenths of a percent, with the zero-denominator
/// guard: the result is `0` (rendered `0.0`) when `den == 0`.
pub fn percent_tenths(num: usize, den: usize) -> (r: u128)
    ensures
        r as nat == spec_percent_tenths(num as nat, den as nat),
        den == 0 ==> r == 0,
{
    if den == 0 {
        0
    } else {
        let n: u128 = num as u128;
        let d: u128 = den as u128;
        (n * 1000 + d / 2) / d
    }
}

/// The arithmetic mean `sum / cnt`, rounded half-up to tenths; zero whenever
/// `cnt` is zero, so that no division can fault.
pub open spec fn spec_avg_tenths(sum: nat, cnt: nat) -> nat {
    if cnt == 0 {
        0
    } else {
        (sum / cnt) * 10 + ((sum % cnt) * 10 + cnt / 2) / cnt
    }
}

/// Whenever a denominator is zero, the guarded percentage and the guarded
/// average both render as exactly `0.0`: the zero-guard, not a fault, decides
/// the output.
pub proof fn lemma_zero_denominator_renders_zero(num: nat)
    ensures
        spec_one_decimal(spec_percent_tenths(num, 0)) == "0.0"@,
        spec_one_decimal(spec_avg_tenths(num, 0)) == "0.0"@,
{
    reveal_strlit("0.0");
    reveal_strlit(".");
    assert(spec_one_decimal(0) =~= "0.0"@);
}

/// Computes an average in tenths, with the zero-count guard: the result is
/// `0` (rendered `0.0`) when `cnt == 0`.
pub fn avg_tenths(sum: u128, cnt: usize) -> (r: u128)
    requires
        sum as nat <= cnt as nat * u64::MAX as nat,
    ensures
        r as nat == spec_avg_tenths(sum as nat, cnt as nat),
        cnt == 0 ==> r == 0,
{
    if cnt == 0 {
        0
    } else {
        let c: u128 = cnt as u128;
        let q: u128 = sum / c;
        let rem: u128 = sum % c;
        proof {
            assert(sum as nat / c as nat <= u64::MAX as nat) by (nonlinear_arith)
                requires
                    c as nat > 0,
                    sum as nat <= c as nat * u64::MAX as nat,
            ;
        }
        q * 10 + (rem * 10 + c / 2) / c
    }
}

} // verus!
