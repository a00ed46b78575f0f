//! Decimal rendering of machine integers as digit strings, together with the
//! facts about it that the error rendering needs: every character of a
//! rendering is a digit, and distinct numbers render distinctly.

use vstd::prelude::*;
use vstd::string::StringExecFns;

verus! {

/// The character standing for one decimal digit.
pub open spec fn digit_char(d: nat) -> char {
    if d == 0 {
        '0'
    } else if d == 1 {
        '1'
    } else if d == 2 {
        '2'
    } else if d == 3 {
        '3'
    } else if d == 4 {
        '4'
    } else if d == 5 {
        '5'
    } else if d == 6 {
        '6'
    } else if d == 7 {
        '7'
    } else if d == 8 {
        '8'
    } else {
        '9'
    }
}

/// Whether `c` is a decimal digit character.
pub open spec fn is_digit_char(c: char) -> bool {
    c == '0' || c == '1' || c == '2' || c == '3' || c == '4' || c == '5' || c == '6'
        || c == '7' || c == '8' || c == '9'
}

/// Whether every character of `s` is a decimal digit.
pub open spec fn all_digits(s: Seq<char>) -> bool {
    forall|i: int| 0 <= i < s.len() ==> is_digit_char(#[trigger] s[i])
}

/// The decimal rendering of `n`: most significant digit first, a single
/// character for numbers below ten, no leading zeros.
pub open spec fn dec_digits(n: nat) -> Seq<char>
    decreases n,
{
    if n < 10 {
        seq![digit_char(n)]
    } else {
        dec_digits(n / 10).push(digit_char(n % 10))
    }
}

/// A decimal rendering is never empty.
pub proof fn lemma_dec_digits_len(n: nat)
    ensures
        dec_digits(n).len() >= 1,
    decreases n,
{
    if n >= 10 {
        lemma_dec_digits_len(n / 10);
    }
}

/// Every character of a decimal rendering is a digit.
pub proof fn lemma_dec_digits_all_digits(n: nat)
    ensures
        all_digits(dec_digits(n)),
    decreases n,
{
    if n < 10 {
        assert(is_digit_char(digit_char(n)));
    } else {
        lemma_dec_digits_all_digits(n / 10);
        let prev = dec_digits(n / 10);
        let whole = dec_digits(n);
        assert forall|i: int| 0 <= i < whole.len() implies is_digit_char(whole[i]) by {
            if i < prev.len() {
                assert(whole[i] == prev[i]);
            } else {
                assert(whole[i] == digit_char(n % 10));
                assert(is_digit_char(digit_char(n % 10)));
            }
        }
    }
}

/// Distinct numbers have distinct decimal renderings.
pub proof fn lemma_dec_digits_injective(a: nat, b: nat)
    requires
        dec_digits(a) == dec_digits(b),
    ensures
        a == b,
    decreases a,
{
    if a < 10 && b < 10 {
        assert(dec_digits(a)[0] == digit_char(a));
        assert(dec_digits(b)[0] == digit_char(b));
    } else if a < 10 && b >= 10 {
        lemma_dec_digits_len(b / 10);
        assert(dec_digits(b).len() >= 2);
    } else if a >= 10 && b < 10 {
        lemma_dec_digits_len(a / 10);
        assert(dec_digits(a).len() >= 2);
    } else {
        let sa = dec_digits(a / 10);
        let sb = dec_digits(b / 10);
        assert(sa.push(digit_char(a % 10)) == sb.push(digit_char(b % 10)));
        assert(sa.len() == sb.len());
        assert(sa.push(digit_char(a % 10))[sa.len() as int] == digit_char(a % 10));
        assert(sb.push(digit_char(b % 10))[sb.len() as int] == digit_char(b % 10));
        assert(a % 10 == b % 10);
        assert(sa =~= sb) by {
            assert forall|i: int| 0 <= i < sa.len() implies sa[i] == sb[i] by {
                assert(sa.push(digit_char(a % 10))[i] == sa[i]);
                assert(sb.push(digit_char(b % 10))[i] == sb[i]);
            }
        }
        lemma_dec_digits_injective(a / 10, b / 10);
        vstd::arithmetic::div_mod::lemma_fundamental_div_mod(a as int, 10);
        vstd::arithmetic::div_mod::lemma_fundamental_div_mod(b as int, 10);
    }
}

/// The one-character string for a decimal digit.
fn digit_str(d: u64) -> (r: &'static str)
    requires
        d < 10,
    ensures
        r@ == seq![digit_char(d as nat)],
{
    proof {
        reveal_strlit("0");
        reveal_strlit("1");
        reveal_strlit("2");
        reveal_strlit("3");
        reveal_strlit("4");
        reveal_strlit("5");
        reveal_strlit("6");
        reveal_strlit("7");
        reveal_strlit("8");
        reveal_strlit("9");
    }
    let r: &'static str = if d == 0 {
        "0"
    } else if d == 1 {
        "1"
    } else if d == 2 {
        "2"
    } else if d == 3 {
        "3"
    } else if d == 4 {
        "4"
    } else if d == 5 {
        "5"
    } else if d == 6 {
        "6"
    } else if d == 7 {
        "7"
    } else if d == 8 {
        "8"
    } else {
        "9"
    };
    proof {
        assert(r@ =~= seq![digit_char(d as nat)]);
    }
    r
}

/// The decimal rendering of `n`: for example, `204` renders as `"204"`.
pub fn u64_to_decimal(n: u64) -> (r: String)
    ensures
        r@ == dec_digits(n as nat),
    decreases n,
{
    if n < 10 {
        String::from_str(digit_str(n))
    } else {
        let mut s = u64_to_decimal(n / 10);
        s.append(digit_str(n % 10));
        proof {
            assert(dec_digits((n as nat) / 10).push(digit_char((n as nat) % 10)) =~= dec_digits(
                (n as nat) / 10,
            ) + seq![digit_char((n as nat) % 10)]);
        }
        s
    }
}

} // verus!
