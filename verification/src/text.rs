//! Numbers written in decimal, as bytes and as text.

use crate::serialization::spec_hex_digit;
use vstd::prelude::*;
use vstd::string::StringExecFns;

verus! {

/// The decimal digits of `n`, least significant first, as ASCII.
pub open spec fn spec_decimal_reversed(n: nat) -> Seq<u8>
    decreases n,
{
    if n < 10 {
        seq![(48 + n) as u8]
    } else {
        seq![(48 + n % 10) as u8] + spec_decimal_reversed(n / 10)
    }
}

/// `n` written in decimal, as ASCII.
pub open spec fn spec_decimal(n: nat) -> Seq<u8> {
    spec_decimal_reversed(n).reverse()
}

/// `n` written in decimal, as characters.
pub open spec fn spec_decimal_text(n: nat) -> Seq<char> {
    Seq::new(spec_decimal(n).len(), |i: int| spec_hex_digit(spec_decimal(n)[i] - 48))
}

/// Writes `n` in decimal.
pub fn decimal_digits(n: u64) -> (out: Vec<u8>)
    ensures
        out@ == spec_decimal(n as nat),
        1 <= out@.len() <= 20,
        forall|i: int| 0 <= i < out@.len() ==> 48 <= #[trigger] out@[i] <= 57,
{
    proof {
        lemma_decimal_len(n as nat);
        lemma_decimal_digits(n as nat);
    }
    let mut reversed: Vec<u8> = Vec::new();
    let mut rest: u64 = n;
    while rest >= 10
        invariant
            spec_decimal_reversed(n as nat) =~= reversed@ + spec_decimal_reversed(rest as nat),
        decreases rest,
    {
        let digit: u8 = (rest % 10) as u8;
        reversed.push(48 + digit);
        rest = rest / 10;
    }
    reversed.push(48 + rest as u8);
    assert(reversed@ =~= spec_decimal_reversed(n as nat));
    let mut out: Vec<u8> = Vec::new();
    let mut k: usize = reversed.len();
    while k > 0
        invariant
            k <= reversed@.len(),
            out@.len() == reversed@.len() - k,
            forall|j: int| 0 <= j < out@.len() ==> out@[j] == reversed@[reversed@.len() - 1 - j],
        decreases k,
    {
        k = k - 1;
        out.push(reversed[k]);
    }
    assert(out@ =~= reversed@.reverse());
    out
}

/// The text of one decimal digit.
fn digit_text(value: u8) -> (text: &'static str)
    requires
        value < 10,
    ensures
        text@ == seq![spec_hex_digit(value as int)],
{
    proof {
        reveal_strlit("0");
        reveal_strlit("1");
        reveal_strlit("2");
        reveal_strlit("3");
        reveal_strlit("4");
        reveal_strlit("5");
        reveal_strlit("6");
        reveal_strlit("7");
        reveal_strlit("8");
        reveal_strlit("9");
    }
    let text: &'static str = if value == 0 {
        "0"
    } else if value == 1 {
        "1"
    } else if value == 2 {
        "2"
    } else if value == 3 {
        "3"
    } else if value == 4 {
        "4"
    } else if value == 5 {
        "5"
    } else if value == 6 {
        "6"
    } else if value == 7 {
        "7"
    } else if value == 8 {
        "8"
    } else {
        "9"
    };
    assert(text@ =~= seq![spec_hex_digit(value as int)]);
    text
}

/// Writes `n` in decimal as text.
pub fn decimal_text(n: u64) -> (text: String)
    ensures
        text@ == spec_decimal_text(n as nat),
{
    let digits: Vec<u8> = decimal_digits(n);
    let mut text: String = String::new();
    let mut i: usize = 0;
    while i < digits.len()
        invariant
            i <= digits@.len(),
            digits@ == spec_decimal(n as nat),
            forall|j: int| 0 <= j < digits@.len() ==> 48 <= #[trigger] digits@[j] <= 57,
            text@.len() == i,
            forall|j: int| 0 <= j < i ==> text@[j] == spec_hex_digit(digits@[j] - 48),
        decreases digits@.len() - i,
    {
        let digit: u8 = digits[i];
        text.append(digit_text(digit - 48));
        i = i + 1;
    }
    assert(text@ =~= spec_decimal_text(n as nat));
    text
}

/// Ten to the power of `digits`.
pub open spec fn spec_pow10(digits: nat) -> nat
    decreases digits,
{
    if digits == 0 {
        1
    } else {
        10 * spec_pow10((digits - 1) as nat)
    }
}

/// A number below 2^64 has at most 20 decimal digits.
pub proof fn lemma_decimal_len(n: nat)
    ensures
        spec_decimal_reversed(n).len() >= 1,
        n <= u64::MAX ==> spec_decimal_reversed(n).len() <= 20,
        spec_decimal(n).len() == spec_decimal_reversed(n).len(),
{
    reveal_with_fuel(spec_pow10, 21);
    assert(spec_pow10(20) == 100000000000000000000nat);
    if n <= u64::MAX {
        lemma_decimal_len_bound(n, 20);
    } else {
        lemma_decimal_nonempty(n);
    }
}

/// Every number has at least one decimal digit.
pub proof fn lemma_decimal_nonempty(n: nat)
    ensures
        spec_decimal_reversed(n).len() >= 1,
    decreases n,
{
    if n >= 10 {
        lemma_decimal_nonempty(n / 10);
    }
}

/// A number below ten to the power of `digits` has at most `digits` decimal
/// digits.
pub proof fn lemma_decimal_len_bound(n: nat, digits: nat)
    requires
        digits >= 1,
        n < spec_pow10(digits),
    ensures
        1 <= spec_decimal_reversed(n).len() <= digits,
    decreases n,
{
    reveal_with_fuel(spec_pow10, 3);
    if n >= 10 {
        lemma_decimal_len_bound(n / 10, (digits - 1) as nat);
    }
}

/// Every decimal digit is one of the ten ASCII digits.
pub proof fn lemma_decimal_digits(n: nat)
    ensures
        forall|i: int|
            0 <= i < spec_decimal_reversed(n).len() ==> 48 <= #[trigger] spec_decimal_reversed(
                n,
            )[i] <= 57,
        forall|i: int| 0 <= i < spec_decimal(n).len() ==> 48 <= #[trigger] spec_decimal(n)[i] <= 57,
    decreases n,
{
    let reversed = spec_decimal_reversed(n);
    if n >= 10 {
        lemma_decimal_digits(n / 10);
        let rest = spec_decimal_reversed(n / 10);
        assert forall|i: int| 0 <= i < reversed.len() implies 48 <= #[trigger] reversed[i] <= 57 by {
            if i > 0 {
                assert(reversed[i] == rest[i - 1]);
            }
        }
    }
    assert forall|i: int| 0 <= i < spec_decimal(n).len() implies 48 <= #[trigger] spec_decimal(n)[i]
        <= 57 by {
        assert(spec_decimal(n)[i] == reversed[reversed.len() - 1 - i]);
    }
}

} // verus!
