//! The amount of a transfer, written in euros with two decimal places.

use crate::checksum::{decimal_value, is_digit, lemma_decimal_value_step};
use crate::text::chars_of;
use vstd::prelude::*;

verus! {

/// The shape of an amount: one to nine digits, a point, two digits.
pub open spec fn shape_ok(s: Seq<char>) -> bool {
    &&& 4 <= s.len() <= 12
    &&& s[s.len() - 3] == '.'
    &&& forall|i: int| 0 <= i < s.len() && i != s.len() - 3 ==> is_digit(#[trigger] s[i])
}

/// The digits before the point.
pub open spec fn whole_part(s: Seq<char>) -> Seq<char> {
    s.take(s.len() - 3)
}

/// The two digits after the point.
pub open spec fn fraction_part(s: Seq<char>) -> Seq<char> {
    s.skip(s.len() - 2)
}

/// The amount in cents.
pub open spec fn cents(s: Seq<char>) -> nat {
    decimal_value(whole_part(s)) * 100 + decimal_value(fraction_part(s))
}

/// An amount is accepted when it has the right shape and is not zero.
pub open spec fn valid(s: Seq<char>) -> bool {
    shape_ok(s) && cents(s) > 0
}

/// Ten to the power `k`.
pub open spec fn pow10(k: nat) -> nat
    decreases k,
{
    if k == 0 {
        1
    } else {
        10 * pow10((k - 1) as nat)
    }
}

/// A text of `k` digits spells a number below ten to the power `k`.
pub proof fn lemma_digits_below_pow10(s: Seq<char>)
    requires
        forall|i: int| 0 <= i < s.len() ==> is_digit(#[trigger] s[i]),
    ensures
        decimal_value(s) < pow10(s.len()),
    decreases s.len(),
{
    if s.len() > 0 {
        lemma_digits_below_pow10(s.drop_last());
    }
}

/// Ten to a power of at most nine is at most a thousand million.
pub proof fn lemma_pow10_upto_nine(k: nat)
    requires
        k <= 9,
    ensures
        pow10(k) <= 1_000_000_000,
{
    reveal_with_fuel(pow10, 10);
}

/// Every accepted amount lies between one cent and 999999999.99 euros.
pub proof fn lemma_valid_range(s: Seq<char>)
    requires
        valid(s),
    ensures
        1 <= cents(s) <= 99_999_999_999,
{
    lemma_digits_below_pow10(whole_part(s));
    lemma_pow10_upto_nine(whole_part(s).len());
    lemma_digits_below_pow10(fraction_part(s));
    reveal_with_fuel(pow10, 3);
}

/// Reads a run of digits of `v` as a number.
fn read_digits(v: &Vec<char>, from: usize, to: usize) -> (r: Option<u64>)
    requires
        from <= to <= v@.len(),
        to - from <= 9,
    ensures
        r is Some <==> forall|i: int| from <= i < to ==> is_digit(#[trigger] v@[i]),
        r matches Some(n) ==> n == decimal_value(v@.subrange(from as int, to as int)),
{
    let ghost run = v@.subrange(from as int, to as int);
    let mut n: u64 = 0;
    let mut k: usize = from;
    while k < to
        invariant
            from <= k <= to <= v@.len(),
            to - from <= 9,
            run == v@.subrange(from as int, to as int),
            forall|i: int| from <= i < k ==> is_digit(#[trigger] v@[i]),
            n == decimal_value(run.take(k - from)),
        decreases to - k,
    {
        let c = v[k];
        if !('0' <= c && c <= '9') {
            return None;
        }
        proof {
            lemma_decimal_value_step(run, k - from);
            lemma_digits_below_pow10(run.take(k - from));
            lemma_pow10_upto_nine((k - from) as nat);
        }
        n = n * 10 + ((c as u32 - 48) as u64);
        k = k + 1;
    }
    assert(run.take(to - from) =~= run);
    Some(n)
}

/// Reads an amount and gives it in cents, or nothing where the text has
/// not the shape of an amount.
pub fn parse_cents(amount: &str) -> (r: Option<u64>)
    ensures
        r is Some <==> shape_ok(amount@),
        r matches Some(c) ==> c == cents(amount@),
{
    let v = chars_of(amount);
    let len = v.len();
    if len < 4 || len > 12 {
        return None;
    }
    if v[len - 3] != '.' {
        return None;
    }
    assert(v@.subrange(0, len - 3) =~= whole_part(v@));
    assert(v@.subrange(len - 2, len as int) =~= fraction_part(v@));
    match (read_digits(&v, 0, len - 3), read_digits(&v, len - 2, len)) {
        (Some(whole), Some(fraction)) => {
            proof {
                lemma_digits_below_pow10(whole_part(v@));
                lemma_pow10_upto_nine(whole_part(v@).len());
                lemma_digits_below_pow10(fraction_part(v@));
                reveal_with_fuel(pow10, 3);
            }
            Some(whole * 100 + fraction)
        },
        _ => None,
    }
}

/// Tells whether a text is an amount that a payload may carry.
pub fn is_valid(amount: &str) -> (ok: bool)
    ensures
        ok == valid(amount@),
{
    match parse_cents(amount) {
        Some(c) => c > 0,
        None => false,
    }
}

} // verus!
