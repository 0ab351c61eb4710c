//! The ISO 7064 MOD 97-10 check shared by IBANs and RF creditor references.
//!
//! An identifier is read as a decimal number: its first four characters are
//! moved to the end, every letter is replaced by two digits (`A` is 10, `Z`
//! is 35), and the digits are read as one number. The identifier passes when
//! that number leaves the remainder 1 on division by 97.

use crate::text::chars_of;
use vstd::prelude::*;

verus! {

/// An ASCII decimal digit, `'0'` to `'9'`.
pub open spec fn is_digit(c: char) -> bool {
    '0' <= c <= '9'
}

/// An upper-case ASCII letter, `'A'` to `'Z'`.
pub open spec fn is_upper(c: char) -> bool {
    'A' <= c <= 'Z'
}

/// A character that may stand in an identifier: a digit or an upper-case letter.
pub open spec fn is_alnum(c: char) -> bool {
    is_digit(c) || is_upper(c)
}

/// Every character of `s` is a digit or an upper-case letter.
pub open spec fn all_alnum(s: Seq<char>) -> bool {
    forall|i: int| 0 <= i < s.len() ==> is_alnum(#[trigger] s[i])
}

/// The number a character stands for: a digit for itself, a letter for its
/// place in the alphabet plus nine, so that `A` is 10 and `Z` is 35.
pub open spec fn char_value(c: char) -> nat {
    if is_digit(c) {
        (c as int - '0' as int) as nat
    } else {
        (c as int - 'A' as int + 10) as nat
    }
}

/// The power of ten by which a character shifts what was read before it:
/// a digit takes one decimal place, a letter two.
pub open spec fn char_weight(c: char) -> nat {
    if is_digit(c) {
        10
    } else {
        100
    }
}

/// The decimal number that `s` spells once each letter is written as its
/// two-digit value.
pub open spec fn decimal_value(s: Seq<char>) -> nat
    decreases s.len(),
{
    if s.len() == 0 {
        0
    } else {
        decimal_value(s.drop_last()) * char_weight(s.last()) + char_value(s.last())
    }
}

/// `s` with its first four characters moved to the end.
pub open spec fn rotated(s: Seq<char>) -> Seq<char> {
    s.skip(4) + s.take(4)
}

/// The check number of an identifier: the decimal value of the rotated text.
pub open spec fn transform_value(s: Seq<char>) -> nat {
    decimal_value(rotated(s))
}

/// The identifier's check number leaves the remainder 1 on division by 97.
pub open spec fn checksum_ok(s: Seq<char>) -> bool {
    transform_value(s) % 97 == 1
}

/// Reading one more character multiplies by its weight and adds its value.
pub proof fn lemma_decimal_value_step(s: Seq<char>, k: int)
    requires
        0 <= k < s.len(),
    ensures
        decimal_value(s.take(k + 1)) == decimal_value(s.take(k)) * char_weight(s[k]) + char_value(
            s[k],
        ),
{
    assert(s.take(k + 1).drop_last() =~= s.take(k));
    assert(s.take(k + 1).last() == s[k]);
}

/// A prefix never spells a larger number than the whole text.
pub proof fn lemma_decimal_value_prefix(s: Seq<char>, k: int)
    requires
        0 <= k <= s.len(),
    ensures
        decimal_value(s.take(k)) <= decimal_value(s),
    decreases s.len() - k,
{
    if k == s.len() {
        assert(s.take(k) =~= s);
    } else {
        lemma_decimal_value_step(s, k);
        lemma_decimal_value_prefix(s, k + 1);
        let a = decimal_value(s.take(k));
        let w = char_weight(s[k]);
        assert(a <= a * w) by (nonlinear_arith)
            requires
                w >= 1,
                a >= 0,
        ;
    }
}

/// The rotated text is as long as `s`, and its character at place `k` is
/// the one that `s` has at place `k + 4`, wrapping round at the end.
pub proof fn lemma_rotated_index(s: Seq<char>, k: int)
    requires
        4 <= s.len(),
        0 <= k < s.len(),
    ensures
        rotated(s).len() == s.len(),
        rotated(s)[k] == if k < s.len() - 4 {
            s[k + 4]
        } else {
            s[k - (s.len() - 4)]
        },
{
}

/// A text whose first two characters and whose characters after them are
/// digits or upper-case letters holds no other character.
pub proof fn lemma_all_alnum_after_two(s: Seq<char>)
    requires
        s.len() >= 2,
        is_alnum(s[0]),
        is_alnum(s[1]),
        all_alnum(s.skip(2)),
    ensures
        all_alnum(s),
{
    assert forall|i: int| 0 <= i < s.len() implies is_alnum(#[trigger] s[i]) by {
        if i >= 2 {
            assert(s[i] == s.skip(2)[i - 2]);
        }
    }
}

/// The value and the weight of one character of an identifier.
pub fn char_digits(c: char) -> (r: (u8, u8))
    requires
        is_alnum(c),
    ensures
        r.0 == char_value(c),
        r.1 == char_weight(c),
{
    let code: u32 = c as u32;
    if '0' <= c && c <= '9' {
        ((code - 48) as u8, 10)
    } else {
        ((code - 55) as u8, 100)
    }
}

/// Tells whether every character of `v` from place `from` on is a digit or
/// an upper-case letter.
pub fn all_alnum_from(v: &Vec<char>, from: usize) -> (ok: bool)
    requires
        from <= v@.len(),
    ensures
        ok == all_alnum(v@.skip(from as int)),
{
    let mut k: usize = from;
    while k < v.len()
        invariant
            from <= k <= v.len(),
            forall|i: int| from <= i < k ==> is_alnum(#[trigger] v@[i]),
        decreases v.len() - k,
    {
        let c = v[k];
        if !(('0' <= c && c <= '9') || ('A' <= c && c <= 'Z')) {
            assert(!is_alnum(v@.skip(from as int)[k - from]));
            return false;
        }
        k = k + 1;
    }
    true
}

/// Computes the check number of any text: nothing where the text is shorter
/// than five characters, holds a character that is neither a digit nor an
/// upper-case letter, or spells a number too large for 128 bits.
pub fn checked_transform(s: &str) -> (r: Option<u128>)
    ensures
        r is Some <==> s@.len() >= 5 && all_alnum(s@) && transform_value(s@) <= u128::MAX,
        r matches Some(n) ==> n == transform_value(s@),
{
    let v = chars_of(s);
    let len = v.len();
    if len < 5 {
        return None;
    }
    if !all_alnum_from(&v, 0) {
        assert(v@.skip(0) =~= v@);
        return None;
    }
    assert(v@.skip(0) =~= v@);
    let ghost t = rotated(v@);
    let mut acc: u128 = 0;
    let mut k: usize = 0;
    while k < len
        invariant
            v@ == s@,
            len == v.len(),
            len >= 5,
            k <= len,
            all_alnum(v@),
            t == rotated(v@),
            t.len() == len,
            acc == decimal_value(t.take(k as int)),
        decreases len - k,
    {
        let c = if k < len - 4 {
            v[k + 4]
        } else {
            v[k - (len - 4)]
        };
        proof {
            lemma_rotated_index(v@, k as int);
            lemma_decimal_value_step(t, k as int);
            lemma_decimal_value_prefix(t, k as int + 1);
        }
        let (value, weight) = char_digits(c);
        let shifted = match acc.checked_mul(weight as u128) {
            Some(x) => x,
            None => return None,
        };
        acc = match shifted.checked_add(value as u128) {
            Some(x) => x,
            None => return None,
        };
        k = k + 1;
    }
    assert(t.take(len as int) =~= t);
    Some(acc)
}

/// Computes the check number of an identifier: the decimal number spelled by
/// the text once its first four characters are moved to the end and each
/// letter is replaced by its two-digit value.
pub fn transform(s: &str) -> (n: u128)
    requires
        s@.len() >= 5,
        all_alnum(s@),
        transform_value(s@) <= u128::MAX,
    ensures
        n == transform_value(s@),
{
    match checked_transform(s) {
        Some(n) => n,
        None => unreached(),
    }
}

/// Reducing modulo 97 before a character is read gives the same remainder
/// as reducing after it.
proof fn lemma_reduce_before_step(a: int, w: int, d: int)
    requires
        w == 10 || w == 100,
    ensures
        (a * w + d) % 97 == ((a % 97) * w + d) % 97,
{
    if w == 10 {
        assert((a * 10 + d) % 97 == ((a % 97) * 10 + d) % 97);
    } else {
        assert((a * 100 + d) % 97 == ((a % 97) * 100 + d) % 97);
    }
}

/// Computes the remainder of an identifier's check number on division by 97,
/// reducing after every character so that no length overflows.
pub fn remainder(v: &Vec<char>) -> (r: u8)
    requires
        v@.len() >= 5,
        all_alnum(v@),
    ensures
        r == transform_value(v@) % 97,
{
    let len = v.len();
    let ghost t = rotated(v@);
    let mut acc: u32 = 0;
    let mut k: usize = 0;
    while k < len
        invariant
            len == v.len(),
            len >= 5,
            k <= len,
            all_alnum(v@),
            t == rotated(v@),
            t.len() == len,
            acc == decimal_value(t.take(k as int)) % 97,
            acc < 97,
        decreases len - k,
    {
        let c = if k < len - 4 {
            v[k + 4]
        } else {
            v[k - (len - 4)]
        };
        let (value, weight) = char_digits(c);
        proof {
            lemma_rotated_index(v@, k as int);
            lemma_decimal_value_step(t, k as int);
            lemma_reduce_before_step(
                decimal_value(t.take(k as int)) as int,
                weight as int,
                value as int,
            );
            assert(acc * weight <= 9600) by (nonlinear_arith)
                requires
                    acc < 97,
                    weight <= 100,
            ;
        }
        acc = (acc * (weight as u32) + (value as u32)) % 97;
        k = k + 1;
    }
    assert(t.take(len as int) =~= t);
    acc as u8
}

} // verus!
