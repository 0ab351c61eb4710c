//! International bank account numbers (ISO 13616).

use crate::checksum::{
    all_alnum, all_alnum_from, checksum_ok, is_upper, lemma_all_alnum_after_two, remainder,
};
use crate::text::chars_of;
use vstd::prelude::*;

verus! {

/// The characters that stay when spaces are removed: all but U+0020.
pub open spec fn kept() -> spec_fn(char) -> bool {
    |c: char| c != ' '
}

/// `s` without its spaces, the other characters in their order.
pub open spec fn strip_spaces(s: Seq<char>) -> Seq<char> {
    s.filter(kept())
}

/// The shape of an IBAN written without spaces: 5 to 34 characters, two
/// upper-case letters first, then digits and upper-case letters only.
pub open spec fn shape_ok(s: Seq<char>) -> bool {
    &&& 5 <= s.len() <= 34
    &&& is_upper(s[0])
    &&& is_upper(s[1])
    &&& all_alnum(s.skip(2))
}

/// An IBAN written without spaces is valid when it has the right shape and
/// passes the mod-97 check.
pub open spec fn valid_compact(s: Seq<char>) -> bool {
    shape_ok(s) && checksum_ok(s)
}

/// An IBAN is valid when it is valid once its spaces are removed.
pub open spec fn valid(s: Seq<char>) -> bool {
    valid_compact(strip_spaces(s))
}

/// Copies a text without its spaces.
pub fn without_spaces(s: &str) -> (r: String)
    ensures
        r@ == strip_spaces(s@),
{
    let mut r = String::new();
    proof {
        reveal(Seq::filter);
    }
    for c in it: s.chars()
        invariant
            it.seq() == s@,
            r@ == strip_spaces(it.seq().take(it.index())),
    {
        proof {
            reveal(Seq::filter);
            assert(it.seq().take(it.index() + 1).drop_last() =~= it.seq().take(it.index()));
        }
        if c != ' ' {
            r.push(c);
        }
    }
    assert(s@.take(s@.len() as int) =~= s@);
    r
}

/// Checks an IBAN as it stands: a space in it makes it invalid.
pub fn is_valid_compact(iban: &str) -> (ok: bool)
    ensures
        ok == valid_compact(iban@),
{
    let v = chars_of(iban);
    let len = v.len();
    if len < 5 || len > 34 {
        return false;
    }
    let a = v[0];
    let b = v[1];
    if !('A' <= a && a <= 'Z' && 'A' <= b && b <= 'Z') {
        return false;
    }
    if !all_alnum_from(&v, 2) {
        return false;
    }
    proof {
        lemma_all_alnum_after_two(v@);
    }
    remainder(&v) == 1
}

/// Checks an IBAN. Spaces may stand anywhere in the text and are ignored.
pub fn is_valid(iban: &str) -> (ok: bool)
    ensures
        ok == valid(iban@),
{
    let compact = without_spaces(iban);
    is_valid_compact(compact.as_str())
}

/// A space put in at any place is gone again once spaces are removed.
pub proof fn lemma_strip_insert_space(s: Seq<char>, i: int)
    requires
        0 <= i <= s.len(),
    ensures
        strip_spaces(s.insert(i, ' ')) == strip_spaces(s),
{
    let head = s.subrange(0, i);
    let tail = s.subrange(i, s.len() as int);
    assert(s =~= head + tail);
    assert(head.push(' ').filter(kept()) == head.filter(kept())) by {
        reveal(Seq::filter);
        assert(head.push(' ').drop_last() =~= head);
    }
    Seq::filter_distributes_over_add(head.push(' '), tail, kept());
    Seq::filter_distributes_over_add(head, tail, kept());
}

/// Taking a space out changes nothing of what is left once spaces are
/// removed.
pub proof fn lemma_strip_remove_space(s: Seq<char>, i: int)
    requires
        0 <= i < s.len(),
        s[i] == ' ',
    ensures
        strip_spaces(s.remove(i)) == strip_spaces(s),
{
    assert(s.remove(i).insert(i, ' ') =~= s);
    lemma_strip_insert_space(s.remove(i), i);
}

/// Removing spaces from a text that has none gives the text back.
pub proof fn lemma_strip_compact(s: Seq<char>)
    requires
        forall|i: int| 0 <= i < s.len() ==> s[i] != ' ',
    ensures
        strip_spaces(s) == s,
    decreases s.len(),
{
    reveal(Seq::filter);
    if s.len() > 0 {
        lemma_strip_compact(s.drop_last());
        assert(s.drop_last().push(s.last()) =~= s);
    }
}

/// What is left once spaces are removed holds no space.
pub proof fn lemma_strip_has_no_space(s: Seq<char>)
    ensures
        forall|i: int| 0 <= i < strip_spaces(s).len() ==> strip_spaces(s)[i] != ' ',
{
    assert forall|i: int| 0 <= i < strip_spaces(s).len() implies strip_spaces(s)[i] != ' ' by {
        s.lemma_filter_pred(kept(), i);
    }
}

/// Removing spaces twice gives what removing them once gives.
pub proof fn lemma_strip_idempotent(s: Seq<char>)
    ensures
        strip_spaces(strip_spaces(s)) == strip_spaces(s),
{
    lemma_strip_has_no_space(s);
    lemma_strip_compact(strip_spaces(s));
}

/// An IBAN is valid exactly when it still is with its spaces removed, and
/// then it is valid as it stands.
pub proof fn lemma_valid_stripped(s: Seq<char>)
    ensures
        valid(strip_spaces(s)) == valid(s),
        valid_compact(strip_spaces(s)) == valid(s),
{
    lemma_strip_idempotent(s);
}

/// Whether an IBAN is valid does not depend on a space put into it, at the
/// start, at the end or between any two characters.
pub proof fn lemma_valid_insert_space(s: Seq<char>, i: int)
    requires
        0 <= i <= s.len(),
    ensures
        valid(s.insert(i, ' ')) == valid(s),
{
    lemma_strip_insert_space(s, i);
}

/// Whether an IBAN is valid does not depend on a space taken out of it.
pub proof fn lemma_valid_remove_space(s: Seq<char>, i: int)
    requires
        0 <= i < s.len(),
        s[i] == ' ',
    ensures
        valid(s.remove(i)) == valid(s),
{
    lemma_strip_remove_space(s, i);
}

/// Two texts that differ only in their spacing are both valid IBANs or
/// both not.
pub proof fn lemma_valid_ignores_spacing(a: Seq<char>, b: Seq<char>)
    requires
        strip_spaces(a) == strip_spaces(b),
    ensures
        valid(a) == valid(b),
{
}

/// The verdict depends on the characters of the text and on nothing else:
/// two texts that agree character by character are both valid or both not.
pub proof fn lemma_valid_deterministic(a: Seq<char>, b: Seq<char>)
    requires
        a.len() == b.len(),
        forall|i: int| 0 <= i < a.len() ==> a[i] == b[i],
    ensures
        valid(a) == valid(b),
{
    assert(a =~= b);
}

} // verus!
