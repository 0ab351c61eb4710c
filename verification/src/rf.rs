//! Structured creditor references (ISO 11649).

use crate::checksum::{
    all_alnum, all_alnum_from, checksum_ok, lemma_all_alnum_after_two, remainder,
};
use crate::text::chars_of;
use vstd::prelude::*;

verus! {

/// The shape of a creditor reference: 5 to 25 characters, the letters `RF`
/// first, then digits and upper-case letters only.
pub open spec fn shape_ok(s: Seq<char>) -> bool {
    &&& 5 <= s.len() <= 25
    &&& s[0] == 'R'
    &&& s[1] == 'F'
    &&& all_alnum(s.skip(2))
}

/// A valid creditor reference has the right shape and passes the mod-97
/// check.
pub open spec fn valid(s: Seq<char>) -> bool {
    shape_ok(s) && checksum_ok(s)
}

/// Checks a structured creditor reference. The text is taken as it is:
/// spaces are not removed.
pub fn is_valid(reference: &str) -> (ok: bool)
    ensures
        ok == valid(reference@),
{
    let v = chars_of(reference);
    let len = v.len();
    if len < 5 || len > 25 {
        return false;
    }
    if v[0] != 'R' || v[1] != 'F' {
        return false;
    }
    if !all_alnum_from(&v, 2) {
        return false;
    }
    proof {
        lemma_all_alnum_after_two(v@);
    }
    remainder(&v) == 1
}

/// The verdict depends on the characters of the text and on nothing else:
/// two texts that agree character by character are both valid or both not.
pub proof fn lemma_valid_deterministic(a: Seq<char>, b: Seq<char>)
    requires
        a.len() == b.len(),
        forall|i: int| 0 <= i < a.len() ==> a[i] == b[i],
    ensures
        valid(a) == valid(b),
{
    assert(a =~= b);
}

} // verus!
