//! Chain identifiers and their case normalization.
//!
//! A chain identifier is a CAIP-2-style string token (e.g. `eip155:1`)
//! compared case-insensitively: every lookup normalizes to ASCII lowercase
//! before comparison, and supported-chains tables store their keys already
//! lowercased.

use vstd::prelude::*;

verus! {

/// Whether `c` is an ASCII uppercase letter.
pub open spec fn is_ascii_upper(c: char) -> bool {
    65 <= c as u32 && c as u32 <= 90
}

/// ASCII lowercasing of one character; anything outside `A`..`Z` is fixed.
pub open spec fn lower_char(c: char) -> char {
    if is_ascii_upper(c) {
        ((c as u32) + 32) as char
    } else {
        c
    }
}

/// ASCII lowercasing of a whole identifier, character by character.
pub open spec fn lower_seq(s: Seq<char>) -> Seq<char> {
    s.map_values(|c: char| lower_char(c))
}

/// The code point of `lower_char(c)`, computed without building a `char`.
pub fn lower_code(c: char) -> (r: u32)
    ensures
        r == lower_char(c) as u32,
{
    let u = c as u32;
    if 65 <= u && u <= 90 {
        u + 32
    } else {
        u
    }
}

/// Whether two identifiers are equal after ASCII lowercasing.
pub fn eq_ignore_case(a: &str, b: &str) -> (r: bool)
    ensures
        r == (lower_seq(a@) == lower_seq(b@)),
{
    let alen = a.unicode_len();
    let blen = b.unicode_len();
    if alen != blen {
        assert(lower_seq(a@).len() != lower_seq(b@).len());
        return false;
    }
    for i in 0..alen
        invariant
            alen == a@.len(),
            alen == blen,
            blen == b@.len(),
            forall|j: int| 0 <= j < i ==> lower_char(a@[j]) == lower_char(b@[j]),
    {
        let ca = a.get_char(i);
        let cb = b.get_char(i);
        if lower_code(ca) != lower_code(cb) {
            assert(lower_seq(a@)[i as int] != lower_seq(b@)[i as int]);
            return false;
        }
    }
    proof {
        assert(lower_seq(a@) =~= lower_seq(b@));
    }
    true
}

/// Whether an identifier is already in its normalized (lowercased) form.
pub fn is_normalized(s: &str) -> (r: bool)
    ensures
        r == (lower_seq(s@) == s@),
{
    let len = s.unicode_len();
    for i in 0..len
        invariant
            len == s@.len(),
            forall|j: int| 0 <= j < i ==> lower_char(s@[j]) == s@[j],
    {
        let c = s.get_char(i);
        if lower_code(c) != c as u32 {
            assert(lower_seq(s@)[i as int] != s@[i as int]);
            return false;
        }
    }
    proof {
        assert(lower_seq(s@) =~= s@);
    }
    true
}

/// Lowercasing is idempotent: normalizing an already-normalized identifier
/// changes nothing, so a chain identifier may safely be normalized both at
/// the dispatch boundary and inside a provider's own lookup.
pub proof fn lemma_lower_idempotent(s: Seq<char>)
    ensures
        lower_seq(lower_seq(s)) == lower_seq(s),
{
    assert forall|i: int| 0 <= i < s.len() implies #[trigger] lower_seq(lower_seq(s))[i]
        == lower_seq(s)[i] by {
        let c = s[i];
        assert(lower_seq(s)[i] == lower_char(c));
        if is_ascii_upper(c) {
            assert(lower_char(c) as u32 == c as u32 + 32);
            assert(!is_ascii_upper(lower_char(c)));
        }
    }
    assert(lower_seq(lower_seq(s)) =~= lower_seq(s));
}

} // verus!
