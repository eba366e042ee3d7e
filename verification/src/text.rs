//! Character-level string helpers: exact and ASCII-case-insensitive
//! comparison, shared by the stores and the statement scanner.

use vstd::prelude::*;

verus! {

/// ASCII lowercase of one character; any other character is unchanged.
pub open spec fn lower_char(c: char) -> char {
    if 'A' <= c && c <= 'Z' {
        (((c as u8) + 32) as char)
    } else {
        c
    }
}

/// ASCII lowercase of a character sequence.
pub open spec fn lower_seq(s: Seq<char>) -> Seq<char> {
    s.map_values(|c: char| lower_char(c))
}

/// ASCII-case-insensitive equality of two character sequences.
pub open spec fn eq_ci(a: Seq<char>, b: Seq<char>) -> bool {
    lower_seq(a) == lower_seq(b)
}

pub proof fn lemma_eq_ci_refl(a: Seq<char>)
    ensures
        eq_ci(a, a),
{
}

/// Case folding touches only letters, so it preserves where '@' occurs:
/// two case-insensitively equal strings contain '@' alike.
pub proof fn lemma_eq_ci_at_sign(a: Seq<char>, b: Seq<char>)
    requires
        eq_ci(a, b),
    ensures
        a.contains('@') <==> b.contains('@'),
{
    assert(lower_seq(a).len() == a.len());
    assert(lower_seq(b).len() == b.len());
    assert forall|s: Seq<char>, i: int| 0 <= i < s.len() implies (#[trigger] lower_seq(s)[i] == '@'
        <==> s[i] == '@') by {
        if 'A' <= s[i] && s[i] <= 'Z' {
            assert(lower_seq(s)[i] == lower_char(s[i]));
            assert(lower_char(s[i]) != '@');
        } else {
            assert(lower_seq(s)[i] == s[i]);
        }
    }
    if a.contains('@') {
        let i = choose|i: int| 0 <= i < a.len() && a[i] == '@';
        assert(lower_seq(a)[i] == '@');
        assert(lower_seq(b)[i] == '@');
        assert(b[i] == '@');
    }
    if b.contains('@') {
        let i = choose|i: int| 0 <= i < b.len() && b[i] == '@';
        assert(lower_seq(b)[i] == '@');
        assert(lower_seq(a)[i] == '@');
        assert(a[i] == '@');
    }
}

fn to_lower(c: char) -> (r: char)
    ensures
        r == lower_char(c),
{
    if 'A' <= c && c <= 'Z' {
        ((c as u8) + 32) as char
    } else {
        c
    }
}

/// Exact string equality.
pub fn str_eq(a: &str, b: &str) -> (r: bool)
    ensures
        r == (a@ == b@),
{
    let alen = a.unicode_len();
    let blen = b.unicode_len();
    if alen != blen {
        return false;
    }
    let mut i: usize = 0;
    while i < alen
        invariant
            alen == a@.len(),
            alen == b@.len(),
            i <= alen,
            forall|j: int| 0 <= j < i ==> a@[j] == b@[j],
        decreases alen - i,
    {
        if a.get_char(i) != b.get_char(i) {
            return false;
        }
        i = i + 1;
    }
    proof {
        assert(a@ =~= b@);
    }
    true
}

/// ASCII-case-insensitive string equality.
pub fn str_eq_ci(a: &str, b: &str) -> (r: bool)
    ensures
        r == eq_ci(a@, b@),
{
    let alen = a.unicode_len();
    let blen = b.unicode_len();
    if alen != blen {
        proof {
            assert(lower_seq(a@).len() == a@.len());
            assert(lower_seq(b@).len() == b@.len());
        }
        return false;
    }
    let mut i: usize = 0;
    while i < alen
        invariant
            alen == a@.len(),
            alen == b@.len(),
            i <= alen,
            forall|j: int| 0 <= j < i ==> lower_char(a@[j]) == lower_char(b@[j]),
        decreases alen - i,
    {
        if to_lower(a.get_char(i)) != to_lower(b.get_char(i)) {
            proof {
                assert(lower_seq(a@)[i as int] != lower_seq(b@)[i as int]);
            }
            return false;
        }
        i = i + 1;
    }
    proof {
        assert(lower_seq(a@) =~= lower_seq(b@));
    }
    true
}

} // verus!
