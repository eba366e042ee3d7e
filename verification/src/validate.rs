//! Syntactic checks on user-supplied identifiers: username and email shape,
//! and the table-name extraction used when reporting schema creation.

use vstd::prelude::*;

use vstd::string::StringSliceAdditionalSpecFns;
use vstd::utf8::encode_utf8;

verus! {

/// The length the validators bound: the UTF-8 byte length, as `str::len`
/// reports it.
pub open spec fn byte_len(s: Seq<char>) -> nat {
    encode_utf8(s).len()
}

/// A username is acceptable when it is 3 to 20 bytes long and contains
/// none of '@', '\' and '/'.
pub open spec fn valid_username(s: Seq<char>) -> bool {
    &&& 3 <= byte_len(s) <= 20
    &&& !s.contains('@')
    &&& !s.contains('\\')
    &&& !s.contains('/')
}

/// Position `k` holds the only '@' of `s`.
pub open spec fn sole_at_position(s: Seq<char>, k: int) -> bool {
    &&& 0 <= k < s.len()
    &&& s[k] == '@'
    &&& forall|j: int| 0 <= j < s.len() && s[j] == '@' ==> j == k
}

/// An email address is acceptable when it is 5 to 254 bytes long, contains
/// no space, backslash or slash, and has exactly one '@' that splits it into
/// a non-empty local part and a non-empty domain that contains a '.'.
/// This is a syntactic sanity filter, not full address validation.
pub open spec fn valid_email(s: Seq<char>) -> bool {
    &&& 5 <= byte_len(s) <= 254
    &&& !s.contains(' ')
    &&& !s.contains('\\')
    &&& !s.contains('/')
    &&& exists|k: int|
        #[trigger] sole_at_position(s, k) && 0 < k < s.len() - 1 && exists|j: int|
            k < j < s.len() && s[j] == '.'
}

/// An acceptable email contains an '@'; an acceptable username contains
/// none. A registered username can therefore never name another user's
/// email in a case-insensitive lookup.
pub proof fn lemma_valid_email_has_at(s: Seq<char>)
    requires
        valid_email(s),
    ensures
        s.contains('@'),
{
    let k = choose|k: int| #[trigger] sole_at_position(s, k) && 0 < k < s.len() - 1;
    assert(s[k] == '@');
}

pub fn is_valid_username(username: &str) -> (r: bool)
    ensures
        r == valid_username(username@),
{
    let bytes = username.as_bytes().len();
    proof {
        assert(username.spec_bytes().len() == byte_len(username@));
    }
    if bytes < 3 || bytes > 20 {
        return false;
    }
    let len = username.unicode_len();
    let mut i: usize = 0;
    while i < len
        invariant
            len == username@.len(),
            3 <= byte_len(username@) <= 20,
            i <= len,
            forall|j: int|
                0 <= j < i ==> username@[j] != '@' && username@[j] != '\\' && username@[j] != '/',
        decreases len - i,
    {
        let c = username.get_char(i);
        if c == '@' || c == '\\' || c == '/' {
            return false;
        }
        i = i + 1;
    }
    true
}

pub fn is_valid_email(email: &str) -> (r: bool)
    ensures
        r == valid_email(email@),
{
    let bytes = email.as_bytes().len();
    proof {
        assert(email.spec_bytes().len() == byte_len(email@));
    }
    if bytes < 5 || bytes > 254 {
        return false;
    }
    let len = email.unicode_len();
    let mut have_at = false;
    let mut at_pos: usize = 0;
    let mut i: usize = 0;
    while i < len
        invariant
            len == email@.len(),
            5 <= byte_len(email@) <= 254,
            i <= len,
            forall|j: int|
                0 <= j < i ==> email@[j] != ' ' && email@[j] != '\\' && email@[j] != '/',
            !have_at ==> forall|j: int| 0 <= j < i ==> email@[j] != '@',
            have_at ==> at_pos < i && email@[at_pos as int] == '@' && forall|j: int|
                0 <= j < i && j != at_pos ==> email@[j] != '@',
        decreases len - i,
    {
        let c = email.get_char(i);
        if c == ' ' || c == '\\' || c == '/' {
            return false;
        }
        if c == '@' {
            if have_at {
                proof {
                    assert forall|k: int| !sole_at_position(email@, k) by {
                        if sole_at_position(email@, k) {
                            assert(email@[at_pos as int] == '@');
                            assert(email@[i as int] == '@');
                        }
                    }
                }
                return false;
            }
            have_at = true;
            at_pos = i;
        }
        i = i + 1;
    }
    if !have_at {
        proof {
            assert forall|k: int| !sole_at_position(email@, k) by {}
        }
        return false;
    }
    if at_pos == 0 || at_pos == len - 1 {
        proof {
            assert forall|k: int| sole_at_position(email@, k) implies k == at_pos as int by {
                assert(email@[at_pos as int] == '@');
            }
        }
        return false;
    }
    let mut j: usize = at_pos + 1;
    while j < len
        invariant
            len == email@.len(),
            5 <= byte_len(email@) <= 254,
            at_pos + 1 <= j <= len,
            0 < at_pos < len - 1,
            sole_at_position(email@, at_pos as int),
            forall|m: int| 0 <= m < len ==> email@[m] != ' ' && email@[m] != '\\' && email@[m] != '/',
            forall|m: int| at_pos < m < j ==> email@[m] != '.',
        decreases len - j,
    {
        if email.get_char(j) == '.' {
            return true;
        }
        j = j + 1;
    }
    proof {
        assert forall|k: int| sole_at_position(email@, k) implies k == at_pos as int by {
            assert(email@[at_pos as int] == '@');
        }
    }
    false
}

} // verus!
