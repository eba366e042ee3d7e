//! Extracting the table name from a DDL statement for reporting: the first
//! whitespace-separated word that is not one of the protected SQL keywords,
//! cut at its first '(' when it runs into the column list.

use vstd::prelude::*;

verus! {

/// Whitespace as the statement scanner splits on.
pub open spec fn is_space(c: char) -> bool {
    c == ' ' || c == '\t' || c == '\n' || c == '\r'
}

fn is_space_char(c: char) -> (r: bool)
    ensures
        r == is_space(c),
{
    c == ' ' || c == '\t' || c == '\n' || c == '\r'
}

/// ASCII uppercase of one character; any other character is unchanged.
pub open spec fn upper_char(c: char) -> char {
    if 'a' <= c && c <= 'z' {
        (((c as u8) - 32) as char)
    } else {
        c
    }
}

/// ASCII uppercase of a character sequence.
pub open spec fn upper_seq(s: Seq<char>) -> Seq<char> {
    s.map_values(|c: char| upper_char(c))
}

fn to_upper(c: char) -> (r: char)
    ensures
        r == upper_char(c),
{
    if 'a' <= c && c <= 'z' {
        ((c as u8) - 32) as char
    } else {
        c
    }
}

/// Length of the leading run of non-space characters.
pub open spec fn word_len(s: Seq<char>) -> nat
    decreases s.len(),
{
    if s.len() == 0 || is_space(s[0]) {
        0
    } else {
        (1 + word_len(s.skip(1))) as nat
    }
}

pub proof fn lemma_word_len_le(s: Seq<char>)
    ensures
        word_len(s) <= s.len(),
    decreases s.len(),
{
    if s.len() > 0 && !is_space(s[0]) {
        lemma_word_len_le(s.skip(1));
    }
}

proof fn lemma_word_len_eq(s: Seq<char>, k: int)
    requires
        0 <= k <= s.len(),
        forall|m: int| 0 <= m < k ==> !is_space(s[m]),
        k == s.len() || is_space(s[k]),
    ensures
        word_len(s) == k,
    decreases k,
{
    if k > 0 {
        lemma_word_len_eq(s.skip(1), k - 1);
    }
}

/// The whitespace-separated words of a statement, in order.
pub open spec fn words(s: Seq<char>) -> Seq<Seq<char>>
    decreases s.len(),
    via words_decreases
{
    if s.len() == 0 {
        Seq::empty()
    } else if is_space(s[0]) {
        words(s.skip(1))
    } else {
        seq![s.take(word_len(s) as int)] + words(s.skip(word_len(s) as int))
    }
}

#[via_fn]
proof fn words_decreases(s: Seq<char>) {
    if s.len() > 0 && !is_space(s[0]) {
        lemma_word_len_le(s);
    }
}

/// The SQL keywords that are never taken as a table name.
pub open spec fn is_protected_word(w: Seq<char>) -> bool {
    ||| upper_seq(w) == "CREATE"@
    ||| upper_seq(w) == "TABLE"@
    ||| upper_seq(w) == "INDEX"@
    ||| upper_seq(w) == "IF"@
    ||| upper_seq(w) == "NOT"@
    ||| upper_seq(w) == "EXISTS"@
    ||| upper_seq(w) == "TEMPORARY"@
    ||| upper_seq(w) == "TEMP"@
    ||| upper_seq(w) == "UNIQUE"@
    ||| upper_seq(w) == "PRIMARY"@
    ||| upper_seq(w) == "KEY"@
    ||| upper_seq(w) == "FOREIGN"@
    ||| upper_seq(w) == "REFERENCES"@
    ||| upper_seq(w) == "ON"@
    ||| upper_seq(w) == "CONSTRAINT"@
    ||| upper_seq(w) == "CHECK"@
}

/// The first word that is not a protected keyword, if any.
pub open spec fn first_unprotected(ws: Seq<Seq<char>>) -> Option<Seq<char>>
    decreases ws.len(),
{
    if ws.len() == 0 {
        None
    } else if !is_protected_word(ws[0]) {
        Some(ws[0])
    } else {
        first_unprotected(ws.skip(1))
    }
}

/// The word up to (excluding) its first '(', or whole if it has none.
pub open spec fn paren_prefix(w: Seq<char>) -> Seq<char>
    decreases w.len(),
{
    if w.len() == 0 {
        w
    } else if w[0] == '(' {
        Seq::empty()
    } else {
        seq![w[0]] + paren_prefix(w.skip(1))
    }
}

proof fn lemma_paren_prefix_take(w: Seq<char>, p: int)
    requires
        0 <= p <= w.len(),
        forall|m: int| 0 <= m < p ==> w[m] != '(',
        p == w.len() || w[p] == '(',
    ensures
        paren_prefix(w) == w.take(p),
    decreases w.len(),
{
    if p == 0 {
        assert(w.take(0) =~= paren_prefix(w));
    } else {
        lemma_paren_prefix_take(w.skip(1), p - 1);
        assert(seq![w[0]] + w.skip(1).take(p - 1) =~= w.take(p));
    }
}

/// The name the scanner reports for a statement.
pub open spec fn table_name_spec(s: Seq<char>) -> Seq<char> {
    match first_unprotected(words(s)) {
        Some(w) => paren_prefix(w),
        None => "Unknown"@,
    }
}

/// Whether the uppercase form of `w` equals `lit` exactly.
fn upper_eq(w: &str, lit: &str) -> (r: bool)
    ensures
        r == (upper_seq(w@) == lit@),
{
    let wl = w.unicode_len();
    let ll = lit.unicode_len();
    if wl != ll {
        proof {
            assert(upper_seq(w@).len() == w@.len());
        }
        return false;
    }
    let mut i: usize = 0;
    while i < wl
        invariant
            wl == w@.len(),
            wl == lit@.len(),
            i <= wl,
            forall|j: int| 0 <= j < i ==> upper_char(w@[j]) == lit@[j],
        decreases wl - i,
    {
        if to_upper(w.get_char(i)) != lit.get_char(i) {
            proof {
                assert(upper_seq(w@)[i as int] != lit@[i as int]);
            }
            return false;
        }
        i = i + 1;
    }
    proof {
        assert(upper_seq(w@) =~= lit@);
    }
    true
}

fn is_protected(w: &str) -> (r: bool)
    ensures
        r == is_protected_word(w@),
{
    upper_eq(w, "CREATE") || upper_eq(w, "TABLE") || upper_eq(w, "INDEX") || upper_eq(w, "IF")
        || upper_eq(w, "NOT") || upper_eq(w, "EXISTS") || upper_eq(w, "TEMPORARY") || upper_eq(
        w,
        "TEMP",
    ) || upper_eq(w, "UNIQUE") || upper_eq(w, "PRIMARY") || upper_eq(w, "KEY") || upper_eq(
        w,
        "FOREIGN",
    ) || upper_eq(w, "REFERENCES") || upper_eq(w, "ON") || upper_eq(w, "CONSTRAINT") || upper_eq(
        w,
        "CHECK",
    )
}

/// Scans a DDL statement for the name it creates: the first word that is
/// not a protected keyword, cut before its first '('; "Unknown" when every
/// word is protected.
pub fn table_name_from_statement(statement: &str) -> (r: &str)
    ensures
        r@ == table_name_spec(statement@),
{
    let len = statement.unicode_len();
    let ghost s = statement@;
    let mut i: usize = 0;
    proof {
        assert(s.skip(0) =~= s);
    }
    while i < len
        invariant
            len == s.len(),
            s == statement@,
            i <= len,
            first_unprotected(words(s)) == first_unprotected(words(s.skip(i as int))),
        decreases len - i,
    {
        let c = statement.get_char(i);
        if is_space_char(c) {
            proof {
                assert(s.skip(i as int)[0] == s[i as int]);
                assert(s.skip(i as int).skip(1) =~= s.skip(i + 1));
            }
            i = i + 1;
            continue ;
        }
        let mut j: usize = i + 1;
        while j < len && !is_space_char(statement.get_char(j))
            invariant
                len == s.len(),
                s == statement@,
                i < j <= len,
                forall|m: int| i <= m < j ==> !is_space(s[m]),
            decreases len - j,
        {
            j = j + 1;
        }
        let word = statement.substring_char(i, j);
        proof {
            let tail = s.skip(i as int);
            assert forall|m: int| 0 <= m < j - i implies !is_space(tail[m]) by {
                assert(tail[m] == s[m + i]);
            }
            if j < len {
                assert(tail[j - i] == s[j as int]);
            }
            lemma_word_len_eq(tail, j - i);
            assert(tail.take(j - i) =~= s.subrange(i as int, j as int));
            assert(tail.skip(j - i) =~= s.skip(j as int));
            assert(words(tail) == seq![word@] + words(s.skip(j as int)));
            assert((seq![word@] + words(s.skip(j as int)))[0] == word@);
            assert((seq![word@] + words(s.skip(j as int))).skip(1) =~= words(s.skip(j as int)));
        }
        if !is_protected(word) {
            let wlen = word.unicode_len();
            let mut p: usize = 0;
            while p < wlen && word.get_char(p) != '('
                invariant
                    wlen == word@.len(),
                    p <= wlen,
                    forall|m: int| 0 <= m < p ==> word@[m] != '(',
                decreases wlen - p,
            {
                p = p + 1;
            }
            let prefix = word.substring_char(0, p);
            proof {
                lemma_paren_prefix_take(word@, p as int);
                assert(word@.take(p as int) =~= word@.subrange(0, p as int));
                assert(first_unprotected(words(s)) == Some(word@));
            }
            return prefix;
        }
        i = j;
    }
    proof {
        assert(s.skip(i as int) =~= Seq::<char>::empty());
        assert(words(s.skip(i as int)) == Seq::<Seq<char>>::empty());
    }
    "Unknown"
}

} // verus!
