//! Character-level scanning utilities shared by the header scanner and the
//! type mapper: substring matching, leftmost pattern search, identifier
//! runs, repeated prefix stripping, and separator splitting.
//!
//! Every executable function is specified against a recursive spec
//! function over `Seq<char>`, so the higher layers can state their
//! contracts purely in terms of the input text.

use vstd::prelude::*;
use vstd::string::*;

verus! {

/// The fixed library prefix stripped from declared names.
pub open spec fn lib_prefix() -> Seq<char> {
    seq!['I', 'm', 'G', 'u', 'i', '_']
}

/// `pat` occurs in `s` starting exactly at index `i`.
pub open spec fn matches_at(s: Seq<char>, i: int, pat: Seq<char>) -> bool {
    &&& 0 <= i
    &&& i + pat.len() <= s.len()
    &&& forall|j: int| 0 <= j < pat.len() ==> s[i + j] == #[trigger] pat[j]
}

/// The least index `k >= i` at which `pat` occurs in `s`, if any.
pub open spec fn first_match(s: Seq<char>, pat: Seq<char>, i: int) -> Option<int>
    decreases s.len() - i,
    when 0 <= i <= s.len()
{
    if i + pat.len() > s.len() {
        None
    } else if matches_at(s, i, pat) {
        Some(i)
    } else {
        first_match(s, pat, i + 1)
    }
}

/// `sub` occurs somewhere in `s`.
pub open spec fn contains_seq(s: Seq<char>, sub: Seq<char>) -> bool {
    first_match(s, sub, 0) is Some
}

pub proof fn lemma_first_match(s: Seq<char>, pat: Seq<char>, i: int)
    requires
        0 <= i <= s.len(),
    ensures
        match first_match(s, pat, i) {
            Some(k) => {
                &&& i <= k
                &&& k + pat.len() <= s.len()
                &&& matches_at(s, k, pat)
                &&& forall|j: int| i <= j < k ==> !matches_at(s, j, pat)
            },
            None => forall|j: int| i <= j ==> !matches_at(s, j, pat),
        },
    decreases s.len() - i,
{
    if i + pat.len() > s.len() {
    } else if matches_at(s, i, pat) {
    } else {
        lemma_first_match(s, pat, i + 1);
    }
}

/// Whether `c` belongs to an identifier (a "word" in the header patterns).
pub open spec fn is_word_char(c: char) -> bool {
    ||| 'a' <= c && c <= 'z'
    ||| 'A' <= c && c <= 'Z'
    ||| '0' <= c && c <= '9'
    ||| c == '_'
}

/// The end of the maximal run of word characters beginning at `i`.
pub open spec fn word_end(s: Seq<char>, i: int) -> int
    decreases s.len() - i,
    when 0 <= i <= s.len()
{
    if i < s.len() && is_word_char(s[i]) {
        word_end(s, i + 1)
    } else {
        i
    }
}

pub proof fn lemma_word_end(s: Seq<char>, i: int)
    requires
        0 <= i <= s.len(),
    ensures
        i <= word_end(s, i) <= s.len(),
        forall|j: int| i <= j < word_end(s, i) ==> is_word_char(s[j]),
        word_end(s, i) < s.len() ==> !is_word_char(s[word_end(s, i)]),
    decreases s.len() - i,
{
    if i < s.len() && is_word_char(s[i]) {
        lemma_word_end(s, i + 1);
    }
}

/// `s` with every leading occurrence of `pre` removed, repeatedly.
pub open spec fn strip_all(s: Seq<char>, pre: Seq<char>) -> Seq<char>
    decreases s.len(),
{
    if pre.len() > 0 && matches_at(s, 0, pre) {
        strip_all(s.subrange(pre.len() as int, s.len() as int), pre)
    } else {
        s
    }
}

/// `s` split on the leftmost occurrences of the (non-empty) separator
/// `sep`; the separator itself appears in no piece.
pub open spec fn split_by(s: Seq<char>, sep: Seq<char>) -> Seq<Seq<char>>
    decreases s.len(),
    when sep.len() > 0
    via split_by_decreases
{
    match first_match(s, sep, 0) {
        None => seq![s],
        Some(i) => seq![s.subrange(0, i)] + split_by(
            s.subrange(i + sep.len(), s.len() as int),
            sep,
        ),
    }
}

#[via_fn]
proof fn split_by_decreases(s: Seq<char>, sep: Seq<char>) {
    lemma_first_match(s, sep, 0);
}

/// Does `pat` occur in `s` at exactly position `i`?
pub fn check_at(s: &str, i: usize, pat: &str) -> (b: bool)
    ensures
        b == matches_at(s@, i as int, pat@),
{
    let n: usize = s.unicode_len();
    let m: usize = pat.unicode_len();
    if i > n || m > n - i {
        return false;
    }
    let mut j: usize = 0;
    while j < m
        invariant
            i + m <= n,
            n == s@.len(),
            m == pat@.len(),
            j <= m,
            forall|k: int| 0 <= k < j ==> s@[i + k] == #[trigger] pat@[k],
        decreases m - j,
    {
        if s.get_char(i + j) != pat.get_char(j) {
            return false;
        }
        j += 1;
    }
    true
}

/// The least index `k >= i` at which `pat` occurs in `s`, if any.
pub fn find_from(s: &str, i: usize, pat: &str) -> (r: Option<usize>)
    requires
        i <= s@.len(),
    ensures
        match r {
            Some(k) => first_match(s@, pat@, i as int) == Some(k as int),
            None => first_match(s@, pat@, i as int) is None,
        },
{
    let n: usize = s.unicode_len();
    let m: usize = pat.unicode_len();
    if m == 0 {
        assert(matches_at(s@, i as int, pat@));
        return Some(i);
    }
    if m > n {
        return None;
    }
    let mut j: usize = i;
    while j <= n - m
        invariant
            i <= j <= n,
            n == s@.len(),
            m == pat@.len(),
            1 <= m <= n,
            first_match(s@, pat@, i as int) == first_match(s@, pat@, j as int),
        decreases n - j,
    {
        if check_at(s, j, pat) {
            return Some(j);
        }
        j += 1;
    }
    assert(first_match(s@, pat@, j as int) is None);
    None
}

/// `sub` occurs somewhere in `s`.
pub fn contains_sub(s: &str, sub: &str) -> (b: bool)
    ensures
        b == contains_seq(s@, sub@),
{
    find_from(s, 0, sub).is_some()
}

/// The two strings hold the same characters.
pub fn str_eq(a: &str, b: &str) -> (r: bool)
    ensures
        r == (a@ == b@),
{
    let n: usize = a.unicode_len();
    if n != b.unicode_len() {
        return false;
    }
    let mut j: usize = 0;
    while j < n
        invariant
            n == a@.len(),
            n == b@.len(),
            j <= n,
            forall|k: int| 0 <= k < j ==> a@[k] == #[trigger] b@[k],
        decreases n - j,
    {
        if a.get_char(j) != b.get_char(j) {
            return false;
        }
        j += 1;
    }
    assert(a@ =~= b@);
    true
}

/// `s` with every leading occurrence of `pre` removed, repeatedly.
pub fn strip_prefix_repeated<'a>(s: &'a str, pre: &str) -> (r: &'a str)
    ensures
        r@ == strip_all(s@, pre@),
{
    let m: usize = pre.unicode_len();
    let mut cur: &str = s;
    loop
        invariant
            m == pre@.len(),
            strip_all(s@, pre@) == strip_all(cur@, pre@),
        decreases cur@.len() + 1,
    {
        if m > 0 && check_at(cur, 0, pre) {
            let l: usize = cur.unicode_len();
            cur = cur.substring_char(m, l);
        } else {
            return cur;
        }
    }
}

/// `s` split on the (non-empty) separator `sep`, as owned pieces.
pub fn split_string(s: &str, sep: &str) -> (r: Vec<String>)
    requires
        sep@.len() > 0,
    ensures
        r.deep_view() =~= split_by(s@, sep@),
{
    let mut pieces: Vec<String> = Vec::new();
    let mut cur: &str = s;
    loop
        invariant
            sep@.len() > 0,
            split_by(s@, sep@) =~= pieces.deep_view() + split_by(cur@, sep@),
        decreases cur@.len() + 1,
    {
        proof {
            lemma_first_match(cur@, sep@, 0);
        }
        match find_from(cur, 0, sep) {
            None => {
                pieces.push(cur.to_owned());
                assert(pieces.deep_view() =~= split_by(s@, sep@));
                return pieces;
            },
            Some(k) => {
                let piece: &str = cur.substring_char(0, k);
                pieces.push(piece.to_owned());
                let l: usize = cur.unicode_len();
                let m: usize = sep.unicode_len();
                let ghost old_cur = cur@;
                cur = cur.substring_char(k + m, l);
                assert(split_by(s@, sep@) =~= pieces.deep_view() + split_by(cur@, sep@)) by {
                    assert(split_by(old_cur, sep@) =~= seq![old_cur.subrange(0, k as int)]
                        + split_by(cur@, sep@));
                }
            },
        }
    }
}

} // verus!
