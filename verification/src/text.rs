//! Character-level helpers shared by the whole crate: whitespace scanning,
//! whitespace trimming (the credential store hands out trimmed values), and
//! string equality with a view-level contract.

use vstd::prelude::*;

verus! {

/// The whitespace characters that trimming removes and that the
/// token-response grammar allows between tokens.
pub open spec fn is_ws_char(c: char) -> bool {
    c == ' ' || c == '\t' || c == '\n' || c == '\r'
}

/// Index of the first character at or after `i` that is not whitespace
/// (or the end of the sequence).
pub open spec fn skip_ws(s: Seq<char>, i: int) -> int
    decreases s.len() - i,
{
    if 0 <= i < s.len() && is_ws_char(s[i]) {
        skip_ws(s, i + 1)
    } else {
        i
    }
}

pub proof fn lemma_skip_ws(s: Seq<char>, i: int)
    requires
        0 <= i <= s.len(),
    ensures
        i <= skip_ws(s, i) <= s.len(),
        forall|k: int| i <= k < skip_ws(s, i) ==> is_ws_char(s[k]),
        skip_ws(s, i) < s.len() ==> !is_ws_char(s[skip_ws(s, i)]),
    decreases s.len() - i,
{
    if 0 <= i < s.len() && is_ws_char(s[i]) {
        lemma_skip_ws(s, i + 1);
    }
}

/// Index that is left after removing whitespace from the right end of
/// `s.subrange(0, j)`.
pub open spec fn rtrim_idx(s: Seq<char>, j: int) -> int
    decreases j,
{
    if 0 < j <= s.len() && is_ws_char(s[j - 1]) {
        rtrim_idx(s, j - 1)
    } else {
        j
    }
}

pub proof fn lemma_rtrim_idx(s: Seq<char>, j: int)
    requires
        0 <= j <= s.len(),
    ensures
        0 <= rtrim_idx(s, j) <= j,
    decreases j,
{
    if 0 < j <= s.len() && is_ws_char(s[j - 1]) {
        lemma_rtrim_idx(s, j - 1);
    }
}

/// `s` with leading and trailing whitespace removed.
pub open spec fn trim_spec(s: Seq<char>) -> Seq<char> {
    let a = skip_ws(s, 0);
    let b = rtrim_idx(s, s.len() as int);
    if a < b {
        s.subrange(a, b)
    } else {
        Seq::empty()
    }
}

fn char_is_ws(c: char) -> (b: bool)
    ensures
        b == is_ws_char(c),
{
    c == ' ' || c == '\t' || c == '\n' || c == '\r'
}

/// First index at or after `i` holding a non-whitespace character.
pub fn skip_ws_exec(s: &str, i: usize) -> (r: usize)
    requires
        i <= s@.len(),
    ensures
        r as int == skip_ws(s@, i as int),
        i <= r <= s@.len(),
{
    let n = s.unicode_len();
    let mut j = i;
    while j < n && char_is_ws(s.get_char(j))
        invariant
            i <= j <= n,
            n == s@.len(),
            skip_ws(s@, i as int) == skip_ws(s@, j as int),
        decreases n - j,
    {
        proof {
            assert(skip_ws(s@, j as int) == skip_ws(s@, j + 1));
        }
        j = j + 1;
    }
    proof {
        assert(skip_ws(s@, j as int) == j);
    }
    j
}

/// Removes the whitespace characters of `is_ws_char` from both ends.
///
/// The credential store contract says every stored value is surrounded by
/// no whitespace; this is the function that enforces it.
pub fn trim(s: &str) -> (r: String)
    ensures
        r@ == trim_spec(s@),
{
    let n = s.unicode_len();
    let a = skip_ws_exec(s, 0);
    let mut b = n;
    while b > a && char_is_ws(s.get_char(b - 1))
        invariant
            a <= b <= n,
            n == s@.len(),
            a == skip_ws(s@, 0),
            rtrim_idx(s@, n as int) == rtrim_idx(s@, b as int),
        decreases b,
    {
        proof {
            assert(rtrim_idx(s@, b as int) == rtrim_idx(s@, b - 1));
        }
        b = b - 1;
    }
    let sub = s.substring_char(a, b);
    let r = String::from_str(sub);
    proof {
        if b > a {
            assert(rtrim_idx(s@, b as int) == b as int);
            assert(r@ =~= trim_spec(s@));
        } else {
            lemma_rtrim_idx(s@, a as int);
            assert(rtrim_idx(s@, n as int) <= a);
            assert(r@ =~= trim_spec(s@));
        }
    }
    r
}

/// True exactly when the two strings hold the same characters.
pub fn str_eq(a: &str, b: &str) -> (r: bool)
    ensures
        r == (a@ == b@),
{
    let na = a.unicode_len();
    let nb = b.unicode_len();
    if na != nb {
        return false;
    }
    let mut i: usize = 0;
    while i < na
        invariant
            0 <= i <= na,
            na as int == a@.len(),
            nb as int == b@.len(),
            na == nb,
            forall|k: int| 0 <= k < i ==> a@[k] == b@[k],
        decreases na - i,
    {
        if a.get_char(i) != b.get_char(i) {
            return false;
        }
        i = i + 1;
    }
    proof {
        assert(a@ =~= b@);
    }
    true
}

} // verus!
