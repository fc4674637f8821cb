//! The provider's token-endpoint response: the `TokenSet` record and a
//! verified parser for the JSON body that carries it.
//!
//! The accepted grammar is the JSON object
//! `{"access_token": str, "refresh_token": str, "expires_in": int,
//!   "scope": [str, ...], "token_type": str}`
//! with the five members in any order, each exactly once, with ASCII
//! whitespace allowed between tokens. A string holds any characters other
//! than a double quote; a number is one to eighteen decimal digits. Any
//! other body is a parse failure.

use vstd::prelude::*;

use crate::text::is_ws_char;
use crate::text::lemma_skip_ws;
use crate::text::skip_ws;
use crate::text::skip_ws_exec;
use crate::text::str_eq;

verus! {

/// The parsed result of a token-endpoint call.
pub struct TokenSet {
    pub access_token: String,
    pub refresh_token: String,
    pub expires_in: i64,
    pub scope: Vec<String>,
    pub token_type: String,
}

/// Mathematical image of a `TokenSet`.
pub ghost struct TokenSetView {
    pub access_token: Seq<char>,
    pub refresh_token: Seq<char>,
    pub expires_in: int,
    pub scope: Seq<Seq<char>>,
    pub token_type: Seq<char>,
}

impl View for TokenSet {
    type V = TokenSetView;

    open spec fn view(&self) -> TokenSetView {
        TokenSetView {
            access_token: self.access_token@,
            refresh_token: self.refresh_token@,
            expires_in: self.expires_in as int,
            scope: self.scope.deep_view(),
            token_type: self.token_type@,
        }
    }
}

pub open spec fn is_digit_char(c: char) -> bool {
    48 <= c as u32 <= 57
}

pub open spec fn pow10(n: nat) -> int
    decreases n,
{
    if n == 0 {
        1
    } else {
        10 * pow10((n - 1) as nat)
    }
}

pub proof fn lemma_pow10_mono(m: nat, n: nat)
    requires
        m <= n,
    ensures
        1 <= pow10(m) <= pow10(n),
    decreases n,
{
    if n > 0 {
        if m == n {
            lemma_pow10_mono((n - 1) as nat, (n - 1) as nat);
        } else {
            lemma_pow10_mono(m, (n - 1) as nat);
        }
    }
}

pub proof fn lemma_pow10_18()
    ensures
        pow10(17) == 100_000_000_000_000_000,
        pow10(18) == 1_000_000_000_000_000_000,
{
    reveal_with_fuel(pow10, 20);
}

/// Index of the first '"' at or after `i`, if any.
pub open spec fn str_end(s: Seq<char>, i: int) -> Option<int>
    decreases s.len() - i,
{
    if !(0 <= i < s.len()) {
        None
    } else if s[i] == '"' {
        Some(i)
    } else {
        str_end(s, i + 1)
    }
}

pub proof fn lemma_str_end(s: Seq<char>, i: int)
    requires
        0 <= i <= s.len(),
    ensures
        str_end(s, i) matches Some(e) ==> i <= e < s.len() && s[e] == '"',
    decreases s.len() - i,
{
    if 0 <= i < s.len() && s[i] != '"' {
        lemma_str_end(s, i + 1);
    }
}

/// A JSON string at `i`: a '"', any characters other than '"', a closing
/// '"'. Yields the characters between the quotes and the index after the
/// closing quote.
pub open spec fn parse_string_at(s: Seq<char>, i: int) -> Option<(Seq<char>, int)> {
    if 0 <= i < s.len() && s[i] == '"' {
        match str_end(s, i + 1) {
            Some(e) => Some((s.subrange(i + 1, e), e + 1)),
            None => None,
        }
    } else {
        None
    }
}

pub proof fn lemma_parse_string_at(s: Seq<char>, i: int)
    requires
        0 <= i <= s.len(),
    ensures
        parse_string_at(s, i) matches Some(r) ==> i + 2 <= r.1 <= s.len(),
{
    if 0 <= i < s.len() && s[i] == '"' {
        lemma_str_end(s, i + 1);
    }
}

/// Index of the first non-digit at or after `i`.
pub open spec fn digits_end(s: Seq<char>, i: int) -> int
    decreases s.len() - i,
{
    if 0 <= i < s.len() && is_digit_char(s[i]) {
        digits_end(s, i + 1)
    } else {
        i
    }
}

pub proof fn lemma_digits_end(s: Seq<char>, i: int)
    requires
        0 <= i <= s.len(),
    ensures
        i <= digits_end(s, i) <= s.len(),
        forall|k: int| i <= k < digits_end(s, i) ==> is_digit_char(s[k]),
    decreases s.len() - i,
{
    if 0 <= i < s.len() && is_digit_char(s[i]) {
        lemma_digits_end(s, i + 1);
    }
}

/// Value of the decimal digit run `s[i .. j)`.
pub open spec fn digits_val(s: Seq<char>, i: int, j: int) -> int
    decreases j - i,
{
    if i < j {
        digits_val(s, i, j - 1) * 10 + (s[j - 1] as u32 - 48)
    } else {
        0
    }
}

/// A number at `i`: one to eighteen decimal digits (so its value always
/// fits a signed 64-bit integer). Yields the value and the index after the
/// last digit.
pub open spec fn parse_number_at(s: Seq<char>, i: int) -> Option<(int, int)> {
    let j = digits_end(s, i);
    if 1 <= j - i <= 18 {
        Some((digits_val(s, i, j), j))
    } else {
        None
    }
}

pub proof fn lemma_parse_number_at(s: Seq<char>, i: int)
    requires
        0 <= i <= s.len(),
    ensures
        parse_number_at(s, i) matches Some(r) ==> i + 1 <= r.1 <= s.len(),
{
    lemma_digits_end(s, i);
}

/// The members of a string array after its first element: a possibly empty
/// run of `, "elem"` followed by `]`, with whitespace between tokens.
pub open spec fn parse_array_rest(s: Seq<char>, i: int, acc: Seq<Seq<char>>) -> Option<
    (Seq<Seq<char>>, int),
>
    decreases s.len() - i,
{
    if !(0 <= i <= s.len()) {
        None
    } else {
        let k = skip_ws(s, i);
        if k < s.len() && s[k] == ']' {
            Some((acc, k + 1))
        } else if k < s.len() && s[k] == ',' {
            let k2 = skip_ws(s, k + 1);
            match parse_string_at(s, k2) {
                Some(r) => {
                    proof {
                        lemma_skip_ws(s, i);
                        lemma_skip_ws(s, k + 1);
                        lemma_parse_string_at(s, k2);
                    }
                    parse_array_rest(s, r.1, acc.push(r.0))
                },
                None => None,
            }
        } else {
            None
        }
    }
}

pub proof fn lemma_parse_array_rest(s: Seq<char>, i: int, acc: Seq<Seq<char>>)
    requires
        0 <= i <= s.len(),
    ensures
        parse_array_rest(s, i, acc) matches Some(r) ==> i < r.1 <= s.len(),
    decreases s.len() - i,
{
    let k = skip_ws(s, i);
    lemma_skip_ws(s, i);
    if k < s.len() && s[k] == ']' {
    } else if k < s.len() && s[k] == ',' {
        let k2 = skip_ws(s, k + 1);
        lemma_skip_ws(s, k + 1);
        lemma_parse_string_at(s, k2);
        match parse_string_at(s, k2) {
            Some(r) => {
                lemma_parse_array_rest(s, r.1, acc.push(r.0));
            },
            None => {},
        }
    }
}

/// A JSON array of strings at `i`.
pub open spec fn parse_array_at(s: Seq<char>, i: int) -> Option<(Seq<Seq<char>>, int)> {
    if 0 <= i < s.len() && s[i] == '[' {
        let k = skip_ws(s, i + 1);
        if k < s.len() && s[k] == ']' {
            Some((Seq::empty(), k + 1))
        } else {
            match parse_string_at(s, k) {
                Some(r) => parse_array_rest(s, r.1, seq![r.0]),
                None => None,
            }
        }
    } else {
        None
    }
}

pub proof fn lemma_parse_array_at(s: Seq<char>, i: int)
    requires
        0 <= i <= s.len(),
    ensures
        parse_array_at(s, i) matches Some(r) ==> i < r.1 <= s.len(),
{
    if 0 <= i < s.len() && s[i] == '[' {
        let k = skip_ws(s, i + 1);
        lemma_skip_ws(s, i + 1);
        if k < s.len() && s[k] == ']' {
        } else {
            lemma_parse_string_at(s, k);
            match parse_string_at(s, k) {
                Some(r) => {
                    lemma_parse_array_rest(s, r.1, seq![r.0]);
                },
                None => {},
            }
        }
    }
}

/// The fields of the response object that have been read so far.
pub ghost struct PartialTokens {
    pub access_token: Option<Seq<char>>,
    pub refresh_token: Option<Seq<char>>,
    pub expires_in: Option<int>,
    pub scope: Option<Seq<Seq<char>>>,
    pub token_type: Option<Seq<char>>,
}

pub open spec fn empty_partial() -> PartialTokens {
    PartialTokens {
        access_token: None,
        refresh_token: None,
        expires_in: None,
        scope: None,
        token_type: None,
    }
}

/// One `"key": value` member at `i`. The key must be one of the five
/// members of the schema, not yet seen, and its value must have that
/// member's type.
pub open spec fn parse_member(s: Seq<char>, i: int, acc: PartialTokens) -> Option<
    (PartialTokens, int),
> {
    match parse_string_at(s, i) {
        Some(kr) => {
            let k = skip_ws(s, kr.1);
            if k < s.len() && s[k] == ':' {
                let k2 = skip_ws(s, k + 1);
                if kr.0 == "access_token"@ {
                    if acc.access_token is Some {
                        None
                    } else {
                        match parse_string_at(s, k2) {
                            Some(r) => Some(
                                (PartialTokens { access_token: Some(r.0), ..acc }, r.1),
                            ),
                            None => None,
                        }
                    }
                } else if kr.0 == "refresh_token"@ {
                    if acc.refresh_token is Some {
                        None
                    } else {
                        match parse_string_at(s, k2) {
                            Some(r) => Some(
                                (PartialTokens { refresh_token: Some(r.0), ..acc }, r.1),
                            ),
                            None => None,
                        }
                    }
                } else if kr.0 == "expires_in"@ {
                    if acc.expires_in is Some {
                        None
                    } else {
                        match parse_number_at(s, k2) {
                            Some(r) => Some((PartialTokens { expires_in: Some(r.0), ..acc }, r.1)),
                            None => None,
                        }
                    }
                } else if kr.0 == "scope"@ {
                    if acc.scope is Some {
                        None
                    } else {
                        match parse_array_at(s, k2) {
                            Some(r) => Some((PartialTokens { scope: Some(r.0), ..acc }, r.1)),
                            None => None,
                        }
                    }
                } else if kr.0 == "token_type"@ {
                    if acc.token_type is Some {
                        None
                    } else {
                        match parse_string_at(s, k2) {
                            Some(r) => Some((PartialTokens { token_type: Some(r.0), ..acc }, r.1)),
                            None => None,
                        }
                    }
                } else {
                    None
                }
            } else {
                None
            }
        },
        None => None,
    }
}

pub proof fn lemma_parse_member(s: Seq<char>, i: int, acc: PartialTokens)
    requires
        0 <= i <= s.len(),
    ensures
        parse_member(s, i, acc) matches Some(r) ==> i < r.1 <= s.len(),
{
    lemma_parse_string_at(s, i);
    match parse_string_at(s, i) {
        Some(kr) => {
            let k = skip_ws(s, kr.1);
            lemma_skip_ws(s, kr.1);
            if k < s.len() && s[k] == ':' {
                let k2 = skip_ws(s, k + 1);
                lemma_skip_ws(s, k + 1);
                lemma_parse_string_at(s, k2);
                lemma_parse_number_at(s, k2);
                lemma_parse_array_at(s, k2);
            }
        },
        None => {},
    }
}

/// A run of object members starting at `i`, continued by commas and closed
/// by '}'. Yields the collected fields and the index after the '}'.
pub open spec fn parse_members(s: Seq<char>, i: int, acc: PartialTokens) -> Option<
    (PartialTokens, int),
>
    decreases s.len() - i,
{
    if !(0 <= i <= s.len()) {
        None
    } else {
        match parse_member(s, i, acc) {
            Some(m) => {
                let k = skip_ws(s, m.1);
                if k < s.len() && s[k] == '}' {
                    Some((m.0, k + 1))
                } else if k < s.len() && s[k] == ',' {
                    let k2 = skip_ws(s, k + 1);
                    proof {
                        lemma_parse_member(s, i, acc);
                        lemma_skip_ws(s, m.1);
                        lemma_skip_ws(s, k + 1);
                    }
                    parse_members(s, k2, m.0)
                } else {
                    None
                }
            },
            None => None,
        }
    }
}

/// The whole token-endpoint response body: one JSON object holding all
/// five members of the schema, nothing but whitespace around it.
pub open spec fn parse_token_response_spec(s: Seq<char>) -> Option<TokenSetView> {
    let i = skip_ws(s, 0);
    if i < s.len() && s[i] == '{' {
        let k = skip_ws(s, i + 1);
        match parse_members(s, k, empty_partial()) {
            Some(m) => {
                if skip_ws(s, m.1) == s.len() {
                    let p = m.0;
                    if p.access_token is Some && p.refresh_token is Some && p.expires_in is Some
                        && p.scope is Some && p.token_type is Some {
                        Some(
                            TokenSetView {
                                access_token: p.access_token->0,
                                refresh_token: p.refresh_token->0,
                                expires_in: p.expires_in->0,
                                scope: p.scope->0,
                                token_type: p.token_type->0,
                            },
                        )
                    } else {
                        None
                    }
                } else {
                    None
                }
            },
            None => None,
        }
    } else {
        None
    }
}

fn char_is_digit(c: char) -> (b: bool)
    ensures
        b == is_digit_char(c),
{
    let u = c as u32;
    48 <= u && u <= 57
}

/// Reads a JSON string at `i`, as `parse_string_at` describes.
fn p_string(s: &str, i: usize) -> (r: Option<(String, usize)>)
    requires
        i <= s@.len(),
    ensures
        match r {
            Some(v) => parse_string_at(s@, i as int) == Some((v.0@, v.1 as int)) && i < v.1
                <= s@.len(),
            None => parse_string_at(s@, i as int) is None,
        },
{
    let n = s.unicode_len();
    if !(i < n && s.get_char(i) == '"') {
        return None;
    }
    let mut e = i + 1;
    while e < n && s.get_char(e) != '"'
        invariant
            i + 1 <= e <= n,
            n == s@.len(),
            s@[i as int] == '"',
            str_end(s@, i + 1) == str_end(s@, e as int),
        decreases n - e,
    {
        proof {
            assert(str_end(s@, e as int) == str_end(s@, e + 1));
        }
        e = e + 1;
    }
    if e == n {
        proof {
            assert(str_end(s@, e as int) is None);
        }
        return None;
    }
    proof {
        assert(str_end(s@, e as int) == Some(e as int));
    }
    let sub = s.substring_char(i + 1, e);
    let v = String::from_str(sub);
    Some((v, e + 1))
}

/// Reads a number at `i`, as `parse_number_at` describes.
fn p_number(s: &str, i: usize) -> (r: Option<(i64, usize)>)
    requires
        i <= s@.len(),
    ensures
        match r {
            Some(v) => parse_number_at(s@, i as int) == Some((v.0 as int, v.1 as int)) && i < v.1
                <= s@.len() && v.0 >= 0,
            None => parse_number_at(s@, i as int) is None,
        },
{
    let n = s.unicode_len();
    let mut e = i;
    let mut acc: i64 = 0;
    proof {
        lemma_pow10_18();
    }
    while e < n && char_is_digit(s.get_char(e))
        invariant
            i <= e <= n,
            n == s@.len(),
            e - i <= 18,
            digits_end(s@, i as int) == digits_end(s@, e as int),
            forall|k: int| i <= k < e ==> is_digit_char(s@[k]),
            acc == digits_val(s@, i as int, e as int),
            0 <= acc < pow10((e - i) as nat),
            pow10(17) == 100_000_000_000_000_000,
            pow10(18) == 1_000_000_000_000_000_000,
        decreases n - e,
    {
        if e - i == 18 {
            proof {
                assert(digits_end(s@, e as int) == digits_end(s@, e + 1));
                lemma_digits_end(s@, e + 1);
                assert(digits_end(s@, i as int) - i >= 19);
            }
            return None;
        }
        let c = s.get_char(e);
        let d = (c as u32) - 48;
        proof {
            lemma_pow10_mono((e - i) as nat, 17);
            assert(pow10(((e - i) + 1) as nat) == 10 * pow10((e - i) as nat));
            lemma_pow10_mono(((e - i) + 1) as nat, 18);
        }
        acc = acc * 10 + (d as i64);
        proof {
            assert(digits_val(s@, i as int, (e + 1) as int) == digits_val(s@, i as int, e as int)
                * 10 + (s@[e as int] as u32 - 48));
        }
        e = e + 1;
    }
    if e == i {
        return None;
    }
    proof {
        assert(digits_end(s@, e as int) == e);
    }
    Some((acc, e))
}

/// Reads a string array at `i`, as `parse_array_at` describes.
fn p_array(s: &str, i: usize) -> (r: Option<(Vec<String>, usize)>)
    requires
        i <= s@.len(),
    ensures
        match r {
            Some(v) => parse_array_at(s@, i as int) == Some((v.0.deep_view(), v.1 as int)) && i
                < v.1 <= s@.len(),
            None => parse_array_at(s@, i as int) is None,
        },
{
    let n = s.unicode_len();
    if !(i < n && s.get_char(i) == '[') {
        return None;
    }
    let k = skip_ws_exec(s, i + 1);
    if k < n && s.get_char(k) == ']' {
        let empty: Vec<String> = Vec::new();
        proof {
            assert(empty.deep_view() =~= Seq::<Seq<char>>::empty());
        }
        return Some((empty, k + 1));
    }
    let first = p_string(s, k);
    match first {
        None => {
            return None;
        },
        Some((v0, j0)) => {
            let mut acc: Vec<String> = Vec::new();
            acc.push(v0);
            let mut j = j0;
            proof {
                assert(acc.deep_view() =~= seq![s@.subrange(k + 1, j0 - 1)]);
            }
            loop
                invariant
                    i < j <= n,
                    n == s@.len(),
                    parse_array_at(s@, i as int) == parse_array_rest(s@, j as int, acc.deep_view()),
                decreases n - j,
            {
                let k1 = skip_ws_exec(s, j);
                if k1 < n && s.get_char(k1) == ']' {
                    return Some((acc, k1 + 1));
                }
                if !(k1 < n && s.get_char(k1) == ',') {
                    return None;
                }
                let k2 = skip_ws_exec(s, k1 + 1);
                let nxt = p_string(s, k2);
                match nxt {
                    None => {
                        return None;
                    },
                    Some((v, j2)) => {
                        let ghost prev = acc.deep_view();
                        acc.push(v);
                        proof {
                            assert(acc.deep_view() =~= prev.push(s@.subrange(k2 + 1, j2 - 1)));
                        }
                        j = j2;
                    },
                }
            }
        },
    }
}

/// The fields of the response object read so far, as executable values.
pub struct PartialSet {
    pub access_token: Option<String>,
    pub refresh_token: Option<String>,
    pub expires_in: Option<i64>,
    pub scope: Option<Vec<String>>,
    pub token_type: Option<String>,
}

impl View for PartialSet {
    type V = PartialTokens;

    open spec fn view(&self) -> PartialTokens {
        PartialTokens {
            access_token: match self.access_token {
                Some(x) => Some(x@),
                None => None,
            },
            refresh_token: match self.refresh_token {
                Some(x) => Some(x@),
                None => None,
            },
            expires_in: match self.expires_in {
                Some(x) => Some(x as int),
                None => None,
            },
            scope: match self.scope {
                Some(x) => Some(x.deep_view()),
                None => None,
            },
            token_type: match self.token_type {
                Some(x) => Some(x@),
                None => None,
            },
        }
    }
}

/// Reads one `"key": value` member at `i`, as `parse_member` describes.
fn p_member(s: &str, i: usize, acc: PartialSet) -> (r: Option<(PartialSet, usize)>)
    requires
        i <= s@.len(),
    ensures
        match r {
            Some(v) => parse_member(s@, i as int, acc@) == Some((v.0@, v.1 as int)) && i < v.1
                <= s@.len(),
            None => parse_member(s@, i as int, acc@) is None,
        },
{
    let n = s.unicode_len();
    let keyed = p_string(s, i);
    let (key, j) = match keyed {
        Some(kj) => kj,
        None => {
            return None;
        },
    };
    let k = skip_ws_exec(s, j);
    if !(k < n && s.get_char(k) == ':') {
        return None;
    }
    let k2 = skip_ws_exec(s, k + 1);
    if str_eq(key.as_str(), "access_token") {
        if acc.access_token.is_some() {
            return None;
        }
        match p_string(s, k2) {
            Some((v, j2)) => Some((PartialSet { access_token: Some(v), ..acc }, j2)),
            None => None,
        }
    } else if str_eq(key.as_str(), "refresh_token") {
        if acc.refresh_token.is_some() {
            return None;
        }
        match p_string(s, k2) {
            Some((v, j2)) => Some((PartialSet { refresh_token: Some(v), ..acc }, j2)),
            None => None,
        }
    } else if str_eq(key.as_str(), "expires_in") {
        if acc.expires_in.is_some() {
            return None;
        }
        match p_number(s, k2) {
            Some((v, j2)) => Some((PartialSet { expires_in: Some(v), ..acc }, j2)),
            None => None,
        }
    } else if str_eq(key.as_str(), "scope") {
        if acc.scope.is_some() {
            return None;
        }
        match p_array(s, k2) {
            Some((v, j2)) => Some((PartialSet { scope: Some(v), ..acc }, j2)),
            None => None,
        }
    } else if str_eq(key.as_str(), "token_type") {
        if acc.token_type.is_some() {
            return None;
        }
        match p_string(s, k2) {
            Some((v, j2)) => Some((PartialSet { token_type: Some(v), ..acc }, j2)),
            None => None,
        }
    } else {
        None
    }
}

/// Reads the member run of the response object, as `parse_members`
/// describes.
fn p_members(s: &str, i: usize, init: PartialSet) -> (r: Option<(PartialSet, usize)>)
    requires
        i <= s@.len(),
    ensures
        match r {
            Some(v) => parse_members(s@, i as int, init@) == Some((v.0@, v.1 as int)) && v.1
                <= s@.len(),
            None => parse_members(s@, i as int, init@) is None,
        },
{
    let n = s.unicode_len();
    let mut acc = init;
    let mut j = i;
    loop
        invariant
            j <= n,
            n == s@.len(),
            parse_members(s@, i as int, init@) == parse_members(s@, j as int, acc@),
        decreases n - j,
    {
        let ghost a0 = acc@;
        let ghost j0 = j as int;
        let stepped = p_member(s, j, acc);
        match stepped {
            None => {
                return None;
            },
            Some((acc2, j2)) => {
                let k = skip_ws_exec(s, j2);
                if k < n && s.get_char(k) == '}' {
                    return Some((acc2, k + 1));
                }
                if !(k < n && s.get_char(k) == ',') {
                    return None;
                }
                let k2 = skip_ws_exec(s, k + 1);
                proof {
                    assert(parse_members(s@, j0, a0) == parse_members(s@, k2 as int, acc2@));
                }
                acc = acc2;
                j = k2;
            },
        }
    }
}

/// Parses a token-endpoint response body.
///
/// Returns the `TokenSet` exactly when the body matches the grammar of
/// `parse_token_response_spec`; any other body is rejected.
pub fn parse_token_response(s: &str) -> (r: Option<TokenSet>)
    ensures
        match r {
            Some(t) => parse_token_response_spec(s@) == Some(t@),
            None => parse_token_response_spec(s@) is None,
        },
{
    let n = s.unicode_len();
    let i = skip_ws_exec(s, 0);
    if !(i < n && s.get_char(i) == '{') {
        return None;
    }
    let k = skip_ws_exec(s, i + 1);
    let init = PartialSet {
        access_token: None,
        refresh_token: None,
        expires_in: None,
        scope: None,
        token_type: None,
    };
    proof {
        assert(init@ == empty_partial());
    }
    let parsed = p_members(s, k, init);
    match parsed {
        None => None,
        Some((p, j)) => {
            let e = skip_ws_exec(s, j);
            if e != n {
                return None;
            }
            match (p.access_token, p.refresh_token, p.expires_in, p.scope, p.token_type) {
                (Some(at), Some(rt), Some(ei), Some(sc), Some(tt)) => {
                    let t = TokenSet {
                        access_token: at,
                        refresh_token: rt,
                        expires_in: ei,
                        scope: sc,
                        token_type: tt,
                    };
                    Some(t)
                },
                _ => None,
            }
        },
    }
}

} // verus!
