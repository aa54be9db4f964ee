//! Heuristic argument extraction from a natural-language query: email
//! addresses, subjects, bodies, file paths and contents, found after keywords.
//!
//! Keywords are looked up in the lowercased query and the text is then taken
//! from the query itself at the same place. That is only meaningful when the
//! lowercase mapping keeps every character at its UTF-8 width
//! ([`width_aligned`]); on other queries these functions find nothing.

use vstd::prelude::*;
use crate::json::{Json, JsonV, entries_view, object_of, push_entry};
use crate::text::{
    chars_of, find_char, find_str, first_match, is_alphanumeric, is_ws, lead_ws, lowercase_chars,
    seq_contains, spec_first_word, spec_is_alphanumeric, spec_to_lowercase, spec_trim, spec_trim_start,
    string_from_chars, sub_chars, trim_chars, trim_start_chars, width_aligned, word_end, word_len,
};

verus! {

/// Which characters a `trim_matches` strips.
#[derive(Debug, Clone, Copy, PartialEq, Eq, Structural)]
pub enum Junk {
    /// Anything but alphanumerics and `@ . - _` (around an email address).
    EmailEdge,
    /// Quotes and spaces (around a file name).
    QuoteOrSpace,
    /// Quotes (around a path).
    Quote,
    /// Slashes (before a file name).
    Slash,
}

/// Whether `trim_matches` of kind `k` strips `c`.
pub open spec fn is_junk(k: Junk, c: char) -> bool {
    match k {
        Junk::EmailEdge => !spec_is_alphanumeric(c) && c != '@' && c != '.' && c != '-' && c != '_',
        Junk::QuoteOrSpace => c == '\'' || c == '"' || c == ' ',
        Junk::Quote => c == '"' || c == '\'',
        Junk::Slash => c == '/',
    }
}

/// Whether `trim_matches` of kind `k` strips `c`.
pub fn junk(k: Junk, c: char) -> (r: bool)
    ensures
        r == is_junk(k, c),
{
    match k {
        Junk::EmailEdge => !is_alphanumeric(c) && c != '@' && c != '.' && c != '-' && c != '_',
        Junk::QuoteOrSpace => c == '\'' || c == '"' || c == ' ',
        Junk::Quote => c == '"' || c == '\'',
        Junk::Slash => c == '/',
    }
}

/// Number of leading characters stripped.
pub open spec fn lead_junk(k: Junk, s: Seq<char>) -> int
    decreases s.len(),
{
    if s.len() > 0 && is_junk(k, s[0]) {
        1 + lead_junk(k, s.drop_first())
    } else {
        0
    }
}

/// Number of trailing characters stripped.
pub open spec fn trail_junk(k: Junk, s: Seq<char>) -> int
    decreases s.len(),
{
    if s.len() > 0 && is_junk(k, s.last()) {
        1 + trail_junk(k, s.drop_last())
    } else {
        0
    }
}

/// `str::trim_matches`: the text without the leading and trailing characters
/// of kind `k`.
pub open spec fn spec_trim_matches(k: Junk, s: Seq<char>) -> Seq<char> {
    let a = lead_junk(k, s);
    if a == s.len() {
        Seq::empty()
    } else {
        s.subrange(a, s.len() - trail_junk(k, s))
    }
}

proof fn lemma_lead_junk(k: Junk, s: Seq<char>, i: int)
    requires
        0 <= i <= s.len(),
        forall|j: int| 0 <= j < i ==> is_junk(k, #[trigger] s[j]),
        i == s.len() || !is_junk(k, s[i]),
    ensures
        lead_junk(k, s) == i,
    decreases i,
{
    if i > 0 {
        assert forall|j: int| 0 <= j < i - 1 implies is_junk(k, #[trigger] s.drop_first()[j]) by {
            assert(s.drop_first()[j] == s[j + 1]);
        }
        if i < s.len() {
            assert(s.drop_first()[i - 1] == s[i]);
        }
        lemma_lead_junk(k, s.drop_first(), i - 1);
    }
}

proof fn lemma_trail_junk(k: Junk, s: Seq<char>, b: int)
    requires
        0 <= b <= s.len(),
        forall|j: int| b <= j < s.len() ==> is_junk(k, #[trigger] s[j]),
        b == 0 || !is_junk(k, s[b - 1]),
    ensures
        trail_junk(k, s) == s.len() - b,
    decreases s.len(),
{
    if b < s.len() {
        assert(is_junk(k, s.last()));
        assert forall|j: int| b <= j < s.drop_last().len() implies is_junk(k, #[trigger] s.drop_last()[j]) by {
            assert(s.drop_last()[j] == s[j]);
        }
        if b > 0 {
            assert(s.drop_last()[b - 1] == s[b - 1]);
        }
        lemma_trail_junk(k, s.drop_last(), b);
    }
}

/// `str::trim_matches` with the characters of kind `k`.
pub fn trim_matches(k: Junk, s: &[char]) -> (r: Vec<char>)
    ensures
        r@ == spec_trim_matches(k, s@),
{
    let mut a: usize = 0;
    while a < s.len() && junk(k, s[a])
        invariant
            a <= s@.len(),
            forall|j: int| 0 <= j < a ==> is_junk(k, #[trigger] s@[j]),
        decreases s.len() - a,
    {
        a = a + 1;
    }
    proof {
        lemma_lead_junk(k, s@, a as int);
    }
    if a == s.len() {
        return Vec::new();
    }
    let mut b: usize = s.len();
    while b > a && junk(k, s[b - 1])
        invariant
            a < s@.len(),
            !is_junk(k, s@[a as int]),
            a <= b <= s@.len(),
            forall|j: int| b <= j < s@.len() ==> is_junk(k, #[trigger] s@[j]),
        decreases b,
    {
        b = b - 1;
    }
    proof {
        lemma_trail_junk(k, s@, b as int);
    }
    sub_chars(s, a, b)
}

/// The text from index `i` on.
pub open spec fn tail(s: Seq<char>, i: int) -> Seq<char> {
    s.subrange(i, s.len() as int)
}

/// An email address candidate: it holds both `@` and `.`.
pub open spec fn looks_like_email(w: Seq<char>) -> bool {
    w.contains('@') && w.contains('.')
}

/// The first word of `s` at or after `i` that, stripped of its edges, looks
/// like an email address; stripped.
#[verifier::opaque]
pub open spec fn email_from(s: Seq<char>, i: int) -> Option<Seq<char>>
    decreases s.len() - i,
{
    if i < 0 || i >= s.len() {
        None
    } else if is_ws(s[i]) {
        email_from(s, i + 1)
    } else {
        let e = i + word_len(tail(s, i));
        let c = spec_trim_matches(Junk::EmailEdge, s.subrange(i, e));
        if looks_like_email(c) {
            Some(c)
        } else {
            proof {
                crate::text::lemma_word_len_bounds(tail(s, i));
                assert(tail(s, i)[0] == s[i]);
            }
            email_from(s, e)
        }
    }
}

proof fn lemma_email_end(s: Seq<char>, i: int)
    requires
        i >= s.len(),
    ensures
        email_from(s, i) is None,
{
    reveal(email_from);
}

proof fn lemma_email_step(s: Seq<char>, i: int)
    requires
        0 <= i < s.len(),
    ensures
        is_ws(s[i]) ==> email_from(s, i) == email_from(s, i + 1),
        !is_ws(s[i]) ==> {
            let e = i + word_len(tail(s, i));
            let c = spec_trim_matches(Junk::EmailEdge, s.subrange(i, e));
            email_from(s, i) == if looks_like_email(c) {
                Some(c)
            } else {
                email_from(s, e)
            }
        },
{
    reveal(email_from);
}

proof fn lemma_email_after_end(q: Seq<char>, l: Seq<char>, kws: Seq<Seq<char>>, k: int)
    requires
        k >= kws.len(),
    ensures
        email_after(q, l, kws, k) is None,
{
    reveal(email_after);
}

proof fn lemma_email_after_step(q: Seq<char>, l: Seq<char>, kws: Seq<Seq<char>>, k: int)
    requires
        0 <= k < kws.len(),
    ensures
        email_after(q, l, kws, k) == match first_match(l, kws[k]) {
            Some(p) => match email_from(tail(q, p + kws[k].len()), 0) {
                Some(e) => Some(e),
                None => email_after(q, l, kws, k + 1),
            },
            None => email_after(q, l, kws, k + 1),
        },
{
    reveal(email_after);
}

/// The email address after the first keyword that has one, in the order of
/// the keywords from `k`: each keyword is looked up in the lowercased query
/// and the words after it are tried in turn.
#[verifier::opaque]
pub open spec fn email_after(q: Seq<char>, l: Seq<char>, kws: Seq<Seq<char>>, k: int) -> Option<Seq<char>>
    decreases kws.len() - k,
{
    if k < 0 || k >= kws.len() {
        None
    } else {
        match first_match(l, kws[k]) {
            Some(p) => match email_from(tail(q, p + kws[k].len()), 0) {
                Some(e) => Some(e),
                None => email_after(q, l, kws, k + 1),
            },
            None => email_after(q, l, kws, k + 1),
        }
    }
}

/// What the email extraction finds in a query.
pub open spec fn spec_extract_email(q: Seq<char>, kws: Seq<Seq<char>>) -> Option<Seq<char>> {
    let l = spec_to_lowercase(q);
    if width_aligned(q, l) {
        email_after(q, l, kws, 0)
    } else {
        None
    }
}

/// The word starting at `i` (not whitespace): where it ends, and the word
/// stripped of its edges when that looks like an email address.
fn email_word(s: &[char], i: usize) -> (res: (usize, Option<Vec<char>>))
    requires
        i < s@.len(),
        !is_ws(s@[i as int]),
    ensures
        i < res.0 <= s@.len(),
        res.0 == i + word_len(tail(s@, i as int)),
        match res.1 {
            Some(v) => looks_like_email(spec_trim_matches(Junk::EmailEdge, s@.subrange(i as int, res.0 as int)))
                && v@ == spec_trim_matches(Junk::EmailEdge, s@.subrange(i as int, res.0 as int)),
            None => !looks_like_email(spec_trim_matches(Junk::EmailEdge, s@.subrange(i as int, res.0 as int))),
        },
{
    let e = word_end(s, i);
    let w = sub_chars(s, i, e);
    let c = trim_matches(Junk::EmailEdge, w.as_slice());
    let fa = find_char(c.as_slice(), '@');
    let fd = find_char(c.as_slice(), '.');
    proof {
        if c@.contains('@') {
            lemma_contains_char(c@, '@');
        }
        if c@.contains('.') {
            lemma_contains_char(c@, '.');
        }
    }
    if fa.is_some() && fd.is_some() {
        (e, Some(c))
    } else {
        (e, None)
    }
}

/// The first word at or after `i` that looks like an email address once
/// stripped.
fn email_in(s: &[char], i: usize) -> (r: Option<Vec<char>>)
    requires
        i <= s@.len(),
    ensures
        match email_from(s@, i as int) {
            Some(e) => r matches Some(v) && v@ == e,
            None => r is None,
        },
{
    let mut j = i;
    loop
        invariant
            i <= j <= s@.len(),
            email_from(s@, i as int) == email_from(s@, j as int),
        decreases s.len() - j,
    {
        if j >= s.len() {
            proof {
                lemma_email_end(s@, j as int);
            }
            return None;
        }
        proof {
            lemma_email_step(s@, j as int);
        }
        if crate::text::is_whitespace(s[j]) {
            j = j + 1;
        } else {
            let (e, found) = email_word(s, j);
            if found.is_some() {
                return found;
            }
            j = e;
        }
    }
}

/// A character that occurs in a text is found there as a one-character text.
pub proof fn lemma_contains_char(s: Seq<char>, c: char)
    requires
        s.contains(c),
    ensures
        seq_contains(s, seq![c]),
{
    let i = choose|i: int| 0 <= i < s.len() && s[i] == c;
    assert(s.subrange(i, i + 1) =~= seq![c]);
    assert(crate::text::matches_at(s, seq![c], i));
}

/// The characters of each keyword.
pub open spec fn keyword_texts(kws: Seq<&str>) -> Seq<Seq<char>> {
    Seq::new(kws.len(), |i: int| kws[i]@)
}

/// Looks for an email address after one of the keywords.
fn email_after_keywords(q: &[char], l: &[char], kws: &[&str]) -> (r: Option<Vec<char>>)
    requires
        width_aligned(q@, l@),
    ensures
        match email_after(q@, l@, keyword_texts(kws@), 0) {
            Some(e) => r matches Some(v) && v@ == e,
            None => r is None,
        },
{
    let ghost ks = keyword_texts(kws@);
    let mut k: usize = 0;
    while k < kws.len()
        invariant
            k <= kws@.len(),
            ks == keyword_texts(kws@),
            width_aligned(q@, l@),
            email_after(q@, l@, ks, 0) == email_after(q@, l@, ks, k as int),
        decreases kws.len() - k,
    {
        let kw = kws[k];
        assert(ks[k as int] == kw@);
        proof {
            lemma_email_after_step(q@, l@, ks, k as int);
        }
        let f = find_str(l, kw);
        match f {
            Some(p) => {
                let kc = chars_of(kw);
                let n = kc.len();
                assert(p + n <= l.len());
                let start = p + n;
                let after = sub_chars(q, start, q.len());
                match email_in(after.as_slice(), 0) {
                    Some(e) => return Some(e),
                    None => {},
                }
            },
            None => {},
        }
        k = k + 1;
    }
    proof {
        lemma_email_after_end(q@, l@, ks, k as int);
    }
    None
}

/// Extracts an email address following one of the keywords.
pub fn extract_email_address(query: &str, keywords: &[&str]) -> (r: Option<String>)
    ensures
        match spec_extract_email(query@, keyword_texts(keywords@)) {
            Some(e) => r matches Some(x) && x@ == e,
            None => r is None,
        },
{
    let q = chars_of(query);
    let l = lowercase_chars(q.as_slice());
    if !crate::text::aligned(q.as_slice(), l.as_slice()) {
        return None;
    }
    match email_after_keywords(q.as_slice(), l.as_slice(), keywords) {
        Some(v) => Some(string_from_chars(v.as_slice())),
        None => None,
    }
}


/// `str::find`, in characters: the first occurrence of `needle` in `hay`.
#[verifier::opaque]
pub open spec fn find_in(hay: Seq<char>, needle: Seq<char>) -> Option<int> {
    first_match(hay, needle)
}

/// Finds a string in a text.
pub fn find_text(hay: &[char], needle: &str) -> (r: Option<usize>)
    ensures
        r matches Some(i) ==> find_in(hay@, needle@) == Some(i as int) && i + needle@.len() <= hay.len(),
        r is None ==> find_in(hay@, needle@) is None,
{
    reveal(find_in);
    find_str(hay, needle)
}

/// Finds a character in a text.
pub fn find_ch(hay: &[char], c: char) -> (r: Option<usize>)
    ensures
        r matches Some(i) ==> find_in(hay@, seq![c]) == Some(i as int) && i < hay.len(),
        r is None ==> find_in(hay@, seq![c]) is None,
{
    reveal(find_in);
    find_char(hay, c)
}

/// The first keyword, from index `k` on, for which `f` finds something; what
/// it finds.
#[verifier::opaque]
pub open spec fn first_some(kws: Seq<Seq<char>>, k: int, f: spec_fn(Seq<char>) -> Option<Seq<char>>) -> Option<Seq<char>>
    decreases kws.len() - k,
{
    if k < 0 || k >= kws.len() {
        None
    } else {
        match f(kws[k]) {
            Some(x) => Some(x),
            None => first_some(kws, k + 1, f),
        }
    }
}

proof fn lemma_first_some(kws: Seq<Seq<char>>, k: int, f: spec_fn(Seq<char>) -> Option<Seq<char>>)
    requires
        0 <= k,
    ensures
        k >= kws.len() ==> first_some(kws, k, f) is None,
        k < kws.len() ==> first_some(kws, k, f) == match f(kws[k]) {
            Some(x) => Some(x),
            None => first_some(kws, k + 1, f),
        },
{
    reveal(first_some);
}

/// The text between the first `qc` and the next one.
pub open spec fn quoted_in(t: Seq<char>, qc: char) -> Option<Seq<char>> {
    match find_in(t, seq![qc]) {
        Some(b) => {
            let a = tail(t, b + 1);
            match find_in(a, seq![qc]) {
                Some(e) => Some(a.subrange(0, e)),
                None => None,
            }
        },
        None => None,
    }
}

/// Text in double quotes, else text in single quotes.
pub open spec fn spec_extract_quoted_text(t: Seq<char>) -> Option<Seq<char>> {
    match quoted_in(t, '"') {
        Some(x) => Some(x),
        None => quoted_in(t, '\''),
    }
}

/// Quoted text, trimmed, when that leaves something.
pub open spec fn trimmed_quote(t: Seq<char>, qc: char) -> Option<Seq<char>> {
    match quoted_in(t, qc) {
        Some(x) => if spec_trim(x).len() > 0 {
            Some(spec_trim(x))
        } else {
            None
        },
        None => None,
    }
}

/// The text between the first `qc` in `t` and the next one.
fn quoted(t: &[char], qc: char) -> (r: Option<Vec<char>>)
    ensures
        match quoted_in(t@, qc) {
            Some(x) => r matches Some(v) && v@ == x,
            None => r is None,
        },
{
    match find_ch(t, qc) {
        Some(b) => {
            let a = sub_chars(t, b + 1, t.len());
            match find_ch(a.as_slice(), qc) {
                Some(e) => Some(sub_chars(a.as_slice(), 0, e)),
                None => None,
            }
        },
        None => None,
    }
}

/// Text in double quotes, else in single quotes.
pub fn extract_quoted_text(t: &[char]) -> (r: Option<Vec<char>>)
    ensures
        match spec_extract_quoted_text(t@) {
            Some(x) => r matches Some(v) && v@ == x,
            None => r is None,
        },
{
    match quoted(t, '"') {
        Some(x) => Some(x),
        None => quoted(t, '\''),
    }
}

/// Quoted text, trimmed, when that leaves something.
fn trimmed_quoted(t: &[char], qc: char) -> (r: Option<Vec<char>>)
    ensures
        match trimmed_quote(t@, qc) {
            Some(x) => r matches Some(v) && v@ == x,
            None => r is None,
        },
{
    match quoted(t, qc) {
        Some(x) => {
            let c = trim_chars(x.as_slice());
            if c.len() > 0 {
                Some(c)
            } else {
                None
            }
        },
        None => None,
    }
}

/// Where the text after a colon ends: before ` subject`, else before
/// ` body`, else before ` to `, else at its end.
pub open spec fn colon_text_end(t: Seq<char>) -> int {
    match find_in(t, " subject"@) {
        Some(x) => x,
        None => match find_in(t, " body"@) {
            Some(x) => x,
            None => match find_in(t, " to "@) {
                Some(x) => x,
                None => t.len() as int,
            },
        },
    }
}

/// What follows one keyword: quoted text (double, then single quotes),
/// trimmed and not empty; else the trimmed text after a colon that follows
/// the keyword, up to the next field name.
pub open spec fn quoted_or_after_at(q: Seq<char>, l: Seq<char>, kw: Seq<char>) -> Option<Seq<char>> {
    match find_in(l, kw) {
        None => None,
        Some(p) => {
            let after = tail(q, p);
            match trimmed_quote(after, '"') {
                Some(x) => Some(x),
                None => match trimmed_quote(after, '\'') {
                    Some(x) => Some(x),
                    None => {
                        let ak = spec_trim_start(tail(after, kw.len() as int));
                        match find_in(ak, seq![':']) {
                            None => None,
                            Some(c) => {
                                let ac = spec_trim(tail(ak, c + 1));
                                let content = spec_trim(ac.subrange(0, colon_text_end(ac)));
                                if content.len() > 0 {
                                    Some(content)
                                } else {
                                    None
                                }
                            },
                        }
                    },
                },
            }
        },
    }
}

/// What the quoted-or-after-keyword extraction finds in a query.
pub open spec fn spec_extract_quoted_or_after(q: Seq<char>, kws: Seq<Seq<char>>) -> Option<Seq<char>> {
    let l = spec_to_lowercase(q);
    if width_aligned(q, l) {
        first_some(kws, 0, |kw: Seq<char>| quoted_or_after_at(q, l, kw))
    } else {
        None
    }
}

/// Where the text after a colon ends.
fn colon_end(t: &[char]) -> (r: usize)
    ensures
        r == colon_text_end(t@),
        r <= t@.len(),
{
    match find_text(t, " subject") {
        Some(x) => x,
        None => match find_text(t, " body") {
            Some(x) => x,
            None => match find_text(t, " to ") {
                Some(x) => x,
                None => t.len(),
            },
        },
    }
}

/// What follows one keyword, quoted or after a colon.
fn quoted_or_after_one(q: &[char], l: &[char], kw: &str) -> (r: Option<Vec<char>>)
    requires
        width_aligned(q@, l@),
    ensures
        match quoted_or_after_at(q@, l@, kw@) {
            Some(x) => r matches Some(v) && v@ == x,
            None => r is None,
        },
{
    let p = match find_text(l, kw) {
        Some(p) => p,
        None => return None,
    };
    assert(p <= q.len());
    let after = sub_chars(q, p, q.len());
    match trimmed_quoted(after.as_slice(), '"') {
        Some(x) => return Some(x),
        None => {},
    }
    match trimmed_quoted(after.as_slice(), '\'') {
        Some(x) => return Some(x),
        None => {},
    }
    let kc = chars_of(kw);
    let n = kc.len();
    assert(p + n <= l.len());
    let rest = sub_chars(after.as_slice(), n, after.len());
    let ak = trim_start_chars(rest.as_slice());
    let c = match find_ch(ak.as_slice(), ':') {
        Some(c) => c,
        None => return None,
    };
    let t = sub_chars(ak.as_slice(), c + 1, ak.len());
    let ac = trim_chars(t.as_slice());
    let end = colon_end(ac.as_slice());
    let head = sub_chars(ac.as_slice(), 0, end);
    let content = trim_chars(head.as_slice());
    if content.len() > 0 {
        Some(content)
    } else {
        None
    }
}

/// Extracts quoted text near one of the keywords, or the text after a colon
/// that follows it.
pub fn extract_quoted_or_after_keyword(query: &str, keywords: &[&str]) -> (r: Option<String>)
    ensures
        match spec_extract_quoted_or_after(query@, keyword_texts(keywords@)) {
            Some(x) => r matches Some(v) && v@ == x,
            None => r is None,
        },
{
    let q = chars_of(query);
    let l = lowercase_chars(q.as_slice());
    if !crate::text::aligned(q.as_slice(), l.as_slice()) {
        return None;
    }
    let ghost ks = keyword_texts(keywords@);
    let ghost f = |kw: Seq<char>| quoted_or_after_at(q@, l@, kw);
    proof {
        assert(f =~= (|kw: Seq<char>| quoted_or_after_at(query@, spec_to_lowercase(query@), kw)));
        assert(spec_extract_quoted_or_after(query@, ks) == first_some(ks, 0, f));
    }
    let mut k: usize = 0;
    while k < keywords.len()
        invariant
            k <= keywords@.len(),
            ks == keyword_texts(keywords@),
            width_aligned(q@, l@),
            f == (|kw: Seq<char>| quoted_or_after_at(q@, l@, kw)),
            first_some(ks, 0, f) == first_some(ks, k as int, f),
            spec_extract_quoted_or_after(query@, ks) == first_some(ks, 0, f),
        decreases keywords.len() - k,
    {
        proof {
            lemma_first_some(ks, k as int, f);
            assert(ks[k as int] == keywords@[k as int]@);
            assert(f(ks[k as int]) == quoted_or_after_at(q@, l@, keywords@[k as int]@));
        }
        let found = quoted_or_after_one(q.as_slice(), l.as_slice(), keywords[k]);
        match found {
            Some(x) => {
                return Some(string_from_chars(x.as_slice()));
            },
            None => {},
        }
        k = k + 1;
    }
    proof {
        lemma_first_some(ks, k as int, f);
    }
    None
}

/// Keywords before a message body.
pub open spec fn body_keywords() -> Seq<Seq<char>> {
    seq!["body"@, "message"@, "content"@, "text"@, "corpo"@, "mensagem"@, "conteúdo"@]
}

/// Phrases before a message, for queries that send or write.
pub open spec fn saying_patterns() -> Seq<Seq<char>> {
    seq!["saying "@, "that says "@, "with message "@, "with text "@, "dizendo "@, "com mensagem "@, "com texto "@]
}

/// What follows a body keyword: past an optional colon, quoted text (double,
/// then single quotes) trimmed and not empty, else the rest of the query when
/// there is any.
pub open spec fn body_at(q: Seq<char>, l: Seq<char>, kw: Seq<char>) -> Option<Seq<char>> {
    match find_in(l, kw) {
        None => None,
        Some(p) => {
            let a0 = spec_trim_start(tail(q, p + kw.len()));
            let a = if a0.len() > 0 && a0[0] == ':' {
                spec_trim_start(tail(a0, 1))
            } else {
                a0
            };
            match trimmed_quote(a, '"') {
                Some(x) => Some(x),
                None => match trimmed_quote(a, '\'') {
                    Some(x) => Some(x),
                    None => if a.len() > 0 {
                        Some(a)
                    } else {
                        None
                    },
                },
            }
        },
    }
}

/// The rest of the query after a phrase, trimmed, when not empty.
pub open spec fn pattern_at(q: Seq<char>, l: Seq<char>, pat: Seq<char>) -> Option<Seq<char>> {
    match find_in(l, pat) {
        None => None,
        Some(p) => {
            let c = spec_trim(tail(q, p + pat.len()));
            if c.len() > 0 {
                Some(c)
            } else {
                None
            }
        },
    }
}

/// A use case that sends or writes something.
pub open spec fn sends_or_writes(use_case: Seq<char>) -> bool {
    let u = spec_to_lowercase(use_case);
    seq_contains(u, "send"@) || seq_contains(u, "write"@)
}

/// The body of a message in a width-aligned query: after the first body
/// keyword that yields one, else, for a use case that sends or writes, after
/// the first phrase that yields one.
pub open spec fn body_in(q: Seq<char>, l: Seq<char>, use_case: Seq<char>) -> Option<Seq<char>> {
    match first_some(body_keywords(), 0, |kw: Seq<char>| body_at(q, l, kw)) {
        Some(x) => Some(x),
        None => if sends_or_writes(use_case) {
            first_some(saying_patterns(), 0, |p: Seq<char>| pattern_at(q, l, p))
        } else {
            None
        },
    }
}

/// What the body extraction finds in a query.
pub open spec fn spec_extract_body(q: Seq<char>, use_case: Seq<char>) -> Option<Seq<char>> {
    let l = spec_to_lowercase(q);
    if width_aligned(q, l) {
        body_in(q, l, use_case)
    } else {
        None
    }
}

/// What follows one body keyword.
fn body_one(q: &[char], l: &[char], kw: &str) -> (r: Option<Vec<char>>)
    requires
        width_aligned(q@, l@),
    ensures
        match body_at(q@, l@, kw@) {
            Some(x) => r matches Some(v) && v@ == x,
            None => r is None,
        },
{
    let p = match find_text(l, kw) {
        Some(p) => p,
        None => return None,
    };
    let n = chars_of(kw).len();
    assert(p + n <= q.len());
    let rest = sub_chars(q, p + n, q.len());
    let a0 = trim_start_chars(rest.as_slice());
    let a = if a0.len() > 0 && a0[0] == ':' {
        let r1 = sub_chars(a0.as_slice(), 1, a0.len());
        trim_start_chars(r1.as_slice())
    } else {
        a0
    };
    match trimmed_quoted(a.as_slice(), '"') {
        Some(x) => return Some(x),
        None => {},
    }
    match trimmed_quoted(a.as_slice(), '\'') {
        Some(x) => return Some(x),
        None => {},
    }
    if a.len() > 0 {
        Some(a)
    } else {
        None
    }
}

/// The rest of the query after one phrase.
fn pattern_one(q: &[char], l: &[char], pat: &str) -> (r: Option<Vec<char>>)
    requires
        width_aligned(q@, l@),
    ensures
        match pattern_at(q@, l@, pat@) {
            Some(x) => r matches Some(v) && v@ == x,
            None => r is None,
        },
{
    let p = match find_text(l, pat) {
        Some(p) => p,
        None => return None,
    };
    let n = chars_of(pat).len();
    assert(p + n <= q.len());
    let rest = sub_chars(q, p + n, q.len());
    let c = trim_chars(rest.as_slice());
    if c.len() > 0 {
        Some(c)
    } else {
        None
    }
}

/// The body after the first body keyword that yields one.
fn body_by_keywords(q: &[char], l: &[char]) -> (r: Option<Vec<char>>)
    requires
        width_aligned(q@, l@),
    ensures
        match first_some(body_keywords(), 0, |kw: Seq<char>| body_at(q@, l@, kw)) {
            Some(x) => r matches Some(v) && v@ == x,
            None => r is None,
        },
{
    let kws: [&str; 7] = ["body", "message", "content", "text", "corpo", "mensagem", "conteúdo"];
    let ghost ks = body_keywords();
    proof {
        assert(keyword_texts(kws@) =~= ks);
    }
    let ghost f = |kw: Seq<char>| body_at(q@, l@, kw);
    let mut k: usize = 0;
    while k < 7
        invariant
            k <= 7,
            ks == body_keywords(),
            ks == keyword_texts(kws@),
            width_aligned(q@, l@),
            f == (|kw: Seq<char>| body_at(q@, l@, kw)),
            first_some(ks, 0, f) == first_some(ks, k as int, f),
        decreases 7 - k,
    {
        proof {
            lemma_first_some(ks, k as int, f);
            assert(ks[k as int] == kws@[k as int]@);
            assert(f(ks[k as int]) == body_at(q@, l@, kws@[k as int]@));
        }
        let found = body_one(q, l, kws[k]);
        if found.is_some() {
            return found;
        }
        k = k + 1;
    }
    proof {
        lemma_first_some(ks, k as int, f);
    }
    None
}

/// The rest of the query after the first phrase that yields one.
fn body_by_patterns(q: &[char], l: &[char]) -> (r: Option<Vec<char>>)
    requires
        width_aligned(q@, l@),
    ensures
        match first_some(saying_patterns(), 0, |p: Seq<char>| pattern_at(q@, l@, p)) {
            Some(x) => r matches Some(v) && v@ == x,
            None => r is None,
        },
{
    let pats: [&str; 7] = ["saying ", "that says ", "with message ", "with text ", "dizendo ", "com mensagem ", "com texto "];
    let ghost ks = saying_patterns();
    proof {
        assert(keyword_texts(pats@) =~= ks);
    }
    let ghost f = |p: Seq<char>| pattern_at(q@, l@, p);
    let mut k: usize = 0;
    while k < 7
        invariant
            k <= 7,
            ks == saying_patterns(),
            ks == keyword_texts(pats@),
            width_aligned(q@, l@),
            f == (|p: Seq<char>| pattern_at(q@, l@, p)),
            first_some(ks, 0, f) == first_some(ks, k as int, f),
        decreases 7 - k,
    {
        proof {
            lemma_first_some(ks, k as int, f);
            assert(ks[k as int] == pats@[k as int]@);
            assert(f(ks[k as int]) == pattern_at(q@, l@, pats@[k as int]@));
        }
        let found = pattern_one(q, l, pats[k]);
        if found.is_some() {
            return found;
        }
        k = k + 1;
    }
    proof {
        lemma_first_some(ks, k as int, f);
    }
    None
}

/// Whether a use case sends or writes something.
fn use_case_sends_or_writes(use_case: &str) -> (r: bool)
    ensures
        r == sends_or_writes(use_case@),
{
    let u = crate::text::to_lowercase(use_case);
    crate::text::str_contains(u.as_str(), "send") || crate::text::str_contains(u.as_str(), "write")
}

/// The body of a message in a width-aligned query.
fn body_of(q: &[char], l: &[char], use_case: &str) -> (r: Option<Vec<char>>)
    requires
        width_aligned(q@, l@),
    ensures
        match body_in(q@, l@, use_case@) {
            Some(x) => r matches Some(v) && v@ == x,
            None => r is None,
        },
{
    let b = body_by_keywords(q, l);
    if b.is_some() {
        return b;
    }
    if use_case_sends_or_writes(use_case) {
        body_by_patterns(q, l)
    } else {
        None
    }
}

/// Extracts a message body: quoted or following text after a body keyword,
/// else, when the use case sends or writes, the text after a phrase like
/// "saying".
pub fn extract_body_content(query: &str, use_case: &str) -> (r: Option<String>)
    ensures
        match spec_extract_body(query@, use_case@) {
            Some(x) => r matches Some(v) && v@ == x,
            None => r is None,
        },
{
    let q = chars_of(query);
    let l = lowercase_chars(q.as_slice());
    if !crate::text::aligned(q.as_slice(), l.as_slice()) {
        return None;
    }
    match body_of(q.as_slice(), l.as_slice(), use_case) {
        Some(v) => Some(string_from_chars(v.as_slice())),
        None => None,
    }
}

/// Keywords before file content.
pub open spec fn content_keywords() -> Seq<Seq<char>> {
    seq![
        "with content"@, "with message"@, "with text"@, "containing"@, "with the content"@, "com conteúdo"@,
        "com mensagem"@, "com texto"@, "contendo"@, "com o conteúdo"@,
    ]
}

/// What follows a content keyword, trimmed: quoted text in it, else all of
/// it when not empty.
pub open spec fn content_at(q: Seq<char>, l: Seq<char>, kw: Seq<char>) -> Option<Seq<char>> {
    match find_in(l, kw) {
        None => None,
        Some(p) => {
            let a = spec_trim(tail(q, p + kw.len()));
            match spec_extract_quoted_text(a) {
                Some(x) => Some(x),
                None => if a.len() > 0 {
                    Some(a)
                } else {
                    None
                },
            }
        },
    }
}

/// File content in a width-aligned query: after the first content keyword
/// that yields some, else the message body.
pub open spec fn content_in(q: Seq<char>, l: Seq<char>, use_case: Seq<char>) -> Option<Seq<char>> {
    match first_some(content_keywords(), 0, |kw: Seq<char>| content_at(q, l, kw)) {
        Some(x) => Some(x),
        None => body_in(q, l, use_case),
    }
}

/// What the content extraction finds in a query.
pub open spec fn spec_extract_content(q: Seq<char>, use_case: Seq<char>) -> Option<Seq<char>> {
    let l = spec_to_lowercase(q);
    if width_aligned(q, l) {
        content_in(q, l, use_case)
    } else {
        None
    }
}

/// What follows one content keyword.
fn content_one(q: &[char], l: &[char], kw: &str) -> (r: Option<Vec<char>>)
    requires
        width_aligned(q@, l@),
    ensures
        match content_at(q@, l@, kw@) {
            Some(x) => r matches Some(v) && v@ == x,
            None => r is None,
        },
{
    let p = match find_text(l, kw) {
        Some(p) => p,
        None => return None,
    };
    let n = chars_of(kw).len();
    assert(p + n <= q.len());
    let rest = sub_chars(q, p + n, q.len());
    let a = trim_chars(rest.as_slice());
    match extract_quoted_text(a.as_slice()) {
        Some(x) => return Some(x),
        None => {},
    }
    if a.len() > 0 {
        Some(a)
    } else {
        None
    }
}

/// File content in a width-aligned query.
fn content_of(q: &[char], l: &[char], use_case: &str) -> (r: Option<Vec<char>>)
    requires
        width_aligned(q@, l@),
    ensures
        match content_in(q@, l@, use_case@) {
            Some(x) => r matches Some(v) && v@ == x,
            None => r is None,
        },
{
    let kws: [&str; 10] = [
        "with content", "with message", "with text", "containing", "with the content", "com conteúdo",
        "com mensagem", "com texto", "contendo", "com o conteúdo",
    ];
    let ghost ks = content_keywords();
    proof {
        assert(keyword_texts(kws@) =~= ks);
    }
    let ghost f = |kw: Seq<char>| content_at(q@, l@, kw);
    let mut k: usize = 0;
    while k < 10
        invariant
            k <= 10,
            ks == content_keywords(),
            ks == keyword_texts(kws@),
            width_aligned(q@, l@),
            f == (|kw: Seq<char>| content_at(q@, l@, kw)),
            first_some(ks, 0, f) == first_some(ks, k as int, f),
        decreases 10 - k,
    {
        proof {
            lemma_first_some(ks, k as int, f);
            assert(ks[k as int] == kws@[k as int]@);
            assert(f(ks[k as int]) == content_at(q@, l@, kws@[k as int]@));
        }
        let found = content_one(q, l, kws[k]);
        if found.is_some() {
            return found;
        }
        k = k + 1;
    }
    proof {
        lemma_first_some(ks, k as int, f);
    }
    body_of(q, l, use_case)
}

/// Extracts file content: quoted or following text after a content keyword,
/// else the message body.
pub fn extract_content(query: &str, use_case: &str) -> (r: Option<String>)
    ensures
        match spec_extract_content(query@, use_case@) {
            Some(x) => r matches Some(v) && v@ == x,
            None => r is None,
        },
{
    let q = chars_of(query);
    let l = lowercase_chars(q.as_slice());
    if !crate::text::aligned(q.as_slice(), l.as_slice()) {
        return None;
    }
    match content_of(q.as_slice(), l.as_slice(), use_case) {
        Some(v) => Some(string_from_chars(v.as_slice())),
        None => None,
    }
}

/// Characters that delimit a path before its extension: whitespace and
/// quotes.
pub open spec fn path_delimiter(c: char) -> bool {
    is_ws(c) || c == '"' || c == '\''
}

/// Index of the last path delimiter in a text.
pub open spec fn last_delimiter(s: Seq<char>) -> Option<int>
    decreases s.len(),
{
    if s.len() == 0 {
        None
    } else if path_delimiter(s.last()) {
        Some(s.len() - 1)
    } else {
        last_delimiter(s.drop_last())
    }
}

/// Office file extensions, in the order they are looked for.
pub open spec fn office_file_extensions() -> Seq<Seq<char>> {
    seq![".xlsx"@, ".xls"@, ".docx"@, ".doc"@, ".pptx"@, ".ppt"@]
}

/// The path that ends with one extension: from after the last delimiter
/// before the extension, quotes and whitespace trimmed; when not empty.
pub open spec fn path_with_ext(q: Seq<char>, l: Seq<char>, ext: Seq<char>) -> Option<Seq<char>> {
    match find_in(l, ext) {
        None => None,
        Some(ep) => {
            let start = match last_delimiter(q.subrange(0, ep)) {
                Some(i) => i + 1,
                None => 0,
            };
            let path = spec_trim(spec_trim_matches(Junk::Quote, q.subrange(start, ep + ext.len())));
            if path.len() > 0 {
                Some(path)
            } else {
                None
            }
        },
    }
}

/// The placeholder path when a query names no Office file.
pub open spec fn placeholder_path() -> Seq<char> {
    "/path/to/file.xlsx"@
}

/// The Office file path a query names: for the first extension that yields
/// one; else the placeholder (also for a query whose lowercase is not
/// width-aligned).
pub open spec fn spec_office_file_path(q: Seq<char>) -> Seq<char> {
    let l = spec_to_lowercase(q);
    if width_aligned(q, l) {
        match first_some(office_file_extensions(), 0, |e: Seq<char>| path_with_ext(q, l, e)) {
            Some(p) => p,
            None => placeholder_path(),
        }
    } else {
        placeholder_path()
    }
}

/// Index of the last path delimiter in `s[..n]`.
fn last_delimiter_in(s: &[char], n: usize) -> (r: Option<usize>)
    requires
        n <= s@.len(),
    ensures
        r matches Some(j) ==> last_delimiter(s@.subrange(0, n as int)) == Some(j as int) && j < n,
        r is None ==> last_delimiter(s@.subrange(0, n as int)) is None,
{
    let mut i = n;
    while i > 0 && !(crate::text::is_whitespace(s[i - 1]) || s[i - 1] == '"' || s[i - 1] == '\'')
        invariant
            i <= n <= s@.len(),
            last_delimiter(s@.subrange(0, i as int)) == last_delimiter(s@.subrange(0, n as int)),
        decreases i,
    {
        assert(s@.subrange(0, i as int).drop_last() =~= s@.subrange(0, i - 1));
        i = i - 1;
    }
    if i == 0 {
        assert(s@.subrange(0, 0) =~= Seq::<char>::empty());
        None
    } else {
        Some(i - 1)
    }
}

/// The path that ends with one extension.
fn path_with_ext_one(q: &[char], l: &[char], ext: &str) -> (r: Option<Vec<char>>)
    requires
        width_aligned(q@, l@),
    ensures
        match path_with_ext(q@, l@, ext@) {
            Some(x) => r matches Some(v) && v@ == x,
            None => r is None,
        },
{
    let ep = match find_text(l, ext) {
        Some(p) => p,
        None => return None,
    };
    let n = chars_of(ext).len();
    assert(ep + n <= q.len());
    let start = match last_delimiter_in(q, ep) {
        Some(i) => i + 1,
        None => 0,
    };
    let mid = sub_chars(q, start, ep + n);
    let a = trim_matches(Junk::Quote, mid.as_slice());
    let path = trim_chars(a.as_slice());
    if path.len() > 0 {
        Some(path)
    } else {
        None
    }
}

/// The Office file path a query names, or a placeholder.
pub fn extract_file_path_from_query(query: &str) -> (r: String)
    ensures
        r@ == spec_office_file_path(query@),
{
    let q = chars_of(query);
    let l = lowercase_chars(q.as_slice());
    if !crate::text::aligned(q.as_slice(), l.as_slice()) {
        return "/path/to/file.xlsx".to_owned();
    }
    let exts: [&str; 6] = [".xlsx", ".xls", ".docx", ".doc", ".pptx", ".ppt"];
    let ghost ks = office_file_extensions();
    proof {
        assert(keyword_texts(exts@) =~= ks);
    }
    let ghost f = |e: Seq<char>| path_with_ext(q@, l@, e);
    proof {
        assert(f =~= (|e: Seq<char>| path_with_ext(query@, spec_to_lowercase(query@), e)));
    }
    let mut k: usize = 0;
    while k < 6
        invariant
            k <= 6,
            ks == office_file_extensions(),
            ks == keyword_texts(exts@),
            width_aligned(q@, l@),
            q@ == query@,
            l@ == spec_to_lowercase(query@),
            f == (|e: Seq<char>| path_with_ext(q@, l@, e)),
            first_some(ks, 0, f) == first_some(ks, k as int, f),
        decreases 6 - k,
    {
        proof {
            lemma_first_some(ks, k as int, f);
            assert(ks[k as int] == exts@[k as int]@);
            assert(f(ks[k as int]) == path_with_ext(q@, l@, exts@[k as int]@));
        }
        match path_with_ext_one(q.as_slice(), l.as_slice(), exts[k]) {
            Some(p) => return string_from_chars(p.as_slice()),
            None => {},
        }
        k = k + 1;
    }
    proof {
        lemma_first_some(ks, k as int, f);
    }
    "/path/to/file.xlsx".to_owned()
}

/// Words that end a path given after ` /`.
pub open spec fn path_stops() -> Seq<Seq<char>> {
    seq![" in "@, " with "@, " and "@, " overwrite"@, " mode"@]
}

/// The least of `cur` and the positions of the stop words from `k` on.
#[verifier::opaque]
pub open spec fn min_found(t: Seq<char>, stops: Seq<Seq<char>>, k: int, cur: int) -> int
    decreases stops.len() - k,
{
    if k < 0 || k >= stops.len() {
        cur
    } else {
        match find_in(t, stops[k]) {
            Some(x) => min_found(t, stops, k + 1, if x < cur { x } else { cur }),
            None => min_found(t, stops, k + 1, cur),
        }
    }
}

proof fn lemma_min_found(t: Seq<char>, stops: Seq<Seq<char>>, k: int, cur: int)
    requires
        0 <= k,
    ensures
        k >= stops.len() ==> min_found(t, stops, k, cur) == cur,
        k < stops.len() ==> min_found(t, stops, k, cur) == match find_in(t, stops[k]) {
            Some(x) => min_found(t, stops, k + 1, if x < cur { x } else { cur }),
            None => min_found(t, stops, k + 1, cur),
        },
{
    reveal(min_found);
}

/// The first position of any stop word from `k` on, or `cur` when earlier.
#[verifier::opaque]
pub open spec fn min_opt(t: Seq<char>, stops: Seq<Seq<char>>, k: int, cur: Option<int>) -> Option<int>
    decreases stops.len() - k,
{
    if k < 0 || k >= stops.len() {
        cur
    } else {
        match find_in(t, stops[k]) {
            Some(x) => min_opt(
                t,
                stops,
                k + 1,
                match cur {
                    Some(c) => if x < c {
                        Some(x)
                    } else {
                        Some(c)
                    },
                    None => Some(x),
                },
            ),
            None => min_opt(t, stops, k + 1, cur),
        }
    }
}

proof fn lemma_min_opt(t: Seq<char>, stops: Seq<Seq<char>>, k: int, cur: Option<int>)
    requires
        0 <= k,
    ensures
        k >= stops.len() ==> min_opt(t, stops, k, cur) == cur,
        k < stops.len() ==> min_opt(t, stops, k, cur) == match find_in(t, stops[k]) {
            Some(x) => min_opt(
                t,
                stops,
                k + 1,
                match cur {
                    Some(c) => if x < c {
                        Some(x)
                    } else {
                        Some(c)
                    },
                    None => Some(x),
                },
            ),
            None => min_opt(t, stops, k + 1, cur),
        },
{
    reveal(min_opt);
}

/// A path given after ` /` in the query: up to the first stop word or quote,
/// trimmed; when it is not empty and starts with `/`.
pub open spec fn direct_path(q: Seq<char>) -> Option<Seq<char>> {
    match find_in(q, " /"@) {
        None => None,
        Some(st) => {
            let after = tail(q, st + 1);
            let e1 = min_found(after, path_stops(), 0, after.len() as int);
            let qp = match find_in(after, seq!['\'']) {
                Some(x) => Some(x),
                None => find_in(after, seq!['"']),
            };
            let e = match qp {
                Some(x) => if x < e1 {
                    x
                } else {
                    e1
                },
                None => e1,
            };
            let path = spec_trim(after.subrange(0, e));
            if path.len() > 0 && path[0] == '/' {
                Some(path)
            } else {
                None
            }
        },
    }
}

/// The phrases that introduce a file name, each with the words that end it.
pub open spec fn name_patterns() -> Seq<(Seq<char>, Seq<Seq<char>>)> {
    seq![
        ("file called "@, seq![" in"@, " to"@, " with"@, " containing"@]),
        ("file named "@, seq![" in"@, " to"@, " with"@, " containing"@]),
        ("arquivo chamado "@, seq![" no"@, " para"@, " com"@, " contendo"@]),
        ("arquivo "@, seq![" no"@, " para"@, " com"@, " contendo"@]),
        ("create "@, seq![" in"@, " to"@, " with"@]),
        ("criar "@, seq![" no"@, " para"@, " com"@]),
        ("upload "@, seq![" to"@, " in"@, " containing"@]),
    ]
}

/// The text with a leading `a file `, `the file ` or `file ` removed.
pub open spec fn strip_article(c: Seq<char>) -> Seq<char> {
    if crate::text::seq_starts_with(c, "a file "@) {
        tail(c, 7)
    } else if crate::text::seq_starts_with(c, "the file "@) {
        tail(c, 9)
    } else if crate::text::seq_starts_with(c, "file "@) {
        tail(c, 5)
    } else {
        c
    }
}

/// The text with a leading `/`, added when missing.
pub open spec fn slash_prefixed(c: Seq<char>) -> Seq<char> {
    if c.len() > 0 && c[0] == '/' {
        c
    } else {
        seq!['/'] + c
    }
}

/// The path a file name stands for: quotes and spaces trimmed, a leading
/// article removed; kept whole when it holds a `/`, else its first word;
/// with a leading `/`.
pub open spec fn path_from_name(name: Seq<char>) -> Seq<char> {
    let c1 = strip_article(spec_trim_matches(Junk::QuoteOrSpace, name));
    if c1.contains('/') {
        slash_prefixed(c1)
    } else {
        slash_prefixed(
            match spec_first_word(c1) {
                Some(w) => w,
                None => c1,
            },
        )
    }
}

/// The file name after one phrase: up to the first of its end words (looked
/// up in the lowercased rest, which must be width-aligned), else its first
/// word; as a path when not empty.
pub open spec fn name_path_at(q: Seq<char>, l: Seq<char>, start: Seq<char>, stops: Seq<Seq<char>>) -> Option<Seq<char>> {
    match find_in(l, start) {
        None => None,
        Some(pos) => {
            let ap = tail(q, pos + start.len());
            let lap = spec_to_lowercase(ap);
            if !width_aligned(ap, lap) {
                None
            } else {
                let name = match min_opt(lap, stops, 0, None) {
                    Some(e) => spec_trim(ap.subrange(0, e)),
                    None => match spec_first_word(ap) {
                        Some(w) => w,
                        None => spec_trim(ap),
                    },
                };
                if name.len() == 0 {
                    None
                } else {
                    Some(path_from_name(name))
                }
            }
        },
    }
}

/// The path after the first phrase, from index `k` on, that yields one.
#[verifier::opaque]
pub open spec fn named_path_from(q: Seq<char>, l: Seq<char>, k: int) -> Option<Seq<char>>
    decreases name_patterns().len() - k,
{
    if k < 0 || k >= name_patterns().len() {
        None
    } else {
        match name_path_at(q, l, name_patterns()[k].0, name_patterns()[k].1) {
            Some(p) => Some(p),
            None => named_path_from(q, l, k + 1),
        }
    }
}

proof fn lemma_named_path_from(q: Seq<char>, l: Seq<char>, k: int)
    requires
        0 <= k,
    ensures
        k >= name_patterns().len() ==> named_path_from(q, l, k) is None,
        k < name_patterns().len() ==> named_path_from(q, l, k) == match name_path_at(
            q,
            l,
            name_patterns()[k].0,
            name_patterns()[k].1,
        ) {
            Some(p) => Some(p),
            None => named_path_from(q, l, k + 1),
        },
{
    reveal(named_path_from);
}

/// The file path a query names: one given after ` /`; else one after a
/// phrase like "file called" (in a width-aligned query).
pub open spec fn spec_extract_file_path(q: Seq<char>) -> Option<Seq<char>> {
    match direct_path(q) {
        Some(p) => Some(p),
        None => {
            let l = spec_to_lowercase(q);
            if width_aligned(q, l) {
                named_path_from(q, l, 0)
            } else {
                None
            }
        },
    }
}

/// The least of `t.len()` and the positions of the stop words.
fn min_stop(t: &[char], stops: &[&str]) -> (r: usize)
    ensures
        r == min_found(t@, keyword_texts(stops@), 0, t@.len() as int),
        r <= t@.len(),
{
    let ghost ks = keyword_texts(stops@);
    let mut cur = t.len();
    let mut k: usize = 0;
    while k < stops.len()
        invariant
            k <= stops@.len(),
            ks == keyword_texts(stops@),
            cur <= t@.len(),
            min_found(t@, ks, 0, t@.len() as int) == min_found(t@, ks, k as int, cur as int),
        decreases stops.len() - k,
    {
        proof {
            lemma_min_found(t@, ks, k as int, cur as int);
            assert(ks[k as int] == stops@[k as int]@);
        }
        match find_text(t, stops[k]) {
            Some(x) => {
                if x < cur {
                    cur = x;
                }
            },
            None => {},
        }
        k = k + 1;
    }
    proof {
        lemma_min_found(t@, ks, k as int, cur as int);
    }
    cur
}

/// The first position of any of the stop words.
fn first_stop(t: &[char], stops: &[&str]) -> (r: Option<usize>)
    ensures
        r matches Some(e) ==> min_opt(t@, keyword_texts(stops@), 0, None) == Some(e as int) && e <= t@.len(),
        r is None ==> min_opt(t@, keyword_texts(stops@), 0, None) is None,
{
    let ghost ks = keyword_texts(stops@);
    let mut cur: Option<usize> = None;
    let mut k: usize = 0;
    while k < stops.len()
        invariant
            k <= stops@.len(),
            ks == keyword_texts(stops@),
            cur matches Some(c) ==> c <= t@.len(),
            min_opt(t@, ks, 0, None) == min_opt(
                t@,
                ks,
                k as int,
                match cur {
                    Some(c) => Some(c as int),
                    None => None,
                },
            ),
        decreases stops.len() - k,
    {
        let ghost gc = match cur {
            Some(c) => Some(c as int),
            None => None::<int>,
        };
        proof {
            lemma_min_opt(t@, ks, k as int, gc);
            assert(ks[k as int] == stops@[k as int]@);
        }
        match find_text(t, stops[k]) {
            Some(x) => {
                cur = match cur {
                    Some(c) => if x < c {
                        Some(x)
                    } else {
                        Some(c)
                    },
                    None => Some(x),
                };
            },
            None => {},
        }
        k = k + 1;
    }
    proof {
        let gc = match cur {
            Some(c) => Some(c as int),
            None => None::<int>,
        };
        lemma_min_opt(t@, ks, k as int, gc);
    }
    cur
}

/// A path given after ` /` in the query.
fn direct_path_of(q: &[char]) -> (r: Option<Vec<char>>)
    ensures
        match direct_path(q@) {
            Some(x) => r matches Some(v) && v@ == x,
            None => r is None,
        },
{
    let st = match find_text(q, " /") {
        Some(st) => st,
        None => return None,
    };
    proof {
        reveal_strlit(" /");
    }
    let after = sub_chars(q, st + 1, q.len());
    let stops: [&str; 5] = [" in ", " with ", " and ", " overwrite", " mode"];
    proof {
        assert(keyword_texts(stops@) =~= path_stops());
    }
    let e1 = min_stop(after.as_slice(), stops.as_slice());
    let qp = match find_ch(after.as_slice(), '\'') {
        Some(x) => Some(x),
        None => find_ch(after.as_slice(), '"'),
    };
    let e = match qp {
        Some(x) => if x < e1 {
            x
        } else {
            e1
        },
        None => e1,
    };
    let head = sub_chars(after.as_slice(), 0, e);
    let path = trim_chars(head.as_slice());
    if path.len() > 0 && path[0] == '/' {
        Some(path)
    } else {
        None
    }
}

/// Whether a character occurs in a text.
pub fn contains_ch(s: &[char], c: char) -> (r: bool)
    ensures
        r == s@.contains(c),
{
    let f = find_char(s, c);
    proof {
        if s@.contains(c) {
            lemma_contains_char(s@, c);
        }
    }
    f.is_some()
}

/// The text with a leading article removed.
fn strip_article_of(c0: &[char]) -> (r: Vec<char>)
    ensures
        r@ == strip_article(c0@),
{
    let a1 = chars_of("a file ");
    let a2 = chars_of("the file ");
    let a3 = chars_of("file ");
    proof {
        reveal_strlit("a file ");
        reveal_strlit("the file ");
        reveal_strlit("file ");
    }
    if crate::text::starts_with_chars(c0, a1.as_slice()) {
        sub_chars(c0, 7, c0.len())
    } else if crate::text::starts_with_chars(c0, a2.as_slice()) {
        sub_chars(c0, 9, c0.len())
    } else if crate::text::starts_with_chars(c0, a3.as_slice()) {
        sub_chars(c0, 5, c0.len())
    } else {
        let r = sub_chars(c0, 0, c0.len());
        assert(r@ =~= c0@);
        r
    }
}

/// The text with a leading `/`, added when missing.
fn slash_prefixed_of(c: Vec<char>) -> (r: Vec<char>)
    ensures
        r@ == slash_prefixed(c@),
{
    if c.len() > 0 && c[0] == '/' {
        c
    } else {
        let mut v: Vec<char> = Vec::new();
        v.push('/');
        crate::text::append_chars(&mut v, c.as_slice());
        proof {
            assert(v@ =~= seq!['/'] + c@);
        }
        v
    }
}

/// The path a file name stands for.
fn path_from_name_of(name: &[char]) -> (r: Vec<char>)
    ensures
        r@ == path_from_name(name@),
{
    let c0 = trim_matches(Junk::QuoteOrSpace, name);
    let c1 = strip_article_of(c0.as_slice());
    if contains_ch(c1.as_slice(), '/') {
        slash_prefixed_of(c1)
    } else {
        let c2 = match crate::text::first_word(c1.as_slice()) {
            Some(w) => w,
            None => c1,
        };
        slash_prefixed_of(c2)
    }
}

/// The file name after one phrase, as a path.
fn name_path_one(q: &[char], l: &[char], start: &str, stops: &[&str]) -> (r: Option<Vec<char>>)
    requires
        width_aligned(q@, l@),
    ensures
        match name_path_at(q@, l@, start@, keyword_texts(stops@)) {
            Some(x) => r matches Some(v) && v@ == x,
            None => r is None,
        },
{
    let pos = match find_text(l, start) {
        Some(p) => p,
        None => return None,
    };
    let n = chars_of(start).len();
    assert(pos + n <= q.len());
    let ap = sub_chars(q, pos + n, q.len());
    let lap = lowercase_chars(ap.as_slice());
    if !crate::text::aligned(ap.as_slice(), lap.as_slice()) {
        return None;
    }
    let name = match first_stop(lap.as_slice(), stops) {
        Some(e) => {
            let h = sub_chars(ap.as_slice(), 0, e);
            trim_chars(h.as_slice())
        },
        None => match crate::text::first_word(ap.as_slice()) {
            Some(w) => w,
            None => trim_chars(ap.as_slice()),
        },
    };
    if name.len() == 0 {
        None
    } else {
        Some(path_from_name_of(name.as_slice()))
    }
}

/// The phrase at index `k` and its end words.
fn name_pattern(k: usize) -> (r: (&'static str, Vec<&'static str>))
    requires
        k < 7,
    ensures
        r.0@ == name_patterns()[k as int].0,
        keyword_texts(r.1@) == name_patterns()[k as int].1,
{
    let r: (&'static str, Vec<&'static str>) = if k == 0 {
        ("file called ", vec![" in", " to", " with", " containing"])
    } else if k == 1 {
        ("file named ", vec![" in", " to", " with", " containing"])
    } else if k == 2 {
        ("arquivo chamado ", vec![" no", " para", " com", " contendo"])
    } else if k == 3 {
        ("arquivo ", vec![" no", " para", " com", " contendo"])
    } else if k == 4 {
        ("create ", vec![" in", " to", " with"])
    } else if k == 5 {
        ("criar ", vec![" no", " para", " com"])
    } else {
        ("upload ", vec![" to", " in", " containing"])
    };
    proof {
        assert(keyword_texts(r.1@) =~= name_patterns()[k as int].1);
    }
    r
}

/// Extracts a file path from a query: one given after ` /`, else the file
/// name after a phrase like "file called", as a path.
pub fn extract_file_path(query: &str) -> (r: Option<String>)
    ensures
        match spec_extract_file_path(query@) {
            Some(x) => r matches Some(v) && v@ == x,
            None => r is None,
        },
{
    let q = chars_of(query);
    match direct_path_of(q.as_slice()) {
        Some(p) => return Some(string_from_chars(p.as_slice())),
        None => {},
    }
    let l = lowercase_chars(q.as_slice());
    if !crate::text::aligned(q.as_slice(), l.as_slice()) {
        return None;
    }
    let mut k: usize = 0;
    while k < 7
        invariant
            k <= 7,
            width_aligned(q@, l@),
            q@ == query@,
            l@ == spec_to_lowercase(query@),
            direct_path(query@) is None,
            named_path_from(q@, l@, 0) == named_path_from(q@, l@, k as int),
        decreases 7 - k,
    {
        proof {
            lemma_named_path_from(q@, l@, k as int);
        }
        let (start, stops) = name_pattern(k);
        match name_path_one(q.as_slice(), l.as_slice(), start, stops.as_slice()) {
            Some(p) => return Some(string_from_chars(p.as_slice())),
            None => {},
        }
        k = k + 1;
    }
    proof {
        lemma_named_path_from(q@, l@, k as int);
    }
    None
}

/// `str::trim_start_matches` with the characters of kind `k`.
pub fn trim_start_matches(k: Junk, s: &[char]) -> (r: Vec<char>)
    ensures
        r@ == tail(s@, lead_junk(k, s@)),
{
    let mut a: usize = 0;
    while a < s.len() && junk(k, s[a])
        invariant
            a <= s@.len(),
            forall|j: int| 0 <= j < a ==> is_junk(k, #[trigger] s@[j]),
        decreases s.len() - a,
    {
        a = a + 1;
    }
    proof {
        lemma_lead_junk(k, s@, a as int);
    }
    sub_chars(s, a, s.len())
}

/// Keywords that point at a file attachment.
pub open spec fn attachment_keywords() -> Seq<Seq<char>> {
    seq![
        "file"@, "arquivo"@, "attach"@, "anexo"@, "anexar"@, "dropbox"@, "drive"@, "document"@, "documento"@,
        "send file"@, "enviar arquivo"@, "with file"@, "com arquivo"@,
    ]
}

/// Keywords before a recipient.
pub open spec fn recipient_keywords() -> Seq<Seq<char>> {
    seq!["to "@, "para "@, "recipient "@]
}

/// Keywords before a subject.
pub open spec fn subject_keywords() -> Seq<Seq<char>> {
    seq!["subject"@, "assunto"@]
}

/// A tool that sends email.
pub open spec fn sends_email(tool_slug: Seq<char>) -> bool {
    seq_contains(tool_slug, "SEND_EMAIL"@) || seq_contains(tool_slug, "EMAIL_SEND"@)
}

/// A query that mentions a file or an attachment.
pub open spec fn mentions_attachment(query: Seq<char>) -> bool {
    exists|k: int| 0 <= k < attachment_keywords().len() && seq_contains(spec_to_lowercase(query), #[trigger] attachment_keywords()[k])
}

/// An optional text field.
pub open spec fn opt_field(key: Seq<char>, v: Option<Seq<char>>) -> Seq<(Seq<char>, JsonV)> {
    match v {
        Some(x) => seq![(key, JsonV::Str(x))],
        None => Seq::empty(),
    }
}

/// The quick extraction for tools that send email: for a query that names no
/// file or attachment, the recipient, subject and body it holds, when it has a
/// recipient and a subject or a body.
pub open spec fn spec_quick_extraction(query: Seq<char>, tool_slug: Seq<char>) -> Option<JsonV> {
    if !sends_email(tool_slug) || mentions_attachment(query) {
        None
    } else {
        let e = spec_extract_email(query, recipient_keywords());
        let sub = spec_extract_quoted_or_after(query, subject_keywords());
        let body = spec_extract_body(query, Seq::empty());
        if e is Some && (sub is Some || body is Some) {
            Some(JsonV::Object(opt_field("recipient_email"@, e) + opt_field("subject"@, sub) + opt_field("body"@, body)))
        } else {
            None
        }
    }
}

/// Quick extraction fills exactly the email requests it can: for a tool
/// whose slug holds `SEND_EMAIL` or `EMAIL_SEND` and a query that names no
/// attachment, it gives arguments whenever a recipient is found together
/// with a subject or a body (either one is enough): the recipient first,
/// under `recipient_email`, and the subject and body found under their
/// names. Without a recipient, with neither a subject nor a body, for any
/// other tool or for a query naming an attachment, it gives none.
pub proof fn law_quick_extraction_needs_recipient_and_subject_or_body(query: Seq<char>, tool_slug: Seq<char>)
    ensures
        ({
            let email_tool = seq_contains(tool_slug, "SEND_EMAIL"@) || seq_contains(tool_slug, "EMAIL_SEND"@);
            let e = spec_extract_email(query, recipient_keywords());
            let sub = spec_extract_quoted_or_after(query, subject_keywords());
            let body = spec_extract_body(query, Seq::empty());
            &&& email_tool && !mentions_attachment(query) && e is Some && (sub is Some || body is Some) ==> {
                &&& spec_quick_extraction(query, tool_slug) matches Some(JsonV::Object(es))
                &&& spec_quick_extraction(query, tool_slug)->Some_0->Object_0[0] == ("recipient_email"@, JsonV::Str(e->Some_0))
                &&& sub matches Some(x) ==> spec_quick_extraction(query, tool_slug)->Some_0->Object_0.contains(("subject"@, JsonV::Str(x)))
                &&& body matches Some(b) ==> spec_quick_extraction(query, tool_slug)->Some_0->Object_0.contains(("body"@, JsonV::Str(b)))
            }
            &&& !email_tool || mentions_attachment(query) || e is None || (sub is None && body is None)
                ==> spec_quick_extraction(query, tool_slug) is None
        }),
{
    let e = spec_extract_email(query, recipient_keywords());
    let sub = spec_extract_quoted_or_after(query, subject_keywords());
    let body = spec_extract_body(query, Seq::empty());
    if sends_email(tool_slug) && !mentions_attachment(query) && e is Some && (sub is Some || body is Some) {
        let a = opt_field("recipient_email"@, e);
        let b = opt_field("subject"@, sub);
        let c = opt_field("body"@, body);
        let es = a + b + c;
        assert(es[0] == a[0]);
        if let Some(x) = sub {
            assert(es[a.len() as int] == ("subject"@, JsonV::Str(x)));
        }
        if let Some(y) = body {
            assert(es[(a.len() + b.len()) as int] == ("body"@, JsonV::Str(y)));
        }
    }
}

/// Adds an optional text field.
pub fn push_opt(es: &mut Vec<(String, Json)>, key: &str, v: Option<String>)
    ensures
        entries_view(final(es)@) == entries_view(old(es)@) + opt_field(
            key@,
            match v {
                Some(x) => Some(x@),
                None => None,
            },
        ),
{
    match v {
        Some(x) => {
            let ghost before = entries_view(es@);
            push_entry(es, key, Json::string(x.as_str()));
            assert(entries_view(es@) =~= before + opt_field(key@, Some(x@)));
        },
        None => {
            assert(entries_view(es@) =~= entries_view(es@) + opt_field(key@, None));
        },
    }
}

/// The view of an optional text.
pub open spec fn opt_view(v: Option<String>) -> Option<Seq<char>> {
    match v {
        Some(x) => Some(x@),
        None => None,
    }
}

/// Layer one of argument extraction: the recipient, subject and body of an
/// email to send, read straight from the query.
pub fn try_quick_extraction(query: &str, tool_slug: &str) -> (r: Option<Json>)
    ensures
        match spec_quick_extraction(query@, tool_slug@) {
            Some(v) => r matches Some(j) && j.jv() == v,
            None => r is None,
        },
{
    if !(crate::text::str_contains(tool_slug, "SEND_EMAIL") || crate::text::str_contains(tool_slug, "EMAIL_SEND")) {
        return None;
    }
    let lower = crate::text::to_lowercase(query);
    let lc = chars_of(lower.as_str());
    let kws: [&str; 13] = [
        "file", "arquivo", "attach", "anexo", "anexar", "dropbox", "drive", "document", "documento", "send file",
        "enviar arquivo", "with file", "com arquivo",
    ];
    proof {
        assert(keyword_texts(kws@) =~= attachment_keywords());
    }
    let att = crate::text::contains_any(lc.as_slice(), kws.as_slice());
    proof {
        if att {
            let k = choose|k: int| 0 <= k < kws@.len() && seq_contains(lc@, kws@[k]@);
            assert(attachment_keywords()[k] == kws@[k]@);
        }
        if mentions_attachment(query@) {
            let k = choose|k: int| 0 <= k < attachment_keywords().len() && seq_contains(
                spec_to_lowercase(query@),
                #[trigger] attachment_keywords()[k],
            );
            assert(attachment_keywords()[k] == kws@[k]@);
        }
    }
    if att {
        return None;
    }
    let rk: [&str; 3] = ["to ", "para ", "recipient "];
    let sk: [&str; 2] = ["subject", "assunto"];
    proof {
        assert(keyword_texts(rk@) =~= recipient_keywords());
        assert(keyword_texts(sk@) =~= subject_keywords());
    }
    let e = extract_email_address(query, rk.as_slice());
    let sub = extract_quoted_or_after_keyword(query, sk.as_slice());
    let body = extract_body_content(query, "");
    proof {
        reveal_strlit("");
        assert(""@ =~= Seq::<char>::empty());
    }
    let ghost ev = opt_view(e);
    let ghost sv = opt_view(sub);
    let ghost bv = opt_view(body);
    assert(ev == spec_extract_email(query@, recipient_keywords()));
    assert(sv == spec_extract_quoted_or_after(query@, subject_keywords()));
    assert(bv == spec_extract_body(query@, Seq::empty()));
    if e.is_some() && (sub.is_some() || body.is_some()) {
        let mut es: Vec<(String, Json)> = Vec::new();
        push_opt(&mut es, "recipient_email", e);
        push_opt(&mut es, "subject", sub);
        push_opt(&mut es, "body", body);
        proof {
            assert(entries_view(Seq::<(String, Json)>::empty()) =~= Seq::empty());
            assert(entries_view(es@) =~= opt_field("recipient_email"@, ev) + opt_field("subject"@, sv) + opt_field(
                "body"@,
                bv,
            ));
        }
        Some(object_of(es))
    } else {
        None
    }
}

/// The mimetype a staged file gets from its name.
pub open spec fn staged_mimetype(name: Seq<char>) -> Seq<char> {
    if crate::text::seq_ends_with(name, ".txt"@) {
        "text/plain"@
    } else if crate::text::seq_ends_with(name, ".md"@) {
        "text/markdown"@
    } else if crate::text::seq_ends_with(name, ".json"@) {
        "application/json"@
    } else {
        "text/plain"@
    }
}

/// The fields of a Dropbox upload read from the query: the path with mode
/// `overwrite` and, when the query gives content, the staging markers (the
/// content, the file name without leading slashes and its mimetype).
pub open spec fn dropbox_upload_fields(query: Seq<char>, use_case: Seq<char>) -> Seq<(Seq<char>, JsonV)> {
    match spec_extract_file_path(query) {
        None => Seq::empty(),
        Some(path) => {
            let base = seq![("path"@, JsonV::Str(path)), ("mode"@, JsonV::Str("overwrite"@))];
            match spec_extract_content(query, use_case) {
                None => base,
                Some(c) => {
                    let name = tail(path, lead_junk(Junk::Slash, path));
                    base + seq![
                        ("_zeroclaw_stage_content"@, JsonV::Str(c)),
                        ("_zeroclaw_stage_filename"@, JsonV::Str(name)),
                        ("_zeroclaw_stage_mimetype"@, JsonV::Str(staged_mimetype(name))),
                    ]
                },
            }
        },
    }
}

/// A tool that writes a file.
pub open spec fn writes_file(tool_slug: Seq<char>) -> bool {
    seq_contains(tool_slug, "UPLOAD"@) || seq_contains(tool_slug, "CREATE"@) || seq_contains(tool_slug, "WRITE"@)
}

/// A tool that handles mail.
pub open spec fn handles_mail(tool_slug: Seq<char>) -> bool {
    seq_contains(tool_slug, "EMAIL"@) || seq_contains(tool_slug, "MAIL"@)
}

/// The fields read from the query for other tools: path and content for a
/// tool that writes a file; recipient (as `recipient_email` and `to`),
/// subject and body for a mail tool.
pub open spec fn generic_fields(query: Seq<char>, tool_slug: Seq<char>, use_case: Seq<char>) -> Seq<(Seq<char>, JsonV)> {
    let file = if writes_file(tool_slug) {
        opt_field("path"@, spec_extract_file_path(query)) + opt_field("content"@, spec_extract_content(query, use_case))
    } else {
        Seq::empty()
    };
    let mail = if handles_mail(tool_slug) {
        let e = spec_extract_email(query, recipient_keywords());
        opt_field("recipient_email"@, e) + opt_field("to"@, e) + opt_field(
            "subject"@,
            spec_extract_quoted_or_after(query, subject_keywords()),
        ) + opt_field("body"@, spec_extract_body(query, use_case))
    } else {
        Seq::empty()
    };
    file + mail
}

/// Layer three of argument extraction: the fields a heuristic reading of
/// the query gives for the tool.
pub open spec fn spec_generic_fallback(query: Seq<char>, tool_slug: Seq<char>, use_case: Seq<char>) -> JsonV {
    if tool_slug == "DROPBOX_UPLOAD_FILE"@ {
        JsonV::Object(dropbox_upload_fields(query, use_case))
    } else {
        JsonV::Object(generic_fields(query, tool_slug, use_case))
    }
}

/// The Dropbox upload fields.
fn dropbox_fields(query: &str, use_case: &str) -> (r: Vec<(String, Json)>)
    ensures
        entries_view(r@) == dropbox_upload_fields(query@, use_case@),
{
    let mut es: Vec<(String, Json)> = Vec::new();
    let path = match extract_file_path(query) {
        Some(p) => p,
        None => {
            assert(entries_view(es@) =~= Seq::empty());
            return es;
        },
    };
    push_entry(&mut es, "path", Json::string(path.as_str()));
    push_entry(&mut es, "mode", Json::string("overwrite"));
    let ghost base = entries_view(es@);
    assert(base =~= seq![("path"@, JsonV::Str(path@)), ("mode"@, JsonV::Str("overwrite"@))]);
    match extract_content(query, use_case) {
        None => {},
        Some(c) => {
            let pc = chars_of(path.as_str());
            let name = trim_start_matches(Junk::Slash, pc.as_slice());
            let name_s = string_from_chars(name.as_slice());
            let mt: &str = if crate::text::ends_with_chars(name.as_slice(), chars_of(".txt").as_slice()) {
                "text/plain"
            } else if crate::text::ends_with_chars(name.as_slice(), chars_of(".md").as_slice()) {
                "text/markdown"
            } else if crate::text::ends_with_chars(name.as_slice(), chars_of(".json").as_slice()) {
                "application/json"
            } else {
                "text/plain"
            };
            assert(mt@ == staged_mimetype(name@));
            push_entry(&mut es, "_zeroclaw_stage_content", Json::string(c.as_str()));
            push_entry(&mut es, "_zeroclaw_stage_filename", Json::string(name_s.as_str()));
            push_entry(&mut es, "_zeroclaw_stage_mimetype", Json::string(mt));
            assert(entries_view(es@) =~= base + seq![
                ("_zeroclaw_stage_content"@, JsonV::Str(c@)),
                ("_zeroclaw_stage_filename"@, JsonV::Str(name@)),
                ("_zeroclaw_stage_mimetype"@, JsonV::Str(staged_mimetype(name@))),
            ]);
        },
    }
    es
}

/// The fields for other tools.
fn other_fields(query: &str, tool_slug: &str, use_case: &str) -> (r: Vec<(String, Json)>)
    ensures
        entries_view(r@) == generic_fields(query@, tool_slug@, use_case@),
{
    let mut es: Vec<(String, Json)> = Vec::new();
    assert(entries_view(es@) =~= Seq::empty());
    let writes = crate::text::str_contains(tool_slug, "UPLOAD") || crate::text::str_contains(tool_slug, "CREATE")
        || crate::text::str_contains(tool_slug, "WRITE");
    if writes {
        push_opt(&mut es, "path", extract_file_path(query));
        push_opt(&mut es, "content", extract_content(query, use_case));
    }
    let ghost file = entries_view(es@);
    let mail = crate::text::str_contains(tool_slug, "EMAIL") || crate::text::str_contains(tool_slug, "MAIL");
    if mail {
        let rk: [&str; 3] = ["to ", "para ", "recipient "];
        let sk: [&str; 2] = ["subject", "assunto"];
        proof {
            assert(keyword_texts(rk@) =~= recipient_keywords());
            assert(keyword_texts(sk@) =~= subject_keywords());
        }
        let e = extract_email_address(query, rk.as_slice());
        let e2 = match &e {
            Some(x) => Some(x.clone()),
            None => None,
        };
        proof {
            if e is Some {
                assert(e2 is Some);
            }
        }
        push_opt(&mut es, "recipient_email", e);
        push_opt(&mut es, "to", e2);
        push_opt(&mut es, "subject", extract_quoted_or_after_keyword(query, sk.as_slice()));
        push_opt(&mut es, "body", extract_body_content(query, use_case));
    }
    proof {
        assert(entries_view(es@) =~= generic_fields(query@, tool_slug@, use_case@));
    }
    es
}

/// Layer three of argument extraction: the fields a heuristic reading of the
/// query gives for the tool.
pub fn extract_generic_fallback(query: &str, tool_slug: &str, use_case: &str) -> (r: Json)
    ensures
        r.jv() == spec_generic_fallback(query@, tool_slug@, use_case@),
{
    if crate::text::str_eq(tool_slug, "DROPBOX_UPLOAD_FILE") {
        object_of(dropbox_fields(query, use_case))
    } else {
        object_of(other_fields(query, tool_slug, use_case))
    }
}

/// A field layer one may fill.
pub open spec fn quick_field(k: Seq<char>) -> bool {
    k == "recipient_email"@ || k == "subject"@ || k == "body"@
}

/// Layer one fills only the recipient, the subject and the body (never an
/// attachment, which needs the context of earlier calls), and whatever it
/// returns starts with the recipient.
pub proof fn law_quick_extraction_fields(query: Seq<char>, tool_slug: Seq<char>)
    ensures
        spec_quick_extraction(query, tool_slug) matches Some(v) ==> (v matches JsonV::Object(es) && es.len() >= 2
            && es[0].0 == "recipient_email"@ && forall|i: int| 0 <= i < es.len() ==> quick_field(#[trigger] es[i].0)),
{
    match spec_quick_extraction(query, tool_slug) {
        Some(v) => {
            let e = spec_extract_email(query, recipient_keywords());
            let sub = spec_extract_quoted_or_after(query, subject_keywords());
            let body = spec_extract_body(query, Seq::empty());
            let es = opt_field("recipient_email"@, e) + opt_field("subject"@, sub) + opt_field("body"@, body);
            assert(v == JsonV::Object(es));
            assert forall|i: int| 0 <= i < es.len() implies quick_field(#[trigger] es[i].0) by {
                let a = opt_field("recipient_email"@, e);
                let b = opt_field("subject"@, sub);
                if i < a.len() {
                } else if i < a.len() + b.len() {
                    assert(es[i] == b[i - a.len()]);
                } else {
                    assert(es[i] == opt_field("body"@, body)[i - a.len() - b.len()]);
                }
            }
        },
        None => {},
    }
}
} // verus!
