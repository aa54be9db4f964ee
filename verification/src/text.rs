//! Character-level text utilities with specifications over `Seq<char>`.

use vstd::prelude::*;

verus! {

/// What `str::to_lowercase` returns for a string: its Unicode lowercase
/// mapping (which may change the number of characters).
pub uninterp spec fn spec_to_lowercase(s: Seq<char>) -> Seq<char>;

/// Lowercases a string with `str::to_lowercase` (Unicode lowercase mapping).
/// The result is named, not described: it is `spec_to_lowercase` of the input.
#[verifier::external_body]
pub(crate) fn to_lowercase(s: &str) -> (r: String)
    ensures
        r@ == spec_to_lowercase(s@),
{
    s.to_lowercase()
}

/// What `str::to_uppercase` makes of a text (Unicode uppercase mapping).
pub uninterp spec fn spec_to_uppercase(s: Seq<char>) -> Seq<char>;

/// Uppercases a string with `str::to_uppercase`. The result is named.
#[verifier::external_body]
pub(crate) fn to_uppercase(s: &str) -> (r: String)
    ensures
        r@ == spec_to_uppercase(s@),
{
    s.to_uppercase()
}

/// Builds a `String` from characters (`String: FromIterator<char>`).
#[verifier::external_body]
pub(crate) fn string_from_chars(v: &[char]) -> (r: String)
    ensures
        r@ == v@,
{
    v.iter().collect()
}

/// The characters of a string (`str::chars`).
#[verifier::external_body]
pub(crate) fn chars_of(s: &str) -> (r: Vec<char>)
    ensures
        r@ == s@,
{
    s.chars().collect()
}

/// Decimal digits of a natural number.
pub open spec fn spec_digits(n: nat) -> Seq<char>
    decreases n,
{
    if n < 10 {
        seq![(('0' as u8) + n) as char]
    } else {
        spec_digits(n / 10).push((('0' as u8) + (n % 10)) as char)
    }
}

/// Decimal notation of an integer, with a leading '-' for negative numbers.
pub open spec fn spec_decimal(n: int) -> Seq<char> {
    if n < 0 {
        seq!['-'] + spec_digits((-n) as nat)
    } else {
        spec_digits(n as nat)
    }
}

/// The decimal digit of a number below ten.
fn digit_char(d: u64) -> (c: char)
    requires
        d < 10,
    ensures
        c == (('0' as u8) + d) as char,
{
    let b: u8 = 48u8 + (d as u8);
    b as char
}

/// The decimal digits of `n`.
fn push_digits(v: &mut Vec<char>, n: u64)
    ensures
        final(v)@ == old(v)@ + spec_digits(n as nat),
{
    let mut m: u64 = n;
    let mut acc: Vec<char> = Vec::new();
    while m >= 10
        invariant
            spec_digits(n as nat) == spec_digits(m as nat) + acc@,
        decreases m,
    {
        let c = digit_char(m % 10);
        let ghost before = acc@;
        acc.insert(0, c);
        proof {
            assert(spec_digits(m as nat) == spec_digits((m / 10) as nat).push(c));
            assert(spec_digits((m / 10) as nat).push(c) + before =~= spec_digits((m / 10) as nat) + acc@);
        }
        m = m / 10;
    }
    let c = digit_char(m);
    let ghost before = acc@;
    acc.insert(0, c);
    proof {
        assert(spec_digits(m as nat) == seq![c]);
        assert(seq![c] + before =~= acc@);
    }
    let mut i: usize = 0;
    let ghost start = v@;
    while i < acc.len()
        invariant
            i <= acc@.len(),
            v@ == start + acc@.subrange(0, i as int),
        decreases acc.len() - i,
    {
        v.push(acc[i]);
        proof {
            assert(acc@.subrange(0, i + 1) =~= acc@.subrange(0, i as int).push(acc@[i as int]));
        }
        i = i + 1;
    }
    proof {
        assert(acc@.subrange(0, acc@.len() as int) =~= acc@);
    }
}

/// Formats an `i64` in decimal, as its `ToString` does.
pub(crate) fn i64_to_string(n: i64) -> (r: String)
    ensures
        r@ == spec_decimal(n as int),
{
    let mut v: Vec<char> = Vec::new();
    if n < 0 {
        v.push('-');
        let magnitude: u64 = ((-(n + 1)) as u64) + 1;
        push_digits(&mut v, magnitude);
        assert(v@ =~= seq!['-'] + spec_digits((-n) as nat));
    } else {
        push_digits(&mut v, n as u64);
        assert(v@ =~= spec_digits(n as nat));
    }
    string_from_chars(v.as_slice())
}

/// Formats a `u64` in decimal, as its `ToString` does.
pub(crate) fn u64_to_string(n: u64) -> (r: String)
    ensures
        r@ == spec_decimal(n as int),
{
    let mut v: Vec<char> = Vec::new();
    push_digits(&mut v, n);
    assert(v@ =~= spec_digits(n as nat));
    string_from_chars(v.as_slice())
}

/// Whether `needle` occurs in `hay` starting at index `i`.
pub open spec fn matches_at(hay: Seq<char>, needle: Seq<char>, i: int) -> bool {
    0 <= i && i + needle.len() <= hay.len() && hay.subrange(i, i + needle.len()) == needle
}

/// Whether `needle` occurs anywhere in `hay` (`str::contains` on a string pattern).
pub open spec fn seq_contains(hay: Seq<char>, needle: Seq<char>) -> bool {
    exists|i: int| matches_at(hay, needle, i)
}

/// Index of the first occurrence of `needle` in `hay` (`str::find`, counted in characters).
pub open spec fn first_match(hay: Seq<char>, needle: Seq<char>) -> Option<int> {
    if seq_contains(hay, needle) {
        Some(choose|i: int| matches_at(hay, needle, i) && forall|j: int| 0 <= j < i ==> !matches_at(hay, needle, j))
    } else {
        None
    }
}

/// Whether `hay` starts with `prefix`.
pub open spec fn seq_starts_with(hay: Seq<char>, prefix: Seq<char>) -> bool {
    prefix.len() <= hay.len() && hay.subrange(0, prefix.len() as int) == prefix
}

/// Whether `hay` ends with `suffix`.
pub open spec fn seq_ends_with(hay: Seq<char>, suffix: Seq<char>) -> bool {
    suffix.len() <= hay.len() && hay.subrange(hay.len() - suffix.len(), hay.len() as int) == suffix
}

/// Checks whether `needle` occurs in `hay` at index `i`.
pub fn match_at(hay: &[char], needle: &[char], i: usize) -> (r: bool)
    ensures
        r == matches_at(hay@, needle@, i as int),
{
    if i > hay.len() || needle.len() > hay.len() - i {
        return false;
    }
    let mut k: usize = 0;
    while k < needle.len()
        invariant
            i + needle.len() <= hay.len(),
            k <= needle.len(),
            forall|m: int| 0 <= m < k ==> hay@[i + m] == needle@[m],
        decreases needle.len() - k,
    {
        if hay[i + k] != needle[k] {
            assert(hay@.subrange(i as int, i + needle.len())[k as int] != needle@[k as int]);
            return false;
        }
        k = k + 1;
    }
    assert(hay@.subrange(i as int, i + needle@.len()) =~= needle@);
    true
}

/// Finds the first occurrence of `needle` in `hay`, as a character index.
pub fn find_chars(hay: &[char], needle: &[char]) -> (r: Option<usize>)
    ensures
        r matches Some(i) ==> first_match(hay@, needle@) == Some(i as int),
        r is None ==> first_match(hay@, needle@) is None,
        r matches Some(i) ==> matches_at(hay@, needle@, i as int),
{
    if needle.len() > hay.len() {
        assert(!seq_contains(hay@, needle@));
        return None;
    }
    let last = hay.len() - needle.len();
    let mut i: usize = 0;
    loop
        invariant
            last == hay.len() - needle.len(),
            i <= last,
            forall|j: int| 0 <= j < i ==> !matches_at(hay@, needle@, j),
        decreases last - i,
    {
        if match_at(hay, needle, i) {
            proof {
                let w = choose|k: int| matches_at(hay@, needle@, k) && forall|j: int| 0 <= j < k ==> !matches_at(hay@, needle@, j);
                assert(matches_at(hay@, needle@, w));
                if w < i {
                } else if w > i {
                    assert(!matches_at(hay@, needle@, i as int));
                }
            }
            return Some(i);
        }
        if i == last {
            proof {
                assert forall|k: int| !matches_at(hay@, needle@, k) by {
                    if 0 <= k && k + needle@.len() <= hay@.len() {
                        assert(k <= i);
                    }
                }
            }
            return None;
        }
        i = i + 1;
    }
}

/// Whether `needle` occurs in `hay`.
pub fn contains_chars(hay: &[char], needle: &[char]) -> (r: bool)
    ensures
        r == seq_contains(hay@, needle@),
{
    let f = find_chars(hay, needle);
    f.is_some()
}

/// Whether the string `needle` occurs in the string `hay` (`str::contains`).
pub fn str_contains(hay: &str, needle: &str) -> (r: bool)
    ensures
        r == seq_contains(hay@, needle@),
{
    let h = chars_of(hay);
    let n = chars_of(needle);
    contains_chars(h.as_slice(), n.as_slice())
}

/// Whether any of the given patterns occurs in `hay`.
pub fn contains_any(hay: &[char], patterns: &[&str]) -> (r: bool)
    ensures
        r == exists|k: int| 0 <= k < patterns@.len() && seq_contains(hay@, patterns@[k]@),
{
    let mut k: usize = 0;
    while k < patterns.len()
        invariant
            k <= patterns@.len(),
            forall|m: int| 0 <= m < k ==> !seq_contains(hay@, patterns@[m]@),
        decreases patterns.len() - k,
    {
        let p = chars_of(patterns[k]);
        if contains_chars(hay, p.as_slice()) {
            return true;
        }
        k = k + 1;
    }
    false
}

/// Whether `hay` starts with `prefix`.
pub fn starts_with_chars(hay: &[char], prefix: &[char]) -> (r: bool)
    ensures
        r == seq_starts_with(hay@, prefix@),
{
    let r = match_at(hay, prefix, 0);
    proof {
        if prefix@.len() <= hay@.len() {
            assert(hay@.subrange(0, prefix@.len() as int) == hay@.subrange(0int, 0int + prefix@.len()));
        }
    }
    r
}

/// Whether `hay` ends with `suffix`.
pub fn ends_with_chars(hay: &[char], suffix: &[char]) -> (r: bool)
    ensures
        r == seq_ends_with(hay@, suffix@),
{
    if suffix.len() > hay.len() {
        return false;
    }
    match_at(hay, suffix, hay.len() - suffix.len())
}

/// Copies `s[from..to]` into a new vector.
pub fn sub_chars(s: &[char], from: usize, to: usize) -> (r: Vec<char>)
    requires
        from <= to <= s@.len(),
    ensures
        r@ == s@.subrange(from as int, to as int),
{
    let mut r: Vec<char> = Vec::new();
    let mut i = from;
    while i < to
        invariant
            from <= i <= to <= s@.len(),
            r@ == s@.subrange(from as int, i as int),
        decreases to - i,
    {
        r.push(s[i]);
        i = i + 1;
    }
    r
}

/// Appends `tail` to `v`.
pub fn append_chars(v: &mut Vec<char>, tail: &[char])
    ensures
        final(v)@ == old(v)@ + tail@,
{
    let mut i: usize = 0;
    while i < tail.len()
        invariant
            i <= tail@.len(),
            v@ == old(v)@ + tail@.subrange(0, i as int),
        decreases tail.len() - i,
    {
        v.push(tail[i]);
        i = i + 1;
    }
}

/// Appends the characters of `tail` to `v`.
pub fn append_str(v: &mut Vec<char>, tail: &str)
    ensures
        final(v)@ == old(v)@ + tail@,
{
    let t = chars_of(tail);
    append_chars(v, t.as_slice());
}

/// Whether two strings are equal.
pub fn str_eq(a: &str, b: &str) -> (r: bool)
    ensures
        r == (a@ == b@),
{
    let x = chars_of(a);
    let y = chars_of(b);
    if x.len() != y.len() {
        return false;
    }
    let r = match_at(x.as_slice(), y.as_slice(), 0);
    proof {
        if r {
            assert(x@ =~= x@.subrange(0int, 0int + y@.len()));
        } else {
            if x@ == y@ {
                assert(x@.subrange(0int, 0int + y@.len()) =~= y@);
            }
        }
    }
    r
}

/// The Unicode `White_Space` property, which `char::is_whitespace` and
/// `str::trim` test.
pub open spec fn is_ws(c: char) -> bool {
    let n = c as u32;
    (0x9 <= n <= 0xd) || n == 0x20 || n == 0x85 || n == 0xa0 || n == 0x1680 || (0x2000 <= n
        <= 0x200a) || n == 0x2028 || n == 0x2029 || n == 0x202f || n == 0x205f || n == 0x3000
}

/// `char::is_whitespace`.
pub fn is_whitespace(c: char) -> (r: bool)
    ensures
        r == is_ws(c),
{
    let n = c as u32;
    (0x9 <= n && n <= 0xd) || n == 0x20 || n == 0x85 || n == 0xa0 || n == 0x1680 || (0x2000 <= n
        && n <= 0x200a) || n == 0x2028 || n == 0x2029 || n == 0x202f || n == 0x205f || n == 0x3000
}

/// What `char::is_uppercase` says of a character (the Unicode `Uppercase`
/// property).
pub uninterp spec fn spec_is_uppercase(c: char) -> bool;

/// `char::is_uppercase`. The result is named.
#[verifier::external_body]
pub(crate) fn is_uppercase(c: char) -> (r: bool)
    ensures
        r == spec_is_uppercase(c),
{
    c.is_uppercase()
}

/// Number of leading whitespace characters.
pub open spec fn lead_ws(s: Seq<char>) -> int
    decreases s.len(),
{
    if s.len() > 0 && is_ws(s[0]) {
        1 + lead_ws(s.drop_first())
    } else {
        0
    }
}

/// Number of trailing whitespace characters.
pub open spec fn trail_ws(s: Seq<char>) -> int
    decreases s.len(),
{
    if s.len() > 0 && is_ws(s.last()) {
        1 + trail_ws(s.drop_last())
    } else {
        0
    }
}

/// `str::trim`: the text without leading and trailing whitespace.
pub open spec fn spec_trim(s: Seq<char>) -> Seq<char> {
    let a = lead_ws(s);
    if a == s.len() {
        Seq::empty()
    } else {
        s.subrange(a, s.len() - trail_ws(s))
    }
}

pub proof fn lemma_lead_ws(s: Seq<char>, i: int)
    requires
        0 <= i <= s.len(),
        forall|j: int| 0 <= j < i ==> is_ws(#[trigger] s[j]),
    ensures
        lead_ws(s) >= i,
        i < s.len() && !is_ws(s[i]) ==> lead_ws(s) == i,
        lead_ws(s) <= s.len(),
    decreases i,
{
    if i > 0 {
        lemma_lead_ws(s.drop_first(), i - 1);
    } else if s.len() > 0 && is_ws(s[0]) {
        lemma_lead_ws_bound(s);
    } else {
    }
}

pub proof fn lemma_lead_ws_bound(s: Seq<char>)
    ensures
        0 <= lead_ws(s) <= s.len(),
        lead_ws(s) < s.len() ==> !is_ws(s[lead_ws(s)]),
        forall|j: int| 0 <= j < lead_ws(s) ==> is_ws(#[trigger] s[j]),
    decreases s.len(),
{
    if s.len() > 0 && is_ws(s[0]) {
        lemma_lead_ws_bound(s.drop_first());
        assert forall|j: int| 0 <= j < lead_ws(s) implies is_ws(#[trigger] s[j]) by {
            if j > 0 {
                assert(s[j] == s.drop_first()[j - 1]);
            }
        }
    }
}

pub proof fn lemma_trail_ws_bound(s: Seq<char>)
    ensures
        0 <= trail_ws(s) <= s.len(),
        trail_ws(s) < s.len() ==> !is_ws(s[s.len() - 1 - trail_ws(s)]),
        forall|j: int| s.len() - trail_ws(s) <= j < s.len() ==> is_ws(#[trigger] s[j]),
    decreases s.len(),
{
    if s.len() > 0 && is_ws(s.last()) {
        lemma_trail_ws_bound(s.drop_last());
        assert forall|j: int| s.len() - trail_ws(s) <= j < s.len() implies is_ws(#[trigger] s[j]) by {
            if j < s.len() - 1 {
                assert(s[j] == s.drop_last()[j]);
            }
        }
    }
}

/// Some occurrence of `needle` in `hay` is the first one.
proof fn lemma_first_occurrence_exists(hay: Seq<char>, needle: Seq<char>, k: int)
    requires
        matches_at(hay, needle, k),
    ensures
        exists|i: int| matches_at(hay, needle, i) && forall|j: int| 0 <= j < i ==> !matches_at(hay, needle, j),
    decreases k,
{
    if exists|j: int| 0 <= j < k && matches_at(hay, needle, j) {
        let j = choose|j: int| 0 <= j < k && matches_at(hay, needle, j);
        lemma_first_occurrence_exists(hay, needle, j);
    } else {
        assert(forall|j: int| 0 <= j < k ==> !matches_at(hay, needle, j));
    }
}

/// The first match of `needle` in `hay` is an occurrence of it.
pub proof fn lemma_first_match_occurs(hay: Seq<char>, needle: Seq<char>)
    ensures
        first_match(hay, needle) matches Some(p) ==> matches_at(hay, needle, p),
{
    if seq_contains(hay, needle) {
        let k = choose|i: int| matches_at(hay, needle, i);
        lemma_first_occurrence_exists(hay, needle, k);
    }
}

/// A trimmed text is a run of its characters: those from its leading
/// whitespace on.
pub proof fn lemma_trim_is_a_run(s: Seq<char>)
    ensures
        0 <= lead_ws(s),
        lead_ws(s) + spec_trim(s).len() <= s.len(),
        forall|i: int| 0 <= i < spec_trim(s).len() ==> #[trigger] spec_trim(s)[i] == s[lead_ws(s) + i],
{
    lemma_lead_ws_bound(s);
    lemma_trail_ws_bound(s);
    let a = lead_ws(s);
    if a < s.len() {
        if a >= s.len() - trail_ws(s) {
            assert(is_ws(s[a]));
        }
    }
}

/// `str::trim`.
pub fn trim_chars(s: &[char]) -> (r: Vec<char>)
    ensures
        r@ == spec_trim(s@),
{
    proof {
        lemma_lead_ws_bound(s@);
        lemma_trail_ws_bound(s@);
    }
    let mut a: usize = 0;
    while a < s.len() && is_whitespace(s[a])
        invariant
            a <= s@.len(),
            forall|j: int| 0 <= j < a ==> is_ws(#[trigger] s@[j]),
        decreases s.len() - a,
    {
        a = a + 1;
    }
    proof {
        lemma_lead_ws(s@, a as int);
    }
    if a == s.len() {
        return Vec::new();
    }
    let mut b: usize = s.len();
    while b > a && is_whitespace(s[b - 1])
        invariant
            a < s@.len(),
            !is_ws(s@[a as int]),
            a <= b <= s@.len(),
            forall|j: int| b <= j < s@.len() ==> is_ws(#[trigger] s@[j]),
        decreases b,
    {
        b = b - 1;
    }
    proof {
        lemma_trail_exact(s@, b as int);
    }
    sub_chars(s, a, b)
}

proof fn lemma_trail_exact(s: Seq<char>, b: int)
    requires
        0 < b <= s.len(),
        !is_ws(s[b - 1]),
        forall|j: int| b <= j < s.len() ==> is_ws(#[trigger] s[j]),
    ensures
        trail_ws(s) == s.len() - b,
    decreases s.len(),
{
    if b < s.len() {
        assert(is_ws(s.last()));
        assert forall|j: int| b <= j < s.drop_last().len() implies is_ws(#[trigger] s.drop_last()[j]) by {
            assert(s.drop_last()[j] == s[j]);
        }
        lemma_trail_exact(s.drop_last(), b);
    }
}

/// `str::trim_start`: the text without leading whitespace.
pub open spec fn spec_trim_start(s: Seq<char>) -> Seq<char> {
    s.subrange(lead_ws(s), s.len() as int)
}

/// `str::trim_start`.
pub fn trim_start_chars(s: &[char]) -> (r: Vec<char>)
    ensures
        r@ == spec_trim_start(s@),
{
    proof {
        lemma_lead_ws_bound(s@);
    }
    let mut a: usize = 0;
    while a < s.len() && is_whitespace(s[a])
        invariant
            a <= s@.len(),
            forall|j: int| 0 <= j < a ==> is_ws(#[trigger] s@[j]),
        decreases s.len() - a,
    {
        a = a + 1;
    }
    proof {
        lemma_lead_ws(s@, a as int);
    }
    sub_chars(s, a, s.len())
}

/// Number of leading characters that are not whitespace: the length of the
/// first word of a text that does not start with whitespace.
pub open spec fn word_len(s: Seq<char>) -> int
    decreases s.len(),
{
    if s.len() > 0 && !is_ws(s[0]) {
        1 + word_len(s.drop_first())
    } else {
        0
    }
}

pub proof fn lemma_word_len(s: Seq<char>, i: int)
    requires
        0 <= i <= s.len(),
        forall|j: int| 0 <= j < i ==> !is_ws(#[trigger] s[j]),
        i == s.len() || is_ws(s[i]),
    ensures
        word_len(s) == i,
    decreases i,
{
    if i > 0 {
        assert forall|j: int| 0 <= j < i - 1 implies !is_ws(#[trigger] s.drop_first()[j]) by {
            assert(s.drop_first()[j] == s[j + 1]);
        }
        if i < s.len() {
            assert(s.drop_first()[i - 1] == s[i]);
        }
        lemma_word_len(s.drop_first(), i - 1);
    }
}

pub proof fn lemma_word_len_bounds(s: Seq<char>)
    ensures
        0 <= word_len(s) <= s.len(),
        s.len() > 0 && !is_ws(s[0]) ==> word_len(s) >= 1,
    decreases s.len(),
{
    if s.len() > 0 && !is_ws(s[0]) {
        lemma_word_len_bounds(s.drop_first());
    }
}

/// Where the word starting at `i` ends.
pub fn word_end(s: &[char], i: usize) -> (e: usize)
    requires
        i <= s@.len(),
    ensures
        i <= e <= s@.len(),
        e - i == word_len(s@.subrange(i as int, s@.len() as int)),
        i < s@.len() && !is_ws(s@[i as int]) ==> e > i,
{
    let mut e = i;
    while e < s.len() && !is_whitespace(s[e])
        invariant
            i <= e <= s@.len(),
            forall|j: int| i <= j < e ==> !is_ws(#[trigger] s@[j]),
        decreases s.len() - e,
    {
        e = e + 1;
    }
    proof {
        let t = s@.subrange(i as int, s@.len() as int);
        assert forall|j: int| 0 <= j < e - i implies !is_ws(#[trigger] t[j]) by {
            assert(t[j] == s@[i + j]);
        }
        if e < s@.len() {
            assert(t[e - i] == s@[e as int]);
        }
        lemma_word_len(t, e - i);
    }
    e
}

/// `str::split_whitespace().next()`: the first word of a text.
pub open spec fn spec_first_word(s: Seq<char>) -> Option<Seq<char>> {
    let t = spec_trim_start(s);
    if t.len() == 0 {
        None
    } else {
        Some(t.subrange(0, word_len(t)))
    }
}

/// The first word of a text.
pub fn first_word(s: &[char]) -> (r: Option<Vec<char>>)
    ensures
        match spec_first_word(s@) {
            Some(w) => r matches Some(v) && v@ == w,
            None => r is None,
        },
{
    let t = trim_start_chars(s);
    if t.len() == 0 {
        return None;
    }
    let e = word_end(t.as_slice(), 0);
    proof {
        assert(t@.subrange(0, t@.len() as int) =~= t@);
    }
    Some(sub_chars(t.as_slice(), 0, e))
}

/// What `char::is_alphanumeric` says of a character (the Unicode
/// `Alphabetic` and numeric properties).
pub uninterp spec fn spec_is_alphanumeric(c: char) -> bool;

/// `char::is_alphanumeric`. The result is named.
#[verifier::external_body]
pub(crate) fn is_alphanumeric(c: char) -> (r: bool)
    ensures
        r == spec_is_alphanumeric(c),
{
    c.is_alphanumeric()
}

/// Number of bytes of a character in UTF-8 (`char::len_utf8`).
pub open spec fn utf8_len(c: char) -> int {
    let n = c as u32;
    if n < 0x80 {
        1
    } else if n < 0x800 {
        2
    } else if n < 0x10000 {
        3
    } else {
        4
    }
}

/// Two texts have the same number of characters, each of the same UTF-8
/// width, so that byte offsets in one are byte offsets in the other.
pub open spec fn width_aligned(a: Seq<char>, b: Seq<char>) -> bool {
    a.len() == b.len() && forall|i: int| 0 <= i < a.len() ==> utf8_len(#[trigger] a[i]) == utf8_len(b[i])
}

/// Checks that two texts are width-aligned.
pub fn aligned(a: &[char], b: &[char]) -> (r: bool)
    ensures
        r == width_aligned(a@, b@),
{
    if a.len() != b.len() {
        return false;
    }
    let mut i: usize = 0;
    while i < a.len()
        invariant
            a@.len() == b@.len(),
            i <= a@.len(),
            forall|k: int| 0 <= k < i ==> utf8_len(#[trigger] a@[k]) == utf8_len(b@[k]),
        decreases a.len() - i,
    {
        let x = a[i] as u32;
        let y = b[i] as u32;
        let wx: u8 = if x < 0x80 { 1 } else if x < 0x800 { 2 } else if x < 0x10000 { 3 } else { 4 };
        let wy: u8 = if y < 0x80 { 1 } else if y < 0x800 { 2 } else if y < 0x10000 { 3 } else { 4 };
        if wx != wy {
            return false;
        }
        i = i + 1;
    }
    true
}

/// The lowercase of some characters, through `str::to_lowercase`.
pub fn lowercase_chars(s: &[char]) -> (r: Vec<char>)
    ensures
        r@ == spec_to_lowercase(s@),
{
    let t = string_from_chars(s);
    let l = to_lowercase(t.as_str());
    chars_of(l.as_str())
}

/// Whether a character occurs in a text.
pub fn find_char(s: &[char], c: char) -> (r: Option<usize>)
    ensures
        r matches Some(i) ==> first_match(s@, seq![c]) == Some(i as int) && i < s@.len() && s@[i as int] == c,
        r is None ==> first_match(s@, seq![c]) is None,
{
    let mut v: Vec<char> = Vec::new();
    v.push(c);
    assert(v@ =~= seq![c]);
    let r = find_chars(s, v.as_slice());
    proof {
        if let Some(i) = r {
            assert(matches_at(s@, seq![c], i as int));
            assert(s@.subrange(i as int, i + 1)[0] == s@[i as int]);
        }
    }
    r
}

/// The position of a string in a text (`str::find`, in characters).
pub fn find_str(s: &[char], needle: &str) -> (r: Option<usize>)
    ensures
        r matches Some(i) ==> first_match(s@, needle@) == Some(i as int) && i + needle@.len() <= s@.len(),
        r is None ==> first_match(s@, needle@) is None,
{
    let n = chars_of(needle);
    find_chars(s, n.as_slice())
}

/// `str::trim` on a string.
pub fn trim_str(s: &str) -> (r: String)
    ensures
        r@ == spec_trim(s@),
{
    let c = chars_of(s);
    let t = trim_chars(c.as_slice());
    string_from_chars(t.as_slice())
}

} // verus!
