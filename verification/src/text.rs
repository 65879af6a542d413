//! Character-level text utilities with their specifications.
//!
//! Strings are reasoned about through their views, sequences of `char`.
//! The spec functions here describe the standard string operations that the
//! rest of the library relies on (`find`, `starts_with`, `lines`, `trim`,
//! `split_whitespace`, `parse::<usize>`, decimal formatting), and the exec
//! functions compute them on `Vec<char>` buffers.

use vstd::prelude::*;

verus! {

broadcast use vstd::string::group_string_axioms;

// ---------------------------------------------------------------------
// Specifications
// ---------------------------------------------------------------------

/// The Unicode `White_Space` property, as used by `char::is_whitespace`.
pub open spec fn is_ws(c: char) -> bool {
    let u = c as u32;
    ||| (0x9 <= u && u <= 0xd)
    ||| u == 0x20
    ||| u == 0x85
    ||| u == 0xa0
    ||| u == 0x1680
    ||| (0x2000 <= u && u <= 0x200a)
    ||| u == 0x2028
    ||| u == 0x2029
    ||| u == 0x202f
    ||| u == 0x205f
    ||| u == 0x3000
}

/// `pat` occurs in `s` starting at index `i`.
pub open spec fn matches_at(s: Seq<char>, pat: Seq<char>, i: int) -> bool {
    0 <= i && i + pat.len() <= s.len() && s.subrange(i, i + pat.len()) == pat
}

/// The first index `>= i` at which `pat` occurs in `s`.
pub open spec fn find_from(s: Seq<char>, pat: Seq<char>, i: int) -> Option<int>
    decreases s.len() + 1 - i,
{
    if i < 0 || i + pat.len() > s.len() {
        None
    } else if matches_at(s, pat, i) {
        Some(i)
    } else {
        find_from(s, pat, i + 1)
    }
}

/// The first index at which `pat` occurs in `s` (`str::find`).
pub open spec fn find(s: Seq<char>, pat: Seq<char>) -> Option<int> {
    find_from(s, pat, 0)
}

/// `pat` occurs somewhere in `s` (`str::contains`).
pub open spec fn contains(s: Seq<char>, pat: Seq<char>) -> bool {
    find(s, pat) is Some
}

/// `s` begins with `p` (`str::starts_with`).
pub open spec fn starts_with(s: Seq<char>, p: Seq<char>) -> bool {
    p.len() <= s.len() && s.take(p.len() as int) == p
}

/// Index of the first `c` in `s`, or `s.len()` when there is none.
pub open spec fn index_of(s: Seq<char>, c: char) -> int
    decreases s.len(),
{
    if s.len() == 0 {
        0
    } else if s[0] == c {
        0
    } else {
        1 + index_of(s.drop_first(), c)
    }
}

/// A line without its final carriage return.
pub open spec fn strip_cr(l: Seq<char>) -> Seq<char> {
    if l.len() > 0 && l.last() == '\r' {
        l.drop_last()
    } else {
        l
    }
}

/// The lines of `s` (`str::lines`): split at `\n`, a `\r` just before the
/// `\n` removed, and no empty line after a final `\n`.
pub open spec fn lines(s: Seq<char>) -> Seq<Seq<char>>
    decreases s.len(),
{
    if s.len() == 0 {
        seq![]
    } else {
        let k = index_of(s, '\n');
        proof {
            lemma_index_of_bounds(s, '\n');
        }
        if k >= s.len() {
            seq![s]
        } else {
            seq![strip_cr(s.take(k))] + lines(s.skip(k + 1))
        }
    }
}

/// Number of whitespace characters at the start of `s`.
pub open spec fn ws_prefix(s: Seq<char>) -> nat
    decreases s.len(),
{
    if s.len() > 0 && is_ws(s[0]) {
        1 + ws_prefix(s.drop_first())
    } else {
        0
    }
}

/// Number of whitespace characters at the end of `s`.
pub open spec fn ws_suffix(s: Seq<char>) -> nat
    decreases s.len(),
{
    if s.len() > 0 && is_ws(s.last()) {
        1 + ws_suffix(s.drop_last())
    } else {
        0
    }
}

/// Number of non-whitespace characters at the start of `s`.
pub open spec fn token_len(s: Seq<char>) -> nat
    decreases s.len(),
{
    if s.len() > 0 && !is_ws(s[0]) {
        1 + token_len(s.drop_first())
    } else {
        0
    }
}

/// `s` without its leading whitespace.
pub open spec fn trim_start(s: Seq<char>) -> Seq<char> {
    s.skip(ws_prefix(s) as int)
}

/// `s` without its trailing whitespace.
pub open spec fn trim_end(s: Seq<char>) -> Seq<char> {
    s.take(s.len() - ws_suffix(s))
}

/// `s` without leading and trailing whitespace (`str::trim`).
pub open spec fn trim(s: Seq<char>) -> Seq<char> {
    trim_end(trim_start(s))
}

/// The whitespace-separated words of `s` (`str::split_whitespace`).
pub open spec fn split_ws(s: Seq<char>) -> Seq<Seq<char>>
    decreases s.len(),
{
    let t = trim_start(s);
    proof {
        lemma_ws_prefix_bounds(s);
        lemma_token_len_bounds(t);
    }
    if t.len() == 0 {
        seq![]
    } else {
        let k = token_len(t);
        seq![t.take(k as int)] + split_ws(t.skip(k as int))
    }
}

/// An ASCII decimal digit (`'0'` is code point 48, `'9'` is 57).
pub open spec fn is_digit(c: char) -> bool {
    48 <= (c as u32) && (c as u32) <= 57
}

/// Value of an ASCII decimal digit.
pub open spec fn digit_value(c: char) -> nat {
    ((c as u32) - 48) as nat
}

/// Value of a string of decimal digits.
pub open spec fn digits_value(s: Seq<char>) -> nat
    decreases s.len(),
{
    if s.len() == 0 {
        0
    } else {
        digits_value(s.drop_last()) * 10 + digit_value(s.last())
    }
}

/// All characters of `s` are decimal digits.
pub open spec fn all_digits(s: Seq<char>) -> bool {
    forall|i: int| 0 <= i < s.len() ==> is_digit(#[trigger] s[i])
}

/// The part of `s` after an optional leading `+`.
pub open spec fn unsigned_digits(s: Seq<char>) -> Seq<char> {
    if s.len() > 0 && s[0] == '+' {
        s.drop_first()
    } else {
        s
    }
}

/// Integer parsing (`str::parse` for unsigned types): an optional `+`,
/// then at least one decimal digit, with a value of at most `max`.
pub open spec fn parse_bounded(s: Seq<char>, max: nat) -> Option<nat> {
    let d = unsigned_digits(s);
    if d.len() == 0 || !all_digits(d) || digits_value(d) > max {
        None
    } else {
        Some(digits_value(d))
    }
}

/// `str::parse::<usize>`.
pub open spec fn parse_usize(s: Seq<char>) -> Option<usize> {
    match parse_bounded(s, usize::MAX as nat) {
        Some(v) => Some(v as usize),
        None => None,
    }
}

/// `str::parse::<u64>`.
pub open spec fn parse_u64(s: Seq<char>) -> Option<u64> {
    match parse_bounded(s, u64::MAX as nat) {
        Some(v) => Some(v as u64),
        None => None,
    }
}

/// `str::parse::<u32>`.
pub open spec fn parse_u32(s: Seq<char>) -> Option<u32> {
    match parse_bounded(s, u32::MAX as nat) {
        Some(v) => Some(v as u32),
        None => None,
    }
}

/// The character of a decimal digit.
pub open spec fn digit_char(d: nat) -> char {
    if d == 0 {
        '0'
    } else if d == 1 {
        '1'
    } else if d == 2 {
        '2'
    } else if d == 3 {
        '3'
    } else if d == 4 {
        '4'
    } else if d == 5 {
        '5'
    } else if d == 6 {
        '6'
    } else if d == 7 {
        '7'
    } else if d == 8 {
        '8'
    } else {
        '9'
    }
}

/// Decimal representation of `n`, as `Display` writes integers.
pub open spec fn decimal(n: nat) -> Seq<char>
    decreases n,
{
    if n < 10 {
        seq![digit_char(n)]
    } else {
        decimal(n / 10).push(digit_char(n % 10))
    }
}

/// Views of a sequence of character buffers.
pub open spec fn views(v: Seq<Vec<char>>) -> Seq<Seq<char>> {
    v.map_values(|x: Vec<char>| x@)
}

// ---------------------------------------------------------------------
// Lemmas
// ---------------------------------------------------------------------

/// `index_of` finds the first occurrence, or none.
pub proof fn lemma_index_of_bounds(s: Seq<char>, c: char)
    ensures
        0 <= index_of(s, c) <= s.len(),
        index_of(s, c) < s.len() ==> s[index_of(s, c)] == c,
        forall|j: int| 0 <= j < index_of(s, c) ==> s[j] != c,
    decreases s.len(),
{
    if s.len() > 0 && s[0] != c {
        lemma_index_of_bounds(s.drop_first(), c);
        assert forall|j: int| 0 <= j < index_of(s, c) implies s[j] != c by {
            if j > 0 {
                assert(s[j] == s.drop_first()[j - 1]);
            }
        }
    }
}

/// `index_of` is characterised by the position of the first `c`.
pub proof fn lemma_index_of_is(s: Seq<char>, c: char, k: int)
    requires
        0 <= k <= s.len(),
        k < s.len() ==> s[k] == c,
        forall|j: int| 0 <= j < k ==> s[j] != c,
    ensures
        index_of(s, c) == k,
    decreases s.len(),
{
    if s.len() > 0 && k > 0 {
        assert(s[0] != c);
        assert forall|j: int| 0 <= j < k - 1 implies s.drop_first()[j] != c by {
            assert(s.drop_first()[j] == s[j + 1]);
        }
        lemma_index_of_is(s.drop_first(), c, k - 1);
    }
}

/// The leading whitespace run, and the character that ends it.
pub proof fn lemma_ws_prefix_bounds(s: Seq<char>)
    ensures
        ws_prefix(s) <= s.len(),
        ws_prefix(s) < s.len() ==> !is_ws(s[ws_prefix(s) as int]),
        forall|j: int| 0 <= j < ws_prefix(s) ==> is_ws(s[j]),
    decreases s.len(),
{
    if s.len() > 0 && is_ws(s[0]) {
        lemma_ws_prefix_bounds(s.drop_first());
        assert forall|j: int| 0 <= j < ws_prefix(s) implies is_ws(s[j]) by {
            if j > 0 {
                assert(s[j] == s.drop_first()[j - 1]);
            }
        }
    }
}

/// A run of leading whitespace that ends at `k` is the whole prefix.
pub proof fn lemma_ws_prefix_is(s: Seq<char>, k: int)
    requires
        0 <= k <= s.len(),
        k < s.len() ==> !is_ws(s[k]),
        forall|j: int| 0 <= j < k ==> is_ws(s[j]),
    ensures
        ws_prefix(s) == k,
    decreases s.len(),
{
    if s.len() > 0 && k > 0 {
        assert(is_ws(s[0]));
        assert forall|j: int| 0 <= j < k - 1 implies is_ws(s.drop_first()[j]) by {
            assert(s.drop_first()[j] == s[j + 1]);
        }
        lemma_ws_prefix_is(s.drop_first(), k - 1);
    }
}

/// The trailing whitespace run, and the character before it.
pub proof fn lemma_ws_suffix_bounds(s: Seq<char>)
    ensures
        ws_suffix(s) <= s.len(),
        ws_suffix(s) < s.len() ==> !is_ws(s[s.len() - 1 - ws_suffix(s)]),
        forall|j: int| s.len() - ws_suffix(s) <= j < s.len() ==> is_ws(s[j]),
    decreases s.len(),
{
    if s.len() > 0 && is_ws(s.last()) {
        lemma_ws_suffix_bounds(s.drop_last());
        assert forall|j: int| s.len() - ws_suffix(s) <= j < s.len() implies is_ws(s[j]) by {
            if j < s.len() - 1 {
                assert(s[j] == s.drop_last()[j]);
            }
        }
    }
}

/// A run of trailing whitespace of length `k` is the whole suffix.
pub proof fn lemma_ws_suffix_is(s: Seq<char>, k: int)
    requires
        0 <= k <= s.len(),
        k < s.len() ==> !is_ws(s[s.len() - 1 - k]),
        forall|j: int| s.len() - k <= j < s.len() ==> is_ws(s[j]),
    ensures
        ws_suffix(s) == k,
    decreases s.len(),
{
    if s.len() > 0 && k > 0 {
        assert(is_ws(s.last()));
        assert forall|j: int| s.drop_last().len() - (k - 1) <= j < s.drop_last().len() implies is_ws(
            s.drop_last()[j],
        ) by {
            assert(s.drop_last()[j] == s[j]);
        }
        lemma_ws_suffix_is(s.drop_last(), k - 1);
    }
}

/// The leading word, and the whitespace that ends it.
pub proof fn lemma_token_len_bounds(s: Seq<char>)
    ensures
        token_len(s) <= s.len(),
        token_len(s) < s.len() ==> is_ws(s[token_len(s) as int]),
        forall|j: int| 0 <= j < token_len(s) ==> !is_ws(s[j]),
    decreases s.len(),
{
    if s.len() > 0 && !is_ws(s[0]) {
        lemma_token_len_bounds(s.drop_first());
        assert forall|j: int| 0 <= j < token_len(s) implies !is_ws(s[j]) by {
            if j > 0 {
                assert(s[j] == s.drop_first()[j - 1]);
            }
        }
    }
}

/// A word that ends at `k` is the whole leading word.
pub proof fn lemma_token_len_is(s: Seq<char>, k: int)
    requires
        0 <= k <= s.len(),
        k < s.len() ==> is_ws(s[k]),
        forall|j: int| 0 <= j < k ==> !is_ws(s[j]),
    ensures
        token_len(s) == k,
    decreases s.len(),
{
    if s.len() > 0 && k > 0 {
        assert(!is_ws(s[0]));
        assert forall|j: int| 0 <= j < k - 1 implies !is_ws(s.drop_first()[j]) by {
            assert(s.drop_first()[j] == s[j + 1]);
        }
        lemma_token_len_is(s.drop_first(), k - 1);
    }
}

/// `find_from` gives the first match at or after `i`, or none.
pub proof fn lemma_find_from_bounds(s: Seq<char>, pat: Seq<char>, i: int)
    requires
        0 <= i,
    ensures
        find_from(s, pat, i) matches Some(k) ==> i <= k && matches_at(s, pat, k),
        find_from(s, pat, i) matches Some(k) ==> forall|j: int|
            i <= j < k ==> !#[trigger] matches_at(s, pat, j),
        find_from(s, pat, i) is None ==> forall|j: int|
            i <= j ==> !#[trigger] matches_at(s, pat, j),
    decreases s.len() + 1 - i,
{
    if i < 0 || i + pat.len() > s.len() {
    } else if matches_at(s, pat, i) {
    } else {
        lemma_find_from_bounds(s, pat, i + 1);
    }
}

/// `find_from` only depends on the positions from `i` on.
pub proof fn lemma_find_from_skip(s: Seq<char>, pat: Seq<char>, i: int, j: int)
    requires
        0 <= i <= j,
        forall|k: int| i <= k < j ==> !#[trigger] matches_at(s, pat, k),
    ensures
        find_from(s, pat, i) == find_from(s, pat, j),
    decreases j - i,
{
    if i < j {
        if i + pat.len() > s.len() {
            lemma_find_from_none_past(s, pat, j);
        } else {
            assert(!matches_at(s, pat, i));
            lemma_find_from_skip(s, pat, i + 1, j);
        }
    }
}

/// No match can start where the pattern no longer fits.
pub proof fn lemma_find_from_none_past(s: Seq<char>, pat: Seq<char>, j: int)
    requires
        j + pat.len() > s.len(),
    ensures
        find_from(s, pat, j) is None,
{
}

/// A prefix of a digit string is worth no more than the whole.
pub proof fn lemma_digits_value_prefix(s: Seq<char>, n: int)
    requires
        0 <= n <= s.len(),
    ensures
        digits_value(s.take(n)) <= digits_value(s),
    decreases s.len(),
{
    if n < s.len() {
        assert(s.drop_last().take(n) == s.take(n));
        lemma_digits_value_prefix(s.drop_last(), n);
    } else {
        assert(s.take(n) == s);
    }
}

// ---------------------------------------------------------------------
// std calls whose contracts are assumed
// ---------------------------------------------------------------------

/// Unicode lowercase mapping of a string, as `str::to_lowercase` computes it.
pub uninterp spec fn str_lowercase(s: Seq<char>) -> Seq<char>;

/// Every character is ASCII.
pub open spec fn is_ascii_text(s: Seq<char>) -> bool {
    forall|i: int| 0 <= i < s.len() ==> (#[trigger] s[i] as u32) < 128
}

/// `c` with `A`–`Z` mapped to `a`–`z`.
pub open spec fn ascii_lower_char(c: char) -> char {
    if 'A' <= c && c <= 'Z' {
        ((c as u32) + 32) as char
    } else {
        c
    }
}

/// `s` with its ASCII capitals made lowercase.
pub open spec fn ascii_lower(s: Seq<char>) -> Seq<char> {
    s.map_values(|c: char| ascii_lower_char(c))
}

/// Calls `str::to_lowercase`; the result is the (named) Unicode lowercase
/// mapping of the argument.  For ASCII text that mapping turns `A`–`Z` into
/// `a`–`z` and keeps every other character; beyond ASCII it is not spelled
/// out.
#[verifier::external_body]
pub(crate) fn to_lowercase(s: &str) -> (r: String)
    ensures
        r@ == str_lowercase(s@),
        is_ascii_text(s@) ==> r@ == ascii_lower(s@),
{
    s.to_lowercase()
}

/// Calls `String::push`: appends one character.
#[verifier::external_body]
pub(crate) fn push_char(s: &mut String, c: char)
    ensures
        final(s)@ == old(s)@.push(c),
{
    s.push(c);
}

// ---------------------------------------------------------------------
// Executable functions
// ---------------------------------------------------------------------

/// The characters of `s`, in order.
pub fn chars_of(s: &str) -> (v: Vec<char>)
    ensures
        v@ == s@,
{
    let mut v: Vec<char> = Vec::new();
    for c in it: s.chars()
        invariant
            v@ == it.seq().take(it.index()),
            it.seq() == s@,
    {
        v.push(c);
    }
    v
}

/// Appends the characters of `v` to `s`.
pub fn push_chars(s: &mut String, v: &[char])
    ensures
        final(s)@ == old(s)@ + v@,
{
    let ghost start = s@;
    let mut i: usize = 0;
    while i < v.len()
        invariant
            i <= v.len(),
            s@ == start + v@.take(i as int),
        decreases v.len() - i,
    {
        push_char(s, v[i]);
        i = i + 1;
        assert(v@.take(i as int) == v@.take(i - 1).push(v@[i - 1]));
    }
    assert(v@.take(v.len() as int) == v@);
}

/// A string holding the characters of `v`.
pub fn string_of(v: &[char]) -> (s: String)
    ensures
        s@ == v@,
{
    let mut s = String::new();
    push_chars(&mut s, v);
    s
}

/// `char::is_whitespace`.
pub fn is_whitespace(c: char) -> (b: bool)
    ensures
        b == is_ws(c),
{
    let u = c as u32;
    (0x9 <= u && u <= 0xd) || u == 0x20 || u == 0x85 || u == 0xa0 || u == 0x1680 || (0x2000 <= u
        && u <= 0x200a) || u == 0x2028 || u == 0x2029 || u == 0x202f || u == 0x205f || u == 0x3000
}

/// The two character sequences are equal.
pub fn chars_eq(a: &[char], b: &[char]) -> (r: bool)
    ensures
        r == (a@ == b@),
{
    if a.len() != b.len() {
        return false;
    }
    let mut i: usize = 0;
    while i < a.len()
        invariant
            a.len() == b.len(),
            i <= a.len(),
            forall|j: int| 0 <= j < i ==> a@[j] == b@[j],
        decreases a.len() - i,
    {
        if a[i] != b[i] {
            return false;
        }
        i = i + 1;
    }
    assert(a@ == b@);
    true
}

/// Whether `pat` occurs in `s` at index `i`.
pub fn matches_at_exec(s: &[char], pat: &[char], i: usize) -> (r: bool)
    ensures
        r == matches_at(s@, pat@, i as int),
{
    if i > s.len() || pat.len() > s.len() - i {
        return false;
    }
    let mut j: usize = 0;
    while j < pat.len()
        invariant
            i + pat.len() <= s.len(),
            j <= pat.len(),
            forall|k: int| 0 <= k < j ==> s@[i + k] == pat@[k],
        decreases pat.len() - j,
    {
        if s[i + j] != pat[j] {
            assert(s@.subrange(i as int, i + pat.len())[j as int] != pat@[j as int]);
            return false;
        }
        j = j + 1;
    }
    assert(s@.subrange(i as int, i + pat.len()) == pat@);
    true
}

/// The first index `>= from` at which `pat` occurs in `s`.
pub fn find_chars_from(s: &[char], pat: &[char], from: usize) -> (r: Option<usize>)
    ensures
        match r {
            Some(k) => find_from(s@, pat@, from as int) == Some(k as int),
            None => find_from(s@, pat@, from as int) is None,
        },
        r matches Some(k) ==> from <= k && k + pat@.len() <= s@.len(),
{
    proof {
        lemma_find_from_bounds(s@, pat@, from as int);
    }
    let mut i = from;
    while i <= s.len() && pat.len() <= s.len() - i
        invariant
            from <= i,
            find_from(s@, pat@, from as int) == find_from(s@, pat@, i as int),
        decreases s.len() - i,
    {
        if pat.len() == 0 {
            assert(s@.subrange(i as int, i as int) =~= pat@);
        }
        if matches_at_exec(s, pat, i) {
            return Some(i);
        }
        i = i + 1;
    }
    None
}

/// The first index at which `pat` occurs in `s` (`str::find`).
pub fn find_chars(s: &[char], pat: &[char]) -> (r: Option<usize>)
    ensures
        match r {
            Some(k) => find(s@, pat@) == Some(k as int),
            None => find(s@, pat@) is None,
        },
        r matches Some(k) ==> k + pat@.len() <= s@.len(),
{
    find_chars_from(s, pat, 0)
}

/// Whether `pat` occurs in `s` (`str::contains`).
pub fn contains_chars(s: &[char], pat: &[char]) -> (r: bool)
    ensures
        r == contains(s@, pat@),
{
    find_chars(s, pat).is_some()
}

/// Whether `s` begins with `p` (`str::starts_with`).
pub fn starts_with_chars(s: &[char], p: &[char]) -> (r: bool)
    ensures
        r == starts_with(s@, p@),
{
    let r = matches_at_exec(s, p, 0);
    proof {
        if p@.len() <= s@.len() {
            assert(s@.subrange(0, p@.len() as int) == s@.take(p@.len() as int));
        }
    }
    r
}

/// The characters `s[from..to]`.
pub fn slice_chars(s: &[char], from: usize, to: usize) -> (r: Vec<char>)
    requires
        from <= to <= s.len(),
    ensures
        r@ == s@.subrange(from as int, to as int),
{
    let mut r: Vec<char> = Vec::new();
    let mut i = from;
    while i < to
        invariant
            from <= i <= to <= s.len(),
            r@ == s@.subrange(from as int, i as int),
        decreases to - i,
    {
        r.push(s[i]);
        i = i + 1;
        assert(r@ == s@.subrange(from as int, i as int));
    }
    r
}

/// `str::trim` on a character buffer.
pub fn trim_chars(s: &[char]) -> (r: Vec<char>)
    ensures
        r@ == trim(s@),
{
    let mut start: usize = 0;
    while start < s.len() && is_whitespace(s[start])
        invariant
            start <= s.len(),
            forall|j: int| 0 <= j < start ==> is_ws(s@[j]),
        decreases s.len() - start,
    {
        start = start + 1;
    }
    proof {
        lemma_ws_prefix_is(s@, start as int);
    }
    let ghost t = trim_start(s@);
    let mut end: usize = s.len();
    while end > start && is_whitespace(s[end - 1])
        invariant
            start <= end <= s.len(),
            t == s@.subrange(start as int, s.len() as int),
            forall|j: int| end <= j < s.len() ==> is_ws(s@[j]),
        decreases end,
    {
        end = end - 1;
    }
    proof {
        let k = (s.len() - end) as int;
        assert forall|j: int| t.len() - k <= j < t.len() implies is_ws(t[j]) by {
            assert(t[j] == s@[start + j]);
        }
        if k < t.len() {
            assert(t[t.len() - 1 - k] == s@[end - 1]);
        }
        lemma_ws_suffix_is(t, k);
        assert(trim_end(t) == s@.subrange(start as int, end as int));
    }
    slice_chars(s, start, end)
}

/// `str::lines` on a character buffer.
pub fn split_lines(s: &[char]) -> (r: Vec<Vec<char>>)
    ensures
        views(r@) == lines(s@),
{
    let mut r: Vec<Vec<char>> = Vec::new();
    let mut start: usize = 0;
    let mut i: usize = 0;
    assert(s@.skip(0) == s@);
    assert(views(r@) + lines(s@) == lines(s@));
    while i < s.len()
        invariant
            start <= i <= s.len(),
            forall|j: int| start <= j < i ==> s@[j] != '\n',
            lines(s@) == views(r@) + lines(s@.skip(start as int)),
        decreases s.len() - i,
    {
        if s[i] == '\n' {
            let ghost rest = s@.skip(start as int);
            let ghost prev = r@;
            proof {
                assert forall|j: int| 0 <= j < i - start implies rest[j] != '\n' by {
                    assert(rest[j] == s@[start + j]);
                }
                assert(rest[i - start] == s@[i as int]);
                lemma_index_of_is(rest, '\n', i - start);
                assert(rest.take(i - start) == s@.subrange(start as int, i as int));
                assert(rest.skip(i - start + 1) == s@.skip(i + 1));
            }
            let mut end = i;
            if end > start && s[end - 1] == '\r' {
                end = end - 1;
            }
            let line = slice_chars(s, start, end);
            proof {
                let l = s@.subrange(start as int, i as int);
                if i > start && s@[i - 1] == '\r' {
                    assert(l.drop_last() == s@.subrange(start as int, i - 1));
                }
                assert(line@ == strip_cr(l));
            }
            r.push(line);
            proof {
                assert(views(r@) == views(prev).push(line@));
                assert(lines(rest) == seq![line@] + lines(s@.skip(i + 1)));
                assert(views(r@) + lines(s@.skip(i + 1)) == views(prev) + lines(rest));
            }
            start = i + 1;
        }
        i = i + 1;
    }
    if start < s.len() {
        let ghost rest = s@.skip(start as int);
        let ghost prev = r@;
        proof {
            assert forall|j: int| 0 <= j < rest.len() implies rest[j] != '\n' by {
                assert(rest[j] == s@[start + j]);
            }
            lemma_index_of_is(rest, '\n', rest.len() as int);
            assert(lines(rest) == seq![rest]);
        }
        let line = slice_chars(s, start, s.len());
        r.push(line);
        proof {
            assert(views(r@) == views(prev).push(line@));
            assert(line@ == rest);
        }
    } else {
        proof {
            assert(s@.skip(start as int).len() == 0);
            assert(views(r@) + lines(s@.skip(start as int)) == views(r@));
        }
    }
    r
}

/// `str::split_whitespace` on a character buffer.
pub fn split_whitespace_chars(s: &[char]) -> (r: Vec<Vec<char>>)
    ensures
        views(r@) == split_ws(s@),
{
    let mut r: Vec<Vec<char>> = Vec::new();
    let mut i: usize = 0;
    assert(s@.skip(0) == s@);
    assert(views(r@) + split_ws(s@) == split_ws(s@));
    loop
        invariant
            i <= s.len(),
            split_ws(s@) == views(r@) + split_ws(s@.skip(i as int)),
        decreases s.len() - i,
    {
        let ghost rest = s@.skip(i as int);
        let mut j = i;
        while j < s.len() && is_whitespace(s[j])
            invariant
                i <= j <= s.len(),
                forall|m: int| i <= m < j ==> is_ws(s@[m]),
            decreases s.len() - j,
        {
            j = j + 1;
        }
        proof {
            assert forall|m: int| 0 <= m < j - i implies is_ws(rest[m]) by {
                assert(rest[m] == s@[i + m]);
            }
            if j < s.len() {
                assert(rest[j - i] == s@[j as int]);
            }
            lemma_ws_prefix_is(rest, j - i);
            assert(trim_start(rest) == s@.skip(j as int));
        }
        if j == s.len() {
            proof {
                assert(trim_start(rest).len() == 0);
                assert(split_ws(rest) == Seq::<Seq<char>>::empty());
                assert(views(r@) + split_ws(rest) == views(r@));
            }
            return r;
        }
        let ghost t = s@.skip(j as int);
        let mut k = j;
        while k < s.len() && !is_whitespace(s[k])
            invariant
                j <= k <= s.len(),
                forall|m: int| j <= m < k ==> !is_ws(s@[m]),
            decreases s.len() - k,
        {
            k = k + 1;
        }
        proof {
            assert forall|m: int| 0 <= m < k - j implies !is_ws(t[m]) by {
                assert(t[m] == s@[j + m]);
            }
            if k < s.len() {
                assert(t[k - j] == s@[k as int]);
            }
            lemma_token_len_is(t, k - j);
            assert(t.take(k - j) == s@.subrange(j as int, k as int));
            assert(t.skip(k - j) == s@.skip(k as int));
        }
        let ghost prev = r@;
        let word = slice_chars(s, j, k);
        r.push(word);
        proof {
            assert(views(r@) == views(prev).push(word@));
            assert(split_ws(rest) == seq![word@] + split_ws(s@.skip(k as int)));
            assert(views(r@) + split_ws(s@.skip(k as int)) == views(prev) + split_ws(rest));
        }
        i = k;
    }
}

/// `str::parse::<u64>` on a character buffer.
pub fn parse_u64_chars(s: &[char]) -> (r: Option<u64>)
    ensures
        r == parse_u64(s@),
{
    let start: usize = if s.len() > 0 && s[0] == '+' {
        1
    } else {
        0
    };
    let ghost d = unsigned_digits(s@);
    assert(d == s@.skip(start as int));
    if start == s.len() {
        return None;
    }
    let mut acc: u64 = 0;
    let mut i = start;
    assert(d.take(0) == Seq::<char>::empty());
    while i < s.len()
        invariant
            start <= i <= s.len(),
            d == unsigned_digits(s@),
            d == s@.skip(start as int),
            d.len() == s.len() - start,
            all_digits(d.take(i - start)),
            acc as nat == digits_value(d.take(i - start)),
        decreases s.len() - i,
    {
        let u = s[i] as u32;
        let ghost n = i - start;
        assert(d[n] == s@[i as int]);
        assert(u == d[n] as u32);
        if u < 48 || u > 57 {
            assert(!is_digit(d[n]));
            assert(!all_digits(d));
            return None;
        }
        let dv = (u - 48) as u64;
        proof {
            assert(d.take(n + 1).drop_last() == d.take(n));
            assert(d.take(n + 1).last() == d[n]);
            assert(digits_value(d.take(n + 1)) == digits_value(d.take(n)) * 10 + dv);
            assert forall|m: int| 0 <= m < n + 1 implies is_digit(#[trigger] d.take(n + 1)[m]) by {
                if m < n {
                    assert(d.take(n + 1)[m] == d.take(n)[m]);
                }
            }
        }
        match acc.checked_mul(10) {
            Some(m) => match m.checked_add(dv) {
                Some(v) => {
                    acc = v;
                },
                None => {
                    proof {
                        lemma_digits_value_prefix(d, n + 1);
                        assert(digits_value(d) > u64::MAX);
                    }
                    return None;
                },
            },
            None => {
                proof {
                    lemma_digits_value_prefix(d, n + 1);
                    assert(digits_value(d) > u64::MAX);
                }
                return None;
            },
        }
        i = i + 1;
    }
    assert(d.take(d.len() as int) == d);
    Some(acc)
}

/// `str::parse::<usize>` on a character buffer.
pub fn parse_usize_chars(s: &[char]) -> (r: Option<usize>)
    ensures
        r == parse_usize(s@),
{
    match parse_u64_chars(s) {
        Some(v) => {
            if v <= usize::MAX as u64 {
                Some(v as usize)
            } else {
                None
            }
        },
        None => None,
    }
}

/// `str::parse::<u32>` on a character buffer.
pub fn parse_u32_chars(s: &[char]) -> (r: Option<u32>)
    ensures
        r == parse_u32(s@),
{
    match parse_u64_chars(s) {
        Some(v) => {
            if v <= u32::MAX as u64 {
                Some(v as u32)
            } else {
                None
            }
        },
        None => None,
    }
}

/// The character of a decimal digit.
pub fn digit_char_exec(d: u64) -> (c: char)
    requires
        d < 10,
    ensures
        c == digit_char(d as nat),
{
    if d == 0 {
        '0'
    } else if d == 1 {
        '1'
    } else if d == 2 {
        '2'
    } else if d == 3 {
        '3'
    } else if d == 4 {
        '4'
    } else if d == 5 {
        '5'
    } else if d == 6 {
        '6'
    } else if d == 7 {
        '7'
    } else if d == 8 {
        '8'
    } else {
        '9'
    }
}

/// Appends the decimal representation of `n` to `s`.
pub fn push_decimal(s: &mut String, n: u64)
    ensures
        final(s)@ == old(s)@ + decimal(n as nat),
    decreases n,
{
    let ghost start = s@;
    if n >= 10 {
        push_decimal(s, n / 10);
    }
    push_char(s, digit_char_exec(n % 10));
    proof {
        if n >= 10 {
            assert((start + decimal((n / 10) as nat)).push(digit_char((n % 10) as nat)) == start
                + decimal(n as nat));
        } else {
            assert(start.push(digit_char(n as nat)) == start + decimal(n as nat));
        }
    }
}

/// Decimal representation of `n`.
pub fn decimal_string(n: u64) -> (s: String)
    ensures
        s@ == decimal(n as nat),
{
    let mut s = String::new();
    push_decimal(&mut s, n);
    assert(Seq::<char>::empty() + decimal(n as nat) == decimal(n as nat));
    s
}

} // verus!
