//! Character-level text primitives shared by the rest of the library.
//!
//! Text is modelled as `Seq<char>`, the view Verus gives to `str` and `String`.
use vstd::prelude::*;

verus! {

// ---------------------------------------------------------------------------
// Character classes
// ---------------------------------------------------------------------------

/// The Unicode `White_Space` property, which `char::is_whitespace` and
/// `str::trim` use.
pub open spec fn is_ws(c: char) -> bool {
    let u = c as u32;
    (0x09 <= u && u <= 0x0D) || u == 0x20 || u == 0x85 || u == 0xA0 || u == 0x1680 || (0x2000
        <= u && u <= 0x200A) || u == 0x2028 || u == 0x2029 || u == 0x202F || u == 0x205F || u
        == 0x3000
}

/// Executable form of [`is_ws`].
pub fn is_whitespace_char(c: char) -> (b: bool)
    ensures
        b == is_ws(c),
{
    let u = c as u32;
    (0x09 <= u && u <= 0x0D) || u == 0x20 || u == 0x85 || u == 0xA0 || u == 0x1680 || (0x2000
        <= u && u <= 0x200A) || u == 0x2028 || u == 0x2029 || u == 0x202F || u == 0x205F || u
        == 0x3000
}

/// Result of `char::is_alphanumeric`: the Unicode `Alphabetic` or `Numeric`
/// property, whose tables are std's.
pub uninterp spec fn unicode_alphanumeric(c: char) -> bool;

/// Calls `char::is_alphanumeric`.  The contract names the result, which std
/// decides from its Unicode tables and the character alone, and states it
/// for ASCII characters: exactly the letters and digits are alphanumeric.
#[verifier::external_body]
pub(crate) fn is_alphanumeric_char(c: char) -> (b: bool)
    ensures
        b == unicode_alphanumeric(c),
        (c as u32) < 0x80 ==> (b == is_ascii_alnum(c)),
{
    c.is_alphanumeric()
}

/// Result of `str::to_lowercase`: std's Unicode lowercase mapping of a text.
pub uninterp spec fn unicode_lowercase(s: Seq<char>) -> Seq<char>;

/// Characters that Unicode gives no case mapping: CJK symbols and
/// punctuation, hiragana and katakana, CJK unified ideographs, Hangul
/// syllables, and full-width punctuation and digits.
pub open spec fn caseless_wide(c: char) -> bool {
    let u = c as u32;
    (0x3000 <= u <= 0x30FF) || (0x4E00 <= u <= 0x9FFF) || (0xAC00 <= u <= 0xD7A3) || (0xFF01 <= u <= 0xFF20)
}

/// Calls `str::to_lowercase`.  The contract names the result, which std
/// decides from its Unicode tables and the text alone, and states it for a
/// text of ASCII and caseless characters: each ASCII capital letter made
/// small, and every other character left as it is (a character without a
/// lowercase mapping maps to itself).
#[verifier::external_body]
pub(crate) fn to_lowercase(s: &str) -> (r: String)
    ensures
        r@ == unicode_lowercase(s@),
        (forall|i: int| 0 <= i < s@.len() ==> (#[trigger] s@[i] as u32) < 0x80 || caseless_wide(s@[i]))
            ==> r@ == s@.map_values(|c: char| ascii_lower(c)),
{
    s.to_lowercase()
}

/// ASCII letters and digits.
pub open spec fn is_ascii_alnum(c: char) -> bool {
    ('a' <= c && c <= 'z') || ('A' <= c && c <= 'Z') || ('0' <= c && c <= '9')
}

/// The ASCII lowercase form of a character; other characters are unchanged.
pub open spec fn ascii_lower(c: char) -> char {
    if 'A' <= c && c <= 'Z' {
        ((c as u32) + 32) as char
    } else {
        c
    }
}

/// Executable form of [`ascii_lower`].
pub fn to_ascii_lower(c: char) -> (r: char)
    ensures
        r == ascii_lower(c),
{
    if 'A' <= c && c <= 'Z' {
        let u: u32 = (c as u32) + 32;
        assert(0x61 <= u <= 0x7A);
        char_from_ascii_code(u)
    } else {
        c
    }
}

/// Builds a character from an ASCII lowercase letter code.
fn char_from_ascii_code(u: u32) -> (r: char)
    requires
        0x61 <= u <= 0x7A,
    ensures
        r == u as char,
{
    let b: u8 = u as u8;
    b as char
}

// ---------------------------------------------------------------------------
// Sequence predicates
// ---------------------------------------------------------------------------

/// `t` occurs in `s` at index `i`.
pub open spec fn occurs_at(s: Seq<char>, t: Seq<char>, i: int) -> bool {
    0 <= i && i + t.len() <= s.len() && s.subrange(i, i + t.len()) == t
}

/// `t` is a substring of `s` (the empty sequence is a substring of all).
pub open spec fn seq_contains(s: Seq<char>, t: Seq<char>) -> bool {
    exists|i: int| occurs_at(s, t, i)
}

/// `s` begins with `t`.
pub open spec fn seq_starts_with(s: Seq<char>, t: Seq<char>) -> bool {
    t.len() <= s.len() && s.subrange(0, t.len() as int) == t
}

/// `s` ends with `t`.
pub open spec fn seq_ends_with(s: Seq<char>, t: Seq<char>) -> bool {
    t.len() <= s.len() && s.subrange(s.len() - t.len(), s.len() as int) == t
}

/// Some character of `s` is `c`.
pub open spec fn has_char(s: Seq<char>, c: char) -> bool {
    exists|i: int| 0 <= i < s.len() && s[i] == c
}

/// The two sequences are equal when compared with ASCII case folded.
pub open spec fn eq_ignore_ascii_case(a: Seq<char>, b: Seq<char>) -> bool {
    a.len() == b.len() && forall|i: int| 0 <= i < a.len() ==> ascii_lower(a[i]) == ascii_lower(b[i])
}

// ---------------------------------------------------------------------------
// Conversions between strings and character vectors
// ---------------------------------------------------------------------------

/// Collects the characters of a string slice.
pub fn chars_of(s: &str) -> (v: Vec<char>)
    ensures
        v@ == s@,
{
    broadcast use vstd::string::group_string_axioms;

    let mut v: Vec<char> = Vec::new();
    for c in it: s.chars()
        invariant
            v@ == it.seq().take(it.index() as int),
    {
        v.push(c);
    }
    v
}

/// Calls `String::push`: the string gains the character at its end.
#[verifier::external_body]
fn push_char(s: &mut String, c: char)
    ensures
        final(s)@ == old(s)@.push(c),
{
    s.push(c);
}

/// Builds a string from characters `v[from..to]`.
pub fn string_from_range(v: &Vec<char>, from: usize, to: usize) -> (s: String)
    requires
        from <= to <= v.len(),
    ensures
        s@ == v@.subrange(from as int, to as int),
{
    let mut s = String::new();
    let mut i = from;
    while i < to
        invariant
            from <= i <= to <= v.len(),
            s@ == v@.subrange(from as int, i as int),
        decreases to - i,
    {
        push_char(&mut s, v[i]);
        assert(v@.subrange(from as int, i + 1) == v@.subrange(from as int, i as int).push(v@[i as int]));
        i = i + 1;
    }
    s
}

/// Builds a string from all the characters of `v`.
pub fn string_from_chars(v: &Vec<char>) -> (s: String)
    ensures
        s@ == v@,
{
    let s = string_from_range(v, 0, v.len());
    assert(v@.subrange(0, v@.len() as int) == v@);
    s
}

/// Appends the characters of `t` to `s`.
pub fn append_str(s: &mut String, t: &str)
    ensures
        final(s)@ == old(s)@ + t@,
{
    let v = chars_of(t);
    let mut i: usize = 0;
    while i < v.len()
        invariant
            v@ == t@,
            i <= v.len(),
            s@ == old(s)@ + v@.subrange(0, i as int),
        decreases v.len() - i,
    {
        push_char(s, v[i]);
        assert(v@.subrange(0, i + 1) == v@.subrange(0, i as int).push(v@[i as int]));
        i = i + 1;
    }
    assert(v@.subrange(0, v@.len() as int) == v@);
}

/// The concatenation of two string slices.
pub fn concat2(a: &str, b: &str) -> (r: String)
    ensures
        r@ == a@ + b@,
{
    let mut r = owned(a);
    append_str(&mut r, b);
    r
}

/// Copies a string slice into an owned string.
pub fn owned(s: &str) -> (r: String)
    ensures
        r@ == s@,
{
    s.to_owned()
}

/// Copies a string.
pub fn copy_string(s: &String) -> (r: String)
    ensures
        r@ == s@,
{
    s.clone()
}

// ---------------------------------------------------------------------------
// Searching and comparing
// ---------------------------------------------------------------------------

/// Whether `t` occurs in `s` at index `i` (executable).
pub fn matches_at(s: &Vec<char>, t: &Vec<char>, i: usize) -> (b: bool)
    requires
        i <= s.len(),
    ensures
        b == occurs_at(s@, t@, i as int),
{
    if t.len() > s.len() - i {
        return false;
    }
    let mut k: usize = 0;
    while k < t.len()
        invariant
            i + t.len() <= s.len(),
            k <= t.len(),
            forall|j: int| 0 <= j < k ==> s@[i + j] == t@[j],
        decreases t.len() - k,
    {
        if s[i + k] != t[k] {
            assert(s@.subrange(i as int, i + t.len())[k as int] != t@[k as int]);
            return false;
        }
        k = k + 1;
    }
    assert(s@.subrange(i as int, i + t.len()) =~= t@);
    true
}

/// Whether `t` is a substring of `s`.
pub fn vec_contains(s: &Vec<char>, t: &Vec<char>) -> (b: bool)
    ensures
        b == seq_contains(s@, t@),
{
    if t.len() > s.len() {
        assert forall|i: int| !occurs_at(s@, t@, i) by {}
        return false;
    }
    let last = s.len() - t.len();
    let mut i: usize = 0;
    loop
        invariant
            t.len() <= s.len(),
            last == s.len() - t.len(),
            i <= last,
            forall|j: int| 0 <= j < i ==> !occurs_at(s@, t@, j),
        ensures
            forall|j: int| 0 <= j <= last ==> !occurs_at(s@, t@, j),
        decreases last - i,
    {
        if matches_at(s, t, i) {
            return true;
        }
        if i == last {
            break;
        }
        i = i + 1;
    }
    assert forall|j: int| !occurs_at(s@, t@, j) by {
        if 0 <= j <= last {
        }
    }
    false
}

/// The first index at or after `i` where `t` occurs in `s`.
pub open spec fn first_occurrence_from(s: Seq<char>, t: Seq<char>, i: int) -> Option<int>
    decreases s.len() + 1 - i,
{
    if i < 0 || i + t.len() > s.len() {
        None
    } else if occurs_at(s, t, i) {
        Some(i)
    } else {
        first_occurrence_from(s, t, i + 1)
    }
}

proof fn lemma_first_occurrence(s: Seq<char>, t: Seq<char>, i: int)
    requires
        0 <= i,
    ensures
        first_occurrence_from(s, t, i) matches Some(k) ==> i <= k && occurs_at(s, t, k),
    decreases s.len() + 1 - i,
{
    if i + t.len() <= s.len() && !occurs_at(s, t, i) {
        lemma_first_occurrence(s, t, i + 1);
    }
}

/// The first index where `t` occurs in `s` (`str::find`).
pub fn find_vec(s: &Vec<char>, t: &Vec<char>) -> (r: Option<usize>)
    ensures
        opt_usize(r) == first_occurrence_from(s@, t@, 0),
        r matches Some(k) ==> occurs_at(s@, t@, k as int),
{
    proof {
        lemma_first_occurrence(s@, t@, 0);
    }
    if t.len() > s.len() {
        return None;
    }
    let last = s.len() - t.len();
    let mut i: usize = 0;
    loop
        invariant
            t.len() <= s.len(),
            last == s.len() - t.len(),
            i <= last,
            first_occurrence_from(s@, t@, 0) == first_occurrence_from(s@, t@, i as int),
        ensures
            first_occurrence_from(s@, t@, 0) == first_occurrence_from(s@, t@, i as int),
            !occurs_at(s@, t@, i as int),
            i == last,
        decreases last - i,
    {
        if matches_at(s, t, i) {
            return Some(i);
        }
        if i == last {
            break;
        }
        i = i + 1;
    }
    assert(first_occurrence_from(s@, t@, i as int + 1) is None);
    None
}

/// An optional index as an optional integer.
pub open spec fn opt_usize(o: Option<usize>) -> Option<int> {
    match o {
        Some(x) => Some(x as int),
        None => None,
    }
}

/// Whether `s` contains the text of `needle`.
pub fn str_contains(s: &Vec<char>, needle: &str) -> (b: bool)
    ensures
        b == seq_contains(s@, needle@),
{
    let t = chars_of(needle);
    vec_contains(s, &t)
}

/// Whether `s` begins with `t`.
pub fn vec_starts_with(s: &Vec<char>, t: &Vec<char>) -> (b: bool)
    ensures
        b == seq_starts_with(s@, t@),
{
    let r = matches_at(s, t, 0);
    proof {
        if t@.len() <= s@.len() {
            assert(s@.subrange(0, t@.len() as int) == s@.subrange(0int, 0int + t@.len()));
        }
    }
    r
}

/// Whether `s` ends with `t`.
pub fn vec_ends_with(s: &Vec<char>, t: &Vec<char>) -> (b: bool)
    ensures
        b == seq_ends_with(s@, t@),
{
    if t.len() > s.len() {
        return false;
    }
    matches_at(s, t, s.len() - t.len())
}

/// Whether `s` begins with the text of `prefix`.
pub fn str_starts_with(s: &Vec<char>, prefix: &str) -> (b: bool)
    ensures
        b == seq_starts_with(s@, prefix@),
{
    let t = chars_of(prefix);
    vec_starts_with(s, &t)
}

/// Whether `s` contains the character `c`.
pub fn vec_has_char(s: &Vec<char>, c: char) -> (b: bool)
    ensures
        b == has_char(s@, c),
{
    let mut i: usize = 0;
    while i < s.len()
        invariant
            i <= s.len(),
            forall|j: int| 0 <= j < i ==> s@[j] != c,
        decreases s.len() - i,
    {
        if s[i] == c {
            return true;
        }
        i = i + 1;
    }
    false
}

/// Character-wise equality of two vectors.
pub fn vec_eq(a: &Vec<char>, b: &Vec<char>) -> (r: bool)
    ensures
        r == (a@ == b@),
{
    if a.len() != b.len() {
        return false;
    }
    let mut i: usize = 0;
    while i < a.len()
        invariant
            a.len() == b.len(),
            i <= a.len(),
            forall|j: int| 0 <= j < i ==> a@[j] == b@[j],
        decreases a.len() - i,
    {
        if a[i] != b[i] {
            return false;
        }
        i = i + 1;
    }
    assert(a@ =~= b@);
    true
}

/// Equality of two string slices.
pub fn str_eq(a: &str, b: &str) -> (r: bool)
    ensures
        r == (a@ == b@),
{
    let x = chars_of(a);
    let y = chars_of(b);
    vec_eq(&x, &y)
}

/// Equality of two string slices with ASCII case folded
/// (`str::eq_ignore_ascii_case`).
pub fn str_eq_ignore_ascii_case(a: &str, b: &str) -> (r: bool)
    ensures
        r == eq_ignore_ascii_case(a@, b@),
{
    let x = chars_of(a);
    let y = chars_of(b);
    if x.len() != y.len() {
        return false;
    }
    let mut i: usize = 0;
    while i < x.len()
        invariant
            x@ == a@,
            y@ == b@,
            x.len() == y.len(),
            i <= x.len(),
            forall|j: int| 0 <= j < i ==> ascii_lower(x@[j]) == ascii_lower(y@[j]),
        decreases x.len() - i,
    {
        if to_ascii_lower(x[i]) != to_ascii_lower(y[i]) {
            return false;
        }
        i = i + 1;
    }
    true
}

// ---------------------------------------------------------------------------
// Trimming
// ---------------------------------------------------------------------------

/// The character classes that trimming can strip.
#[derive(Clone, Copy, PartialEq, Eq, Debug)]
pub enum CharClass {
    /// Unicode white space.
    Whitespace,
    /// Sentence-boundary punctuation of correction terms.
    BoundaryPunctuation,
    /// White space, `,`, `，`, `.` and `。` (the start of an answer).
    WhitespaceOrPause,
    /// The path separator `/`.
    Slash,
}

/// Sentence-boundary punctuation, ASCII and full-width.
pub open spec fn is_boundary_punct(c: char) -> bool {
    c == ',' || c == '.' || c == '!' || c == '?' || c == ';' || c == ':' || c == '"' || c == '\''
        || c == '(' || c == ')' || c == '[' || c == ']' || c == '{' || c == '}' || c == '，' || c
        == '。' || c == '、' || c == '！' || c == '？' || c == '；' || c == '：' || c == '（' || c
        == '）' || c == '【' || c == '】' || c == '「' || c == '」' || c == '『' || c == '』' || c
        == '《' || c == '》' || c == '“' || c == '”' || c == '‘' || c == '’' || c == '…' || c
        == '—'
}

/// Membership of a character in a class.
pub open spec fn in_class(c: char, k: CharClass) -> bool {
    match k {
        CharClass::Whitespace => is_ws(c),
        CharClass::BoundaryPunctuation => is_boundary_punct(c),
        CharClass::WhitespaceOrPause => is_ws(c) || c == ',' || c == '，' || c == '.' || c == '。',
        CharClass::Slash => c == '/',
    }
}

/// Executable form of [`is_boundary_punct`].
pub fn is_sentence_boundary_punctuation(c: char) -> (b: bool)
    ensures
        b == is_boundary_punct(c),
{
    c == ',' || c == '.' || c == '!' || c == '?' || c == ';' || c == ':' || c == '"' || c == '\''
        || c == '(' || c == ')' || c == '[' || c == ']' || c == '{' || c == '}' || c == '，' || c
        == '。' || c == '、' || c == '！' || c == '？' || c == '；' || c == '：' || c == '（' || c
        == '）' || c == '【' || c == '】' || c == '「' || c == '」' || c == '『' || c == '』' || c
        == '《' || c == '》' || c == '“' || c == '”' || c == '‘' || c == '’' || c == '…' || c
        == '—'
}

/// Executable form of [`in_class`].
pub fn char_in_class(c: char, k: CharClass) -> (b: bool)
    ensures
        b == in_class(c, k),
{
    match k {
        CharClass::Whitespace => is_whitespace_char(c),
        CharClass::BoundaryPunctuation => is_sentence_boundary_punctuation(c),
        CharClass::WhitespaceOrPause => is_whitespace_char(c) || c == ',' || c == '，' || c == '.'
            || c == '。',
        CharClass::Slash => c == '/',
    }
}

/// The first index at or after `i` whose character is not in class `k`.
pub open spec fn lead_end(s: Seq<char>, k: CharClass, i: int) -> int
    decreases s.len() - i,
{
    if 0 <= i < s.len() && in_class(s[i], k) {
        lead_end(s, k, i + 1)
    } else {
        i
    }
}

/// Going down from `j`, the end of `s` once trailing characters of class `k`
/// are removed.
pub open spec fn trail_end(s: Seq<char>, k: CharClass, j: int) -> int
    decreases j,
{
    if 0 < j <= s.len() && in_class(s[j - 1], k) {
        trail_end(s, k, j - 1)
    } else {
        j
    }
}

/// `s` without its leading characters of class `k` (`str::trim_start_matches`).
pub open spec fn trim_start_by(s: Seq<char>, k: CharClass) -> Seq<char> {
    s.subrange(lead_end(s, k, 0), s.len() as int)
}

/// `s` without its trailing characters of class `k` (`str::trim_end_matches`).
pub open spec fn trim_end_by(s: Seq<char>, k: CharClass) -> Seq<char> {
    s.subrange(0, trail_end(s, k, s.len() as int))
}

/// `s` without leading and trailing characters of class `k`
/// (`str::trim_matches`; with white space, `str::trim`).
pub open spec fn trim_by(s: Seq<char>, k: CharClass) -> Seq<char> {
    trim_end_by(trim_start_by(s, k), k)
}

/// `str::trim`.
pub open spec fn trim_ws(s: Seq<char>) -> Seq<char> {
    trim_by(s, CharClass::Whitespace)
}

proof fn lemma_lead_end_bounds(s: Seq<char>, k: CharClass, i: int)
    requires
        0 <= i <= s.len(),
    ensures
        i <= lead_end(s, k, i) <= s.len(),
        lead_end(s, k, i) < s.len() ==> !in_class(s[lead_end(s, k, i)], k),
        forall|j: int| i <= j < lead_end(s, k, i) ==> in_class(#[trigger] s[j], k),
    decreases s.len() - i,
{
    if i < s.len() && in_class(s[i], k) {
        lemma_lead_end_bounds(s, k, i + 1);
    }
}

proof fn lemma_trail_end_bounds(s: Seq<char>, k: CharClass, j: int)
    requires
        0 <= j <= s.len(),
    ensures
        0 <= trail_end(s, k, j) <= j,
        trail_end(s, k, j) > 0 ==> !in_class(s[trail_end(s, k, j) - 1], k),
        forall|m: int| trail_end(s, k, j) <= m < j ==> in_class(#[trigger] s[m], k),
    decreases j,
{
    if 0 < j && in_class(s[j - 1], k) {
        lemma_trail_end_bounds(s, k, j - 1);
    }
}

/// Index of the first character of `s` not in class `k`.
pub fn lead_index(s: &Vec<char>, k: CharClass) -> (r: usize)
    ensures
        r == lead_end(s@, k, 0),
        r <= s.len(),
{
    let mut i: usize = 0;
    while i < s.len() && char_in_class(s[i], k)
        invariant
            i <= s.len(),
            lead_end(s@, k, 0) == lead_end(s@, k, i as int),
        decreases s.len() - i,
    {
        i = i + 1;
    }
    proof {
        lemma_lead_end_bounds(s@, k, 0);
    }
    i
}

/// End of `s` once its trailing characters of class `k` are removed.
pub fn trail_index(s: &Vec<char>, k: CharClass) -> (r: usize)
    ensures
        r == trail_end(s@, k, s.len() as int),
        r <= s.len(),
{
    let mut j: usize = s.len();
    while j > 0 && char_in_class(s[j - 1], k)
        invariant
            j <= s.len(),
            trail_end(s@, k, s.len() as int) == trail_end(s@, k, j as int),
        decreases j,
    {
        j = j - 1;
    }
    j
}

/// Copies `v[from..to]`.
pub fn slice_vec(v: &Vec<char>, from: usize, to: usize) -> (r: Vec<char>)
    requires
        from <= to <= v.len(),
    ensures
        r@ == v@.subrange(from as int, to as int),
{
    let mut r: Vec<char> = Vec::new();
    let mut i = from;
    while i < to
        invariant
            from <= i <= to <= v.len(),
            r@ == v@.subrange(from as int, i as int),
        decreases to - i,
    {
        r.push(v[i]);
        assert(v@.subrange(from as int, i + 1) == v@.subrange(from as int, i as int).push(
            v@[i as int],
        ));
        i = i + 1;
    }
    r
}

/// `s` without leading characters of class `k`.
pub fn trim_start_vec(s: &Vec<char>, k: CharClass) -> (r: Vec<char>)
    ensures
        r@ == trim_start_by(s@, k),
{
    let a = lead_index(s, k);
    slice_vec(s, a, s.len())
}

/// `s` without trailing characters of class `k`.
pub fn trim_end_vec(s: &Vec<char>, k: CharClass) -> (r: Vec<char>)
    ensures
        r@ == trim_end_by(s@, k),
{
    let b = trail_index(s, k);
    slice_vec(s, 0, b)
}

/// `s` without leading and trailing characters of class `k`.
pub fn trim_vec(s: &Vec<char>, k: CharClass) -> (r: Vec<char>)
    ensures
        r@ == trim_by(s@, k),
{
    let t = trim_start_vec(s, k);
    trim_end_vec(&t, k)
}

/// Whether `s` is empty once white space is trimmed (`s.trim().is_empty()`).
pub fn is_blank(s: &Vec<char>) -> (b: bool)
    ensures
        b == (trim_ws(s@).len() == 0),
        b == (forall|i: int| 0 <= i < s@.len() ==> is_ws(#[trigger] s@[i])),
{
    let a = lead_index(s, CharClass::Whitespace);
    proof {
        lemma_lead_end_bounds(s@, CharClass::Whitespace, 0);
        let t = trim_start_by(s@, CharClass::Whitespace);
        lemma_trail_end_bounds(t, CharClass::Whitespace, t.len() as int);
        if a < s.len() {
            assert(t[0] == s@[a as int]);
            assert(trail_end(t, CharClass::Whitespace, t.len() as int) > 0);
        }
    }
    a == s.len()
}

} // verus!
