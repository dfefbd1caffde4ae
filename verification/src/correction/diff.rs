//! Extraction of a word-level correction from a text before and after an edit.
use vstd::prelude::*;

use super::types::CorrectionPair;
use crate::text::{
    chars_of, has_char, is_alphanumeric_char, is_ascii_alnum, slice_vec, string_from_chars, trim_by,
    trim_vec, trim_ws, unicode_alphanumeric, vec_eq, vec_has_char, CharClass,
};

verus! {

/// Longest term, in characters, that a learned correction may have.
pub const MAX_CORRECTION_CHARS: usize = 80;

/// The kind of one step of a character diff.
#[derive(Clone, Copy, PartialEq, Eq, Debug)]
pub enum EditTag {
    /// The characters are in both texts.
    Equal,
    /// The characters are only in the text before.
    Delete,
    /// The characters are only in the text after.
    Insert,
}

/// The character diff that `similar` computes between two texts, as a list of
/// steps, each a tag and the characters it covers.
pub uninterp spec fn char_diff(before: Seq<char>, after: Seq<char>) -> Seq<(EditTag, Seq<char>)>;

/// The steps of a diff, each with its characters as a sequence.
pub open spec fn steps_view(v: Seq<(EditTag, String)>) -> Seq<(EditTag, Seq<char>)> {
    v.map_values(|p: (EditTag, String)| (p.0, p.1@))
}

/// The text the first `n` steps read from the text before.
pub open spec fn old_side(ops: Seq<(EditTag, Seq<char>)>, n: int) -> Seq<char>
    decreases n,
{
    if n <= 0 {
        Seq::empty()
    } else {
        old_side(ops, n - 1) + (if ops[n - 1].0 != EditTag::Insert {
            ops[n - 1].1
        } else {
            Seq::empty()
        })
    }
}

/// The text the first `n` steps write to the text after.
pub open spec fn new_side(ops: Seq<(EditTag, Seq<char>)>, n: int) -> Seq<char>
    decreases n,
{
    if n <= 0 {
        Seq::empty()
    } else {
        new_side(ops, n - 1) + (if ops[n - 1].0 != EditTag::Delete {
            ops[n - 1].1
        } else {
            Seq::empty()
        })
    }
}

/// The steps turn `before` into `after`: read on one side they spell `before`,
/// on the other `after`.
pub open spec fn valid_edit_script(
    ops: Seq<(EditTag, Seq<char>)>,
    before: Seq<char>,
    after: Seq<char>,
) -> bool {
    old_side(ops, ops.len() as int) == before && new_side(ops, ops.len() as int) == after
}

/// Calls `similar::TextDiff::from_chars(before, after)` and lists
/// `iter_all_changes`, each change as its tag and its text.  The contract
/// names the result and states that the changes turn `before` into `after`;
/// which of several such scripts the Myers algorithm picks is not stated.
#[verifier::external_body]
fn diff_chars(before: &str, after: &str) -> (steps: Vec<(EditTag, String)>)
    ensures
        steps_view(steps@) == char_diff(before@, after@),
        valid_edit_script(steps_view(steps@), before@, after@),
{
    let diff = similar::TextDiff::from_chars(before, after);
    let mut steps = Vec::new();
    for change in diff.iter_all_changes() {
        let tag = match change.tag() {
            similar::ChangeTag::Equal => EditTag::Equal,
            similar::ChangeTag::Delete => EditTag::Delete,
            similar::ChangeTag::Insert => EditTag::Insert,
        };
        steps.push((tag, change.value().to_string()));
    }
    steps
}

// ---------------------------------------------------------------------------
// Snapshot normalisation
// ---------------------------------------------------------------------------

/// `s[i..]` with `"\r\n"` and then each remaining `'\r'` replaced by `'\n'`.
pub open spec fn normalize_from(s: Seq<char>, i: int) -> Seq<char>
    decreases s.len() - i,
{
    if i < 0 || i >= s.len() {
        Seq::empty()
    } else if s[i] == '\r' && i + 1 < s.len() && s[i + 1] == '\n' {
        seq!['\n'] + normalize_from(s, i + 2)
    } else if s[i] == '\r' {
        seq!['\n'] + normalize_from(s, i + 1)
    } else {
        seq![s[i]] + normalize_from(s, i + 1)
    }
}

/// A snapshot of text with its line endings made uniform.
pub open spec fn normalize_snapshot(s: Seq<char>) -> Seq<char> {
    normalize_from(s, 0)
}

/// Replaces `"\r\n"`, then `'\r'`, with `'\n'`.
pub fn normalize_text_snapshot(text: &str) -> (r: Vec<char>)
    ensures
        r@ == normalize_snapshot(text@),
{
    let s = chars_of(text);
    let mut out: Vec<char> = Vec::new();
    let mut i: usize = 0;
    while i < s.len()
        invariant
            s@ == text@,
            i <= s.len(),
            out@ + normalize_from(s@, i as int) == normalize_from(s@, 0),
        decreases s.len() - i,
    {
        let ghost prev = out@;
        if s[i] == '\r' && i + 1 < s.len() && s[i + 1] == '\n' {
            out.push('\n');
            assert(out@ + normalize_from(s@, i + 2) =~= prev + normalize_from(s@, i as int));
            i = i + 2;
        } else if s[i] == '\r' {
            out.push('\n');
            assert(out@ + normalize_from(s@, i + 1) =~= prev + normalize_from(s@, i as int));
            i = i + 1;
        } else {
            out.push(s[i]);
            assert(out@ + normalize_from(s@, i + 1) =~= prev + normalize_from(s@, i as int));
            i = i + 1;
        }
    }
    assert(out@ + normalize_from(s@, i as int) =~= out@);
    out
}

// ---------------------------------------------------------------------------
// Changed spans
// ---------------------------------------------------------------------------

/// The state of the scan for changed spans: position in the text before and
/// after, start of the first change on each side, end of the last change on
/// each side.
pub open spec fn scan_step(
    s: (int, int, Option<int>, Option<int>, int, int),
    op: (EditTag, Seq<char>),
) -> (int, int, Option<int>, Option<int>, int, int) {
    let len = op.1.len() as int;
    let (bstart, astart) = if s.2 is None {
        (Some(s.0), Some(s.1))
    } else {
        (s.2, s.3)
    };
    match op.0 {
        EditTag::Equal => (s.0 + len, s.1 + len, s.2, s.3, s.4, s.5),
        EditTag::Delete => (s.0 + len, s.1, bstart, astart, s.0 + len, s.1),
        EditTag::Insert => (s.0, s.1 + len, bstart, astart, s.0, s.1 + len),
    }
}

/// The scan state after the first `n` steps.
pub open spec fn scan(ops: Seq<(EditTag, Seq<char>)>, n: int) -> (
    int,
    int,
    Option<int>,
    Option<int>,
    int,
    int,
)
    decreases n,
{
    if n <= 0 {
        (0, 0, None, None, 0, 0)
    } else {
        scan_step(scan(ops, n - 1), ops[n - 1])
    }
}

/// The span that changed on each side: `(before_start, before_end,
/// after_start, after_end)`, from the first change to the last; `None` when
/// nothing changed.
pub open spec fn changed_spans(ops: Seq<(EditTag, Seq<char>)>) -> Option<(int, int, int, int)> {
    let s = scan(ops, ops.len() as int);
    match (s.2, s.3) {
        (Some(bs), Some(as_)) => Some((bs, s.4, as_, s.5)),
        _ => None,
    }
}

proof fn lemma_sides_grow(ops: Seq<(EditTag, Seq<char>)>, n: int, m: int)
    requires
        0 <= n <= m <= ops.len(),
    ensures
        old_side(ops, n).len() <= old_side(ops, m).len(),
        new_side(ops, n).len() <= new_side(ops, m).len(),
    decreases m - n,
{
    if n < m {
        lemma_sides_grow(ops, n, m - 1);
    }
}

proof fn lemma_scan(ops: Seq<(EditTag, Seq<char>)>, n: int)
    requires
        0 <= n <= ops.len(),
    ensures
        scan(ops, n).0 == old_side(ops, n).len(),
        scan(ops, n).1 == new_side(ops, n).len(),
        (scan(ops, n).2 is Some) == (scan(ops, n).3 is Some),
        scan(ops, n).2 is Some ==> 0 <= scan(ops, n).2.unwrap() <= scan(ops, n).4 <= scan(ops, n).0,
        scan(ops, n).3 is Some ==> 0 <= scan(ops, n).3.unwrap() <= scan(ops, n).5 <= scan(ops, n).1,
    decreases n,
{
    if n > 0 {
        lemma_scan(ops, n - 1);
    }
}

/// Optional index as a mathematical integer.
pub open spec fn opt_int(o: Option<usize>) -> Option<int> {
    match o {
        Some(x) => Some(x as int),
        None => None,
    }
}

/// Number of characters of a string.
fn char_count(s: &String) -> (n: usize)
    ensures
        n == s@.len(),
{
    chars_of(s.as_str()).len()
}

/// Scans the diff for the first and last change on each side.
fn changed_char_spans(
    steps: &Vec<(EditTag, String)>,
    before: &Vec<char>,
    after: &Vec<char>,
) -> (r: Option<(usize, usize, usize, usize)>)
    requires
        valid_edit_script(steps_view(steps@), before@, after@),
    ensures
        match r {
            Some(t) => changed_spans(steps_view(steps@)) == Some(
                (t.0 as int, t.1 as int, t.2 as int, t.3 as int),
            ),
            None => changed_spans(steps_view(steps@)) is None,
        },
{
    let ghost ops = steps_view(steps@);
    let mut before_pos: usize = 0;
    let mut after_pos: usize = 0;
    let mut before_start: Option<usize> = None;
    let mut after_start: Option<usize> = None;
    let mut before_end: usize = 0;
    let mut after_end: usize = 0;
    let blen = before.len();
    let alen = after.len();
    let mut i: usize = 0;
    while i < steps.len()
        invariant
            blen == before@.len(),
            alen == after@.len(),
            ops == steps_view(steps@),
            valid_edit_script(ops, before@, after@),
            i <= steps.len(),
            scan(ops, i as int) == (
                before_pos as int,
                after_pos as int,
                opt_int(before_start),
                opt_int(after_start),
                before_end as int,
                after_end as int,
            ),
        decreases steps.len() - i,
    {
        assert(ops.len() == steps@.len());
        proof {
            lemma_scan(ops, i as int);
            lemma_scan(ops, i + 1);
            lemma_sides_grow(ops, i + 1, ops.len() as int);
        }
        let len = char_count(&steps[i].1);
        assert(ops[i as int] == (steps@[i as int].0, steps@[i as int].1@));
        assert(old_side(ops, i + 1) == old_side(ops, i as int) + (if ops[i as int].0
            != EditTag::Insert {
            ops[i as int].1
        } else {
            Seq::empty()
        }));
        assert(new_side(ops, i + 1) == new_side(ops, i as int) + (if ops[i as int].0
            != EditTag::Delete {
            ops[i as int].1
        } else {
            Seq::empty()
        }));
        match steps[i].0 {
            EditTag::Equal => {
                before_pos = before_pos + len;
                after_pos = after_pos + len;
            },
            EditTag::Delete => {
                if before_start.is_none() {
                    before_start = Some(before_pos);
                    after_start = Some(after_pos);
                }
                before_pos = before_pos + len;
                before_end = before_pos;
                after_end = after_pos;
            },
            EditTag::Insert => {
                if before_start.is_none() {
                    before_start = Some(before_pos);
                    after_start = Some(after_pos);
                }
                after_pos = after_pos + len;
                before_end = before_pos;
                after_end = after_pos;
            },
        }
        i = i + 1;
    }
    match (before_start, after_start) {
        (Some(bs), Some(as_)) => Some((bs, before_end, as_, after_end)),
        _ => None,
    }
}

// ---------------------------------------------------------------------------
// Span expansion
// ---------------------------------------------------------------------------

/// CJK ideographs, kana and Hangul.
pub open spec fn is_cjk_spec(c: char) -> bool {
    let u = c as u32;
    (0x3400 <= u && u <= 0x4DBF) || (0x4E00 <= u && u <= 0x9FFF) || (0xF900 <= u && u <= 0xFAFF)
        || (0x3040 <= u && u <= 0x30FF) || (0xAC00 <= u && u <= 0xD7AF)
}

/// Executable form of [`is_cjk_spec`].
pub fn is_cjk(c: char) -> (b: bool)
    ensures
        b == is_cjk_spec(c),
{
    let u = c as u32;
    (0x3400 <= u && u <= 0x4DBF) || (0x4E00 <= u && u <= 0x9FFF) || (0xF900 <= u && u <= 0xFAFF)
        || (0x3040 <= u && u <= 0x30FF) || (0xAC00 <= u && u <= 0xD7AF)
}

/// `x - y`, or zero when `y > x`.
pub open spec fn sat_sub(x: int, y: int) -> int {
    if x >= y {
        x - y
    } else {
        0
    }
}

/// A single changed CJK character after an equal CJK character takes that
/// character in on both sides, so that the pair is a whole term.
pub open spec fn expand_cjk(
    b: Seq<char>,
    a: Seq<char>,
    bs: int,
    as_: int,
    be: int,
    ae: int,
) -> (int, int) {
    if bs == 0 || as_ == 0 {
        (bs, as_)
    } else if sat_sub(be, bs) != 1 || sat_sub(ae, as_) != 1 {
        (bs, as_)
    } else if !is_cjk_spec(b[bs]) || !is_cjk_spec(a[as_]) {
        (bs, as_)
    } else if b[bs - 1] == a[as_ - 1] && is_cjk_spec(b[bs - 1]) {
        (bs - 1, as_ - 1)
    } else {
        (bs, as_)
    }
}

/// Extends a single-character CJK replacement by the equal CJK character before it.
pub fn expand_cjk_single_char_replacement(
    before: &Vec<char>,
    after: &Vec<char>,
    before_start: &mut usize,
    after_start: &mut usize,
    before_end: usize,
    after_end: usize,
)
    requires
        *old(before_start) <= before_end <= before.len(),
        *old(after_start) <= after_end <= after.len(),
    ensures
        (*final(before_start) as int, *final(after_start) as int) == expand_cjk(
            before@,
            after@,
            *old(before_start) as int,
            *old(after_start) as int,
            before_end as int,
            after_end as int,
        ),
{
    if *before_start == 0 || *after_start == 0 {
        return ;
    }
    let before_changed_len = before_end - *before_start;
    let after_changed_len = after_end - *after_start;
    if before_changed_len != 1 || after_changed_len != 1 {
        return ;
    }
    if !is_cjk(before[*before_start]) || !is_cjk(after[*after_start]) {
        return ;
    }
    let before_prev = before[*before_start - 1];
    let after_prev = after[*after_start - 1];
    if before_prev == after_prev && is_cjk(before_prev) {
        *before_start = *before_start - 1;
        *after_start = *after_start - 1;
    }
}

/// ASCII letters, digits, `_`, `-` and `.`.
pub open spec fn is_ascii_word_spec(c: char) -> bool {
    is_ascii_alnum(c) || c == '_' || c == '-' || c == '.'
}

/// Executable form of [`is_ascii_word_spec`].
pub fn is_ascii_word_char(c: char) -> (b: bool)
    ensures
        b == is_ascii_word_spec(c),
{
    ('a' <= c && c <= 'z') || ('A' <= c && c <= 'Z') || ('0' <= c && c <= '9') || c == '_' || c
        == '-' || c == '.'
}

/// `s[start..end]` is non-empty and holds an ASCII word character.
pub open spec fn has_ascii_word_change_spec(s: Seq<char>, start: int, end: int) -> bool {
    start < end && exists|i: int| start <= i < end && is_ascii_word_spec(s[i])
}

/// Executable form of [`has_ascii_word_change_spec`].
pub fn has_ascii_word_change(chars: &Vec<char>, start: usize, end: usize) -> (b: bool)
    requires
        end <= chars.len(),
    ensures
        b == has_ascii_word_change_spec(chars@, start as int, end as int),
{
    if start >= end {
        return false;
    }
    let mut i = start;
    while i < end
        invariant
            start <= i <= end <= chars.len(),
            forall|j: int| start <= j < i ==> !is_ascii_word_spec(chars@[j]),
        decreases end - i,
    {
        if is_ascii_word_char(chars[i]) {
            return true;
        }
        i = i + 1;
    }
    false
}

/// Moves both starts left over equal ASCII word characters.
pub open spec fn extend_left(b: Seq<char>, a: Seq<char>, bs: int, as_: int) -> (int, int)
    decreases bs,
{
    if 0 < bs <= b.len() && 0 < as_ <= a.len() && b[bs - 1] == a[as_ - 1] && is_ascii_word_spec(
        b[bs - 1],
    ) {
        extend_left(b, a, bs - 1, as_ - 1)
    } else {
        (bs, as_)
    }
}

/// Moves both ends right over equal ASCII word characters.
pub open spec fn extend_right(b: Seq<char>, a: Seq<char>, be: int, ae: int) -> (int, int)
    decreases b.len() - be,
{
    if 0 <= be < b.len() && 0 <= ae < a.len() && b[be] == a[ae] && is_ascii_word_spec(b[be]) {
        extend_right(b, a, be + 1, ae + 1)
    } else {
        (be, ae)
    }
}

/// When both sides change ASCII word characters, the spans grow to whole
/// words: `(before_start, after_start, before_end, after_end)`.
pub open spec fn expand_ascii(
    b: Seq<char>,
    a: Seq<char>,
    bs: int,
    as_: int,
    be: int,
    ae: int,
) -> (int, int, int, int) {
    if !has_ascii_word_change_spec(b, bs, be) || !has_ascii_word_change_spec(a, as_, ae) {
        (bs, as_, be, ae)
    } else {
        let l = extend_left(b, a, bs, as_);
        let r = extend_right(b, a, be, ae);
        (l.0, l.1, r.0, r.1)
    }
}

proof fn lemma_extend_left(b: Seq<char>, a: Seq<char>, bs: int, as_: int)
    requires
        0 <= bs <= b.len(),
        0 <= as_ <= a.len(),
    ensures
        0 <= extend_left(b, a, bs, as_).0 <= bs,
        0 <= extend_left(b, a, bs, as_).1 <= as_,
        bs - extend_left(b, a, bs, as_).0 == as_ - extend_left(b, a, bs, as_).1,
    decreases bs,
{
    if 0 < bs && 0 < as_ && b[bs - 1] == a[as_ - 1] && is_ascii_word_spec(b[bs - 1]) {
        lemma_extend_left(b, a, bs - 1, as_ - 1);
    }
}

proof fn lemma_extend_right(b: Seq<char>, a: Seq<char>, be: int, ae: int)
    requires
        0 <= be <= b.len(),
        0 <= ae <= a.len(),
    ensures
        be <= extend_right(b, a, be, ae).0 <= b.len(),
        ae <= extend_right(b, a, be, ae).1 <= a.len(),
    decreases b.len() - be,
{
    if be < b.len() && ae < a.len() && b[be] == a[ae] && is_ascii_word_spec(b[be]) {
        lemma_extend_right(b, a, be + 1, ae + 1);
    }
}

/// Grows an ASCII word replacement to whole words on both sides.
pub fn expand_ascii_word_replacement(
    before: &Vec<char>,
    after: &Vec<char>,
    before_start: &mut usize,
    after_start: &mut usize,
    before_end: &mut usize,
    after_end: &mut usize,
)
    requires
        *old(before_start) <= *old(before_end) <= before.len(),
        *old(after_start) <= *old(after_end) <= after.len(),
    ensures
        (
            *final(before_start) as int,
            *final(after_start) as int,
            *final(before_end) as int,
            *final(after_end) as int,
        ) == expand_ascii(
            before@,
            after@,
            *old(before_start) as int,
            *old(after_start) as int,
            *old(before_end) as int,
            *old(after_end) as int,
        ),
        *final(before_start) <= *final(before_end) <= before.len(),
        *final(after_start) <= *final(after_end) <= after.len(),
{
    if !has_ascii_word_change(before, *before_start, *before_end) || !has_ascii_word_change(
        after,
        *after_start,
        *after_end,
    ) {
        return ;
    }
    let ghost bs0 = *before_start as int;
    let ghost as0 = *after_start as int;
    let ghost be0 = *before_end as int;
    let ghost ae0 = *after_end as int;
    proof {
        lemma_extend_left(before@, after@, bs0, as0);
        lemma_extend_right(before@, after@, be0, ae0);
    }
    while *before_start > 0 && *after_start > 0 && before[*before_start - 1] == after[*after_start
        - 1] && is_ascii_word_char(before[*before_start - 1])
        invariant
            *before_start <= bs0 <= before.len(),
            *after_start <= as0 <= after.len(),
            extend_left(before@, after@, bs0, as0) == extend_left(
                before@,
                after@,
                *before_start as int,
                *after_start as int,
            ),
        decreases *before_start,
    {
        *before_start = *before_start - 1;
        *after_start = *after_start - 1;
    }
    while *before_end < before.len() && *after_end < after.len() && before[*before_end]
        == after[*after_end] && is_ascii_word_char(before[*before_end])
        invariant
            be0 <= *before_end <= before.len(),
            ae0 <= *after_end <= after.len(),
            extend_right(before@, after@, be0, ae0) == extend_right(
                before@,
                after@,
                *before_end as int,
                *after_end as int,
            ),
        decreases before.len() - *before_end,
    {
        *before_end = *before_end + 1;
        *after_end = *after_end + 1;
    }
}

// ---------------------------------------------------------------------------
// Term normalisation
// ---------------------------------------------------------------------------

/// A term without surrounding white space and sentence punctuation.
pub open spec fn normalize_term_spec(s: Seq<char>) -> Seq<char> {
    trim_ws(trim_by(trim_ws(s), CharClass::BoundaryPunctuation))
}

/// Some character of `s` is alphanumeric or CJK.
pub open spec fn word_like(s: Seq<char>) -> bool {
    exists|i: int| 0 <= i < s.len() && (unicode_alphanumeric(s[i]) || is_cjk_spec(s[i]))
}

/// The pair of normalised terms, when it is a usable correction: both
/// non-empty, different, on one line, at most [`MAX_CORRECTION_CHARS`] long,
/// and each holding a letter, digit or CJK character.
pub open spec fn normalize_pair_spec(wrong: Seq<char>, corrected: Seq<char>) -> Option<
    (Seq<char>, Seq<char>),
> {
    let w = normalize_term_spec(wrong);
    let c = normalize_term_spec(corrected);
    if w.len() == 0 || c.len() == 0 || w == c || has_char(w, '\n') || has_char(c, '\n') || w.len()
        > MAX_CORRECTION_CHARS || c.len() > MAX_CORRECTION_CHARS || !word_like(w) || !word_like(
        c,
    ) {
        None
    } else {
        Some((w, c))
    }
}

/// Trims white space, then sentence punctuation, then white space.
pub fn normalize_term(text: &Vec<char>) -> (r: Vec<char>)
    ensures
        r@ == normalize_term_spec(text@),
{
    let a = trim_vec(text, CharClass::Whitespace);
    let b = trim_vec(&a, CharClass::BoundaryPunctuation);
    trim_vec(&b, CharClass::Whitespace)
}

/// Whether some character is alphanumeric or CJK.
pub fn has_word_like_char(text: &Vec<char>) -> (b: bool)
    ensures
        b == word_like(text@),
{
    let mut i: usize = 0;
    while i < text.len()
        invariant
            i <= text.len(),
            forall|j: int|
                0 <= j < i ==> !(unicode_alphanumeric(text@[j]) || is_cjk_spec(text@[j])),
        decreases text.len() - i,
    {
        if is_alphanumeric_char(text[i]) || is_cjk(text[i]) {
            return true;
        }
        i = i + 1;
    }
    false
}

/// A pair as the two sequences of its terms.
pub open spec fn pair_view(p: Option<CorrectionPair>) -> Option<(Seq<char>, Seq<char>)> {
    match p {
        Some(x) => Some((x.wrong@, x.corrected@)),
        None => None,
    }
}

/// Normalises both terms and keeps the pair only when it is a usable correction.
pub fn normalize_pair(wrong: &Vec<char>, corrected: &Vec<char>) -> (r: Option<CorrectionPair>)
    ensures
        pair_view(r) == normalize_pair_spec(wrong@, corrected@),
{
    let w = normalize_term(wrong);
    let c = normalize_term(corrected);
    if w.len() == 0 || c.len() == 0 || vec_eq(&w, &c) || vec_has_char(&w, '\n') || vec_has_char(
        &c,
        '\n',
    ) || w.len() > MAX_CORRECTION_CHARS || c.len() > MAX_CORRECTION_CHARS || !has_word_like_char(
        &w,
    ) || !has_word_like_char(&c) {
        return None;
    }
    Some(CorrectionPair::new(string_from_chars(&w), string_from_chars(&c)))
}

// ---------------------------------------------------------------------------
// Whole extraction
// ---------------------------------------------------------------------------

/// The correction a diff of two normalised texts yields.
pub open spec fn pair_from_script(b: Seq<char>, a: Seq<char>, ops: Seq<(EditTag, Seq<char>)>) -> Option<
    (Seq<char>, Seq<char>),
> {
    match changed_spans(ops) {
        None => None,
        Some(sp) => {
            let c = expand_cjk(b, a, sp.0, sp.2, sp.1, sp.3);
            let x = expand_ascii(b, a, c.0, c.1, sp.1, sp.3);
            normalize_pair_spec(b.subrange(x.0, x.2), a.subrange(x.1, x.3))
        },
    }
}

/// The correction an edit from `before` to `after` yields, given the diff of
/// their normalised forms.
pub open spec fn correction_from_edit(
    before: Seq<char>,
    after: Seq<char>,
    ops: Seq<(EditTag, Seq<char>)>,
) -> Option<(Seq<char>, Seq<char>)> {
    let b = normalize_snapshot(before);
    let a = normalize_snapshot(after);
    if b == a {
        None
    } else {
        pair_from_script(b, a, ops)
    }
}

/// The correction an edit from `before` to `after` yields.
pub open spec fn extracted_correction(before: Seq<char>, after: Seq<char>) -> Option<
    (Seq<char>, Seq<char>),
> {
    correction_from_edit(
        before,
        after,
        char_diff(normalize_snapshot(before), normalize_snapshot(after)),
    )
}

proof fn lemma_pair_from_script_bounds(b: Seq<char>, a: Seq<char>, ops: Seq<(EditTag, Seq<char>)>)
    requires
        valid_edit_script(ops, b, a),
    ensures
        changed_spans(ops) matches Some(sp) ==> 0 <= sp.0 <= sp.1 <= b.len() && 0 <= sp.2 <= sp.3
            <= a.len(),
{
    lemma_scan(ops, ops.len() as int);
}

/// Extracts the correction from normalised texts and their diff.
fn pair_from_normalized(
    b: &Vec<char>,
    a: &Vec<char>,
    steps: &Vec<(EditTag, String)>,
) -> (r: Option<CorrectionPair>)
    requires
        valid_edit_script(steps_view(steps@), b@, a@),
    ensures
        pair_view(r) == pair_from_script(b@, a@, steps_view(steps@)),
{
    proof {
        lemma_pair_from_script_bounds(b@, a@, steps_view(steps@));
    }
    let spans = changed_char_spans(steps, b, a);
    match spans {
        None => None,
        Some((bs, be, as_, ae)) => {
            let mut before_start = bs;
            let mut after_start = as_;
            let mut before_end = be;
            let mut after_end = ae;
            expand_cjk_single_char_replacement(
                b,
                a,
                &mut before_start,
                &mut after_start,
                before_end,
                after_end,
            );
            expand_ascii_word_replacement(
                b,
                a,
                &mut before_start,
                &mut after_start,
                &mut before_end,
                &mut after_end,
            );
            let wrong = slice_vec(b, before_start, before_end);
            let corrected = slice_vec(a, after_start, after_end);
            normalize_pair(&wrong, &corrected)
        },
    }
}

/// The correction an edit yields, given the character diff of the two
/// normalised texts (the result of `similar::TextDiff::from_chars` on them).
pub fn correction_pair_from_diff(
    before: &str,
    after: &str,
    steps: &Vec<(EditTag, String)>,
) -> (r: Option<CorrectionPair>)
    requires
        valid_edit_script(
            steps_view(steps@),
            normalize_snapshot(before@),
            normalize_snapshot(after@),
        ),
    ensures
        pair_view(r) == correction_from_edit(before@, after@, steps_view(steps@)),
{
    let b = normalize_text_snapshot(before);
    let a = normalize_text_snapshot(after);
    if vec_eq(&b, &a) {
        return None;
    }
    pair_from_normalized(&b, &a, steps)
}

/// The word-level correction an edit from `before` to `after` makes, if any:
/// the changed span, grown to whole terms, stripped of white space and
/// sentence punctuation.
pub fn extract_correction_pair(before: &str, after: &str) -> (r: Option<CorrectionPair>)
    ensures
        pair_view(r) == extracted_correction(before@, after@),
{
    let b = normalize_text_snapshot(before);
    let a = normalize_text_snapshot(after);
    if vec_eq(&b, &a) {
        return None;
    }
    let bs = string_from_chars(&b);
    let as_ = string_from_chars(&a);
    let steps = diff_chars(bs.as_str(), as_.as_str());
    pair_from_normalized(&b, &a, &steps)
}

/// Whether `wrong` → `corrected` is already a word-level pair: normalising it
/// keeps it, and changes nothing but surrounding white space.
pub fn is_word_level_correction_pair(wrong: &str, corrected: &str) -> (b: bool)
    ensures
        b == (match normalize_pair_spec(wrong@, corrected@) {
            Some(p) => p.0 == trim_ws(wrong@) && p.1 == trim_ws(corrected@),
            None => false,
        }),
{
    let w = chars_of(wrong);
    let c = chars_of(corrected);
    match normalize_pair(&w, &c) {
        Some(pair) => {
            let pw = chars_of(pair.wrong.as_str());
            let pc = chars_of(pair.corrected.as_str());
            let tw = trim_vec(&w, CharClass::Whitespace);
            let tc = trim_vec(&c, CharClass::Whitespace);
            vec_eq(&pw, &tw) && vec_eq(&pc, &tc)
        },
        None => false,
    }
}


/// Moving right stops at the first place where the two texts do not go on
/// with an equal ASCII word character, and passes only equal word
/// characters.
proof fn lemma_extend_right_is_maximal(b: Seq<char>, a: Seq<char>, be: int, ae: int)
    requires
        0 <= be <= b.len(),
        0 <= ae <= a.len(),
    ensures
        ({
            let r = extend_right(b, a, be, ae);
            &&& be <= r.0 <= b.len()
            &&& ae <= r.1 <= a.len()
            &&& r.0 - be == r.1 - ae
            &&& forall|j: int| be <= j < r.0 ==> #[trigger] b[j] == a[j - be + ae] && is_ascii_word_spec(b[j])
            &&& !(r.0 < b.len() && r.1 < a.len() && b[r.0] == a[r.1] && is_ascii_word_spec(b[r.0]))
        }),
    decreases b.len() - be,
{
    if be < b.len() && ae < a.len() && b[be] == a[ae] && is_ascii_word_spec(b[be]) {
        lemma_extend_right_is_maximal(b, a, be + 1, ae + 1);
    }
}

/// Moving left stops at the first place where the two texts are not
/// preceded by an equal ASCII word character, and passes only equal word
/// characters.
proof fn lemma_extend_left_is_maximal(b: Seq<char>, a: Seq<char>, bs: int, as_: int)
    requires
        0 <= bs <= b.len(),
        0 <= as_ <= a.len(),
    ensures
        ({
            let l = extend_left(b, a, bs, as_);
            &&& 0 <= l.0 <= bs
            &&& 0 <= l.1 <= as_
            &&& bs - l.0 == as_ - l.1
            &&& forall|j: int| l.0 <= j < bs ==> #[trigger] b[j] == a[j - l.0 + l.1] && is_ascii_word_spec(b[j])
            &&& !(0 < l.0 && 0 < l.1 && b[l.0 - 1] == a[l.1 - 1] && is_ascii_word_spec(b[l.0 - 1]))
        }),
    decreases bs,
{
    if 0 < bs && 0 < as_ && b[bs - 1] == a[as_ - 1] && is_ascii_word_spec(b[bs - 1]) {
        lemma_extend_left_is_maximal(b, a, bs - 1, as_ - 1);
    }
}

/// Law: when both changed spans hold ASCII word characters, they grow to
/// whole words: each end moves outward only over ASCII word characters the
/// two texts share, by the same amount on both sides, and stops where the
/// texts no longer share one, so that no shared word character is left just
/// before the new starts or just after the new ends.  Spans without such
/// characters on both sides are kept as they are.
pub proof fn lemma_ascii_spans_grow_to_whole_words(
    b: Seq<char>,
    a: Seq<char>,
    bs: int,
    as_: int,
    be: int,
    ae: int,
)
    requires
        0 <= bs <= be <= b.len(),
        0 <= as_ <= ae <= a.len(),
    ensures
        !(has_ascii_word_change_spec(b, bs, be) && has_ascii_word_change_spec(a, as_, ae)) ==> expand_ascii(
            b,
            a,
            bs,
            as_,
            be,
            ae,
        ) == (bs, as_, be, ae),
        has_ascii_word_change_spec(b, bs, be) && has_ascii_word_change_spec(a, as_, ae) ==> ({
            let r = expand_ascii(b, a, bs, as_, be, ae);
            &&& 0 <= r.0 <= bs && 0 <= r.1 <= as_ && bs - r.0 == as_ - r.1
            &&& be <= r.2 <= b.len() && ae <= r.3 <= a.len() && r.2 - be == r.3 - ae
            &&& forall|j: int| r.0 <= j < bs ==> #[trigger] b[j] == a[j - r.0 + r.1] && is_ascii_word_spec(b[j])
            &&& forall|j: int| be <= j < r.2 ==> #[trigger] b[j] == a[j - be + ae] && is_ascii_word_spec(b[j])
            &&& !(0 < r.0 && 0 < r.1 && b[r.0 - 1] == a[r.1 - 1] && is_ascii_word_spec(b[r.0 - 1]))
            &&& !(r.2 < b.len() && r.3 < a.len() && b[r.2] == a[r.3] && is_ascii_word_spec(b[r.2]))
        }),
{
    lemma_extend_left_is_maximal(b, a, bs, as_);
    lemma_extend_right_is_maximal(b, a, be, ae);
}

} // verus!
