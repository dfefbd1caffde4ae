//! Decisions of the observer that watches the focused text field after a
//! transcription was delivered, to learn corrections the user makes.
//!
//! The polling loop, its timers and the reads of the focused field are the
//! caller's; each read is handed to a step function here, which says what to
//! do next.
use vstd::prelude::*;

use super::diff::{extract_correction_pair, extracted_correction, pair_view};
use crate::text::{chars_of, is_ws, is_whitespace_char, seq_contains, string_from_chars, vec_contains, vec_eq};

verus! {

/// Shared context, in characters, that a quick edit must keep with the
/// delivered text.
pub const DIRECT_EDIT_MIN_COMMON_CONTEXT_CHARS: usize = 6;

/// Identical reads in a row after which an edit counts as stable.
pub const REQUIRED_STABLE_READS: u8 = 2;

/// State of the white-space collapsing scan after `n` characters: the text
/// so far and whether a separator is pending.
pub open spec fn collapse_scan(s: Seq<char>, n: int) -> (Seq<char>, bool)
    decreases n,
{
    if n <= 0 {
        (Seq::empty(), false)
    } else {
        let st = collapse_scan(s, n - 1);
        let c = s[n - 1];
        if is_ws(c) {
            (st.0, st.0.len() > 0)
        } else if st.1 {
            (st.0.push(' ').push(c), false)
        } else {
            (st.0.push(c), false)
        }
    }
}

/// The words of `s` joined by single spaces
/// (`split_whitespace().collect::<Vec<_>>().join(" ")`).
pub open spec fn collapse_ws(s: Seq<char>) -> Seq<char> {
    collapse_scan(s, s.len() as int).0
}

/// Joins the white-space separated words of `text` with single spaces.
pub fn normalize_for_containment(text: &str) -> (r: Vec<char>)
    ensures
        r@ == collapse_ws(text@),
{
    let s = chars_of(text);
    let mut out: Vec<char> = Vec::new();
    let mut pending = false;
    let mut i: usize = 0;
    while i < s.len()
        invariant
            s@ == text@,
            i <= s.len(),
            collapse_scan(s@, i as int) == (out@, pending),
        decreases s.len() - i,
    {
        let c = s[i];
        if is_whitespace_char(c) {
            pending = out.len() > 0;
        } else {
            if pending {
                out.push(' ');
                pending = false;
            }
            out.push(c);
        }
        i = i + 1;
    }
    out
}

/// The delivered text, words normalised, appears in the snapshot.
pub open spec fn snapshot_contains_delivery_spec(snapshot: Seq<char>, delivered: Seq<char>) -> bool {
    let s = collapse_ws(snapshot);
    let d = collapse_ws(delivered);
    d.len() > 0 && (s == d || seq_contains(s, d))
}

/// Whether the focused text still holds the delivered text.
pub fn snapshot_contains_delivery(snapshot: &str, delivered_text: &str) -> (b: bool)
    ensures
        b == snapshot_contains_delivery_spec(snapshot@, delivered_text@),
{
    let s = normalize_for_containment(snapshot);
    let d = normalize_for_containment(delivered_text);
    d.len() > 0 && (vec_eq(&s, &d) || vec_contains(&s, &d))
}

/// Length of the common prefix of `l` and `r` from index `p` on.
pub open spec fn common_prefix_from(l: Seq<char>, r: Seq<char>, p: int) -> int
    decreases l.len() - p,
{
    if 0 <= p < l.len() && p < r.len() && l[p] == r[p] {
        common_prefix_from(l, r, p + 1)
    } else {
        p
    }
}

/// Length of the common suffix of `l` and `r`, from `s` on, that does not
/// reach into a prefix of length `prefix`.
pub open spec fn common_suffix_from(l: Seq<char>, r: Seq<char>, prefix: int, s: int) -> int
    decreases l.len() - s,
{
    if 0 <= prefix && 0 <= s && s < l.len() - prefix && s < r.len() - prefix && l[l.len() - 1 - s] == r[r.len()
        - 1 - s] {
        common_suffix_from(l, r, prefix, s + 1)
    } else {
        s
    }
}

/// Characters the two texts share at their start plus at their end.
pub open spec fn common_affix(l: Seq<char>, r: Seq<char>) -> int {
    let p = common_prefix_from(l, r, 0);
    p + common_suffix_from(l, r, p, 0)
}

/// Characters `left` and `right` share at their start plus at their end,
/// never counting a character twice.
pub fn common_affix_chars(left: &Vec<char>, right: &Vec<char>) -> (n: usize)
    ensures
        n == common_affix(left@, right@),
        n <= left.len(),
        n <= right.len(),
{
    let mut prefix: usize = 0;
    while prefix < left.len() && prefix < right.len() && left[prefix] == right[prefix]
        invariant
            prefix <= left.len(),
            prefix <= right.len(),
            common_prefix_from(left@, right@, 0) == common_prefix_from(left@, right@, prefix as int),
        decreases left.len() - prefix,
    {
        prefix = prefix + 1;
    }
    let mut suffix: usize = 0;
    while suffix < left.len() - prefix && suffix < right.len() - prefix && left[left.len() - 1
        - suffix] == right[right.len() - 1 - suffix]
        invariant
            prefix <= left.len(),
            prefix <= right.len(),
            suffix <= left.len() - prefix,
            suffix <= right.len() - prefix,
            common_prefix_from(left@, right@, 0) == prefix,
            common_suffix_from(left@, right@, prefix as int, 0) == common_suffix_from(
                left@,
                right@,
                prefix as int,
                suffix as int,
            ),
        decreases left.len() - suffix,
    {
        suffix = suffix + 1;
    }
    prefix + suffix
}

/// The snapshot looks like the delivered text with a correction made in
/// place: both non-empty and different, a correction can be extracted, and
/// enough context around it is unchanged.
pub open spec fn looks_like_direct_edit_spec(delivered: Seq<char>, snapshot: Seq<char>) -> bool {
    let d = collapse_ws(delivered);
    let s = collapse_ws(snapshot);
    if d == s || d.len() == 0 || s.len() == 0 {
        false
    } else if extracted_correction(d, s) is None {
        false
    } else {
        let c = common_affix(d, s);
        let m = if d.len() <= s.len() {
            d.len() as int
        } else {
            s.len() as int
        };
        c >= DIRECT_EDIT_MIN_COMMON_CONTEXT_CHARS || c * 2 >= m
    }
}

/// Whether a snapshot read right after delivery already holds the user's
/// correction of the delivered text.
pub fn looks_like_direct_edit(delivered_text: &str, snapshot: &str) -> (b: bool)
    ensures
        b == looks_like_direct_edit_spec(delivered_text@, snapshot@),
{
    let d = normalize_for_containment(delivered_text);
    let s = normalize_for_containment(snapshot);
    if vec_eq(&d, &s) || d.len() == 0 || s.len() == 0 {
        return false;
    }
    let ds = string_from_chars(&d);
    let ss = string_from_chars(&s);
    let pair = extract_correction_pair(ds.as_str(), ss.as_str());
    if pair.is_none() {
        assert(pair_view(pair) is None);
        return false;
    }
    let common_context = common_affix_chars(&d, &s);
    let min_len = if d.len() <= s.len() {
        d.len()
    } else {
        s.len()
    };
    common_context >= DIRECT_EDIT_MIN_COMMON_CONTEXT_CHARS || common_context as u128 * 2 >= min_len as u128
}

// ---------------------------------------------------------------------------
// The observer as a state machine
// ---------------------------------------------------------------------------

/// What one read of the focused field while waiting for a baseline means.
#[derive(Debug)]
pub enum BaselineDecision {
    /// The field holds the delivered text: watch it from this snapshot on.
    Baseline(String),
    /// The field already holds a corrected version: learn from it and stop.
    QuickEdit(String),
    /// The field holds something else: read again.
    Unrelated,
    /// The field could not be read: read again.
    Unavailable,
}

/// Classifies one read while waiting for the baseline.
pub fn baseline_decision(delivered_text: &str, read: Option<String>) -> (d: BaselineDecision)
    ensures
        match read {
            None => d is Unavailable,
            Some(snapshot) => if snapshot_contains_delivery_spec(snapshot@, delivered_text@) {
                d matches BaselineDecision::Baseline(s) && s@ == snapshot@
            } else if looks_like_direct_edit_spec(delivered_text@, snapshot@) {
                d matches BaselineDecision::QuickEdit(s) && s@ == snapshot@
            } else {
                d is Unrelated
            },
        },
{
    match read {
        None => BaselineDecision::Unavailable,
        Some(snapshot) => {
            if snapshot_contains_delivery(snapshot.as_str(), delivered_text) {
                BaselineDecision::Baseline(snapshot)
            } else if looks_like_direct_edit(delivered_text, snapshot.as_str()) {
                BaselineDecision::QuickEdit(snapshot)
            } else {
                BaselineDecision::Unrelated
            }
        },
    }
}

/// What to do after one read while watching the field.
#[derive(Debug)]
pub enum ObserveAction {
    /// The field can no longer be read: stop watching.
    Stop,
    /// Keep watching.
    Continue,
    /// The edit to this text is stable: learn from baseline to it, then stop.
    Learn(String),
}

/// Memory of the watch: the last text that differed from the baseline, and
/// how many reads in a row returned it.
#[derive(Debug)]
pub struct ObserveState {
    pub last_candidate: Option<String>,
    pub stable_reads: u8,
}

/// A candidate as its characters.
pub open spec fn candidate_view(c: Option<String>) -> Option<Seq<char>> {
    match c {
        Some(s) => Some(s@),
        None => None,
    }
}

/// Identical reads in a row after reading `current`, a text that differs
/// from the baseline (the count saturates at 255).
pub open spec fn next_stable_reads(st: ObserveState, current: Seq<char>) -> u8 {
    if candidate_view(st.last_candidate) == Some(current) {
        if st.stable_reads == 255 {
            255
        } else {
            (st.stable_reads + 1) as u8
        }
    } else {
        1
    }
}

impl ObserveState {
    /// The state before the first read.
    pub fn new() -> (s: Self)
        ensures
            s.last_candidate is None,
            s.stable_reads == 0,
    {
        ObserveState { last_candidate: None, stable_reads: 0 }
    }

    /// Takes one read of the field: an unreadable field stops the watch, the
    /// baseline text resets it, and the same changed text read
    /// [`REQUIRED_STABLE_READS`] times in a row is learned.
    pub fn step(&mut self, baseline: &str, read: Option<String>) -> (a: ObserveAction)
        ensures
            match read {
                None => a is Stop && *final(self) == *old(self),
                Some(current) => if current@ == baseline@ {
                    a is Continue && final(self).last_candidate is None && final(self).stable_reads
                        == 0
                } else {
                    let stable = next_stable_reads(*old(self), current@);
                    &&& candidate_view(final(self).last_candidate) == Some(current@)
                    &&& final(self).stable_reads == stable
                    &&& if stable < REQUIRED_STABLE_READS {
                        a is Continue
                    } else {
                        a matches ObserveAction::Learn(t) && t@ == current@
                    }
                },
            },
    {
        match read {
            None => ObserveAction::Stop,
            Some(current) => {
                let base = chars_of(baseline);
                let cur = chars_of(current.as_str());
                if vec_eq(&cur, &base) {
                    self.last_candidate = None;
                    self.stable_reads = 0;
                    return ObserveAction::Continue;
                }
                let same = match &self.last_candidate {
                    Some(last) => {
                        let l = chars_of(last.as_str());
                        vec_eq(&l, &cur)
                    },
                    None => false,
                };
                if same {
                    if self.stable_reads < 255 {
                        self.stable_reads = self.stable_reads + 1;
                    }
                } else {
                    self.last_candidate = Some(current.clone());
                    self.stable_reads = 1;
                }
                if self.stable_reads < REQUIRED_STABLE_READS {
                    ObserveAction::Continue
                } else {
                    ObserveAction::Learn(current)
                }
            },
        }
    }
}

/// Law: the watch learns an edit only after reading the same text, different
/// from the baseline, at least twice in a row: a step that reaches
/// [`REQUIRED_STABLE_READS`] starts from a state whose last candidate was that
/// same text, already read at least once.
pub proof fn lemma_learn_needs_two_identical_reads(before: ObserveState, current: Seq<char>)
    requires
        next_stable_reads(before, current) >= REQUIRED_STABLE_READS,
    ensures
        candidate_view(before.last_candidate) == Some(current),
        before.stable_reads >= 1,
{
}

} // verus!
