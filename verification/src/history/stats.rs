//! Usage figures computed from the history: output units of a text, and
//! streaks of active days.  Days are numbered in the user's calendar, one
//! apart for consecutive days.
use vstd::prelude::*;

use crate::text::{chars_of, is_alphanumeric_char, is_whitespace_char, is_ws, unicode_alphanumeric};

verus! {

/// CJK ideographs, each counted as one output unit.
pub open spec fn is_cjk_ideograph_spec(c: char) -> bool {
    let u = c as u32;
    (0x3400 <= u && u <= 0x4DBF) || (0x4E00 <= u && u <= 0x9FFF) || (0xF900 <= u && u <= 0xFAFF) || (
    0x20000 <= u && u <= 0x2A6DF) || (0x2A700 <= u && u <= 0x2B73F) || (0x2B740 <= u && u <= 0x2B81F)
        || (0x2B820 <= u && u <= 0x2CEAF) || (0x2CEB0 <= u && u <= 0x2EBEF) || (0x30000 <= u && u
        <= 0x3134F)
}

/// Whether a character is a CJK ideograph.
pub fn is_cjk_ideograph(c: char) -> (b: bool)
    ensures
        b == is_cjk_ideograph_spec(c),
{
    let u = c as u32;
    (0x3400 <= u && u <= 0x4DBF) || (0x4E00 <= u && u <= 0x9FFF) || (0xF900 <= u && u <= 0xFAFF) || (
    0x20000 <= u && u <= 0x2A6DF) || (0x2A700 <= u && u <= 0x2B73F) || (0x2B740 <= u && u <= 0x2B81F)
        || (0x2B820 <= u && u <= 0x2CEAF) || (0x2CEB0 <= u && u <= 0x2EBEF) || (0x30000 <= u && u
        <= 0x3134F)
}

/// The output units among the first `n` characters, and whether the `n`-th
/// character ends inside a word: each CJK ideograph is a unit, and so is
/// each run of other alphanumeric characters.
pub open spec fn units_scan(s: Seq<char>, n: int) -> (int, bool)
    decreases n,
{
    if n <= 0 {
        (0, false)
    } else {
        let (u, in_word) = units_scan(s, n - 1);
        let c = s[n - 1];
        if is_ws(c) {
            (u, false)
        } else if is_cjk_ideograph_spec(c) {
            (u + 1, false)
        } else if unicode_alphanumeric(c) {
            if in_word {
                (u, true)
            } else {
                (u + 1, true)
            }
        } else {
            (u, false)
        }
    }
}

/// The output units of a text.
pub open spec fn output_units_spec(s: Seq<char>) -> int {
    units_scan(s, s.len() as int).0
}

proof fn lemma_units_bounded(s: Seq<char>, n: int)
    requires
        0 <= n <= s.len(),
    ensures
        0 <= units_scan(s, n).0 <= n,
    decreases n,
{
    if n > 0 {
        lemma_units_bounded(s, n - 1);
    }
}

/// A language-neutral size of a text: CJK ideographs one unit each, runs of
/// other letters and digits one unit each.
pub fn approximate_output_units(text: &str) -> (units: i64)
    requires
        text@.len() <= i64::MAX,
    ensures
        units == output_units_spec(text@),
{
    let chars = chars_of(text);
    let mut units: i64 = 0;
    let mut in_word = false;
    let mut i: usize = 0;
    while i < chars.len()
        invariant
            chars@ == text@,
            text@.len() <= i64::MAX,
            i <= chars@.len(),
            (units as int, in_word) == units_scan(text@, i as int),
        decreases chars.len() - i,
    {
        proof {
            lemma_units_bounded(text@, i as int);
        }
        let ch = chars[i];
        if is_whitespace_char(ch) {
            in_word = false;
        } else if is_cjk_ideograph(ch) {
            units = units + 1;
            in_word = false;
        } else if is_alphanumeric_char(ch) {
            if !in_word {
                units = units + 1;
                in_word = true;
            }
        } else {
            in_word = false;
        }
        i = i + 1;
    }
    units
}

// ---------------------------------------------------------------------------
// Streaks of active days
// ---------------------------------------------------------------------------

/// Strictly increasing day numbers: a set of days in order.
pub open spec fn strictly_increasing(d: Seq<i64>) -> bool {
    forall|i: int, j: int| 0 <= i < j < d.len() ==> d[i] < d[j]
}

/// The length of the run of consecutive days that ends at position `i`.
pub open spec fn run_at(d: Seq<i64>, i: int) -> int
    decreases i,
{
    if i > 0 && d[i] == d[i - 1] + 1 {
        run_at(d, i - 1) + 1
    } else {
        1
    }
}

/// The longest run among the first `n` positions (0 when `n` is 0).
pub open spec fn longest_run(d: Seq<i64>, n: int) -> int
    decreases n,
{
    if n <= 0 {
        0
    } else {
        let m = longest_run(d, n - 1);
        if run_at(d, n - 1) > m {
            run_at(d, n - 1)
        } else {
            m
        }
    }
}

/// The current and longest streaks: the current streak is the run ending
/// at the latest active day, unless that day is before yesterday.
pub open spec fn streaks_spec(d: Seq<i64>, today: i64) -> (int, int) {
    if d.len() == 0 {
        (0, 0)
    } else {
        let last = d.len() - 1;
        (if d[last] < today - 1 {
            0
        } else {
            run_at(d, last)
        }, longest_run(d, d.len() as int))
    }
}

proof fn lemma_run_bounded(d: Seq<i64>, i: int)
    requires
        0 <= i < d.len(),
    ensures
        1 <= run_at(d, i) <= i + 1,
    decreases i,
{
    if i > 0 && d[i] == d[i - 1] + 1 {
        lemma_run_bounded(d, i - 1);
    }
}

proof fn lemma_longest_bounded(d: Seq<i64>, n: int)
    requires
        0 <= n <= d.len(),
    ensures
        0 <= longest_run(d, n) <= n,
        n > 0 ==> longest_run(d, n) >= 1,
    decreases n,
{
    if n > 0 {
        lemma_longest_bounded(d, n - 1);
        lemma_run_bounded(d, n - 1);
    }
}

/// The current and longest streaks of active days, from the active days in
/// increasing order.
pub fn calculate_streaks(active_days: &Vec<i64>, today: i64) -> (r: (i64, i64))
    requires
        strictly_increasing(active_days@),
        today > i64::MIN,
        active_days@.len() < i64::MAX,
    ensures
        (r.0 as int, r.1 as int) == streaks_spec(active_days@, today),
{
    let n = active_days.len();
    if n == 0 {
        return (0, 0);
    }
    let ghost d = active_days@;
    let mut longest: i64 = 1;
    let mut current_run: i64 = 1;
    let mut i: usize = 1;
    assert(run_at(d, 0) == 1);
    assert(longest_run(d, 1) == 1) by {
        assert(longest_run(d, 0) == 0);
    }
    while i < n
        invariant
            d == active_days@,
            n == d.len(),
            n < i64::MAX,
            strictly_increasing(d),
            1 <= i <= n,
            current_run as int == run_at(d, i - 1),
            longest as int == longest_run(d, i as int),
        decreases n - i,
    {
        proof {
            lemma_run_bounded(d, i - 1);
        }
        assert(d[i - 1] < d[i as int]);
        if active_days[i] == active_days[i - 1] + 1 {
            current_run = current_run + 1;
            if current_run > longest {
                longest = current_run;
            }
        } else {
            current_run = 1;
            if current_run > longest {
                longest = current_run;
            }
        }
        proof {
            lemma_longest_bounded(d, i as int);
        }
        i = i + 1;
    }
    let latest = active_days[n - 1];
    if latest < today - 1 {
        return (0, longest);
    }
    (current_run, longest)
}

/// Whether `x` is one of the active days.
pub open spec fn is_active_day(d: Seq<i64>, x: int) -> bool {
    exists|k: int| 0 <= k < d.len() && d[k] == x
}

/// Whether the day `j` days before the one at position `i` is active.
pub open spec fn active_days_back(d: Seq<i64>, i: int, j: int) -> bool {
    is_active_day(d, d[i] - j)
}

/// Law: a run counts exactly the consecutive active days that end at its
/// last day: each of the days back from it within the run is active, and
/// the day before the run is not.  The current streak is the run that ends
/// at the latest active day.
pub proof fn lemma_streak_is_consecutive_days(d: Seq<i64>, i: int)
    requires
        strictly_increasing(d),
        0 <= i < d.len(),
    ensures
        forall|j: int| 0 <= j < run_at(d, i) ==> #[trigger] active_days_back(d, i, j),
        !active_days_back(d, i, run_at(d, i)),
    decreases i,
{
    if i > 0 && d[i] == d[i - 1] + 1 {
        lemma_streak_is_consecutive_days(d, i - 1);
        assert forall|j: int| 0 <= j < run_at(d, i) implies #[trigger] active_days_back(d, i, j) by {
            if j == 0 {
                assert(d[i] == d[i] - j);
            } else {
                assert(d[i] - j == d[i - 1] - (j - 1));
                assert(active_days_back(d, i - 1, j - 1));
            }
        }
        assert(d[i] - run_at(d, i) == d[i - 1] - run_at(d, i - 1));
    } else {
        assert(d[i] == d[i] - 0);
        if is_active_day(d, d[i] - 1) {
            let k = choose|k: int| 0 <= k < d.len() && d[k] == d[i] - 1;
            if k < i {
                if k < i - 1 {
                    assert(d[k] < d[i - 1]);
                }
                assert(d[i - 1] < d[i]);
            } else {
                assert(d[i] <= d[k]);
            }
        }
    }
}

} // verus!
