//! The dashboard's figures over the whole history.  Each record is read with
//! the day it was made on, in the user's calendar.
use vstd::prelude::*;

use crate::history::stats::{
    approximate_output_units, calculate_streaks, output_units_spec, streaks_spec, strictly_increasing,
};

verus! {

/// What the dashboard reads of a record.
#[derive(Debug)]
pub struct DashboardEntry {
    /// The record's day; consecutive days are one apart.
    pub local_day: i64,
    pub final_text: String,
    pub audio_duration_ms: Option<i64>,
    pub stt_duration_ms: Option<i64>,
    pub polish_applied: bool,
    pub is_cloud: bool,
    pub stt_engine: String,
}

/// The dashboard's figures.  The average of output units per record is the
/// caller's to compute from `total_output_units` and `total_count`.
#[derive(Debug)]
pub struct DashboardTotals {
    pub total_count: i64,
    pub today_count: i64,
    pub total_chars: i64,
    pub total_output_units: i64,
    pub total_audio_ms: i64,
    pub avg_stt_ms: Option<i64>,
    pub avg_audio_ms: Option<i64>,
    pub local_count: i64,
    pub cloud_count: i64,
    pub polish_count: i64,
    pub active_days: i64,
    pub current_streak_days: i64,
    pub longest_streak_days: i64,
    pub last_7_days_count: i64,
    pub last_7_days_audio_ms: i64,
    pub last_7_days_output_units: i64,
}

/// The sum of `f` over the first `n` records.
pub open spec fn sum_over(e: Seq<DashboardEntry>, n: int, f: spec_fn(DashboardEntry) -> int) -> int
    decreases n,
{
    if n <= 0 {
        0
    } else {
        sum_over(e, n - 1, f) + f(e[n - 1])
    }
}

/// A value counted only when present.
pub open spec fn present(o: Option<i64>) -> int {
    match o {
        Some(v) => v as int,
        None => 0,
    }
}

/// One when present.
pub open spec fn one_if_present(o: Option<i64>) -> int {
    if o is Some {
        1
    } else {
        0
    }
}

/// One when the condition holds.
pub open spec fn one_if(b: bool) -> int {
    if b {
        1
    } else {
        0
    }
}

/// Whether a record falls within the last seven days, today included.
pub open spec fn in_last_week(x: DashboardEntry, today: i64) -> bool {
    x.local_day >= today - 6
}

/// Characters of a record.
pub open spec fn chars_of_entry() -> spec_fn(DashboardEntry) -> int {
    |x: DashboardEntry| x.final_text@.len() as int
}

/// Output units of a record.
pub open spec fn units_of_entry() -> spec_fn(DashboardEntry) -> int {
    |x: DashboardEntry| output_units_spec(x.final_text@)
}

/// Audio time of a record.
pub open spec fn audio_of_entry() -> spec_fn(DashboardEntry) -> int {
    |x: DashboardEntry| present(x.audio_duration_ms)
}

/// Transcription time of a record.
pub open spec fn stt_of_entry() -> spec_fn(DashboardEntry) -> int {
    |x: DashboardEntry| present(x.stt_duration_ms)
}

/// Audio time of a record of the last seven days.
pub open spec fn week_audio_of_entry(today: i64) -> spec_fn(DashboardEntry) -> int {
    |x: DashboardEntry| if in_last_week(x, today) { present(x.audio_duration_ms) } else { 0 }
}

/// Output units of a record of the last seven days.
pub open spec fn week_units_of_entry(today: i64) -> spec_fn(DashboardEntry) -> int {
    |x: DashboardEntry| if in_last_week(x, today) { output_units_spec(x.final_text@) } else { 0 }
}

/// Every partial sum of `f` fits an `i64`.
pub open spec fn sums_fit(e: Seq<DashboardEntry>, f: spec_fn(DashboardEntry) -> int) -> bool {
    forall|n: int| 0 <= n <= e.len() ==> i64::MIN <= #[trigger] sum_over(e, n, f) <= i64::MAX
}

/// Integer division rounded toward zero, as Rust divides.
pub open spec fn div_toward_zero(a: int, b: int) -> int {
    if a >= 0 {
        a / b
    } else {
        -((-a) / b)
    }
}

/// The average of a total over a count, when there is something to count.
pub open spec fn average_spec(total: int, count: int) -> Option<i64> {
    if count > 0 {
        Some(div_toward_zero(total, count) as i64)
    } else {
        None
    }
}

/// The days that have a record.
pub open spec fn has_record_on(e: Seq<DashboardEntry>, n: int, day: i64) -> bool {
    exists|k: int| 0 <= k < n && #[trigger] e[k].local_day == day
}

/// The active days in order: strictly increasing, and exactly the days that
/// have a record.
pub open spec fn active_days_of(e: Seq<DashboardEntry>, d: Seq<i64>) -> bool {
    &&& strictly_increasing(d)
    &&& forall|day: i64| d.contains(day) <==> has_record_on(e, e.len() as int, day)
}

/// The dashboard's figures.
pub open spec fn dashboard_spec(e: Seq<DashboardEntry>, today: i64, t: DashboardTotals) -> bool {
    let n = e.len() as int;
    &&& t.total_count == n
    &&& t.today_count == sum_over(e, n, |x: DashboardEntry| one_if(x.local_day == today))
    &&& t.total_chars == sum_over(e, n, chars_of_entry())
    &&& t.total_output_units == sum_over(e, n, units_of_entry())
    &&& t.total_audio_ms == sum_over(e, n, audio_of_entry())
    &&& t.avg_stt_ms == average_spec(
        sum_over(e, n, stt_of_entry()),
        sum_over(e, n, |x: DashboardEntry| one_if_present(x.stt_duration_ms)),
    )
    &&& t.avg_audio_ms == average_spec(
        sum_over(e, n, audio_of_entry()),
        sum_over(e, n, |x: DashboardEntry| one_if_present(x.audio_duration_ms)),
    )
    &&& t.cloud_count == sum_over(e, n, |x: DashboardEntry| one_if(x.is_cloud))
    &&& t.local_count == n - t.cloud_count
    &&& t.polish_count == sum_over(e, n, |x: DashboardEntry| one_if(x.polish_applied))
    &&& t.last_7_days_count == sum_over(e, n, |x: DashboardEntry| one_if(in_last_week(x, today)))
    &&& t.last_7_days_audio_ms == sum_over(e, n, week_audio_of_entry(today))
    &&& t.last_7_days_output_units == sum_over(e, n, week_units_of_entry(today))
    &&& exists|d: Seq<i64>|
        active_days_of(e, d) && t.active_days == d.len() && (
        t.current_streak_days as int,
        t.longest_streak_days as int,
    ) == #[trigger] streaks_spec(d, today)
}

/// Adds a day to the active days, keeping them in order without repeats.
fn insert_day(days: &mut Vec<i64>, day: i64)
    requires
        strictly_increasing(old(days)@),
    ensures
        strictly_increasing(final(days)@),
        forall|x: i64| final(days)@.contains(x) <==> (old(days)@.contains(x) || x == day),
        final(days)@.len() <= old(days)@.len() + 1,
{
    let mut i: usize = 0;
    while i < days.len() && days[i] < day
        invariant
            i <= days@.len(),
            strictly_increasing(days@),
            forall|j: int| 0 <= j < i ==> days@[j] < day,
        decreases days.len() - i,
    {
        i = i + 1;
    }
    if i < days.len() && days[i] == day {
        return;
    }
    let ghost before = days@;
    days.insert(i, day);
    proof {
        assert(days@ == before.insert(i as int, day));
        assert forall|a: int, b: int| 0 <= a < b < days@.len() implies days@[a] < days@[b] by {
            if b < i {
            } else if a < i && b == i {
            } else if a < i {
                assert(days@[b] == before[b - 1]);
                if a < b - 1 {
                    assert(before[a] < before[b - 1]);
                }
            } else if a == i {
                assert(days@[b] == before[b - 1]);
                assert(before[i as int] > day);
                if b - 1 > i {
                    assert(before[i as int] < before[b - 1]);
                }
            } else {
                assert(days@[a] == before[a - 1]);
                assert(days@[b] == before[b - 1]);
            }
        }
        assert forall|x: i64| days@.contains(x) <==> (before.contains(x) || x == day) by {
            if days@.contains(x) {
                let k = choose|k: int| 0 <= k < days@.len() && days@[k] == x;
                if k < i {
                    assert(before[k] == x);
                } else if k > i {
                    assert(before[k - 1] == x);
                }
            }
            if before.contains(x) {
                let k = choose|k: int| 0 <= k < before.len() && before[k] == x;
                if k < i {
                    assert(days@[k] == x);
                } else {
                    assert(days@[k + 1] == x);
                }
            }
            if x == day {
                assert(days@[i as int] == day);
            }
        }
    }
}

/// The average, rounded toward zero.
pub(crate) fn average(total: i64, count: i64) -> (r: Option<i64>)
    requires
        count >= 0,
    ensures
        r == average_spec(total as int, count as int),
{
    if count > 0 {
        let t = total as i128;
        let c = count as i128;
        let q = if t >= 0 {
            assert(0 <= (t as int) / (c as int) <= t as int) by (nonlinear_arith)
                requires
                    t >= 0,
                    c >= 1,
            ;
            t / c
        } else {
            let u = -t;
            assert(0 <= (u as int) / (c as int) <= u as int) by (nonlinear_arith)
                requires
                    u >= 0,
                    c >= 1,
            ;
            -(u / c)
        };
        Some(q as i64)
    } else {
        None
    }
}

/// Computes the dashboard's figures from every record, as of `today`.
#[verifier::rlimit(40)]
pub fn build_dashboard_stats(entries: &Vec<DashboardEntry>, today: i64) -> (t: DashboardTotals)
    requires
        entries@.len() < i64::MAX,
        today > i64::MIN + 6,
        forall|k: int| 0 <= k < entries@.len() ==> #[trigger] entries@[k].final_text@.len() <= i64::MAX,
        sums_fit(entries@, chars_of_entry()),
        sums_fit(entries@, units_of_entry()),
        sums_fit(entries@, audio_of_entry()),
        sums_fit(entries@, stt_of_entry()),
        sums_fit(entries@, week_audio_of_entry(today)),
        sums_fit(entries@, week_units_of_entry(today)),
    ensures
        dashboard_spec(entries@, today, t),
{
    let ghost e = entries@;
    let last_7_cutoff = today - 6;
    let mut total_chars: i64 = 0;
    let mut total_output_units: i64 = 0;
    let mut total_audio_ms: i64 = 0;
    let mut audio_count: i64 = 0;
    let mut total_stt_ms: i64 = 0;
    let mut stt_count: i64 = 0;
    let mut today_count: i64 = 0;
    let mut cloud_count: i64 = 0;
    let mut polish_count: i64 = 0;
    let mut last_7_days_count: i64 = 0;
    let mut last_7_days_audio_ms: i64 = 0;
    let mut last_7_days_output_units: i64 = 0;
    let mut days: Vec<i64> = Vec::new();
    let mut i: usize = 0;
    while i < entries.len()
        invariant
            e == entries@,
            e.len() < i64::MAX,
            today > i64::MIN + 6,
            last_7_cutoff == today - 6,
            forall|k: int| 0 <= k < e.len() ==> #[trigger] e[k].final_text@.len() <= i64::MAX,
            sums_fit(e, chars_of_entry()),
            sums_fit(e, units_of_entry()),
            sums_fit(e, audio_of_entry()),
            sums_fit(e, stt_of_entry()),
            sums_fit(e, week_audio_of_entry(today)),
            sums_fit(e, week_units_of_entry(today)),
            i <= e.len(),
            total_chars == sum_over(e, i as int, chars_of_entry()),
            total_output_units == sum_over(e, i as int, units_of_entry()),
            total_audio_ms == sum_over(e, i as int, audio_of_entry()),
            total_stt_ms == sum_over(e, i as int, stt_of_entry()),
            audio_count == sum_over(e, i as int, |x: DashboardEntry| one_if_present(x.audio_duration_ms)),
            stt_count == sum_over(e, i as int, |x: DashboardEntry| one_if_present(x.stt_duration_ms)),
            today_count == sum_over(e, i as int, |x: DashboardEntry| one_if(x.local_day == today)),
            cloud_count == sum_over(e, i as int, |x: DashboardEntry| one_if(x.is_cloud)),
            polish_count == sum_over(e, i as int, |x: DashboardEntry| one_if(x.polish_applied)),
            last_7_days_count == sum_over(e, i as int, |x: DashboardEntry| one_if(in_last_week(x, today))),
            last_7_days_audio_ms == sum_over(e, i as int, week_audio_of_entry(today)),
            last_7_days_output_units == sum_over(e, i as int, week_units_of_entry(today)),
            0 <= audio_count <= i,
            0 <= stt_count <= i,
            0 <= today_count <= i,
            0 <= cloud_count <= i,
            0 <= polish_count <= i,
            0 <= last_7_days_count <= i,
            strictly_increasing(days@),
            days@.len() <= i,
            forall|day: i64| days@.contains(day) <==> has_record_on(e, i as int, day),
        decreases e.len() - i,
    {
        let entry = &entries[i];
        let ghost x = e[i as int];
        assert(sum_over(e, i + 1, chars_of_entry()) == sum_over(e, i as int, chars_of_entry())
            + chars_of_entry()(x));
        assert(sum_over(e, i + 1, units_of_entry()) == sum_over(e, i as int, units_of_entry())
            + units_of_entry()(x));
        assert(sum_over(e, i + 1, audio_of_entry()) == sum_over(e, i as int, audio_of_entry())
            + audio_of_entry()(x));
        assert(sum_over(e, i + 1, stt_of_entry()) == sum_over(e, i as int, stt_of_entry()) + stt_of_entry()(x));
        assert(sum_over(e, i + 1, week_audio_of_entry(today)) == sum_over(e, i as int, week_audio_of_entry(today))
            + week_audio_of_entry(today)(x));
        assert(sum_over(e, i + 1, week_units_of_entry(today)) == sum_over(e, i as int, week_units_of_entry(today))
            + week_units_of_entry(today)(x));
        assert(i64::MIN <= sum_over(e, i + 1, chars_of_entry()) <= i64::MAX);
        assert(i64::MIN <= sum_over(e, i + 1, units_of_entry()) <= i64::MAX);
        assert(i64::MIN <= sum_over(e, i + 1, audio_of_entry()) <= i64::MAX);
        assert(i64::MIN <= sum_over(e, i + 1, stt_of_entry()) <= i64::MAX);
        assert(i64::MIN <= sum_over(e, i + 1, week_audio_of_entry(today)) <= i64::MAX);
        assert(i64::MIN <= sum_over(e, i + 1, week_units_of_entry(today)) <= i64::MAX);
        let output_units = approximate_output_units(entry.final_text.as_str());
        let char_count = entry.final_text.as_str().unicode_len() as i64;
        total_chars = total_chars + char_count;
        total_output_units = total_output_units + output_units;
        if entry.local_day == today {
            today_count = today_count + 1;
        }
        let recent = entry.local_day >= last_7_cutoff;
        if recent {
            last_7_days_count = last_7_days_count + 1;
            last_7_days_output_units = last_7_days_output_units + output_units;
        }
        match entry.audio_duration_ms {
            Some(audio_ms) => {
                total_audio_ms = total_audio_ms + audio_ms;
                audio_count = audio_count + 1;
                if recent {
                    last_7_days_audio_ms = last_7_days_audio_ms + audio_ms;
                }
            },
            None => {},
        }
        match entry.stt_duration_ms {
            Some(stt_ms) => {
                total_stt_ms = total_stt_ms + stt_ms;
                stt_count = stt_count + 1;
            },
            None => {},
        }
        if entry.is_cloud {
            cloud_count = cloud_count + 1;
        }
        if entry.polish_applied {
            polish_count = polish_count + 1;
        }
        let ghost days_before = days@;
        insert_day(&mut days, entry.local_day);
        proof {
            assert forall|day: i64| days@.contains(day) <==> has_record_on(e, i + 1, day) by {
                if has_record_on(e, i + 1, day) && day != x.local_day {
                    let k = choose|k: int| 0 <= k < i + 1 && #[trigger] e[k].local_day == day;
                    assert(has_record_on(e, i as int, day));
                }
                if has_record_on(e, i as int, day) {
                    let k = choose|k: int| 0 <= k < i && #[trigger] e[k].local_day == day;
                    assert(e[k].local_day == day);
                }
                if day == x.local_day {
                    assert(e[i as int].local_day == day);
                }
            }
        }
        i = i + 1;
    }
    let total_count = entries.len() as i64;
    let (current_streak_days, longest_streak_days) = calculate_streaks(&days, today);
    let t = DashboardTotals {
        total_count,
        today_count,
        total_chars,
        total_output_units,
        total_audio_ms,
        avg_stt_ms: average(total_stt_ms, stt_count),
        avg_audio_ms: average(total_audio_ms, audio_count),
        local_count: total_count - cloud_count,
        cloud_count,
        polish_count,
        active_days: days.len() as i64,
        current_streak_days,
        longest_streak_days,
        last_7_days_count,
        last_7_days_audio_ms,
        last_7_days_output_units,
    };
    assert(active_days_of(e, days@));
    t
}

/// One day of usage, for charting.
#[derive(Debug)]
pub struct DayUsage {
    pub day: i64,
    pub count: i64,
    pub audio_ms: i64,
    pub output_units: i64,
}

/// Audio time of a record made on `day`.
pub open spec fn day_audio_of_entry(day: i64) -> spec_fn(DashboardEntry) -> int {
    |x: DashboardEntry| if x.local_day == day { present(x.audio_duration_ms) } else { 0 }
}

/// Output units of a record made on `day`.
pub open spec fn day_units_of_entry(day: i64) -> spec_fn(DashboardEntry) -> int {
    |x: DashboardEntry| if x.local_day == day { output_units_spec(x.final_text@) } else { 0 }
}

/// The usage of one day.
pub open spec fn day_usage_spec(e: Seq<DashboardEntry>, day: i64, u: DayUsage) -> bool {
    &&& u.day == day
    &&& u.count == sum_over(e, e.len() as int, |x: DashboardEntry| one_if(x.local_day == day))
    &&& u.audio_ms == sum_over(e, e.len() as int, day_audio_of_entry(day))
    &&& u.output_units == sum_over(e, e.len() as int, day_units_of_entry(day))
}

/// The usage of one day.
fn usage_on(entries: &Vec<DashboardEntry>, day: i64) -> (u: DayUsage)
    requires
        entries@.len() < i64::MAX,
        forall|k: int| 0 <= k < entries@.len() ==> #[trigger] entries@[k].final_text@.len() <= i64::MAX,
        sums_fit(entries@, day_audio_of_entry(day)),
        sums_fit(entries@, day_units_of_entry(day)),
    ensures
        day_usage_spec(entries@, day, u),
{
    let ghost e = entries@;
    let mut count: i64 = 0;
    let mut audio_ms: i64 = 0;
    let mut output_units: i64 = 0;
    let mut i: usize = 0;
    while i < entries.len()
        invariant
            e == entries@,
            e.len() < i64::MAX,
            forall|k: int| 0 <= k < e.len() ==> #[trigger] e[k].final_text@.len() <= i64::MAX,
            sums_fit(e, day_audio_of_entry(day)),
            sums_fit(e, day_units_of_entry(day)),
            i <= e.len(),
            0 <= count <= i,
            count == sum_over(e, i as int, |x: DashboardEntry| one_if(x.local_day == day)),
            audio_ms == sum_over(e, i as int, day_audio_of_entry(day)),
            output_units == sum_over(e, i as int, day_units_of_entry(day)),
        decreases e.len() - i,
    {
        let ghost x = e[i as int];
        assert(sum_over(e, i + 1, day_audio_of_entry(day)) == sum_over(e, i as int, day_audio_of_entry(day))
            + day_audio_of_entry(day)(x));
        assert(sum_over(e, i + 1, day_units_of_entry(day)) == sum_over(e, i as int, day_units_of_entry(day))
            + day_units_of_entry(day)(x));
        assert(i64::MIN <= sum_over(e, i + 1, day_audio_of_entry(day)) <= i64::MAX);
        assert(i64::MIN <= sum_over(e, i + 1, day_units_of_entry(day)) <= i64::MAX);
        let entry = &entries[i];
        if entry.local_day == day {
            count = count + 1;
            match entry.audio_duration_ms {
                Some(a) => {
                    audio_ms = audio_ms + a;
                },
                None => {},
            }
            output_units = output_units + approximate_output_units(entry.final_text.as_str());
        }
        i = i + 1;
    }
    DayUsage { day, count, audio_ms, output_units }
}

/// The usage of each of the last `range` days, oldest first, today last;
/// days without records count zero.
pub fn build_daily_usage(entries: &Vec<DashboardEntry>, range: u32, today: i64) -> (v: Vec<DayUsage>)
    requires
        entries@.len() < i64::MAX,
        today - range >= i64::MIN,
        forall|k: int| 0 <= k < entries@.len() ==> #[trigger] entries@[k].final_text@.len() <= i64::MAX,
        forall|d: i64| #[trigger] sums_fit(entries@, day_audio_of_entry(d)) && sums_fit(entries@, day_units_of_entry(d)),
    ensures
        v@.len() == range,
        forall|j: int| 0 <= j < range ==> day_usage_spec(entries@, (today - (range - 1 - j)) as i64, #[trigger] v@[j]),
{
    let mut v: Vec<DayUsage> = Vec::new();
    let mut j: u32 = 0;
    while j < range
        invariant
            entries@.len() < i64::MAX,
            today - range >= i64::MIN,
            forall|k: int| 0 <= k < entries@.len() ==> #[trigger] entries@[k].final_text@.len() <= i64::MAX,
            forall|d: i64| #[trigger] sums_fit(entries@, day_audio_of_entry(d)) && sums_fit(entries@, day_units_of_entry(d)),
            j <= range,
            v@.len() == j,
            forall|m: int| 0 <= m < j ==> day_usage_spec(entries@, (today - (range - 1 - m)) as i64, #[trigger] v@[m]),
        decreases range - j,
    {
        let back: i64 = (range - 1 - j) as i64;
        let day = today - back;
        assert(sums_fit(entries@, day_audio_of_entry(day)) && sums_fit(entries@, day_units_of_entry(day)));
        v.push(usage_on(entries, day));
        j = j + 1;
    }
    v
}

/// Law: of the records counted, those of today are among those of the last
/// seven days, which are among all records.
pub proof fn lemma_today_within_last_week(e: Seq<DashboardEntry>, n: int, today: i64)
    requires
        0 <= n <= e.len(),
    ensures
        sum_over(e, n, |x: DashboardEntry| one_if(x.local_day == today)) <= sum_over(
            e,
            n,
            |x: DashboardEntry| one_if(in_last_week(x, today)),
        ) <= n,
        0 <= sum_over(e, n, |x: DashboardEntry| one_if(x.local_day == today)),
    decreases n,
{
    if n > 0 {
        lemma_today_within_last_week(e, n - 1, today);
    }
}

} // verus!
