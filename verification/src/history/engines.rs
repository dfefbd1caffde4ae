//! Usage of each transcription engine over the whole history: how often it
//! ran and how long it took on average, the busiest engine first.
use vstd::prelude::*;

use crate::history::dashboard::{
    average, average_spec, one_if, one_if_present, present, sum_over, sums_fit, DashboardEntry,
};
use crate::history::EngineUsage;
use crate::text::{chars_of, copy_string, str_eq};

verus! {

/// Whether `a` comes before `b` from position `i` on, in the order of
/// strings: the first differing character decides by its code point, and a
/// string that ends first comes first.
pub open spec fn name_less_from(a: Seq<char>, b: Seq<char>, i: int) -> bool
    decreases a.len() - i,
{
    if i >= a.len() {
        i < b.len()
    } else if i >= b.len() {
        false
    } else if a[i] != b[i] {
        (a[i] as u32) < (b[i] as u32)
    } else {
        name_less_from(a, b, i + 1)
    }
}

/// Whether name `a` comes before name `b`.
pub open spec fn name_less(a: Seq<char>, b: Seq<char>) -> bool {
    name_less_from(a, b, 0)
}

/// No name comes before itself.
pub proof fn lemma_name_less_irreflexive(a: Seq<char>, i: int)
    ensures
        !name_less_from(a, a, i),
    decreases a.len() - i,
{
    if 0 <= i < a.len() {
        lemma_name_less_irreflexive(a, i + 1);
    } else if i < 0 && i < a.len() {
        lemma_name_less_irreflexive(a, i + 1);
    }
}

/// Of two names, at most one comes first.
pub proof fn lemma_name_less_asymmetric(a: Seq<char>, b: Seq<char>, i: int)
    requires
        name_less_from(a, b, i),
    ensures
        !name_less_from(b, a, i),
    decreases a.len() - i,
{
    if i < a.len() && i < b.len() && a[i] == b[i] {
        lemma_name_less_asymmetric(a, b, i + 1);
    }
}

/// The order of names is transitive.
pub proof fn lemma_name_less_transitive(a: Seq<char>, b: Seq<char>, c: Seq<char>, i: int)
    requires
        name_less_from(a, b, i),
        name_less_from(b, c, i),
    ensures
        name_less_from(a, c, i),
    decreases a.len() - i,
{
    if i < a.len() && i < b.len() && i < c.len() && a[i] == b[i] && b[i] == c[i] {
        lemma_name_less_transitive(a, b, c, i + 1);
    }
}

/// Two names neither of which comes first agree from position `i` on.
pub proof fn lemma_name_less_total(a: Seq<char>, b: Seq<char>, i: int)
    requires
        0 <= i <= a.len(),
        i <= b.len(),
        !name_less_from(a, b, i),
        !name_less_from(b, a, i),
    ensures
        a.len() == b.len(),
        forall|j: int| i <= j < a.len() ==> a[j] == b[j],
    decreases a.len() - i,
{
    if i < a.len() && i < b.len() {
        vstd::utf8::char_u32_cast(a[i], a[i] as u32);
        vstd::utf8::char_u32_cast(b[i], b[i] as u32);
        lemma_name_less_total(a, b, i + 1);
    }
}

/// Of two different names, one comes first.
pub proof fn lemma_distinct_names_ordered(a: Seq<char>, b: Seq<char>)
    requires
        a != b,
    ensures
        name_less(a, b) || name_less(b, a),
{
    if !name_less(a, b) && !name_less(b, a) {
        lemma_name_less_total(a, b, 0);
        assert(a =~= b);
    }
}

/// Whether name `a` comes before name `b`.
fn name_less_exec(a: &str, b: &str) -> (r: bool)
    ensures
        r == name_less(a@, b@),
{
    let x = chars_of(a);
    let y = chars_of(b);
    let mut i: usize = 0;
    loop
        invariant
            x@ == a@,
            y@ == b@,
            i <= x.len(),
            i <= y.len(),
            name_less_from(x@, y@, 0) == name_less_from(x@, y@, i as int),
        decreases x.len() - i,
    {
        if i >= x.len() {
            return i < y.len();
        }
        if i >= y.len() {
            return false;
        }
        if x[i] != y[i] {
            return (x[i] as u32) < (y[i] as u32);
        }
        i = i + 1;
    }
}


/// Whether usage `a` is listed before usage `b`: more runs first, and among
/// engines with as many runs, by name.
pub open spec fn usage_before(a: EngineUsage, b: EngineUsage) -> bool {
    a.count > b.count || (a.count == b.count && name_less(a.engine@, b.engine@))
}

/// Whether a list of usages is in listing order.
pub open spec fn usages_sorted(v: Seq<EngineUsage>) -> bool {
    forall|i: int, j: int| 0 <= i < j < v.len() ==> usage_before(#[trigger] v[i], #[trigger] v[j])
}

/// Runs of the named engine.
pub open spec fn runs_of(name: Seq<char>) -> spec_fn(DashboardEntry) -> int {
    |x: DashboardEntry| one_if(x.stt_engine@ == name)
}

/// Transcription time of a run of the named engine.
pub open spec fn stt_time_of(name: Seq<char>) -> spec_fn(DashboardEntry) -> int {
    |x: DashboardEntry| if x.stt_engine@ == name { present(x.stt_duration_ms) } else { 0 }
}

/// Runs of the named engine whose transcription time is known.
pub open spec fn timed_runs_of(name: Seq<char>) -> spec_fn(DashboardEntry) -> int {
    |x: DashboardEntry| if x.stt_engine@ == name { one_if_present(x.stt_duration_ms) } else { 0 }
}

/// The usage figures of one engine over all records.
pub open spec fn engine_usage_of(e: Seq<DashboardEntry>, u: EngineUsage) -> bool {
    let n = e.len() as int;
    &&& u.count == sum_over(e, n, runs_of(u.engine@))
    &&& u.avg_stt_ms == average_spec(
        sum_over(e, n, stt_time_of(u.engine@)),
        sum_over(e, n, timed_runs_of(u.engine@)),
    )
}

/// Whether a list of usages has an entry for the named engine.
pub open spec fn lists_engine(v: Seq<EngineUsage>, name: Seq<char>) -> bool {
    exists|j: int| 0 <= j < v.len() && (#[trigger] v[j]).engine@ == name
}

/// Whether one of the first `m` names is `name`.
pub open spec fn names_have(names: Seq<String>, m: int, name: Seq<char>) -> bool {
    exists|i: int| 0 <= i < m && (#[trigger] names[i])@ == name
}

/// Whether a record ran the named engine.
pub open spec fn records_have(e: Seq<DashboardEntry>, name: Seq<char>) -> bool {
    exists|k: int| 0 <= k < e.len() && (#[trigger] e[k]).stt_engine@ == name
}

/// The usage of every engine that ran: one entry per engine, each with its
/// figures, in listing order.
pub open spec fn engine_usage_spec(e: Seq<DashboardEntry>, v: Seq<EngineUsage>) -> bool {
    &&& forall|j: int| 0 <= j < v.len() ==> engine_usage_of(e, #[trigger] v[j]) && v[j].count > 0
    &&& forall|k: int| 0 <= k < e.len() ==> lists_engine(v, (#[trigger] e[k]).stt_engine@)
    &&& usages_sorted(v)
}

/// A run of the named engine counts.
proof fn lemma_runs_counted(e: Seq<DashboardEntry>, n: int, name: Seq<char>, k: int)
    requires
        0 <= k < n <= e.len(),
        e[k].stt_engine@ == name,
    ensures
        sum_over(e, n, runs_of(name)) >= 1,
    decreases n,
{
    lemma_runs_nonnegative(e, n - 1, name);
    if k < n - 1 {
        lemma_runs_counted(e, n - 1, name, k);
    }
}

/// Counts of runs are not negative.
proof fn lemma_runs_nonnegative(e: Seq<DashboardEntry>, n: int, name: Seq<char>)
    ensures
        sum_over(e, n, runs_of(name)) >= 0,
    decreases n,
{
    if n > 0 {
        lemma_runs_nonnegative(e, n - 1, name);
    }
}

/// The listing order is transitive.
proof fn lemma_usage_before_transitive(a: EngineUsage, b: EngineUsage, c: EngineUsage)
    requires
        usage_before(a, b),
        usage_before(b, c),
    ensures
        usage_before(a, c),
{
    if a.count == b.count && b.count == c.count {
        lemma_name_less_transitive(a.engine@, b.engine@, c.engine@, 0);
    }
}

/// Of two usages of different engines, one is listed first.
proof fn lemma_usage_before_total(a: EngineUsage, b: EngineUsage)
    requires
        a.engine@ != b.engine@,
        !usage_before(a, b),
    ensures
        usage_before(b, a),
{
    lemma_distinct_names_ordered(a.engine@, b.engine@);
}

/// Whether usage `a` is listed before usage `b`.
fn usage_before_exec(a: &EngineUsage, b: &EngineUsage) -> (r: bool)
    ensures
        r == usage_before(*a, *b),
{
    if a.count != b.count {
        a.count > b.count
    } else {
        name_less_exec(a.engine.as_str(), b.engine.as_str())
    }
}

/// The usage figures of the named engine.
fn usage_of_engine(entries: &Vec<DashboardEntry>, name: &String) -> (u: EngineUsage)
    requires
        entries@.len() < i64::MAX,
        sums_fit(entries@, stt_time_of(name@)),
    ensures
        u.engine@ == name@,
        engine_usage_of(entries@, u),
{
    let ghost e = entries@;
    let mut count: i64 = 0;
    let mut stt_sum: i64 = 0;
    let mut stt_count: i64 = 0;
    let mut i: usize = 0;
    while i < entries.len()
        invariant
            e == entries@,
            e.len() < i64::MAX,
            sums_fit(e, stt_time_of(name@)),
            i <= e.len(),
            0 <= count <= i,
            0 <= stt_count <= i,
            count == sum_over(e, i as int, runs_of(name@)),
            stt_sum == sum_over(e, i as int, stt_time_of(name@)),
            stt_count == sum_over(e, i as int, timed_runs_of(name@)),
        decreases e.len() - i,
    {
        let ghost x = e[i as int];
        assert(sum_over(e, i + 1, stt_time_of(name@)) == sum_over(e, i as int, stt_time_of(name@))
            + stt_time_of(name@)(x));
        assert(i64::MIN <= sum_over(e, i + 1, stt_time_of(name@)) <= i64::MAX);
        let entry = &entries[i];
        if str_eq(entry.stt_engine.as_str(), name.as_str()) {
            count = count + 1;
            match entry.stt_duration_ms {
                Some(ms) => {
                    stt_sum = stt_sum + ms;
                    stt_count = stt_count + 1;
                },
                None => {},
            }
        }
        i = i + 1;
    }
    EngineUsage { engine: copy_string(name), count, avg_stt_ms: average(stt_sum, stt_count) }
}


/// Whether a list of names has no repeats.
pub open spec fn names_distinct(names: Seq<String>) -> bool {
    forall|i: int, j: int| 0 <= i < j < names.len() ==> (#[trigger] names[i])@ != (#[trigger] names[j])@
}

/// Whether `name` is among the names.
fn has_name(names: &Vec<String>, name: &String) -> (b: bool)
    ensures
        b == names_have(names@, names@.len() as int, name@),
{
    let mut i: usize = 0;
    while i < names.len()
        invariant
            i <= names@.len(),
            !names_have(names@, i as int, name@),
        decreases names.len() - i,
    {
        if str_eq(names[i].as_str(), name.as_str()) {
            assert(names@[i as int]@ == name@);
            return true;
        }
        i = i + 1;
    }
    false
}

/// The engines that ran, each once, in the order they first ran.
fn engine_names(entries: &Vec<DashboardEntry>) -> (names: Vec<String>)
    ensures
        names_distinct(names@),
        forall|i: int| 0 <= i < names@.len() ==> records_have(entries@, (#[trigger] names@[i])@),
        forall|k: int| 0 <= k < entries@.len() ==> names_have(
            names@,
            names@.len() as int,
            (#[trigger] entries@[k]).stt_engine@,
        ),
{
    let ghost e = entries@;
    let mut names: Vec<String> = Vec::new();
    let mut i: usize = 0;
    while i < entries.len()
        invariant
            e == entries@,
            i <= e.len(),
            names_distinct(names@),
            forall|j: int| 0 <= j < names@.len() ==> records_have(e, (#[trigger] names@[j])@),
            forall|k: int| 0 <= k < i ==> names_have(names@, names@.len() as int, (#[trigger] e[k]).stt_engine@),
        decreases e.len() - i,
    {
        let name = &entries[i].stt_engine;
        if !has_name(&names, name) {
            let ghost before = names@;
            names.push(copy_string(name));
            proof {
                assert forall|a: int, b: int| 0 <= a < b < names@.len() implies (#[trigger] names@[a])@
                    != (#[trigger] names@[b])@ by {
                    if b == before.len() {
                        if names@[a]@ == name@ {
                            assert(before[a]@ == name@);
                        }
                    } else {
                        assert(names@[a] == before[a] && names@[b] == before[b]);
                    }
                }
                assert forall|j: int| 0 <= j < names@.len() implies records_have(e, (#[trigger] names@[j])@) by {
                    if j < before.len() {
                        assert(names@[j] == before[j]);
                    } else {
                        assert(e[i as int].stt_engine@ == names@[j]@);
                    }
                }
                assert forall|k: int| 0 <= k <= i implies names_have(
                    names@,
                    names@.len() as int,
                    (#[trigger] e[k]).stt_engine@,
                ) by {
                    if k < i {
                        let w = choose|w: int| 0 <= w < before.len() && (#[trigger] before[w])@ == e[k].stt_engine@;
                        assert(names@[w] == before[w]);
                    } else {
                        assert(names@[before.len() as int]@ == e[k].stt_engine@);
                    }
                }
            }
        }
        i = i + 1;
    }
    names
}

/// Puts a usage in its place in a list kept in listing order.
fn insert_usage(out: &mut Vec<EngineUsage>, u: EngineUsage)
    requires
        usages_sorted(old(out)@),
        !lists_engine(old(out)@, u.engine@),
    ensures
        usages_sorted(final(out)@),
        exists|p: int| 0 <= p <= old(out)@.len() && final(out)@ == old(out)@.insert(p, u),
{
    let mut p: usize = 0;
    while p < out.len()
        invariant
            p <= out@.len(),
            out@ == old(out)@,
            usages_sorted(out@),
            !lists_engine(out@, u.engine@),
            forall|j: int| 0 <= j < p ==> usage_before(#[trigger] out@[j], u),
        ensures
            p <= out@.len(),
            out@ == old(out)@,
            forall|j: int| 0 <= j < p ==> usage_before(#[trigger] out@[j], u),
            p < out@.len() ==> usage_before(u, out@[p as int]),
        decreases out.len() - p,
    {
        if usage_before_exec(&u, &out[p]) {
            break;
        }
        proof {
            assert(out@[p as int].engine@ != u.engine@);
            lemma_usage_before_total(u, out@[p as int]);
        }
        p = p + 1;
    }
    let ghost before = out@;
    proof {
        assert forall|j: int| p <= j < before.len() implies usage_before(u, #[trigger] before[j]) by {
            assert(usage_before(u, before[p as int]));
            if j > p {
                assert(usage_before(before[p as int], before[j]));
                lemma_usage_before_transitive(u, before[p as int], before[j]);
            }
        }
    }
    out.insert(p, u);
    proof {
        assert(out@ == before.insert(p as int, u));
        assert forall|a: int, b: int| 0 <= a < b < out@.len() implies usage_before(
            #[trigger] out@[a],
            #[trigger] out@[b],
        ) by {
            if b < p {
                assert(out@[a] == before[a] && out@[b] == before[b]);
            } else if b == p {
                assert(out@[a] == before[a]);
            } else if a == p {
                assert(out@[b] == before[b - 1]);
            } else if a < p {
                assert(out@[a] == before[a] && out@[b] == before[b - 1]);
            } else {
                assert(out@[a] == before[a - 1] && out@[b] == before[b - 1]);
            }
        }
    }
}


/// The usage of every engine that ran: how many records each made and the
/// average of their known transcription times (rounded toward zero), the
/// engine with the most records first and engines with as many by name.
pub fn build_engine_usage(entries: &Vec<DashboardEntry>) -> (v: Vec<EngineUsage>)
    requires
        entries@.len() < i64::MAX,
        forall|name: Seq<char>| #[trigger] sums_fit(entries@, stt_time_of(name)),
    ensures
        engine_usage_spec(entries@, v@),
{
    let ghost e = entries@;
    let names = engine_names(entries);
    let mut out: Vec<EngineUsage> = Vec::new();
    let mut m: usize = 0;
    while m < names.len()
        invariant
            e == entries@,
            e.len() < i64::MAX,
            forall|name: Seq<char>| #[trigger] sums_fit(e, stt_time_of(name)),
            names_distinct(names@),
            forall|i: int| 0 <= i < names@.len() ==> records_have(e, (#[trigger] names@[i])@),
            forall|k: int| 0 <= k < e.len() ==> names_have(names@, names@.len() as int, (#[trigger] e[k]).stt_engine@),
            m <= names@.len(),
            usages_sorted(out@),
            forall|j: int| 0 <= j < out@.len() ==> engine_usage_of(e, #[trigger] out@[j]) && out@[j].count > 0,
            forall|j: int| 0 <= j < out@.len() ==> names_have(names@, m as int, (#[trigger] out@[j]).engine@),
            forall|i: int| 0 <= i < m ==> lists_engine(out@, (#[trigger] names@[i])@),
        decreases names.len() - m,
    {
        let name = &names[m];
        assert(sums_fit(e, stt_time_of(name@)));
        let u = usage_of_engine(entries, name);
        proof {
            let k = choose|k: int| 0 <= k < e.len() && (#[trigger] e[k]).stt_engine@ == name@;
            lemma_runs_counted(e, e.len() as int, name@, k);
            if lists_engine(out@, u.engine@) {
                let j = choose|j: int| 0 <= j < out@.len() && (#[trigger] out@[j]).engine@ == u.engine@;
                let w = choose|w: int| 0 <= w < m && (#[trigger] names@[w])@ == out@[j].engine@;
                assert(names@[w]@ != names@[m as int]@);
            }
        }
        let ghost before = out@;
        insert_usage(&mut out, u);
        proof {
            let p = choose|p: int| 0 <= p <= before.len() && out@ == before.insert(p, u);
            assert forall|j: int| 0 <= j < out@.len() implies engine_usage_of(e, #[trigger] out@[j])
                && out@[j].count > 0 && names_have(names@, m + 1, out@[j].engine@) by {
                if j < p {
                    assert(out@[j] == before[j]);
                    let w = choose|w: int| 0 <= w < m && (#[trigger] names@[w])@ == before[j].engine@;
                    assert(names@[w]@ == out@[j].engine@);
                } else if j == p {
                    assert(names@[m as int]@ == out@[j].engine@);
                } else {
                    assert(out@[j] == before[j - 1]);
                    let w = choose|w: int| 0 <= w < m && (#[trigger] names@[w])@ == before[j - 1].engine@;
                    assert(names@[w]@ == out@[j].engine@);
                }
            }
            assert forall|i: int| 0 <= i <= m implies lists_engine(out@, (#[trigger] names@[i])@) by {
                if i < m {
                    let j = choose|j: int| 0 <= j < before.len() && (#[trigger] before[j]).engine@ == names@[i]@;
                    if j < p {
                        assert(out@[j] == before[j]);
                    } else {
                        assert(out@[j + 1] == before[j]);
                    }
                } else {
                    assert(out@[p].engine@ == names@[i]@);
                }
            }
        }
        m = m + 1;
    }
    proof {
        assert forall|k: int| 0 <= k < e.len() implies lists_engine(out@, (#[trigger] e[k]).stt_engine@) by {
            let i = choose|i: int| 0 <= i < names@.len() && (#[trigger] names@[i])@ == e[k].stt_engine@;
            assert(lists_engine(out@, names@[i]@));
        }
    }
    out
}


/// Law: the usage of the engines lists every engine that ran exactly once.
pub proof fn lemma_each_engine_listed_once(e: Seq<DashboardEntry>, v: Seq<EngineUsage>)
    requires
        engine_usage_spec(e, v),
    ensures
        forall|i: int, j: int| 0 <= i < j < v.len() ==> (#[trigger] v[i]).engine@ != (#[trigger] v[j]).engine@,
{
    assert forall|i: int, j: int| 0 <= i < j < v.len() implies (#[trigger] v[i]).engine@
        != (#[trigger] v[j]).engine@ by {
        assert(usage_before(v[i], v[j]));
        assert(engine_usage_of(e, v[i]) && engine_usage_of(e, v[j]));
        if v[i].engine@ == v[j].engine@ {
            lemma_name_less_irreflexive(v[i].engine@, 0);
        }
    }
}

} // verus!
