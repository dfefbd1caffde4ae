//! The query that lists history records for a filter: its SQL text and its
//! parameters, in placeholder order.  Running it is the store's work.
use vstd::prelude::*;

use crate::history::HistoryFilter;
use crate::text::{append_str, owned, str_eq};

verus! {

/// The columns and table every listing reads.
pub const HISTORY_SELECT: &'static str = "SELECT id, created_at, raw_text, final_text, stt_engine, stt_model, language, audio_duration_ms, stt_duration_ms, polish_duration_ms, total_duration_ms, polish_applied, polish_engine, is_cloud FROM transcription_history WHERE 1=1";

/// Records listed when the filter sets no limit.
pub const DEFAULT_HISTORY_LIMIT: i64 = 50;

/// A query parameter.
#[derive(Debug, Clone, PartialEq, Eq)]
pub enum QueryParam {
    Text(String),
    Int(i64),
}

/// A query parameter as a value.
pub enum ParamView {
    Text(Seq<char>),
    Int(i64),
}

/// The view of a parameter.
pub open spec fn param_view(p: QueryParam) -> ParamView {
    match p {
        QueryParam::Text(s) => ParamView::Text(s@),
        QueryParam::Int(n) => ParamView::Int(n),
    }
}

/// The views of parameters.
pub open spec fn params_view(v: Seq<QueryParam>) -> Seq<ParamView> {
    v.map_values(|p: QueryParam| param_view(p))
}

/// The placeholder of the `k`-th parameter (a query has at most six).
pub open spec fn placeholder(k: int) -> Seq<char> {
    if k == 1 {
        "?1"@
    } else if k == 2 {
        "?2"@
    } else if k == 3 {
        "?3"@
    } else if k == 4 {
        "?4"@
    } else if k == 5 {
        "?5"@
    } else {
        "?6"@
    }
}

/// A clause that binds the `k`-th parameter when `p` is present, with the
/// number of the next parameter.
pub open spec fn bound_clause(text: Seq<char>, p: Option<ParamView>, k: int) -> (Seq<char>, Seq<ParamView>, int) {
    match p {
        Some(v) => (text + placeholder(k), seq![v], k + 1),
        None => (Seq::empty(), Seq::empty(), k),
    }
}

/// The listing query of a filter: a search in the final text, an engine
/// (`local` and `cloud` select by where the transcription ran; any other
/// value names the engine), a time range, newest first, at most `limit`
/// records (50 by default) after skipping `offset`.
pub open spec fn history_query_spec(f: HistoryFilter) -> (Seq<char>, Seq<ParamView>) {
    let c1 = bound_clause(
        " AND final_text LIKE "@,
        match f.search {
            Some(s) => Some(ParamView::Text("%"@ + s@ + "%"@)),
            None => None,
        },
        1,
    );
    let c2 = match f.engine {
        Some(e) => if e@ == "local"@ {
            (" AND is_cloud = 0"@, Seq::<ParamView>::empty(), c1.2)
        } else if e@ == "cloud"@ {
            (" AND is_cloud = 1"@, Seq::<ParamView>::empty(), c1.2)
        } else {
            bound_clause(" AND stt_engine = "@, Some(ParamView::Text(e@)), c1.2)
        },
        None => (Seq::<char>::empty(), Seq::<ParamView>::empty(), c1.2),
    };
    let c3 = bound_clause(
        " AND created_at >= "@,
        match f.date_from {
            Some(d) => Some(ParamView::Int(d)),
            None => None,
        },
        c2.2,
    );
    let c4 = bound_clause(
        " AND created_at <= "@,
        match f.date_to {
            Some(d) => Some(ParamView::Int(d)),
            None => None,
        },
        c3.2,
    );
    let c5 = bound_clause(
        " LIMIT "@,
        Some(
            ParamView::Int(
                match f.limit {
                    Some(l) => l,
                    None => DEFAULT_HISTORY_LIMIT,
                },
            ),
        ),
        c4.2,
    );
    let c6 = bound_clause(
        " OFFSET "@,
        match f.offset {
            Some(o) => Some(ParamView::Int(o)),
            None => None,
        },
        c5.2,
    );
    (
        HISTORY_SELECT@ + c1.0 + c2.0 + c3.0 + c4.0 + " ORDER BY created_at DESC"@ + c5.0 + c6.0,
        c1.1 + c2.1 + c3.1 + c4.1 + c5.1 + c6.1,
    )
}

/// The placeholder of the `k`-th parameter.
fn placeholder_str(k: u8) -> (s: &'static str)
    requires
        1 <= k <= 6,
    ensures
        s@ == placeholder(k as int),
{
    if k == 1 {
        "?1"
    } else if k == 2 {
        "?2"
    } else if k == 3 {
        "?3"
    } else if k == 4 {
        "?4"
    } else if k == 5 {
        "?5"
    } else {
        "?6"
    }
}

/// Appends a clause that binds a parameter, when there is one.
fn push_bound(sql: &mut String, params: &mut Vec<QueryParam>, k: u8, text: &str, param: Option<QueryParam>) -> (next: u8)
    requires
        1 <= k <= 6,
    ensures
        (final(sql)@, params_view(final(params)@), next as int) == (
            old(sql)@ + bound_clause(
                text@,
                match param {
                    Some(p) => Some(param_view(p)),
                    None => None,
                },
                k as int,
            ).0,
            params_view(old(params)@) + bound_clause(
                text@,
                match param {
                    Some(p) => Some(param_view(p)),
                    None => None,
                },
                k as int,
            ).1,
            bound_clause(
                text@,
                match param {
                    Some(p) => Some(param_view(p)),
                    None => None,
                },
                k as int,
            ).2,
        ),
{
    match param {
        Some(p) => {
            append_str(sql, text);
            append_str(sql, placeholder_str(k));
            let ghost before = params@;
            params.push(p);
            proof {
                assert(params_view(params@) =~= params_view(before) + seq![param_view(p)]);
                assert(sql@ =~= old(sql)@ + (text@ + placeholder(k as int)));
            }
            k + 1
        },
        None => {
            assert(sql@ =~= sql@ + Seq::<char>::empty());
            assert(params_view(params@) =~= params_view(params@) + Seq::<ParamView>::empty());
            k
        },
    }
}

/// Builds the listing query of a filter.
pub fn history_query(filter: &HistoryFilter) -> (r: (String, Vec<QueryParam>))
    ensures
        (r.0@, params_view(r.1@)) == history_query_spec(*filter),
{
    let mut sql = owned(HISTORY_SELECT);
    let mut params: Vec<QueryParam> = Vec::new();
    assert(params_view(params@) =~= Seq::<ParamView>::empty());
    let search = match &filter.search {
        Some(s) => {
            let mut like = owned("%");
            append_str(&mut like, s.as_str());
            append_str(&mut like, "%");
            Some(QueryParam::Text(like))
        },
        None => None,
    };
    let k = push_bound(&mut sql, &mut params, 1, " AND final_text LIKE ", search);
    let k = match &filter.engine {
        Some(e) => {
            if str_eq(e.as_str(), "local") {
                append_str(&mut sql, " AND is_cloud = 0");
                assert(params_view(params@) =~= params_view(params@) + Seq::<ParamView>::empty());
                k
            } else if str_eq(e.as_str(), "cloud") {
                append_str(&mut sql, " AND is_cloud = 1");
                assert(params_view(params@) =~= params_view(params@) + Seq::<ParamView>::empty());
                k
            } else {
                push_bound(&mut sql, &mut params, k, " AND stt_engine = ", Some(QueryParam::Text(e.clone())))
            }
        },
        None => {
            assert(sql@ =~= sql@ + Seq::<char>::empty());
            assert(params_view(params@) =~= params_view(params@) + Seq::<ParamView>::empty());
            k
        },
    };
    let from = match filter.date_from {
        Some(d) => Some(QueryParam::Int(d)),
        None => None,
    };
    let k = push_bound(&mut sql, &mut params, k, " AND created_at >= ", from);
    let to = match filter.date_to {
        Some(d) => Some(QueryParam::Int(d)),
        None => None,
    };
    let k = push_bound(&mut sql, &mut params, k, " AND created_at <= ", to);
    append_str(&mut sql, " ORDER BY created_at DESC");
    let limit = match filter.limit {
        Some(l) => l,
        None => DEFAULT_HISTORY_LIMIT,
    };
    let k = push_bound(&mut sql, &mut params, k, " LIMIT ", Some(QueryParam::Int(limit)));
    let offset = match filter.offset {
        Some(o) => Some(QueryParam::Int(o)),
        None => None,
    };
    let _ = push_bound(&mut sql, &mut params, k, " OFFSET ", offset);
    let ghost spec = history_query_spec(*filter);
    assert(sql@ =~= spec.0);
    assert(params_view(params@) =~= spec.1);
    (sql, params)
}

} // verus!
