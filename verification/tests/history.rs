use ariatype::history::engines::build_engine_usage;
use ariatype::history::query::{history_query, QueryParam, HISTORY_SELECT};
use ariatype::history::HistoryFilter;
use ariatype::history::dashboard::{build_daily_usage, build_dashboard_stats, DashboardEntry};

fn entry(
    local_day: i64,
    final_text: &str,
    audio_duration_ms: Option<i64>,
    stt_duration_ms: Option<i64>,
    polish_applied: bool,
    is_cloud: bool,
    stt_engine: &str,
) -> DashboardEntry {
    DashboardEntry {
        local_day,
        final_text: final_text.to_string(),
        audio_duration_ms,
        stt_duration_ms,
        polish_applied,
        is_cloud,
        stt_engine: stt_engine.to_string(),
    }
}

const TODAY: i64 = 20_000;

#[test]
fn dashboard_stats_aggregate_multilingual_usage_and_streaks() {
    let entries = vec![
        entry(TODAY - 2, "draft release note", Some(12_000), Some(600), true, false, "Whisper"),
        entry(TODAY - 1, "你好世界", Some(8_000), Some(500), false, true, "Volcengine"),
        entry(TODAY, "sprint planning notes", Some(6_000), Some(300), true, false, "Whisper"),
    ];

    let stats = build_dashboard_stats(&entries, TODAY);

    assert_eq!(stats.total_count, 3);
    assert_eq!(stats.today_count, 1);
    assert_eq!(stats.total_chars, 43);
    assert_eq!(stats.total_output_units, 10);
    assert_eq!(stats.total_audio_ms, 26_000);
    assert_eq!(stats.avg_stt_ms, Some(466));
    assert_eq!(stats.avg_audio_ms, Some(8_666));
    assert_eq!(stats.total_output_units as f64 / stats.total_count as f64, 10.0 / 3.0);
    assert_eq!(stats.local_count, 2);
    assert_eq!(stats.cloud_count, 1);
    assert_eq!(stats.polish_count, 2);
    assert_eq!(stats.active_days, 3);
    assert_eq!(stats.current_streak_days, 3);
    assert_eq!(stats.longest_streak_days, 3);
    assert_eq!(stats.last_7_days_count, 3);
    assert_eq!(stats.last_7_days_audio_ms, 26_000);
    assert_eq!(stats.last_7_days_output_units, 10);
}

#[test]
fn daily_usage_includes_output_units_and_fills_missing_days() {
    let entries = vec![
        entry(TODAY - 2, "alpha beta", Some(10_000), Some(400), false, false, "Whisper"),
        entry(TODAY, "你好", Some(4_000), Some(200), false, true, "Volcengine"),
    ];

    let usage = build_daily_usage(&entries, 3, TODAY);

    assert_eq!(usage.len(), 3);
    assert_eq!(usage[0].count, 1);
    assert_eq!(usage[0].audio_ms, 10_000);
    assert_eq!(usage[0].output_units, 2);
    assert_eq!(usage[1].count, 0);
    assert_eq!(usage[1].audio_ms, 0);
    assert_eq!(usage[1].output_units, 0);
    assert_eq!(usage[2].count, 1);
    assert_eq!(usage[2].audio_ms, 4_000);
    assert_eq!(usage[2].output_units, 2);
    assert_eq!(usage[2].day, TODAY);
}

#[test]
fn dashboard_of_an_empty_history_has_no_averages() {
    let stats = build_dashboard_stats(&vec![], TODAY);
    assert_eq!(stats.total_count, 0);
    assert_eq!(stats.avg_stt_ms, None);
    assert_eq!(stats.avg_audio_ms, None);
    assert_eq!(stats.active_days, 0);
    assert_eq!(stats.current_streak_days, 0);
}

#[test]
fn repeated_days_count_once_and_old_days_break_the_streak() {
    let entries = vec![
        entry(TODAY - 10, "a", None, Some(-7), false, false, "w"),
        entry(TODAY - 9, "b", None, None, false, false, "w"),
        entry(TODAY - 10, "c", Some(1), None, false, false, "w"),
        entry(TODAY - 3, "d", None, None, false, false, "w"),
    ];
    let stats = build_dashboard_stats(&entries, TODAY);
    assert_eq!(stats.active_days, 3);
    assert_eq!(stats.longest_streak_days, 2);
    assert_eq!(stats.current_streak_days, 0);
    assert_eq!(stats.last_7_days_count, 1);
    assert_eq!(stats.avg_stt_ms, Some(-7));
    assert_eq!(stats.avg_audio_ms, Some(1));
}

fn filter(
    search: Option<&str>,
    engine: Option<&str>,
    date_from: Option<i64>,
    date_to: Option<i64>,
    limit: Option<i64>,
    offset: Option<i64>,
) -> HistoryFilter {
    HistoryFilter {
        search: search.map(|s| s.to_string()),
        engine: engine.map(|s| s.to_string()),
        date_from,
        date_to,
        limit,
        offset,
    }
}

#[test]
fn empty_filter_lists_fifty_newest() {
    let (sql, params) = history_query(&filter(None, None, None, None, None, None));
    assert_eq!(
        sql,
        format!("{HISTORY_SELECT} ORDER BY created_at DESC LIMIT ?1")
    );
    assert_eq!(params, vec![QueryParam::Int(50)]);
}

#[test]
fn full_filter_numbers_every_placeholder() {
    let (sql, params) = history_query(&filter(
        Some("hello"),
        Some("whisper"),
        Some(100),
        Some(200),
        Some(10),
        Some(20),
    ));
    assert_eq!(
        sql,
        format!(
            "{HISTORY_SELECT} AND final_text LIKE ?1 AND stt_engine = ?2 AND created_at >= ?3 \
             AND created_at <= ?4 ORDER BY created_at DESC LIMIT ?5 OFFSET ?6"
        )
    );
    assert_eq!(
        params,
        vec![
            QueryParam::Text("%hello%".to_string()),
            QueryParam::Text("whisper".to_string()),
            QueryParam::Int(100),
            QueryParam::Int(200),
            QueryParam::Int(10),
            QueryParam::Int(20),
        ]
    );
}

#[test]
fn local_and_cloud_engines_filter_without_a_parameter() {
    let (sql, params) = history_query(&filter(None, Some("local"), Some(5), None, None, None));
    assert_eq!(
        sql,
        format!("{HISTORY_SELECT} AND is_cloud = 0 AND created_at >= ?1 ORDER BY created_at DESC LIMIT ?2")
    );
    assert_eq!(params, vec![QueryParam::Int(5), QueryParam::Int(50)]);
    let (sql, params) = history_query(&filter(Some("x"), Some("cloud"), None, None, Some(3), None));
    assert_eq!(
        sql,
        format!("{HISTORY_SELECT} AND final_text LIKE ?1 AND is_cloud = 1 ORDER BY created_at DESC LIMIT ?2")
    );
    assert_eq!(params, vec![QueryParam::Text("%x%".to_string()), QueryParam::Int(3)]);
}

#[test]
fn engine_usage_reports_average_latency() {
    let entries = vec![
        entry(TODAY - 1, "alpha beta", Some(10_000), Some(400), false, false, "Whisper"),
        entry(TODAY, "gamma delta", Some(8_000), Some(600), false, false, "Whisper"),
        entry(TODAY, "你好世界", Some(5_000), Some(300), false, true, "Volcengine"),
    ];

    let usage = build_engine_usage(&entries);

    assert_eq!(usage.len(), 2);
    assert_eq!(usage[0].engine, "Whisper");
    assert_eq!(usage[0].count, 2);
    assert_eq!(usage[0].avg_stt_ms, Some(500));
    assert_eq!(usage[1].engine, "Volcengine");
    assert_eq!(usage[1].count, 1);
    assert_eq!(usage[1].avg_stt_ms, Some(300));
}

#[test]
fn engines_with_equal_runs_are_listed_by_name() {
    let entries = vec![
        entry(TODAY, "a", None, None, false, false, "b-engine"),
        entry(TODAY, "b", None, Some(-7), false, false, "a-engine"),
        entry(TODAY, "c", None, Some(2), false, false, "a-engine"),
        entry(TODAY, "d", None, None, false, false, "ab"),
        entry(TODAY, "e", None, None, false, false, "b-engine"),
        entry(TODAY, "f", None, None, false, false, "a"),
    ];

    let usage = build_engine_usage(&entries);
    let names: Vec<&str> = usage.iter().map(|u| u.engine.as_str()).collect();
    assert_eq!(names, vec!["a-engine", "b-engine", "a", "ab"]);
    assert_eq!(usage[0].avg_stt_ms, Some(-2));
    assert_eq!(usage[1].avg_stt_ms, None);
    assert!(build_engine_usage(&Vec::new()).is_empty());
}
