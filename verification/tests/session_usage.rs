use codex_session_usage::cache::{column_to_add, parse_i64, schema_needs_reset, table_info_sql, SyncResult};
use codex_session_usage::calendar::{earliest_instant, local_midnight, session_midnight, session_started_ms, timestamp_ms, LocalDateTime};
use codex_session_usage::counters::{counter_delta, parse_counters, value_u64, TokenCounters};
use codex_session_usage::event_key::{event_key, request_id};
use codex_session_usage::fields::{normalize_model, reasoning_effort, source_label, string_field};
use codex_session_usage::json::Json;
use codex_session_usage::paths::{
    file_extension, file_stem, is_session_log, metadata_modified_ms, rollout_date, session_in_range,
    session_usage_db_path, should_scan_depth, thread_id_from_path,
};
use codex_session_usage::query::{check_summary_range, model_filter, page_window, trend_bucket_format};
use codex_session_usage::scan::{
    accept_line, apply_line, apply_record, begin_scan, finish_scan, plan_sync, LineStep,
    SessionCursor, SyncPlan, UsageEvent,
};
use codex_session_usage::text::{contains, to_hex, trim};

fn text(value: &str) -> Json {
    Json::Str(value.to_string())
}

fn object(fields: Vec<(&str, Json)>) -> Json {
    Json::Object(fields.into_iter().map(|(key, value)| (key.to_string(), value)).collect())
}

fn usage(input: u64, cached: u64, output: u64, reasoning: u64, total: u64) -> Json {
    object(vec![
        ("input_tokens", Json::UInt(input)),
        ("cached_input_tokens", Json::UInt(cached)),
        ("output_tokens", Json::UInt(output)),
        ("reasoning_output_tokens", Json::UInt(reasoning)),
        ("total_tokens", Json::UInt(total)),
    ])
}

fn token_count(timestamp: &str, total: Option<Json>, last: Option<Json>) -> Json {
    let mut info = Vec::new();
    if let Some(t) = total {
        info.push(("total_token_usage", t));
    }
    if let Some(l) = last {
        info.push(("last_token_usage", l));
    }
    object(vec![
        ("timestamp", text(timestamp)),
        ("type", text("event_msg")),
        ("payload", object(vec![("type", text("token_count")), ("info", object(info))])),
    ])
}

/// Runs the import of a whole session log held in memory, the way the
/// application reads a file line by line.
fn import(content: &str, cursor: SessionCursor, modified_ms: i64) -> (SessionCursor, Vec<UsageEvent>) {
    let mut scan = begin_scan(cursor, false, modified_ms, Some("rollout-x.jsonl"));
    let mut events = Vec::new();
    let mut rest = &content[scan.offset as usize..];
    loop {
        let line = match rest.find('\n') {
            Some(end) => &rest[..=end],
            None => rest,
        };
        match accept_line(&mut scan, line) {
            LineStep::EndOfInput | LineStep::Incomplete => break,
            LineStep::Skip => {}
            LineStep::Parse => {
                if let Some(event) = apply_line(&mut scan, line) {
                    events.push(event);
                }
            }
        }
        rest = &rest[line.len()..];
    }
    let size = content.len() as u64;
    (finish_scan(scan, size), events)
}

#[test]
fn parses_codex_token_counters() {
    let value = usage(100, 60, 20, 8, 120);
    let parsed = parse_counters(Some(&value)).expect("token counters");
    assert_eq!(parsed.input, 100);
    assert_eq!(parsed.cached_input, 60);
    assert_eq!(parsed.output, 20);
    assert_eq!(parsed.reasoning_output, 8);
}

#[test]
fn calculates_saturating_cumulative_delta() {
    let previous = TokenCounters { input: 100, cached_input: 50, output: 10, reasoning_output: 4, total: 110 };
    let current = TokenCounters { input: 180, cached_input: 90, output: 25, reasoning_output: 9, total: 205 };
    let delta = counter_delta(&previous, &current);
    assert_eq!(delta.input, 80);
    assert_eq!(delta.cached_input, 40);
    assert_eq!(delta.output, 15);
    assert_eq!(delta.reasoning_output, 5);
}

#[test]
fn semantic_event_key_deduplicates_replayed_session_events() {
    let usage = TokenCounters { input: 100, cached_input: 50, output: 10, reasoning_output: 4, total: 110 };
    assert_eq!(
        event_key("thread-1", 1_700_000_000_000, "gpt-5.4", Some(&usage), &usage),
        event_key("thread-1", 1_700_000_000_000, "gpt-5.4", Some(&usage), &usage)
    );
    assert_ne!(
        event_key("thread-1", 1_700_000_000_000, "gpt-5.4", Some(&usage), &usage),
        event_key("thread-2", 1_700_000_000_000, "gpt-5.4", Some(&usage), &usage)
    );
}

#[test]
fn normalizes_provider_prefixed_model() {
    assert_eq!(normalize_model("OpenAI/GPT-5.4"), "gpt-5.4");
}

#[test]
fn parses_reasoning_effort_variants() {
    assert_eq!(reasoning_effort(&object(vec![("effort", text("XHIGH"))])), "xhigh");
    assert_eq!(
        reasoning_effort(&object(vec![(
            "collaboration_mode",
            object(vec![("settings", object(vec![("reasoning_effort", text("high"))]))]),
        )])),
        "high"
    );
    assert_eq!(reasoning_effort(&object(vec![])), "");
}

fn ensure_column(conn: &rusqlite::Connection, table: &str, column: &str, definition: &str) -> Result<(), String> {
    let mut statement = conn.prepare(&table_info_sql(table)).map_err(|e| e.to_string())?;
    let columns = statement
        .query_map([], |row| row.get::<_, String>(1))
        .map_err(|e| e.to_string())?
        .collect::<Result<Vec<_>, _>>()
        .map_err(|e| e.to_string())?;
    if let Some(sql) = column_to_add(&columns, table, column, definition) {
        conn.execute(&sql, []).map_err(|e| e.to_string())?;
    }
    Ok(())
}

#[test]
fn adds_context_columns_to_legacy_cache_tables() {
    let conn = rusqlite::Connection::open_in_memory().expect("open memory database");
    conn.execute_batch(
        "CREATE TABLE session_usage_events (event_key TEXT PRIMARY KEY);
         CREATE TABLE session_usage_cursors (source_path TEXT PRIMARY KEY);",
    )
    .expect("create legacy schema");
    for (table, column) in [
        ("session_usage_events", "originator"),
        ("session_usage_events", "reasoning_effort"),
        ("session_usage_cursors", "originator"),
        ("session_usage_cursors", "reasoning_effort"),
    ] {
        ensure_column(&conn, table, column, "TEXT NOT NULL DEFAULT ''").expect("add context column");
        ensure_column(&conn, table, column, "TEXT NOT NULL DEFAULT ''").expect("migration is idempotent");
    }
    let event_columns: Vec<String> = conn
        .prepare("PRAGMA table_info(session_usage_events)")
        .expect("prepare event table info")
        .query_map([], |row| row.get(1))
        .expect("query event table info")
        .collect::<Result<_, _>>()
        .expect("collect event columns");
    assert!(event_columns.contains(&"originator".to_string()));
    assert!(event_columns.contains(&"reasoning_effort".to_string()));
}

const SESSION_LINES: [&str; 4] = [
    r#"{"timestamp":"2026-08-12T02:00:00Z","type":"session_meta","payload":{"id":"11111111-1111-4111-8111-111111111111","model_provider":"relay","originator":"Codex Desktop","source":"vscode"}}"#,
    r#"{"timestamp":"2026-08-12T02:00:01Z","type":"turn_context","payload":{"model":"gpt-5.4","effort":"xhigh"}}"#,
    r#"{"timestamp":"2026-08-12T02:00:02Z","type":"event_msg","payload":{"type":"token_count","info":{"total_token_usage":{"input_tokens":100,"cached_input_tokens":60,"output_tokens":20,"reasoning_output_tokens":5,"total_tokens":120},"last_token_usage":{"input_tokens":100,"cached_input_tokens":60,"output_tokens":20,"reasoning_output_tokens":5,"total_tokens":120}}}}"#,
    r#"{"timestamp":"2026-08-12T02:00:03Z","type":"event_msg","payload":{"type":"token_count","info":{"total_token_usage":{"input_tokens":100,"cached_input_tokens":60,"output_tokens":20,"reasoning_output_tokens":5,"total_tokens":120},"last_token_usage":{"input_tokens":100,"cached_input_tokens":60,"output_tokens":20,"reasoning_output_tokens":5,"total_tokens":120}}}}"#,
];

#[test]
fn imports_jsonl_and_skips_repeated_total_snapshot() {
    let content = format!("{}\n", SESSION_LINES.join("\n"));
    let (cursor, events) = import(&content, SessionCursor::default(), 0);

    let conn = rusqlite::Connection::open_in_memory().expect("open db");
    conn.execute_batch(
        r#"
        CREATE TABLE session_usage_events (
            event_key TEXT PRIMARY KEY, request_id TEXT NOT NULL, thread_id TEXT NOT NULL,
            timestamp INTEGER NOT NULL, model_id TEXT NOT NULL, originator TEXT NOT NULL,
            source_label TEXT NOT NULL, reasoning_effort TEXT NOT NULL, input_tokens INTEGER NOT NULL,
            cached_input_tokens INTEGER NOT NULL, output_tokens INTEGER NOT NULL
        );
        "#,
    )
    .expect("create schema");
    for event in &events {
        conn.execute(
            "INSERT OR IGNORE INTO session_usage_events VALUES (?1, ?2, ?3, ?4, ?5, ?6, ?7, ?8, ?9, ?10, ?11)",
            (
                &event.event_key,
                &event.request_id,
                &event.thread_id,
                event.timestamp,
                &event.model_id,
                &event.originator,
                &event.source_label,
                &event.reasoning_effort,
                event.usage.input as i64,
                event.usage.cached_input as i64,
                event.usage.output as i64,
            ),
        )
        .expect("insert event");
    }
    let (request_count, input_tokens, cached_input_tokens): (i64, i64, i64) = conn
        .query_row(
            "SELECT COUNT(*), COALESCE(SUM(input_tokens), 0), COALESCE(SUM(cached_input_tokens), 0)
             FROM session_usage_events WHERE timestamp BETWEEN ?1 AND ?2",
            (0i64, i64::MAX),
            |row| Ok((row.get(0)?, row.get(1)?, row.get(2)?)),
        )
        .expect("query totals");
    let models: Vec<String> = conn
        .prepare("SELECT model_id FROM session_usage_events GROUP BY model_id ORDER BY COUNT(*) DESC")
        .expect("prepare models")
        .query_map([], |row| row.get(0))
        .expect("query models")
        .collect::<Result<_, _>>()
        .expect("collect models");
    assert_eq!(request_count, 1);
    assert_eq!(input_tokens, 100);
    assert_eq!(cached_input_tokens, 60);
    assert_eq!(models[0], "gpt-5.4");
    let (originator, source_label, effort): (String, String, String) = conn
        .query_row(
            "SELECT originator, source_label, reasoning_effort FROM session_usage_events",
            [],
            |row| Ok((row.get(0)?, row.get(1)?, row.get(2)?)),
        )
        .expect("query imported context fields");
    assert_eq!(originator, "Codex Desktop");
    assert_eq!(source_label, "vscode");
    assert_eq!(effort, "xhigh");

    assert_eq!(events[0].provider_id, "relay");
    assert_eq!(events[0].thread_id, "11111111-1111-4111-8111-111111111111");
    assert_eq!(events[0].timestamp, 1_786_500_002_000);
    assert_eq!(cursor.byte_offset, content.len() as u64);
    assert_eq!(cursor.total.total, 120);
}

#[test]
fn resumes_after_an_incomplete_last_line() {
    let complete = format!("{}\n{}\n", SESSION_LINES[0], SESSION_LINES[1]);
    let content = format!("{}{}", complete, &SESSION_LINES[2][..40]);
    let (cursor, events) = import(&content, SessionCursor::default(), 0);
    assert!(events.is_empty());
    assert_eq!(cursor.byte_offset, complete.len() as u64);
    assert_eq!(cursor.current_model, "gpt-5.4");

    let grown = format!("{}{}\n", complete, SESSION_LINES[2]);
    assert_eq!(plan_sync(&cursor, grown.len() as u64, 1), SyncPlan::Resume);
    let (cursor, events) = import(&grown, cursor, 1);
    assert_eq!(events.len(), 1);
    assert_eq!(events[0].request_id, format!("codex-session:11111111-1111-4111-8111-111111111111:1786500002000:{}", complete.len()));
    assert_eq!(cursor.byte_offset, grown.len() as u64);
    assert_eq!(plan_sync(&cursor, grown.len() as u64, 1), SyncPlan::Unchanged);
    assert_eq!(plan_sync(&cursor, 10, 2), SyncPlan::Restart);
}

#[test]
fn totals_without_last_usage_count_the_growth() {
    let mut cursor = SessionCursor::default();
    let first = token_count("2026-08-12T02:00:02Z", Some(usage(100, 60, 20, 5, 120)), None);
    let second = token_count("2026-08-12T02:00:03Z", Some(usage(150, 200, 30, 5, 0)), None);
    let e1 = apply_record(&mut cursor, &first, 7, 0).expect("first event");
    assert_eq!((e1.usage.input, e1.usage.cached_input, e1.usage.output, e1.usage.total), (100, 60, 20, 120));
    assert_eq!(e1.model_id, "unknown");
    let e2 = apply_record(&mut cursor, &second, 7, 10).expect("second event");
    // cached input is capped at input; a zero total becomes input + output
    assert_eq!((e2.usage.input, e2.usage.cached_input, e2.usage.output, e2.usage.total), (50, 50, 10, 60));
    assert_eq!(cursor.total.input, 150);
    assert_eq!(cursor.total.total, 120);
    // the same snapshot again adds nothing
    assert!(apply_record(&mut cursor, &token_count("2026-08-12T02:00:04Z", Some(usage(150, 200, 30, 5, 120)), None), 7, 20).is_none());
}

#[test]
fn events_without_timestamp_use_file_time_and_null_info_is_ignored() {
    let mut cursor = SessionCursor::default();
    let record = object(vec![
        ("type", text("event_msg")),
        ("payload", object(vec![("type", text("token_count")), ("info", object(vec![("last_token_usage", usage(3, 0, 4, 0, 0))]))])),
    ]);
    let event = apply_record(&mut cursor, &record, 42, 0).expect("event");
    assert_eq!(event.timestamp, 42);
    assert_eq!(event.usage.total, 7);
    let null_info = object(vec![
        ("type", text("event_msg")),
        ("payload", object(vec![("type", text("token_count")), ("info", Json::Null)])),
    ]);
    assert!(apply_record(&mut cursor, &null_info, 42, 0).is_none());
    let zero = token_count("2026-08-12T02:00:04Z", None, Some(usage(0, 0, 0, 0, 9)));
    assert!(apply_record(&mut cursor, &zero, 42, 0).is_none());
}

#[test]
fn reads_record_fields() {
    assert_eq!(string_field(Some(&text("  Codex Desktop \n"))), "Codex Desktop");
    assert_eq!(string_field(Some(&Json::UInt(3))), "");
    assert_eq!(string_field(None), "");
    assert_eq!(source_label(Some(&text(" vscode "))), "vscode");
    assert_eq!(source_label(Some(&text("   "))), "codex_session");
    assert_eq!(source_label(Some(&object(vec![("subagent", Json::Null)]))), "subagent");
    assert_eq!(source_label(Some(&object(vec![]))), "codex_session");
    assert_eq!(source_label(None), "codex_session");
    assert_eq!(normalize_model("  o4-mini "), "o4-mini");
    assert_eq!(normalize_model("a/b/C"), "c");
    assert_eq!(reasoning_effort(&object(vec![("effort", Json::Null), ("reasoning_effort", text("low"))])), "");
    assert_eq!(reasoning_effort(&object(vec![("reasoning_effort", text(" Medium "))])), "medium");
    assert_eq!(value_u64(Some(&object(vec![("a", text("1")), ("b", Json::UInt(2))])), &["a", "b"]), 2);
    assert_eq!(value_u64(Some(&object(vec![("a", Json::OtherNumber)])), &["a"]), 0);
    assert!(parse_counters(Some(&usage(0, 5, 0, 5, 0))).is_none());
    assert!(parse_counters(Some(&Json::UInt(5))).is_none());
    let cache_read = object(vec![("input_tokens", Json::UInt(10)), ("cache_read_input_tokens", Json::UInt(4))]);
    assert_eq!(parse_counters(Some(&cache_read)).expect("counters").cached_input, 4);
}

#[test]
fn reads_timestamps_and_session_dates() {
    assert_eq!(timestamp_ms(Some(&text("2026-08-12T02:00:00Z"))), Some(1_786_500_000_000));
    assert_eq!(timestamp_ms(Some(&text("2026-08-12T04:00:00+02:00"))), Some(1_786_500_000_000));
    assert_eq!(timestamp_ms(Some(&text("yesterday"))), None);
    assert_eq!(timestamp_ms(Some(&Json::UInt(5))), None);
    assert!(session_started_ms(Some("rollout-2026-08-12T10-00-00-x.jsonl")).is_some());
    assert_eq!(session_started_ms(Some("rollout-2026-13-45T10.jsonl")), None);
    assert_eq!(session_started_ms(Some("session-2026-08-12.jsonl")), None);
    assert_eq!(session_started_ms(None), None);
    assert_eq!(rollout_date(Some("rollout-2026-08-12T10")), Some("2026-08-12".to_string()));
    assert_eq!(rollout_date(Some("rollout-2026")), None);
    assert_eq!(
        local_midnight((2026, 8, 12)),
        LocalDateTime { year: 2026, month: 8, day: 12, hour: 0, min: 0, sec: 0 }
    );
    assert_eq!(earliest_instant((Some(5), Some(9))), Some(5));
    assert_eq!(earliest_instant((None, None)), None);
    assert_eq!(
        session_midnight(Some("rollout-2026-08-12T10-00-00-x.jsonl")),
        Some(LocalDateTime { year: 2026, month: 8, day: 12, hour: 0, min: 0, sec: 0 })
    );
    assert_eq!(session_midnight(Some("rollout-2026-13-45T10.jsonl")), None);
    assert_eq!(session_midnight(Some("session-2026-08-12.jsonl")), None);
}

#[test]
fn reads_file_names() {
    let name = "rollout-2026-08-12T10-00-00-11111111-1111-4111-8111-111111111111.jsonl";
    assert_eq!(thread_id_from_path(Some(name)), "11111111-1111-4111-8111-111111111111");
    assert_eq!(thread_id_from_path(Some("short.jsonl")), "short");
    assert_eq!(thread_id_from_path(None), "");
    assert_eq!(file_stem("a.b.c"), "a.b");
    assert_eq!(file_stem(".bashrc"), ".bashrc");
    assert_eq!(file_extension("a.b.c"), Some("c".to_string()));
    assert_eq!(file_extension(".bashrc"), None);
    assert_eq!(file_extension("noext"), None);
    assert!(is_session_log(Some("x.jsonl")));
    assert!(!is_session_log(Some("x.json")));
    assert!(!is_session_log(None));
    assert!(should_scan_depth(4));
    assert!(!should_scan_depth(5));
    assert!(session_in_range(None, 10, 5, 20));
    assert!(!session_in_range(Some(30), 10, 5, 20));
    assert!(!session_in_range(Some(1), 4, 5, 20));
    assert_eq!(metadata_modified_ms(Some(12)), 12);
    assert_eq!(metadata_modified_ms(Some(u128::MAX)), i64::MAX);
    assert_eq!(metadata_modified_ms(None), 0);
    assert_eq!(session_usage_db_path("/data"), "/data/codex_session_usage.sqlite");
    assert_eq!(session_usage_db_path("/data/"), "/data/codex_session_usage.sqlite");
    assert_eq!(session_usage_db_path(""), "codex_session_usage.sqlite");
}

#[test]
fn builds_event_keys_and_request_ids() {
    let usage = TokenCounters { input: 100, cached_input: 50, output: 10, reasoning_output: 4, total: 110 };
    assert_eq!(
        event_key("thread-1", 1_700_000_000_000, "gpt-5.4", Some(&usage), &usage),
        "086dd9eb8f038bd4f7e653d027cfd5bc739b57c2ffdcda1dd7c98b16fdc9abb2"
    );
    let other = TokenCounters { input: 1, cached_input: 0, output: 0, reasoning_output: 0, total: 1 };
    assert_eq!(
        event_key("thread-1", 1_700_000_000_000, "gpt-5.4", Some(&usage), &other),
        event_key("thread-1", 1_700_000_000_000, "gpt-5.4", None, &usage)
    );
    assert_eq!(request_id("t", -5, 12), "codex-session:t:-5:12");
    assert_eq!(to_hex(&[0x00, 0xab, 0x10]), "00ab10");
}

#[test]
fn works_out_pages_and_filters() {
    let w = page_window(0, 0, 0);
    assert_eq!((w.page, w.page_size, w.total_pages, w.offset), (1, 1, 1, 0));
    let w = page_window(3, 20, 45);
    assert_eq!((w.page, w.page_size, w.total_pages, w.offset), (3, 20, 3, 40));
    let w = page_window(9, 500, 250);
    assert_eq!((w.page, w.page_size, w.total_pages, w.offset), (3, 100, 3, 200));
    let (query, pattern) = model_filter(Some("  GPT-5 "));
    assert_eq!(query, "gpt-5");
    assert_eq!(pattern, "%gpt-5%");
    assert_eq!(model_filter(None), (String::new(), "%%".to_string()));
    assert_eq!(trend_bucket_format(0, 86_400_000), "%Y-%m-%d %H:00");
    assert_eq!(trend_bucket_format(0, 86_400_001), "%Y-%m-%d");
    assert_eq!(trend_bucket_format(i64::MIN, i64::MAX), "%Y-%m-%d");
    assert!(check_summary_range(5, 5).is_ok());
    assert_eq!(check_summary_range(6, 5), Err("Codex 会话统计结束时间不能早于开始时间".to_string()));
}

#[test]
fn checks_the_cache_schema_and_counts_sync_outcomes() {
    assert_eq!(parse_i64("3"), Some(3));
    assert_eq!(parse_i64("+3"), Some(3));
    assert_eq!(parse_i64("-9223372036854775808"), Some(i64::MIN));
    assert_eq!(parse_i64("9223372036854775808"), None);
    assert_eq!(parse_i64("-"), None);
    assert_eq!(parse_i64(" 3"), None);
    assert!(!schema_needs_reset(Some("3")));
    assert!(schema_needs_reset(Some("2")));
    assert!(schema_needs_reset(None));
    assert_eq!(
        column_to_add(&vec!["a".to_string()], "t", "b", "TEXT"),
        Some("ALTER TABLE t ADD COLUMN b TEXT".to_string())
    );
    assert_eq!(column_to_add(&vec!["b".to_string()], "t", "b", "TEXT"), None);
    let mut result = SyncResult::new(3);
    result.record(&Ok(true));
    result.record(&Ok(false));
    result.record(&Err("broken".to_string()));
    assert_eq!(result, SyncResult { files_scanned: 3, files_updated: 1, parse_errors: 1 });
}

#[test]
fn text_helpers_follow_std() {
    assert_eq!(trim("\u{3000} a b \u{85}"), "a b");
    assert!(contains("abc token_count", "token_count"));
    assert!(!contains("abc", "abcd"));
    assert!(contains("abc", ""));
}

#[test]
fn importing_in_pieces_matches_importing_at_once() {
    let later = r#"{"timestamp":"2026-08-12T02:00:09Z","type":"event_msg","payload":{"type":"token_count","info":{"total_token_usage":{"input_tokens":160,"cached_input_tokens":60,"output_tokens":30,"reasoning_output_tokens":5,"total_tokens":190}}}}"#;
    let first = format!("{}\n", SESSION_LINES[..3].join("\n"));
    let whole = format!("{}{}\n{}\n", first, SESSION_LINES[3], later);

    let (cursor1, mut pieces) = import(&first, SessionCursor::default(), 1);
    let (cursor_a, more) = import(&whole, cursor1, 2);
    pieces.extend(more);
    let (cursor_b, once) = import(&whole, SessionCursor::default(), 2);

    assert_eq!(pieces.len(), 2);
    assert_eq!(pieces.len(), once.len());
    for (a, b) in pieces.iter().zip(once.iter()) {
        assert_eq!(a.event_key, b.event_key);
        assert_eq!(a.request_id, b.request_id);
        assert_eq!(a.timestamp, b.timestamp);
        assert_eq!(a.usage, b.usage);
    }
    assert_eq!(pieces[1].usage.input, 60);
    assert_eq!(cursor_a.byte_offset, cursor_b.byte_offset);
    assert_eq!(cursor_a.thread_id, cursor_b.thread_id);
    assert_eq!(cursor_a.current_model, cursor_b.current_model);
    assert_eq!(cursor_a.total, cursor_b.total);
    assert_eq!(cursor_a.modified_ms, cursor_b.modified_ms);
}
