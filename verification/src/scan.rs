//! Importing one session log: the cursor that remembers how far a file has
//! been read, what each record does to it, and the usage events it yields.

use vstd::prelude::*;
use crate::calendar::{spec_timestamp_ms, timestamp_ms};
use crate::counters::{counter_delta, parse_counters, spec_counter_delta, spec_parse_counters, TokenCounters};
use crate::event_key::{event_key, request_id, spec_event_key, spec_request_id};
use crate::fields::{
    normalize_model, reasoning_effort, source_label, spec_normalize_model, spec_reasoning_effort,
    spec_source_label, spec_string_field, string_field,
};
use crate::json::{get_opt, json_document, parse_json, json_get, opt_get, opt_str, or_else, str_of, Json};
use crate::paths::{spec_thread_id, thread_id_from_path};
use crate::text::{contains, contains_seq, ends_with_char, str_eq};
use vstd::utf8::encode_utf8;

verus! {

/// How far a session file has been imported, and what the import knows of
/// the session at that point.
pub struct SessionCursor {
    pub byte_offset: u64,
    pub file_size: u64,
    pub modified_ms: i64,
    pub current_model: String,
    pub thread_id: String,
    pub provider_id: String,
    pub originator: String,
    pub source_label: String,
    pub reasoning_effort: String,
    pub total: TokenCounters,
}

/// A cursor as the contracts speak of it.
pub struct CursorView {
    pub byte_offset: u64,
    pub file_size: u64,
    pub modified_ms: i64,
    pub current_model: Seq<char>,
    pub thread_id: Seq<char>,
    pub provider_id: Seq<char>,
    pub originator: Seq<char>,
    pub source_label: Seq<char>,
    pub reasoning_effort: Seq<char>,
    pub total: TokenCounters,
}

impl View for SessionCursor {
    type V = CursorView;

    open spec fn view(&self) -> CursorView {
        CursorView {
            byte_offset: self.byte_offset,
            file_size: self.file_size,
            modified_ms: self.modified_ms,
            current_model: self.current_model@,
            thread_id: self.thread_id@,
            provider_id: self.provider_id@,
            originator: self.originator@,
            source_label: self.source_label@,
            reasoning_effort: self.reasoning_effort@,
            total: self.total,
        }
    }
}

/// The cursor of a file that has not been imported yet.
pub open spec fn empty_cursor() -> CursorView {
    CursorView {
        byte_offset: 0,
        file_size: 0,
        modified_ms: 0,
        current_model: seq![],
        thread_id: seq![],
        provider_id: seq![],
        originator: seq![],
        source_label: seq![],
        reasoning_effort: seq![],
        total: TokenCounters { input: 0, cached_input: 0, output: 0, reasoning_output: 0, total: 0 },
    }
}

impl Default for SessionCursor {
    fn default() -> (r: SessionCursor)
        ensures
            r@ == empty_cursor(),
    {
        SessionCursor {
            byte_offset: 0,
            file_size: 0,
            modified_ms: 0,
            current_model: String::new(),
            thread_id: String::new(),
            provider_id: String::new(),
            originator: String::new(),
            source_label: String::new(),
            reasoning_effort: String::new(),
            total: TokenCounters::zero(),
        }
    }
}

/// One token usage event found in a session log, ready to be stored.
pub struct UsageEvent {
    pub event_key: String,
    pub request_id: String,
    pub thread_id: String,
    pub timestamp: i64,
    pub model_id: String,
    pub provider_id: String,
    pub originator: String,
    pub source_label: String,
    pub reasoning_effort: String,
    pub usage: TokenCounters,
}

/// An event as the contracts speak of it.
pub struct EventView {
    pub event_key: Seq<char>,
    pub request_id: Seq<char>,
    pub thread_id: Seq<char>,
    pub timestamp: i64,
    pub model_id: Seq<char>,
    pub provider_id: Seq<char>,
    pub originator: Seq<char>,
    pub source_label: Seq<char>,
    pub reasoning_effort: Seq<char>,
    pub usage: TokenCounters,
}

impl View for UsageEvent {
    type V = EventView;

    open spec fn view(&self) -> EventView {
        EventView {
            event_key: self.event_key@,
            request_id: self.request_id@,
            thread_id: self.thread_id@,
            timestamp: self.timestamp,
            model_id: self.model_id@,
            provider_id: self.provider_id@,
            originator: self.originator@,
            source_label: self.source_label@,
            reasoning_effort: self.reasoning_effort@,
            usage: self.usage,
        }
    }
}

pub open spec fn event_view_opt(e: Option<UsageEvent>) -> Option<EventView> {
    match e {
        Some(x) => Some(x@),
        None => None,
    }
}

/// The record's `payload`, or null when it has none.
pub open spec fn payload_of(record: Json) -> Json {
    match json_get(record, "payload"@) {
        Some(p) => p,
        None => Json::Null,
    }
}

/// A `session_meta` record names the thread, the model provider, the
/// originating client and the session's source.
pub open spec fn apply_session_meta(c: CursorView, payload: Json) -> CursorView {
    CursorView {
        thread_id: match opt_str(json_get(payload, "id"@)) {
            Some(s) => s,
            None => c.thread_id,
        },
        provider_id: match opt_str(json_get(payload, "model_provider"@)) {
            Some(s) => s,
            None => c.provider_id,
        },
        originator: spec_string_field(json_get(payload, "originator"@)),
        source_label: spec_source_label(json_get(payload, "source"@)),
        ..c
    }
}

/// A `turn_context` record names the model (`model`, else `info.model`) and
/// the reasoning effort of the turns that follow.
pub open spec fn apply_turn_context(c: CursorView, payload: Json) -> CursorView {
    CursorView {
        current_model: match opt_str(or_else(json_get(payload, "model"@), opt_get(json_get(payload, "info"@), "model"@))) {
            Some(m) => spec_normalize_model(m),
            None => c.current_model,
        },
        reasoning_effort: spec_reasoning_effort(payload),
        ..c
    }
}

/// Larger of two counts.
pub open spec fn max_u64(a: u64, b: u64) -> u64 {
    if a >= b { a } else { b }
}

/// Field-wise maximum of two counter snapshots.
pub open spec fn max_counters(a: TokenCounters, b: TokenCounters) -> TokenCounters {
    TokenCounters {
        input: max_u64(a.input, b.input),
        cached_input: max_u64(a.cached_input, b.cached_input),
        output: max_u64(a.output, b.output),
        reasoning_output: max_u64(a.reasoning_output, b.reasoning_output),
        total: max_u64(a.total, b.total),
    }
}

/// Whether a cumulative snapshot repeats the one the cursor already holds.
pub open spec fn repeats_total(c: TokenCounters, total: Option<TokenCounters>) -> bool {
    match total {
        Some(t) => c.total > 0 && t == c,
        None => false,
    }
}

/// The usage a `token_count` record reports: its `last_token_usage`, else
/// the growth of its cumulative snapshot over the cursor's, else nothing.
pub open spec fn raw_delta(c: TokenCounters, total: Option<TokenCounters>, last: Option<TokenCounters>) -> TokenCounters {
    match last {
        Some(l) => l,
        None => match total {
            Some(t) => spec_counter_delta(c, t),
            None => TokenCounters { input: 0, cached_input: 0, output: 0, reasoning_output: 0, total: 0 },
        },
    }
}

/// Cached input is part of input, and a missing total is input plus output.
pub open spec fn settle_delta(d: TokenCounters) -> TokenCounters {
    TokenCounters {
        cached_input: if d.cached_input <= d.input { d.cached_input } else { d.input },
        total: if d.total == 0 {
            if d.input + d.output <= u64::MAX { (d.input + d.output) as u64 } else { u64::MAX }
        } else {
            d.total
        },
        ..d
    }
}

/// The model a `token_count` record names: `info.model`, else
/// `info.model_name`, else the payload's `model`.
pub open spec fn token_count_model(payload: Json, info: Json) -> Option<Seq<char>> {
    opt_str(or_else(json_get(info, "model"@), or_else(json_get(info, "model_name"@), json_get(payload, "model"@))))
}

/// The model an event is charged to.
pub open spec fn event_model(c: CursorView) -> Seq<char> {
    if c.current_model.len() == 0 { "unknown"@ } else { c.current_model }
}

/// What an `event_msg` record does to the cursor, and the event it yields.
pub open spec fn apply_event_msg(
    c: CursorView,
    record: Json,
    payload: Json,
    modified_ms: i64,
    line_start: u64,
) -> (CursorView, Option<EventView>) {
    let info = json_get(payload, "info"@);
    if opt_str(json_get(payload, "type"@)) != Some("token_count"@) || info is None || info == Some(Json::Null) {
        (c, None)
    } else {
        let info = info->0;
        let c1 = CursorView {
            current_model: match token_count_model(payload, info) {
                Some(m) => spec_normalize_model(m),
                None => c.current_model,
            },
            ..c
        };
        let total = spec_parse_counters(json_get(info, "total_token_usage"@));
        let last = spec_parse_counters(json_get(info, "last_token_usage"@));
        if repeats_total(c.total, total) {
            (c1, None)
        } else {
            let delta = settle_delta(raw_delta(c.total, total, last));
            let c2 = CursorView {
                total: match total {
                    Some(t) => max_counters(c.total, t),
                    None => c.total,
                },
                ..c1
            };
            if delta.input == 0 && delta.output == 0 {
                (c2, None)
            } else {
                let timestamp = match spec_timestamp_ms(json_get(record, "timestamp"@)) {
                    Some(t) => t,
                    None => modified_ms,
                };
                let model = event_model(c2);
                (c2, Some(EventView {
                    event_key: spec_event_key(c2.thread_id, timestamp, model, total, delta),
                    request_id: spec_request_id(c2.thread_id, timestamp, line_start),
                    thread_id: c2.thread_id,
                    timestamp,
                    model_id: model,
                    provider_id: c2.provider_id,
                    originator: c2.originator,
                    source_label: c2.source_label,
                    reasoning_effort: c2.reasoning_effort,
                    usage: delta,
                }))
            }
        }
    }
}

/// What one session log record does to the cursor, and the usage event it
/// yields, if any.
pub open spec fn spec_apply_record(
    c: CursorView,
    record: Json,
    modified_ms: i64,
    line_start: u64,
) -> (CursorView, Option<EventView>) {
    let kind = opt_str(json_get(record, "type"@));
    let payload = payload_of(record);
    if kind == Some("session_meta"@) {
        (apply_session_meta(c, payload), None)
    } else if kind == Some("turn_context"@) {
        (apply_turn_context(c, payload), None)
    } else if kind == Some("event_msg"@) {
        apply_event_msg(c, record, payload, modified_ms, line_start)
    } else {
        (c, None)
    }
}

fn max_u64_exec(a: u64, b: u64) -> (r: u64)
    ensures
        r == max_u64(a, b),
{
    if a >= b { a } else { b }
}

fn same_counters(a: &TokenCounters, b: &TokenCounters) -> (r: bool)
    ensures
        r == (*a == *b),
{
    a.input == b.input && a.cached_input == b.cached_input && a.output == b.output
        && a.reasoning_output == b.reasoning_output && a.total == b.total
}

/// Applies a `session_meta` record.
fn apply_session_meta_exec(cursor: &mut SessionCursor, payload: &Json)
    ensures
        final(cursor)@ == apply_session_meta(old(cursor)@, *payload),
{
    match str_of(payload.get("id")) {
        Some(v) => cursor.thread_id = v.to_owned(),
        None => {},
    }
    match str_of(payload.get("model_provider")) {
        Some(v) => cursor.provider_id = v.to_owned(),
        None => {},
    }
    cursor.originator = string_field(payload.get("originator"));
    cursor.source_label = source_label(payload.get("source"));
}

/// Applies a `turn_context` record.
fn apply_turn_context_exec(cursor: &mut SessionCursor, payload: &Json)
    ensures
        final(cursor)@ == apply_turn_context(old(cursor)@, *payload),
{
    let direct = payload.get("model");
    let chosen = if direct.is_some() {
        direct
    } else {
        get_opt(payload.get("info"), "model")
    };
    match str_of(chosen) {
        Some(v) => cursor.current_model = normalize_model(v),
        None => {},
    }
    cursor.reasoning_effort = reasoning_effort(payload);
}

/// Applies an `event_msg` record and returns the usage event it reports.
fn apply_event_msg_exec(
    cursor: &mut SessionCursor,
    record: &Json,
    payload: &Json,
    modified_ms: i64,
    line_start: u64,
) -> (r: Option<UsageEvent>)
    ensures
        (final(cursor)@, event_view_opt(r)) == apply_event_msg(old(cursor)@, *record, *payload, modified_ms, line_start),
{
    let is_token_count = match str_of(payload.get("type")) {
        Some(t) => str_eq(t, "token_count"),
        None => false,
    };
    if !is_token_count {
        return None;
    }
    let info = match payload.get("info") {
        Some(i) => i,
        None => return None,
    };
    if info.is_null() {
        return None;
    }
    let m1 = info.get("model");
    let chosen = if m1.is_some() {
        m1
    } else {
        let m2 = info.get("model_name");
        if m2.is_some() {
            m2
        } else {
            payload.get("model")
        }
    };
    match str_of(chosen) {
        Some(v) => cursor.current_model = normalize_model(v),
        None => {},
    }
    let total = parse_counters(info.get("total_token_usage"));
    let last = parse_counters(info.get("last_token_usage"));
    let duplicate = match &total {
        Some(current) => cursor.total.total > 0 && same_counters(current, &cursor.total),
        None => false,
    };
    if duplicate {
        return None;
    }
    let mut delta = match last {
        Some(l) => l,
        None => match &total {
            Some(current) => counter_delta(&cursor.total, current),
            None => TokenCounters::zero(),
        },
    };
    if delta.cached_input > delta.input {
        delta.cached_input = delta.input;
    }
    if delta.total == 0 {
        delta.total = delta.input.saturating_add(delta.output);
    }
    match &total {
        Some(current) => {
            cursor.total = TokenCounters {
                input: max_u64_exec(cursor.total.input, current.input),
                cached_input: max_u64_exec(cursor.total.cached_input, current.cached_input),
                output: max_u64_exec(cursor.total.output, current.output),
                reasoning_output: max_u64_exec(cursor.total.reasoning_output, current.reasoning_output),
                total: max_u64_exec(cursor.total.total, current.total),
            };
        },
        None => {},
    }
    if delta.input == 0 && delta.output == 0 {
        return None;
    }
    let timestamp = match timestamp_ms(record.get("timestamp")) {
        Some(t) => t,
        None => modified_ms,
    };
    let model = if cursor.current_model.as_str().is_empty() {
        "unknown".to_owned()
    } else {
        cursor.current_model.clone()
    };
    let key = event_key(cursor.thread_id.as_str(), timestamp, model.as_str(), total.as_ref(), &delta);
    let id = request_id(cursor.thread_id.as_str(), timestamp, line_start);
    Some(UsageEvent {
        event_key: key,
        request_id: id,
        thread_id: cursor.thread_id.clone(),
        timestamp,
        model_id: model,
        provider_id: cursor.provider_id.clone(),
        originator: cursor.originator.clone(),
        source_label: cursor.source_label.clone(),
        reasoning_effort: cursor.reasoning_effort.clone(),
        usage: delta,
    })
}

/// Applies one session log record to the cursor and returns the usage event
/// it reports, if any.
pub fn apply_record(cursor: &mut SessionCursor, record: &Json, modified_ms: i64, line_start: u64) -> (r: Option<UsageEvent>)
    ensures
        (final(cursor)@, event_view_opt(r)) == spec_apply_record(old(cursor)@, *record, modified_ms, line_start),
{
    let null = Json::Null;
    let payload: &Json = match record.get("payload") {
        Some(p) => p,
        None => &null,
    };
    let kind = str_of(record.get("type"));
    match kind {
        Some(k) => {
            if str_eq(k, "session_meta") {
                apply_session_meta_exec(cursor, payload);
                None
            } else if str_eq(k, "turn_context") {
                apply_turn_context_exec(cursor, payload);
                None
            } else if str_eq(k, "event_msg") {
                apply_event_msg_exec(cursor, record, payload, modified_ms, line_start)
            } else {
                None
            }
        },
        None => None,
    }
}

/// What an import does with a session file whose size and modification time
/// are known.
#[derive(PartialEq, Eq, Structural, Debug, Clone, Copy)]
pub enum SyncPlan {
    /// Size and modification time match the cursor: nothing to import.
    Unchanged,
    /// The file grew: continue from the cursor.
    Resume,
    /// The file shrank below what was imported: drop its events and start over.
    Restart,
}

pub open spec fn spec_plan_sync(c: CursorView, file_size: u64, modified_ms: i64) -> SyncPlan {
    if c.file_size == file_size && c.modified_ms == modified_ms {
        SyncPlan::Unchanged
    } else if file_size < c.byte_offset || file_size < c.file_size {
        SyncPlan::Restart
    } else {
        SyncPlan::Resume
    }
}

/// Decides whether and how a session file is imported again.
pub fn plan_sync(stored: &SessionCursor, file_size: u64, modified_ms: i64) -> (r: SyncPlan)
    ensures
        r == spec_plan_sync(stored@, file_size, modified_ms),
{
    if stored.file_size == file_size && stored.modified_ms == modified_ms {
        SyncPlan::Unchanged
    } else if file_size < stored.byte_offset || file_size < stored.file_size {
        SyncPlan::Restart
    } else {
        SyncPlan::Resume
    }
}

/// An import of one session file in progress: the cursor so far, the byte
/// offset up to which lines have been consumed, and where the last consumed
/// line started.
pub struct SessionScan {
    pub cursor: SessionCursor,
    pub offset: u64,
    pub line_start: u64,
    pub modified_ms: i64,
}

/// An import in progress as the contracts speak of it.
pub struct ScanView {
    pub cursor: CursorView,
    pub offset: u64,
    pub line_start: u64,
    pub modified_ms: i64,
}

impl View for SessionScan {
    type V = ScanView;

    open spec fn view(&self) -> ScanView {
        ScanView { cursor: self.cursor@, offset: self.offset, line_start: self.line_start, modified_ms: self.modified_ms }
    }
}

/// How an import starts: from the stored cursor, or from an empty one on a
/// restart; a cursor without a thread id takes `path_thread_id`, the one in
/// the file's name.
pub open spec fn spec_begin(stored: CursorView, restart: bool, modified_ms: i64, path_thread_id: Seq<char>) -> ScanView {
    let base = if restart { empty_cursor() } else { stored };
    let cursor = if base.thread_id.len() == 0 { CursorView { thread_id: path_thread_id, ..base } } else { base };
    ScanView { cursor, offset: base.byte_offset, line_start: base.byte_offset, modified_ms }
}

/// Starts importing a session file.
pub fn begin_scan(stored: SessionCursor, restart: bool, modified_ms: i64, file_name: Option<&str>) -> (r: SessionScan)
    ensures
        r@ == spec_begin(stored@, restart, modified_ms, spec_thread_id(match file_name { Some(n) => Some(n@), None => None })),        restart ==> r@.offset == 0 && r@.line_start == 0 && r@.cursor.total == empty_cursor().total,
        !restart ==> r@.offset == stored@.byte_offset && r@.line_start == stored@.byte_offset,
{
    let mut cursor = if restart {
        SessionCursor::default()
    } else {
        stored
    };
    if cursor.thread_id.as_str().is_empty() {
        cursor.thread_id = thread_id_from_path(file_name);
    }
    let offset = cursor.byte_offset;
    SessionScan { cursor, offset, line_start: offset, modified_ms }
}

/// What to do with a line read from a session file.
#[derive(PartialEq, Eq, Structural, Debug, Clone, Copy)]
pub enum LineStep {
    /// Nothing was read: the file ends here.
    EndOfInput,
    /// The line has no newline yet: stop before it, and read it again next time.
    Incomplete,
    /// A complete line that cannot hold a session record of interest.
    Skip,
    /// A complete line that may hold a record: parse it and apply it.
    Parse,
}

/// Whether a line may hold one of the records the import reads.
pub open spec fn is_candidate_line(line: Seq<char>) -> bool {
    contains_seq(line, "session_meta"@) || contains_seq(line, "turn_context"@) || contains_seq(line, "token_count"@)
}

/// Whether a line read from a file is complete: it ends with a newline.
pub open spec fn is_complete_line(line: Seq<char>) -> bool {
    line.len() > 0 && line.last() == '\n'
}

/// What consuming a line does: nothing for an empty read (end of input) or an
/// incomplete line; otherwise the offset moves past the line's bytes and the
/// line becomes the current one.
pub open spec fn spec_accept(s: ScanView, line: Seq<char>) -> (ScanView, LineStep) {
    if line.len() == 0 {
        (s, LineStep::EndOfInput)
    } else if line.last() != '\n' {
        (s, LineStep::Incomplete)
    } else {
        (
            ScanView { offset: (s.offset + encode_utf8(line).len()) as u64, line_start: s.offset, ..s },
            if is_candidate_line(line) { LineStep::Parse } else { LineStep::Skip },
        )
    }
}

/// Consumes the next line of the session file, as `BufRead::read_line` returned it.
pub fn accept_line(scan: &mut SessionScan, line: &str) -> (r: LineStep)
    requires
        old(scan).offset + encode_utf8(line@).len() <= u64::MAX,
    ensures
        (final(scan)@, r) == spec_accept(old(scan)@, line@),
        is_complete_line(line@) ==> final(scan).offset == old(scan).offset + encode_utf8(line@).len(),
{
    if line.is_empty() {
        return LineStep::EndOfInput;
    }
    if !ends_with_char(line, '\n') {
        return LineStep::Incomplete;
    }
    let len = line.as_bytes().len();
    scan.line_start = scan.offset;
    scan.offset = scan.offset + len as u64;
    if contains(line, "session_meta") || contains(line, "turn_context") || contains(line, "token_count") {
        LineStep::Parse
    } else {
        LineStep::Skip
    }
}

/// What applying the current line does: the record its JSON holds is
/// applied to the cursor; a line that is not a JSON document changes nothing.
pub open spec fn spec_apply_line(s: ScanView, line: Seq<char>) -> (ScanView, Option<EventView>) {
    match json_document(line) {
        Some(record) => {
            let (cursor, event) = spec_apply_record(s.cursor, record, s.modified_ms, s.line_start);
            (ScanView { cursor, ..s }, event)
        },
        None => (s, None),
    }
}

/// Parses the line just consumed and applies the record it holds.
pub fn apply_line(scan: &mut SessionScan, line: &str) -> (r: Option<UsageEvent>)
    ensures
        (final(scan)@, event_view_opt(r)) == spec_apply_line(old(scan)@, line@),
{
    match parse_json(line) {
        Some(record) => apply_record(&mut scan.cursor, &record, scan.modified_ms, scan.line_start),
        None => None,
    }
}

/// One line of an import: consume it, and apply it when it may hold a
/// record. The flag says whether the import goes on to the next line.
pub open spec fn spec_step(s: ScanView, line: Seq<char>) -> (ScanView, Option<EventView>, bool) {
    let (s1, step) = spec_accept(s, line);
    match step {
        LineStep::Parse => {
            let (s2, event) = spec_apply_line(s1, line);
            (s2, event, true)
        },
        LineStep::Skip => (s1, None, true),
        _ => (s1, None, false),
    }
}

/// The events of an optional event, as a sequence.
pub open spec fn event_seq(e: Option<EventView>) -> Seq<EventView> {
    match e {
        Some(x) => seq![x],
        None => seq![],
    }
}

/// An import over the lines read from a file, in order: the state it ends
/// in, the events it yields, and whether it consumed every line.
pub open spec fn spec_scan(s: ScanView, lines: Seq<Seq<char>>) -> (ScanView, Seq<EventView>, bool)
    decreases lines.len(),
{
    if lines.len() == 0 {
        (s, seq![], true)
    } else {
        let (s1, event, go_on) = spec_step(s, lines[0]);
        if !go_on {
            (s1, event_seq(event), false)
        } else {
            let (s2, events, done) = spec_scan(s1, lines.drop_first());
            (s2, event_seq(event) + events, done)
        }
    }
}

/// The cursor an import leaves behind.
pub open spec fn finish_view(c: CursorView, offset: u64, file_size: u64, modified_ms: i64) -> CursorView {
    CursorView { byte_offset: offset, file_size, modified_ms, ..c }
}

/// Ends the import: the cursor records how far the file was consumed, and
/// its size and modification time.
pub fn finish_scan(scan: SessionScan, file_size: u64) -> (r: SessionCursor)
    ensures
        r@ == finish_view(scan.cursor@, scan.offset, file_size, scan.modified_ms),
{
    let mut cursor = scan.cursor;
    cursor.byte_offset = scan.offset;
    cursor.file_size = file_size;
    cursor.modified_ms = scan.modified_ms;
    cursor
}

} // verus!
