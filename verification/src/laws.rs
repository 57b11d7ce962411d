//! Properties of the import that hold across records and calls.

use vstd::prelude::*;
use crate::cache::has_column;
use crate::counters::{spec_parse_counters, TokenCounters};
use crate::event_key::spec_event_key;
use crate::calendar::spec_timestamp_ms;
use crate::json::{json_document, json_get, opt_get, opt_str, or_else, Json};
use crate::fields::spec_normalize_model;
use crate::query::{is_hourly, spec_page_window};
use crate::scan::{
    empty_cursor, finish_view, is_complete_line, max_counters, payload_of, spec_apply_record, spec_begin,
    spec_scan, ScanView, spec_plan_sync, CursorView, SyncPlan,
};

verus! {

/// Each counter of `a` is at most the same counter of `b`.
pub open spec fn counters_le(a: TokenCounters, b: TokenCounters) -> bool {
    &&& a.input <= b.input
    &&& a.cached_input <= b.cached_input
    &&& a.output <= b.output
    &&& a.reasoning_output <= b.reasoning_output
    &&& a.total <= b.total
}

/// The cumulative snapshot a `token_count` record carries, if it is one and
/// carries one.
pub open spec fn token_count_total(record: Json) -> Option<TokenCounters> {
    let payload = payload_of(record);
    let info = json_get(payload, "info"@);
    if opt_str(json_get(record, "type"@)) == Some("event_msg"@)
        && opt_str(json_get(payload, "type"@)) == Some("token_count"@)
        && info is Some && info != Some(Json::Null) {
        spec_parse_counters(json_get(info->0, "total_token_usage"@))
    } else {
        None
    }
}

/// The cumulative totals a cursor keeps never go down, whatever record is
/// applied.
pub proof fn totals_never_decrease(c: CursorView, record: Json, modified_ms: i64, line_start: u64)
    ensures
        counters_le(c.total, spec_apply_record(c, record, modified_ms, line_start).0.total),
{
}

/// Records never move a cursor's place in its file: the imported offset, the
/// file size and the modification time stay as they were.
pub proof fn records_keep_file_position(c: CursorView, record: Json, modified_ms: i64, line_start: u64)
    ensures
        spec_apply_record(c, record, modified_ms, line_start).0.byte_offset == c.byte_offset,
        spec_apply_record(c, record, modified_ms, line_start).0.file_size == c.file_size,
        spec_apply_record(c, record, modified_ms, line_start).0.modified_ms == c.modified_ms,
{
}

/// Every usage event reports some input or output, counts its cached input
/// within its input, and has a positive total.
pub proof fn events_are_well_formed(c: CursorView, record: Json, modified_ms: i64, line_start: u64)
    ensures
        spec_apply_record(c, record, modified_ms, line_start).1 matches Some(e) ==> {
            &&& e.usage.input > 0 || e.usage.output > 0
            &&& e.usage.cached_input <= e.usage.input
            &&& e.usage.total > 0
        },
{
}

/// A token count record whose cumulative snapshot is at least what the
/// cursor holds (and not all zero) is counted at most once: applying it a
/// second time right after yields no event and leaves the totals as they are.
pub proof fn repeated_snapshot_is_counted_once(
    c: CursorView,
    record: Json,
    modified_ms: i64,
    line_start: u64,
    again_line_start: u64,
)
    requires
        token_count_total(record) matches Some(t) && t.total > 0 && counters_le(c.total, t),
    ensures
        ({
            let first = spec_apply_record(c, record, modified_ms, line_start).0;
            let second = spec_apply_record(first, record, modified_ms, again_line_start);
            &&& second.1 is None
            &&& second.0.total == first.total
        }),
{
    // The record is an `event_msg`, so neither of the other record kinds applies.
    reveal_strlit("event_msg");
    reveal_strlit("session_meta");
    reveal_strlit("turn_context");
    assert("event_msg"@.len() != "session_meta"@.len());
    assert("event_msg"@.len() != "turn_context"@.len());
    let t = token_count_total(record)->0;
    let first = spec_apply_record(c, record, modified_ms, line_start).0;
    // The cursor's totals were below the snapshot, so merging yields the snapshot.
    let m = max_counters(c.total, t);
    assert(m == t);
    assert(first.total == t);
}

/// Records other than token counts never produce an event.
pub proof fn only_token_counts_produce_events(c: CursorView, record: Json, modified_ms: i64, line_start: u64)
    requires
        opt_str(json_get(record, "type"@)) != Some("event_msg"@),
    ensures
        spec_apply_record(c, record, modified_ms, line_start).1 is None,
        spec_apply_record(c, record, modified_ms, line_start).0.total == c.total,
{
}

/// Once a file has been imported, the next import of the same file with the
/// same size and modification time has nothing to do.
pub proof fn finished_file_is_unchanged(c: CursorView, offset: u64, file_size: u64, modified_ms: i64)
    ensures
        spec_plan_sync(finish_view(c, offset, file_size, modified_ms), file_size, modified_ms) == SyncPlan::Unchanged,
{
}

/// An import starts over exactly when the file changed (size or
/// modification time) and became shorter than what was already imported
/// from it or than it was.
pub proof fn restart_only_on_truncation(c: CursorView, file_size: u64, modified_ms: i64)
    ensures
        spec_plan_sync(c, file_size, modified_ms) == SyncPlan::Restart <==> !(c.file_size == file_size
            && c.modified_ms == modified_ms) && (file_size < c.byte_offset || file_size < c.file_size),
        spec_plan_sync(c, file_size, modified_ms) == SyncPlan::Restart ==> file_size < c.byte_offset
            || file_size < c.file_size,
        spec_plan_sync(c, file_size, modified_ms) == SyncPlan::Resume ==> file_size >= c.byte_offset
            && file_size >= c.file_size,
{
}

/// A replayed token count carries the same cumulative snapshot, so it gets
/// the same storage key whatever per-request usage it reports: the key of
/// an event with a snapshot depends on the thread, the instant, the model and
/// that snapshot only.
pub proof fn snapshot_keys_ignore_request_usage(
    thread_id: Seq<char>,
    timestamp: i64,
    model: Seq<char>,
    snapshot: TokenCounters,
    usage_a: TokenCounters,
    usage_b: TokenCounters,
)
    ensures
        spec_event_key(thread_id, timestamp, model, Some(snapshot), usage_a) == spec_event_key(
            thread_id,
            timestamp,
            model,
            Some(snapshot),
            usage_b,
        ),
{
}

/// Adding a context column is idempotent: once the table lists the column,
/// `column_to_add` asks for nothing more.
pub proof fn added_column_is_not_added_again(existing: Seq<String>, added: String, column: Seq<char>)
    requires
        added@ == column,
    ensures
        has_column(existing.push(added), column),
{
    assert(existing.push(added)[existing.len() as int] == added);
}

/// Whether two cursors agree on everything but their place in the file.
pub open spec fn same_content(c: CursorView, d: CursorView) -> bool {
    c == (CursorView { byte_offset: c.byte_offset, file_size: c.file_size, modified_ms: c.modified_ms, ..d })
}

/// A record whose effect does not depend on when the file was last
/// modified (a token count carries its own timestamp) and that does not
/// set an empty thread id.
pub open spec fn record_is_settled(record: Json) -> bool {
    let kind = opt_str(json_get(record, "type"@));
    &&& kind == Some("event_msg"@) && opt_str(json_get(payload_of(record), "type"@)) == Some("token_count"@)
        ==> spec_timestamp_ms(json_get(record, "timestamp"@)) is Some
    &&& kind == Some("session_meta"@) ==> opt_str(json_get(payload_of(record), "id"@)) != Some(
        Seq::<char>::empty(),
    )
}

/// Whether the record a line holds, if any, is settled.
pub open spec fn line_is_settled(line: Seq<char>) -> bool {
    match json_document(line) {
        Some(record) => record_is_settled(record),
        None => true,
    }
}

pub open spec fn lines_settled(lines: Seq<Seq<char>>) -> bool {
    forall|i: int| 0 <= i < lines.len() ==> line_is_settled(#[trigger] lines[i])
}

pub open spec fn all_complete(lines: Seq<Seq<char>>) -> bool {
    forall|i: int| 0 <= i < lines.len() ==> is_complete_line(#[trigger] lines[i])
}

/// The thread id is either set, or still the one the file name gave.
pub open spec fn thread_kept(c: CursorView, path_thread_id: Seq<char>) -> bool {
    c.thread_id.len() > 0 || c.thread_id == path_thread_id
}

proof fn record_ignores_position(c: CursorView, d: CursorView, record: Json, m1: i64, m2: i64, line_start: u64)
    requires
        same_content(c, d),
        record_is_settled(record),
    ensures
        same_content(spec_apply_record(c, record, m1, line_start).0, spec_apply_record(d, record, m2, line_start).0),
        spec_apply_record(c, record, m1, line_start).1 == spec_apply_record(d, record, m2, line_start).1,
{
}

proof fn record_keeps_thread(c: CursorView, record: Json, m: i64, line_start: u64, path_thread_id: Seq<char>)
    requires
        thread_kept(c, path_thread_id),
        record_is_settled(record),
    ensures
        thread_kept(spec_apply_record(c, record, m, line_start).0, path_thread_id),
{
    if let Some(id) = opt_str(json_get(payload_of(record), "id"@)) {
        if id.len() == 0 {
            assert(id =~= Seq::<char>::empty());
        }
    }
}

proof fn scan_ignores_position(s: ScanView, t: ScanView, lines: Seq<Seq<char>>)
    requires
        same_content(s.cursor, t.cursor),
        s.offset == t.offset,
        lines_settled(lines),
    ensures
        same_content(spec_scan(s, lines).0.cursor, spec_scan(t, lines).0.cursor),
        spec_scan(s, lines).0.offset == spec_scan(t, lines).0.offset,
        spec_scan(s, lines).1 == spec_scan(t, lines).1,
        spec_scan(s, lines).2 == spec_scan(t, lines).2,
    decreases lines.len(),
{
    if lines.len() > 0 {
        let line = lines[0];
        assert(line_is_settled(lines[0]));
        let (s1, _) = crate::scan::spec_accept(s, line);
        let (t1, _) = crate::scan::spec_accept(t, line);
        if let Some(record) = json_document(line) {
            record_ignores_position(s1.cursor, t1.cursor, record, s1.modified_ms, t1.modified_ms, s1.line_start);
        }
        let (s2, _, _) = crate::scan::spec_step(s, line);
        let (t2, _, _) = crate::scan::spec_step(t, line);
        assert(lines_settled(lines.drop_first())) by {
            assert forall|i: int| 0 <= i < lines.drop_first().len() implies line_is_settled(
                #[trigger] lines.drop_first()[i],
            ) by {
                assert(lines.drop_first()[i] == lines[i + 1]);
            }
        }
        scan_ignores_position(s2, t2, lines.drop_first());
    }
}

proof fn scan_keeps_thread(s: ScanView, lines: Seq<Seq<char>>, path_thread_id: Seq<char>)
    requires
        thread_kept(s.cursor, path_thread_id),
        lines_settled(lines),
    ensures
        thread_kept(spec_scan(s, lines).0.cursor, path_thread_id),
    decreases lines.len(),
{
    if lines.len() > 0 {
        let line = lines[0];
        assert(line_is_settled(lines[0]));
        let (s1, _) = crate::scan::spec_accept(s, line);
        if let Some(record) = json_document(line) {
            record_keeps_thread(s1.cursor, record, s1.modified_ms, s1.line_start, path_thread_id);
        }
        let (s2, _, _) = crate::scan::spec_step(s, line);
        assert(lines_settled(lines.drop_first())) by {
            assert forall|i: int| 0 <= i < lines.drop_first().len() implies line_is_settled(
                #[trigger] lines.drop_first()[i],
            ) by {
                assert(lines.drop_first()[i] == lines[i + 1]);
            }
        }
        scan_keeps_thread(s2, lines.drop_first(), path_thread_id);
    }
}

proof fn complete_lines_are_consumed(s: ScanView, lines: Seq<Seq<char>>)
    requires
        all_complete(lines),
    ensures
        spec_scan(s, lines).2,
    decreases lines.len(),
{
    if lines.len() > 0 {
        assert(is_complete_line(lines[0]));
        let (s2, _, _) = crate::scan::spec_step(s, lines[0]);
        assert(all_complete(lines.drop_first())) by {
            assert forall|i: int| 0 <= i < lines.drop_first().len() implies is_complete_line(
                #[trigger] lines.drop_first()[i],
            ) by {
                assert(lines.drop_first()[i] == lines[i + 1]);
            }
        }
        complete_lines_are_consumed(s2, lines.drop_first());
    }
}

proof fn scan_of_concatenation(s: ScanView, first: Seq<Seq<char>>, rest: Seq<Seq<char>>)
    requires
        spec_scan(s, first).2,
    ensures
        spec_scan(s, first + rest).0 == spec_scan(spec_scan(s, first).0, rest).0,
        spec_scan(s, first + rest).1 == spec_scan(s, first).1 + spec_scan(spec_scan(s, first).0, rest).1,
    decreases first.len(),
{
    if first.len() == 0 {
        assert(first + rest =~= rest);
        assert(spec_scan(s, first).1 + spec_scan(s, rest).1 =~= spec_scan(s, rest).1);
    } else {
        assert((first + rest)[0] == first[0]);
        assert((first + rest).drop_first() =~= first.drop_first() + rest);
        let (s1, e, _) = crate::scan::spec_step(s, first[0]);
        scan_of_concatenation(s1, first.drop_first(), rest);
        let a = spec_scan(s1, first.drop_first());
        let b = spec_scan(a.0, rest);
        assert(crate::scan::event_seq(e) + (a.1 + b.1) =~= (crate::scan::event_seq(e) + a.1) + b.1);
    }
}

/// Importing a log in two pieces gives what importing it at once gives.
///
/// A first import reads `first` (complete lines) from a new file, at file
/// size `size1` and modification time `ms1`; after the file has grown by
/// `rest`, a second import resumes from the cursor the first one left. A
/// single import of `first + rest` at the final size and time yields the
/// same events, in the same order, and leaves the same cursor. This holds
/// when every token count carries its own timestamp (else its time is the
/// file's modification time, which differs between the two imports) and no
/// session record sets an empty thread id (an import takes the file name's
/// thread id in place of an empty one).
pub proof fn importing_in_pieces_equals_importing_at_once(
    path_thread_id: Seq<char>,
    first: Seq<Seq<char>>,
    rest: Seq<Seq<char>>,
    ms1: i64,
    size1: u64,
    ms2: i64,
    size2: u64,
)
    requires
        all_complete(first),
        lines_settled(first + rest),
    ensures
        ({
            let a1 = spec_scan(spec_begin(empty_cursor(), false, ms1, path_thread_id), first);
            let c1 = finish_view(a1.0.cursor, a1.0.offset, size1, ms1);
            let a2 = spec_scan(spec_begin(c1, false, ms2, path_thread_id), rest);
            let b = spec_scan(spec_begin(empty_cursor(), false, ms2, path_thread_id), first + rest);
            &&& finish_view(a2.0.cursor, a2.0.offset, size2, ms2) == finish_view(
                b.0.cursor,
                b.0.offset,
                size2,
                ms2,
            )
            &&& a1.1 + a2.1 == b.1
        }),
{
    assert(lines_settled(first)) by {
        assert forall|i: int| 0 <= i < first.len() implies line_is_settled(#[trigger] first[i]) by {
            assert((first + rest)[i] == first[i]);
        }
    }
    assert(lines_settled(rest)) by {
        assert forall|i: int| 0 <= i < rest.len() implies line_is_settled(#[trigger] rest[i]) by {
            assert((first + rest)[first.len() + i] == rest[i]);
        }
    }
    let sa = spec_begin(empty_cursor(), false, ms1, path_thread_id);
    let sb = spec_begin(empty_cursor(), false, ms2, path_thread_id);
    let a1 = spec_scan(sa, first);
    let b1 = spec_scan(sb, first);
    complete_lines_are_consumed(sb, first);
    scan_of_concatenation(sb, first, rest);
    scan_ignores_position(sa, sb, first);
    scan_keeps_thread(sa, first, path_thread_id);
    let c1 = finish_view(a1.0.cursor, a1.0.offset, size1, ms1);
    let s2 = spec_begin(c1, false, ms2, path_thread_id);
    assert(same_content(s2.cursor, b1.0.cursor));
    scan_ignores_position(s2, b1.0, rest);
    let a2 = spec_scan(s2, rest);
    let b2 = spec_scan(b1.0, rest);
    assert(finish_view(a2.0.cursor, a2.0.offset, size2, ms2) == finish_view(b2.0.cursor, b2.0.offset, size2, ms2));
}

/// The model a `turn_context` record names: `payload.model`, else
/// `payload.info.model`, when that is a string.
pub open spec fn named_model(record: Json) -> Option<Seq<char>> {
    let payload = payload_of(record);
    opt_str(or_else(json_get(payload, "model"@), opt_get(json_get(payload, "info"@), "model"@)))
}

/// A `turn_context` record that names a model switches the session to that
/// model (normalized), whatever model it was on before, and yields no event.
pub proof fn turn_context_switches_model(c: CursorView, record: Json, modified_ms: i64, line_start: u64)
    requires
        opt_str(json_get(record, "type"@)) == Some("turn_context"@),
        named_model(record) is Some,
    ensures
        spec_apply_record(c, record, modified_ms, line_start).0.current_model == spec_normalize_model(
            named_model(record)->0,
        ),
        spec_apply_record(c, record, modified_ms, line_start).1 is None,
{
    reveal_strlit("session_meta");
    reveal_strlit("turn_context");
    assert("session_meta"@[0] != "turn_context"@[0]);
}

/// A `turn_context` record that names no model keeps the current one.
pub proof fn turn_context_without_model_keeps_model(c: CursorView, record: Json, modified_ms: i64, line_start: u64)
    requires
        opt_str(json_get(record, "type"@)) == Some("turn_context"@),
        named_model(record) is None,
    ensures
        spec_apply_record(c, record, modified_ms, line_start).0.current_model == c.current_model,
{    reveal_strlit("session_meta");
    reveal_strlit("turn_context");
    assert("session_meta"@[0] != "turn_context"@[0]);
}

/// A restarted import reads the file from its first byte with nothing
/// carried over but the thread id the file name gives; a resumed one goes on
/// from the stored offset with the stored state.
pub proof fn restart_reads_from_first_byte(stored: CursorView, modified_ms: i64, path_thread_id: Seq<char>)
    ensures
        spec_begin(stored, true, modified_ms, path_thread_id).offset == 0,
        spec_begin(stored, true, modified_ms, path_thread_id).line_start == 0,
        spec_begin(stored, true, modified_ms, path_thread_id).cursor == (CursorView {
            thread_id: path_thread_id,
            ..empty_cursor()
        }),
        spec_begin(stored, false, modified_ms, path_thread_id).offset == stored.byte_offset,
        spec_begin(stored, false, modified_ms, path_thread_id).line_start == stored.byte_offset,
        spec_begin(stored, false, modified_ms, path_thread_id).cursor.total == stored.total,
        spec_begin(stored, false, modified_ms, path_thread_id).cursor.current_model == stored.current_model,
{
}

/// The requested page is served when it exists (a page below 1 serves the
/// first, one past the end the last); it starts after all earlier pages;
/// the page size is held between 1 and 100, and there are just enough pages
/// for the matching events, at least one.
pub proof fn requested_page_is_served(page: u64, page_size: u64, total: u64)
    ensures
        spec_page_window(page, page_size, total).page_size == (if page_size < 1 {
            1
        } else if page_size > 100 {
            100
        } else {
            page_size
        }),
        1 <= spec_page_window(page, page_size, total).total_pages,
        total <= spec_page_window(page, page_size, total).total_pages * spec_page_window(
            page,
            page_size,
            total,
        ).page_size,
        spec_page_window(page, page_size, total).total_pages == 1 || (spec_page_window(
            page,
            page_size,
            total,
        ).total_pages - 1) * spec_page_window(page, page_size, total).page_size < total,
        1 <= page <= spec_page_window(page, page_size, total).total_pages ==> spec_page_window(
            page,
            page_size,
            total,
        ).page == page,
        page < 1 ==> spec_page_window(page, page_size, total).page == 1,
        page > spec_page_window(page, page_size, total).total_pages ==> spec_page_window(
            page,
            page_size,
            total,
        ).page == spec_page_window(page, page_size, total).total_pages,
        spec_page_window(page, page_size, total).offset == (spec_page_window(page, page_size, total).page - 1)
            * spec_page_window(page, page_size, total).page_size,
{
    let w = spec_page_window(page, page_size, total);
    let size = w.page_size;
    let raw = (total + size - 1) / (size as int);
    assert(0 <= raw <= total && total <= (if raw < 1 { 1 } else { raw }) * size && ((if raw < 1 { 1 } else { raw }) == 1 || ((if raw < 1 { 1 } else { raw }) - 1) * size < total)) by (nonlinear_arith)
        requires
            1 <= size,
            raw == (total + size - 1) / (size as int),
            0 <= total,
    ;
    let pages: int = if raw < 1 { 1 } else { raw };
    assert(w.total_pages == pages);
    let served: int = if page < 1 { 1 } else if page > pages { pages } else { page as int };
    assert(w.page == served);
    assert((served - 1) * size <= total) by (nonlinear_arith)
        requires
            1 <= served <= pages,
            1 <= size,
            pages == 1 || (pages - 1) * size < total,
            0 <= total,
    ;
}

/// A window of at most a day (86 400 000 ms) is shown by the hour, a longer
/// one by the day.
pub proof fn windows_of_a_day_or_less_are_hourly(start_at: i64, end_at: i64)
    ensures
        end_at - start_at <= 86_400_000 ==> is_hourly(start_at, end_at),
        end_at - start_at > 86_400_000 ==> !is_hourly(start_at, end_at),
{
}

} // verus!
