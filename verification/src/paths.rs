//! File names of session logs and of the usage cache, and which files an
//! import looks at.

use vstd::prelude::*;
use vstd::utf8::{decode_utf8, encode_utf8, is_char_boundary};
use crate::text::{byte_prefix, byte_suffix, chars_of, find_last, last_index_of, starts_with, starts_with_seq, string_from_range};

verus! {

/// File name of the usage cache inside the application's data directory.
pub const SESSION_USAGE_DB_FILE: &'static str = "codex_session_usage.sqlite";

/// How many directory levels below a sessions root are searched for logs.
pub const MAX_SESSION_DEPTH: usize = 4;

/// `Path::file_stem` of a file name: the name without its last extension.
pub open spec fn spec_file_stem(name: Seq<char>) -> Seq<char> {
    let d = last_index_of(name, '.');
    if name == ".."@ || d <= 0 {
        name
    } else {
        name.take(d)
    }
}

/// `Path::extension` of a file name: the text after its last `.`, unless that
/// `.` starts the name.
pub open spec fn spec_file_extension(name: Seq<char>) -> Option<Seq<char>> {
    let d = last_index_of(name, '.');
    if name == ".."@ || d <= 0 {
        None
    } else {
        Some(name.skip(d + 1))
    }
}

fn is_dot_dot(chars: &Vec<char>) -> (r: bool)
    ensures
        r == (chars@ == ".."@),
{
    proof {
        reveal_strlit("..");
    }
    let r = chars.len() == 2 && chars[0] == '.' && chars[1] == '.';
    proof {
        if r {
            assert(chars@ =~= ".."@);
        }
    }
    r
}

/// The stem of a file name.
pub fn file_stem(name: &str) -> (r: String)
    ensures
        r@ == spec_file_stem(name@),
{
    let chars = chars_of(name);
    if is_dot_dot(&chars) {
        return name.to_owned();
    }
    match find_last(&chars, '.') {
        Some(d) if d > 0 => string_from_range(&chars, 0, d),
        _ => name.to_owned(),
    }
}

/// The extension of a file name.
pub fn file_extension(name: &str) -> (r: Option<String>)
    ensures
        match r {
            Some(e) => spec_file_extension(name@) == Some(e@),
            None => spec_file_extension(name@) is None,
        },
{
    let chars = chars_of(name);
    if is_dot_dot(&chars) {
        return None;
    }
    match find_last(&chars, '.') {
        Some(d) if d > 0 => {
            assert(d < chars.len());
            let e = string_from_range(&chars, d + 1, chars.len());
            assert(e@ =~= name@.skip(d + 1));
            Some(e)
        },
        _ => None,
    }
}

/// Whether a file is a session log: its extension is `jsonl`.
pub open spec fn spec_is_session_log(file_name: Option<Seq<char>>) -> bool {
    match file_name {
        Some(n) => spec_file_extension(n) == Some("jsonl"@),
        None => false,
    }
}

/// Whether a directory entry with this file name is a session log to import.
pub fn is_session_log(file_name: Option<&str>) -> (r: bool)
    ensures
        r == spec_is_session_log(match file_name { Some(n) => Some(n@), None => None }),
{
    match file_name {
        Some(n) => match file_extension(n) {
            Some(e) => e == "jsonl".to_owned(),
            None => false,
        },
        None => false,
    }
}

/// Whether the search for session logs goes on at this depth.
pub fn should_scan_depth(depth: usize) -> (r: bool)
    ensures
        r == (depth <= MAX_SESSION_DEPTH),
{
    depth <= MAX_SESSION_DEPTH
}

/// The last `keep` bytes of `bytes` when they start at a character boundary; empty otherwise.
pub open spec fn tail_bytes(bytes: Seq<u8>, keep: nat) -> Seq<u8> {
    let start = if bytes.len() > keep { bytes.len() - keep } else { 0 };
    if is_char_boundary(bytes, start) {
        bytes.subrange(start, bytes.len() as int)
    } else {
        seq![]
    }
}

/// The UTF-8 bytes of the thread id that a session file's name carries: the
/// last 36 bytes of its stem (the session UUID).
pub open spec fn spec_thread_id_bytes(file_name: Option<Seq<char>>) -> Seq<u8> {
    match file_name {
        Some(n) => tail_bytes(encode_utf8(spec_file_stem(n)), 36),
        None => seq![],
    }
}

/// The thread id that a session file's name carries.
pub open spec fn spec_thread_id(file_name: Option<Seq<char>>) -> Seq<char> {
    decode_utf8(spec_thread_id_bytes(file_name))
}

/// The thread id of a session file, taken from the end of its name.
pub fn thread_id_from_path(file_name: Option<&str>) -> (r: String)
    ensures
        encode_utf8(r@) == spec_thread_id_bytes(match file_name { Some(n) => Some(n@), None => None }),
        r@ == spec_thread_id(match file_name { Some(n) => Some(n@), None => None }),
{
    broadcast use vstd::utf8::encode_utf8_decode_utf8;

    match file_name {
        Some(n) => {
            let stem = file_stem(n);
            let stem_str = stem.as_str();
            let len = stem_str.as_bytes().len();
            let start = len.saturating_sub(36);
            match byte_suffix(stem_str, start) {
                Some(t) => t,
                None => {
                    let empty = String::new();
                    assert(encode_utf8(empty@) =~= Seq::<u8>::empty());
                    empty
                },
            }
        },
        None => {
            let empty = String::new();
            assert(encode_utf8(empty@) =~= Seq::<u8>::empty());
            empty
        },
    }
}

/// The UTF-8 bytes of a session file name after its `rollout-` prefix; the
/// date part is the first ten of them.
pub open spec fn rollout_rest(name: Seq<char>) -> Seq<u8> {
    encode_utf8(name.skip(8))
}

/// Whether a session file name carries a date part.
pub open spec fn has_rollout_date(file_name: Option<Seq<char>>) -> bool {
    match file_name {
        Some(n) => starts_with_seq(n, "rollout-"@) && is_char_boundary(rollout_rest(n), 10),
        None => false,
    }
}

/// The date part of a `rollout-YYYY-MM-DD...` session file name.
pub fn rollout_date(file_name: Option<&str>) -> (r: Option<String>)
    ensures
        r is Some <==> has_rollout_date(match file_name { Some(n) => Some(n@), None => None }),
        r matches Some(d) ==> encode_utf8(d@) == rollout_rest(file_name->0@).take(10),
{
    proof {
        reveal_strlit("rollout-");
    }
    let name = match file_name {
        Some(n) => n,
        None => return None,
    };
    let chars = chars_of(name);
    let prefix = chars_of("rollout-");
    if !starts_with(&chars, &prefix) {
        return None;
    }
    let rest = string_from_range(&chars, prefix.len(), chars.len());
    assert(rest@ =~= name@.skip(8));
    byte_prefix(rest.as_str(), 10)
}

/// Whether a session file matters for a query window: it started no later
/// than the window's end (an unknown start counts as 0) and was last
/// modified no earlier than the window's start.
pub open spec fn spec_session_in_range(started: Option<i64>, modified_ms: i64, start_at: i64, end_at: i64) -> bool {
    (match started { Some(s) => s, None => 0 }) <= end_at && modified_ms >= start_at
}

pub fn session_in_range(started: Option<i64>, modified_ms: i64, start_at: i64, end_at: i64) -> (r: bool)
    ensures
        r == spec_session_in_range(started, modified_ms, start_at, end_at),
{
    let s = match started {
        Some(s) => s,
        None => 0,
    };
    s <= end_at && modified_ms >= start_at
}

/// A file's modification time in milliseconds since the epoch, capped at
/// `i64::MAX`; 0 when the time is unknown or before the epoch.
pub fn metadata_modified_ms(millis: Option<u128>) -> (r: i64)
    ensures
        r == match millis {
            Some(m) => if m <= i64::MAX { m as i64 } else { i64::MAX },
            None => 0i64,
        },
{
    match millis {
        Some(m) => if m <= i64::MAX as u128 {
            m as i64
        } else {
            i64::MAX
        },
        None => 0,
    }
}

/// `PathBuf::join` of a plain file name onto a directory, with `/` as separator.
pub open spec fn spec_join(dir: Seq<char>, file: Seq<char>) -> Seq<char> {
    if dir.len() == 0 || dir.last() == '/' {
        dir + file
    } else {
        dir + seq!['/'] + file
    }
}

/// Where the usage cache lives inside the application's data directory.
pub fn session_usage_db_path(data_dir: &str) -> (r: String)
    ensures
        r@ == spec_join(data_dir@, SESSION_USAGE_DB_FILE@),
{
    let chars = chars_of(data_dir);
    let mut r = data_dir.to_owned();
    if chars.len() > 0 && chars[chars.len() - 1] != '/' {
        r.push('/');
    }
    crate::text::push_str(&mut r, SESSION_USAGE_DB_FILE);
    r
}

} // verus!
