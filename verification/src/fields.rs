//! Reading the descriptive fields of session records: model names, source
//! labels, free-text fields and reasoning effort.

use vstd::prelude::*;
use crate::json::{deref_opt, json_get, opt_get, opt_str, or_else, str_of, Json};
use crate::text::{lower_seq, to_ascii_lower, trim, trim_seq};

verus! {

/// The part of `s` after the last occurrence of `c`, or all of `s` when `c` does not occur.
pub open spec fn after_last(s: Seq<char>, c: char) -> Seq<char>
    decreases s.len(),
{
    if s.len() == 0 {
        s
    } else if s.last() == c {
        seq![]
    } else {
        after_last(s.drop_last(), c).push(s.last())
    }
}

proof fn lemma_after_last(s: Seq<char>, c: char, j: int)
    requires
        0 <= j <= s.len(),
        forall|k: int| j <= k < s.len() ==> s[k] != c,
        j == 0 || s[j - 1] == c,
    ensures
        after_last(s, c) == s.skip(j),
    decreases s.len(),
{
    if s.len() == j {
        assert(s.skip(j) =~= Seq::<char>::empty());
    } else {
        lemma_after_last(s.drop_last(), c, j);
        assert(s.drop_last().skip(j).push(s.last()) =~= s.skip(j));
    }
}

/// A model name as the importer stores it: trimmed, ASCII-lowercased, and
/// without any provider prefix up to the last `/`.
pub open spec fn spec_normalize_model(raw: Seq<char>) -> Seq<char> {
    after_last(lower_seq(trim_seq(raw)), '/')
}

/// Normalizes a model name such as `OpenAI/GPT-5.4` to `gpt-5.4`.
pub fn normalize_model(raw: &str) -> (r: String)
    ensures
        r@ == spec_normalize_model(raw@),
{
    let trimmed = trim(raw);
    let lowered = to_ascii_lower(trimmed.as_str());
    let chars = crate::text::chars_of(lowered.as_str());
    let n = chars.len();
    let mut j = n;
    while j > 0 && chars[j - 1] != '/'
        invariant
            j <= n == chars@.len(),
            forall|k: int| j <= k < n ==> chars@[k] != '/',
        decreases j,
    {
        j -= 1;
    }
    proof {
        lemma_after_last(chars@, '/', j as int);
        assert(chars@.skip(j as int) =~= chars@.subrange(j as int, n as int));
    }
    crate::text::string_from_range(&chars, j, n)
}

/// The text of a string value, trimmed; empty for anything else.
pub open spec fn spec_string_field(value: Option<Json>) -> Seq<char> {
    match opt_str(value) {
        Some(s) => trim_seq(s),
        None => seq![],
    }
}

/// Reads an optional text field: trimmed, or empty when absent or not a string.
pub fn string_field(value: Option<&Json>) -> (r: String)
    ensures
        r@ == spec_string_field(deref_opt(value)),
{
    match str_of(value) {
        Some(s) => trim(s),
        None => String::new(),
    }
}

/// The label of a session's `source` field: a non-blank string as written
/// (trimmed), `subagent` for an object with a `subagent` field, and
/// `codex_session` otherwise.
pub open spec fn spec_source_label(value: Option<Json>) -> Seq<char> {
    match value {
        Some(Json::Str(label)) if trim_seq(label@).len() > 0 => trim_seq(label@),
        Some(Json::Object(fields)) if json_get(Json::Object(fields), "subagent"@) is Some => "subagent"@,
        _ => "codex_session"@,
    }
}

/// Reads where a session came from.
pub fn source_label(value: Option<&Json>) -> (r: String)
    ensures
        r@ == spec_source_label(deref_opt(value)),
{
    match value {
        Some(Json::Str(label)) => {
            let trimmed = trim(label.as_str());
            if !trimmed.as_str().is_empty() {
                return trimmed;
            }
        },
        Some(object) => {
            if object.is_object() && object.get("subagent").is_some() {
                return "subagent".to_owned();
            }
        },
        None => {},
    }
    "codex_session".to_owned()
}

/// Where a turn context states its reasoning effort: `effort`, else
/// `reasoning_effort`, else `collaboration_mode.settings.reasoning_effort`,
/// the first of them that is present.
pub open spec fn effort_value(payload: Json) -> Option<Json> {
    or_else(
        json_get(payload, "effort"@),
        or_else(
            json_get(payload, "reasoning_effort"@),
            opt_get(opt_get(json_get(payload, "collaboration_mode"@), "settings"@), "reasoning_effort"@),
        ),
    )
}

/// The reasoning effort of a turn context: trimmed and ASCII-lowercased, or empty.
pub open spec fn spec_reasoning_effort(payload: Json) -> Seq<char> {
    lower_seq(spec_string_field(effort_value(payload)))
}

/// Reads the reasoning effort of a turn context.
pub fn reasoning_effort(payload: &Json) -> (r: String)
    ensures
        r@ == spec_reasoning_effort(*payload),
{
    let first = payload.get("effort");
    let chosen = if first.is_some() {
        first
    } else {
        let second = payload.get("reasoning_effort");
        if second.is_some() {
            second
        } else {
            let mode = payload.get("collaboration_mode");
            let settings = crate::json::get_opt(mode, "settings");
            crate::json::get_opt(settings, "reasoning_effort")
        }
    };
    let value = string_field(chosen);
    to_ascii_lower(value.as_str())
}

} // verus!
