//! Token counters: reading them from a usage object and comparing snapshots.

use vstd::prelude::*;
use crate::json::{deref_opt, get_opt, opt_get, opt_u64, Json};

verus! {

/// Cumulative or per-request token counters reported by a Codex session.
#[derive(Clone, Copy, Debug, PartialEq, Eq)]
pub struct TokenCounters {
    pub input: u64,
    pub cached_input: u64,
    pub output: u64,
    pub reasoning_output: u64,
    pub total: u64,
}

/// Truncating subtraction on naturals, as `u64::saturating_sub` computes it.
pub open spec fn sat_sub(a: u64, b: u64) -> u64 {
    if a >= b { (a - b) as u64 } else { 0 }
}

impl TokenCounters {
    /// All counters at zero.
    pub fn zero() -> (r: TokenCounters)
        ensures
            r == (TokenCounters { input: 0, cached_input: 0, output: 0, reasoning_output: 0, total: 0 }),
    {
        TokenCounters { input: 0, cached_input: 0, output: 0, reasoning_output: 0, total: 0 }
    }
}

/// Field-wise growth from `previous` to `current`, never below zero.
pub open spec fn spec_counter_delta(previous: TokenCounters, current: TokenCounters) -> TokenCounters {
    TokenCounters {
        input: sat_sub(current.input, previous.input),
        cached_input: sat_sub(current.cached_input, previous.cached_input),
        output: sat_sub(current.output, previous.output),
        reasoning_output: sat_sub(current.reasoning_output, previous.reasoning_output),
        total: sat_sub(current.total, previous.total),
    }
}

/// How much each counter grew between two cumulative snapshots.
pub fn counter_delta(previous: &TokenCounters, current: &TokenCounters) -> (r: TokenCounters)
    ensures
        r == spec_counter_delta(*previous, *current),
{
    TokenCounters {
        input: current.input.saturating_sub(previous.input),
        cached_input: current.cached_input.saturating_sub(previous.cached_input),
        output: current.output.saturating_sub(previous.output),
        reasoning_output: current.reasoning_output.saturating_sub(previous.reasoning_output),
        total: current.total.saturating_sub(previous.total),
    }
}

/// The views of a list of keys.
pub open spec fn key_views(keys: Seq<&str>) -> Seq<Seq<char>> {
    keys.map_values(|k: &str| k@)
}

/// The first of `keys` under which `value` holds a `u64`, or 0.
pub open spec fn first_u64(value: Option<Json>, keys: Seq<Seq<char>>) -> u64
    decreases keys.len(),
{
    if keys.len() == 0 {
        0
    } else {
        match opt_u64(opt_get(value, keys[0])) {
            Some(n) => n,
            None => first_u64(value, keys.drop_first()),
        }
    }
}

/// The number stored under the first of `keys` that holds a `u64`, or 0.
pub fn value_u64(value: Option<&Json>, keys: &[&str]) -> (r: u64)
    ensures
        r == first_u64(deref_opt(value), key_views(keys@)),
{
    let mut i: usize = 0;
    assert(key_views(keys@).skip(0) =~= key_views(keys@));
    while i < keys.len()
        invariant
            i <= keys@.len(),
            first_u64(deref_opt(value), key_views(keys@))
                == first_u64(deref_opt(value), key_views(keys@).skip(i as int)),
        decreases keys.len() - i,
    {
        assert(key_views(keys@).skip(i as int).drop_first() =~= key_views(keys@).skip(i + 1));
        assert(key_views(keys@).skip(i as int)[0] == keys@[i as int]@);
        let found = get_opt(value, keys[i]);
        match found {
            Some(item) => match item.as_u64() {
                Some(n) => return n,
                None => {},
            },
            None => {},
        }
        i += 1;
    }
    assert(key_views(keys@).skip(i as int) =~= Seq::<Seq<char>>::empty());
    0
}

/// The counters that a usage object reports, each 0 where it is missing.
pub open spec fn counters_of(value: Json) -> TokenCounters {
    let v = Some(value);
    TokenCounters {
        input: first_u64(v, seq!["input_tokens"@]),
        cached_input: first_u64(v, seq!["cached_input_tokens"@, "cache_read_input_tokens"@]),
        output: first_u64(v, seq!["output_tokens"@]),
        reasoning_output: first_u64(v, seq!["reasoning_output_tokens"@]),
        total: first_u64(v, seq!["total_tokens"@]),
    }
}

/// Whether a counter snapshot reports any usage at all.
pub open spec fn reports_usage(c: TokenCounters) -> bool {
    c.input > 0 || c.output > 0 || c.total > 0
}

/// A usage object read as counters: present when `value` is an object that
/// reports some input, output or total tokens.
pub open spec fn spec_parse_counters(value: Option<Json>) -> Option<TokenCounters> {
    match value {
        Some(v) => if v is Object && reports_usage(counters_of(v)) {
            Some(counters_of(v))
        } else {
            None
        },
        None => None,
    }
}

/// Reads a token usage object.
pub fn parse_counters(value: Option<&Json>) -> (r: Option<TokenCounters>)
    ensures
        r == spec_parse_counters(deref_opt(value)),
{
    let root = match value {
        Some(v) => v,
        None => return None,
    };
    if !root.is_object() {
        return None;
    }
    let k_input = ["input_tokens"];
    let k_cached = ["cached_input_tokens", "cache_read_input_tokens"];
    let k_output = ["output_tokens"];
    let k_reasoning = ["reasoning_output_tokens"];
    let k_total = ["total_tokens"];
    proof {
        assert(key_views(k_input@) =~= seq!["input_tokens"@]);
        assert(key_views(k_cached@) =~= seq!["cached_input_tokens"@, "cache_read_input_tokens"@]);
        assert(key_views(k_output@) =~= seq!["output_tokens"@]);
        assert(key_views(k_reasoning@) =~= seq!["reasoning_output_tokens"@]);
        assert(key_views(k_total@) =~= seq!["total_tokens"@]);
    }
    let counters = TokenCounters {
        input: value_u64(Some(root), &k_input),
        cached_input: value_u64(Some(root), &k_cached),
        output: value_u64(Some(root), &k_output),
        reasoning_output: value_u64(Some(root), &k_reasoning),
        total: value_u64(Some(root), &k_total),
    };
    if counters.input > 0 || counters.output > 0 || counters.total > 0 {
        Some(counters)
    } else {
        None
    }
}

} // verus!
