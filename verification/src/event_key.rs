//! How imported usage events are identified: their storage key (a SHA-256
//! digest, computed with sha2) and their request id.

use vstd::prelude::*;
use sha2::Digest;
use vstd::utf8::encode_utf8;
use crate::counters::TokenCounters;
use crate::text::{dec_int, dec_nat, hex_seq, push_decimal, push_signed_decimal, push_str, to_hex};

verus! {

/// The SHA-256 digest of a byte sequence.
pub uninterp spec fn sha256_digest(data: Seq<u8>) -> Seq<u8>;

/// Calls sha2's `Sha256::digest`. Claims that the result is the function of
/// the input named `sha256_digest`, and that it is 32 bytes long (SHA-256
/// digests are 256 bits).
#[verifier::external_body]
fn sha256(data: &[u8]) -> (r: Vec<u8>)
    ensures
        r@ == sha256_digest(data@),
        r@.len() == 32,
{
    sha2::Sha256::digest(data).to_vec()
}

/// The text that identifies a usage event: thread, instant, model and the
/// five counters, separated by `|`.
pub open spec fn key_message(thread_id: Seq<char>, timestamp: i64, model: Seq<char>, c: TokenCounters) -> Seq<char> {
    thread_id + seq!['|'] + dec_int(timestamp as int) + seq!['|'] + model + seq!['|']
        + dec_nat(c.input as nat) + seq!['|'] + dec_nat(c.cached_input as nat) + seq!['|']
        + dec_nat(c.output as nat) + seq!['|'] + dec_nat(c.reasoning_output as nat) + seq!['|']
        + dec_nat(c.total as nat)
}

/// The counters an event is identified by: the cumulative snapshot when the
/// record has one, else the event's own counts.
pub open spec fn key_signature(total: Option<TokenCounters>, delta: TokenCounters) -> TokenCounters {
    match total {
        Some(t) => t,
        None => delta,
    }
}

/// The key under which a usage event is stored: the lower-case hex SHA-256
/// of its identifying text.
pub open spec fn spec_event_key(
    thread_id: Seq<char>,
    timestamp: i64,
    model: Seq<char>,
    total: Option<TokenCounters>,
    delta: TokenCounters,
) -> Seq<char> {
    hex_seq(sha256_digest(encode_utf8(key_message(thread_id, timestamp, model, key_signature(total, delta)))))
}

/// The storage key of a usage event. The same session event read twice (a
/// replayed log, a re-imported file) gets the same key.
pub fn event_key(
    thread_id: &str,
    timestamp: i64,
    model: &str,
    total: Option<&TokenCounters>,
    delta: &TokenCounters,
) -> (r: String)
    ensures
        r@ == spec_event_key(
            thread_id@,
            timestamp,
            model@,
            match total { Some(t) => Some(*t), None => None },
            *delta,
        ),
        r@.len() == 64,
{
    let signature = match total {
        Some(t) => t,
        None => delta,
    };
    let mut message = String::new();
    push_str(&mut message, thread_id);
    message.push('|');
    push_signed_decimal(&mut message, timestamp);
    message.push('|');
    push_str(&mut message, model);
    message.push('|');
    push_decimal(&mut message, signature.input);
    message.push('|');
    push_decimal(&mut message, signature.cached_input);
    message.push('|');
    push_decimal(&mut message, signature.output);
    message.push('|');
    push_decimal(&mut message, signature.reasoning_output);
    message.push('|');
    push_decimal(&mut message, signature.total);
    let ghost sig = key_signature(match total { Some(t) => Some(*t), None => None }, *delta);
    assert(message@ =~= key_message(thread_id@, timestamp, model@, sig));
    let digest = sha256(message.as_str().as_bytes());
    to_hex(digest.as_slice())
}

/// The request id shown for an imported event: thread, instant and the byte
/// offset of its line in the session file.
pub open spec fn spec_request_id(thread_id: Seq<char>, timestamp: i64, line_start: u64) -> Seq<char> {
    "codex-session:"@ + thread_id + seq![':'] + dec_int(timestamp as int) + seq![':'] + dec_nat(
        line_start as nat,
    )
}

pub fn request_id(thread_id: &str, timestamp: i64, line_start: u64) -> (r: String)
    ensures
        r@ == spec_request_id(thread_id@, timestamp, line_start),
{
    let mut r = String::new();
    push_str(&mut r, "codex-session:");
    push_str(&mut r, thread_id);
    r.push(':');
    push_signed_decimal(&mut r, timestamp);
    r.push(':');
    push_decimal(&mut r, line_start);
    assert(r@ =~= spec_request_id(thread_id@, timestamp, line_start));
    r
}

} // verus!
