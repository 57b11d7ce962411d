//! Keeping the usage cache's layout current, and counting the outcome of a
//! synchronisation pass.

use vstd::prelude::*;
use crate::query::SESSION_USAGE_SCHEMA_VERSION;
use crate::text::{chars_of, push_str};

verus! {

/// Whether a character is an ASCII decimal digit.
pub open spec fn is_digit(c: char) -> bool {
    '0' <= c <= '9'
}

/// The number written by a sequence of decimal digits.
pub open spec fn digits_value(d: Seq<char>) -> int
    decreases d.len(),
{
    if d.len() == 0 {
        0
    } else {
        digits_value(d.drop_last()) * 10 + ((d.last() as u32) - 48)
    }
}

/// Whether a text starts with a sign.
pub open spec fn has_sign(s: Seq<char>) -> bool {
    s.len() > 0 && (s[0] == '-' || s[0] == '+')
}

/// The text after an optional leading sign.
pub open spec fn digits_part(s: Seq<char>) -> Seq<char> {
    if has_sign(s) { s.skip(1) } else { s }
}

/// Whether every character is a decimal digit.
pub open spec fn all_digits(d: Seq<char>) -> bool {
    forall|i: int| 0 <= i < d.len() ==> is_digit(#[trigger] d[i])
}

/// What `str::parse::<i64>` gives: an optional `+` or `-` followed by at
/// least one decimal digit and nothing else, whose value fits in an `i64`.
pub open spec fn spec_parse_i64(s: Seq<char>) -> Option<i64> {
    let digits = digits_part(s);
    let value = if s.len() > 0 && s[0] == '-' { -digits_value(digits) } else { digits_value(digits) };
    if digits.len() > 0 && all_digits(digits) && i64::MIN <= value <= i64::MAX {
        Some(value as i64)
    } else {
        None
    }
}

proof fn lemma_digits_value_grows(d: Seq<char>, i: int)
    requires
        0 <= i <= d.len(),
        all_digits(d),
    ensures
        digits_value(d.take(i)) <= digits_value(d),
        0 <= digits_value(d.take(i)),
    decreases d.len(),
{
    if i < d.len() {
        lemma_digits_value_grows(d.drop_last(), i);
        assert(d.drop_last().take(i) =~= d.take(i));
        lemma_digits_value_grows(d.drop_last(), d.len() - 1);
        assert(d.drop_last().take(d.len() - 1) =~= d.drop_last());
    } else {
        assert(d.take(i) =~= d);
        if d.len() > 0 {
            lemma_digits_value_grows(d.drop_last(), d.len() - 1);
            assert(d.drop_last().take(d.len() - 1) =~= d.drop_last());
        }
    }
}

/// Reads a decimal `i64` as `str::parse::<i64>` does.
pub fn parse_i64(s: &str) -> (r: Option<i64>)
    ensures
        r == spec_parse_i64(s@),
{
    let chars = chars_of(s);
    let n = chars.len();
    let negative = n > 0 && chars[0] == '-';
    let signed = n > 0 && (chars[0] == '-' || chars[0] == '+');
    let start: usize = if signed { 1 } else { 0 };
    let ghost digits = digits_part(s@);
    assert(digits =~= s@.subrange(start as int, n as int));
    if start >= n {
        return None;
    }
    let limit: u64 = if negative { 9223372036854775808u64 } else { 9223372036854775807u64 };
    let mut acc: u64 = 0;
    let mut i = start;
    while i < n
        invariant
            start <= i <= n == chars@.len(),
            chars@ == s@,
            digits =~= s@.subrange(start as int, n as int),
            acc as int == digits_value(digits.take(i - start)),
            acc <= limit,
            limit == if negative { 9223372036854775808u64 } else { 9223372036854775807u64 },
            negative == (s@.len() > 0 && s@[0] == '-'),
            signed == (s@.len() > 0 && (s@[0] == '-' || s@[0] == '+')),
            digits == digits_part(s@),
            start == if signed { 1usize } else { 0usize },
            forall|k: int| 0 <= k < i - start ==> is_digit(#[trigger] digits[k]),
        decreases n - i,
    {
        let c = chars[i];
        assert(digits[i - start] == c);
        if !('0' <= c && c <= '9') {
            assert(!is_digit(digits[i - start]));
            assert(!all_digits(digits));
            return None;
        }
        let d = (c as u32 - 48) as u64;
        assert(d <= 9);
        assert(digits.take(i - start + 1).drop_last() =~= digits.take(i - start));
        if acc > (limit - d) / 10 {
            proof {
                assert(forall|k: int| 0 <= k < i - start + 1 ==> is_digit(#[trigger] digits[k]));
                assert(digits_value(digits.take(i - start + 1)) > limit) by (nonlinear_arith)
                    requires
                        digits_value(digits.take(i - start + 1)) == acc * 10 + d,
                        acc > (limit - d) / 10,
                        d <= 9,
                        limit >= 9,
                ;
                if all_digits(digits) {
                    lemma_digits_value_grows(digits, i - start + 1);
                    assert(digits_value(digits) > limit);
                    if negative {
                        assert(-digits_value(digits) < i64::MIN);
                    }
                }
            }
            return None;
        }
        assert(acc * 10 + d <= limit) by (nonlinear_arith)
            requires
                acc <= (limit - d) / 10,
                d <= 9,
                limit >= 9,
        ;
        acc = acc * 10 + d;
        i += 1;
    }
    assert(digits.take(n - start) =~= digits);
    if negative {
        if acc == 9223372036854775808u64 {
            Some(i64::MIN)
        } else {
            Some(-(acc as i64))
        }
    } else {
        Some(acc as i64)
    }
}

/// Whether a cache with this stored schema version must be cleared: unless
/// the stored text reads as the current version.
pub open spec fn spec_schema_needs_reset(stored: Option<Seq<char>>) -> bool {
    match stored {
        Some(s) => spec_parse_i64(s) != Some(SESSION_USAGE_SCHEMA_VERSION),
        None => true,
    }
}

pub fn schema_needs_reset(stored: Option<&str>) -> (r: bool)
    ensures
        r == spec_schema_needs_reset(match stored { Some(s) => Some(s@), None => None }),
{
    match stored {
        Some(s) => match parse_i64(s) {
            Some(v) => v != SESSION_USAGE_SCHEMA_VERSION,
            None => true,
        },
        None => true,
    }
}

/// Whether `column` is among the columns a table already has.
pub open spec fn has_column(existing: Seq<String>, column: Seq<char>) -> bool {
    exists|i: int| 0 <= i < existing.len() && (#[trigger] existing[i])@ == column
}

/// The statement that adds a missing column to a cache table: nothing when
/// the table already has the column, `ALTER TABLE ... ADD COLUMN ...` otherwise.
pub fn column_to_add(existing: &Vec<String>, table: &str, column: &str, definition: &str) -> (r: Option<String>)
    ensures
        r is None <==> has_column(existing@, column@),
        r matches Some(sql) ==> sql@ == "ALTER TABLE "@ + table@ + " ADD COLUMN "@ + column@ + seq![' '] + definition@,
{
    let wanted = column.to_owned();
    let mut i: usize = 0;
    while i < existing.len()
        invariant
            i <= existing@.len(),
            wanted@ == column@,
            forall|k: int| 0 <= k < i ==> existing@[k]@ != column@,
        decreases existing.len() - i,
    {
        if existing[i] == wanted {
            return None;
        }
        i += 1;
    }
    let mut sql = String::new();
    push_str(&mut sql, "ALTER TABLE ");
    push_str(&mut sql, table);
    push_str(&mut sql, " ADD COLUMN ");
    push_str(&mut sql, column);
    sql.push(' ');
    push_str(&mut sql, definition);
    Some(sql)
}

/// The statement that lists a table's columns.
pub fn table_info_sql(table: &str) -> (r: String)
    ensures
        r@ == "PRAGMA table_info("@ + table@ + seq![')'],
{
    let mut sql = String::new();
    push_str(&mut sql, "PRAGMA table_info(");
    push_str(&mut sql, table);
    sql.push(')');
    sql
}

/// Counts of one synchronisation pass over the session files.
#[derive(PartialEq, Eq, Structural, Debug, Clone, Copy)]
pub struct SyncResult {
    pub files_scanned: u64,
    pub files_updated: u64,
    pub parse_errors: u64,
}

impl SyncResult {
    /// A pass over `files_scanned` files, none of them synced yet.
    pub fn new(files_scanned: u64) -> (r: SyncResult)
        ensures
            r == (SyncResult { files_scanned, files_updated: 0, parse_errors: 0 }),
    {
        SyncResult { files_scanned, files_updated: 0, parse_errors: 0 }
    }

    /// Counts how syncing one more file went: `Ok(true)` when it imported
    /// something, `Ok(false)` when it was unchanged, `Err` when it failed.
    pub fn record(&mut self, outcome: &Result<bool, String>)
        requires
            old(self).files_updated + old(self).parse_errors < old(self).files_scanned,
        ensures
            final(self).files_scanned == old(self).files_scanned,
            final(self).files_updated == old(self).files_updated + if outcome matches Ok(true) { 1int } else { 0 },
            final(self).parse_errors == old(self).parse_errors + if outcome is Err { 1int } else { 0 },
    {
        match outcome {
            Ok(true) => self.files_updated = self.files_updated + 1,
            Ok(false) => {},
            Err(_) => self.parse_errors = self.parse_errors + 1,
        }
    }
}

} // verus!
