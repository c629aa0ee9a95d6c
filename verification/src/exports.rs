//! The logic behind the host functions that the runtime module imports: growing linear memory
//! a page at a time, and reading dates.
use vstd::prelude::*;

verus! {

/// The size of a WebAssembly linear memory page, in bytes.
pub const WASM_PAGE_SIZE: usize = 65536;

/// The number of `interval`-sized steps needed to hold `value` (at least one).
pub open spec fn spec_pad_to_next(value: nat, interval: nat) -> nat {
    1 + (if value == 0 {
        0
    } else {
        (value - 1) as nat
    }) / interval
}

/// The number of `interval`-sized steps needed to hold `value`; never less than one.
pub fn pad_to_next(value: usize, interval: usize) -> (result: usize)
    requires
        interval > 0,
    ensures
        result == spec_pad_to_next(value as nat, interval as nat),
{
    let below = if value == 0 {
        0
    } else {
        value - 1
    };
    assert(below / interval <= below) by {
        vstd::arithmetic::div_mod::lemma_div_is_ordered_by_denominator(below as int, 1, interval as int);
    }
    assert(below / interval < usize::MAX);
    1 + below / interval
}

/// Padding covers the value, and no fewer steps would: for a positive value `v`, `n` steps of
/// size `s` hold it and `n - 1` do not.
pub proof fn law_pad_to_next_is_least_cover(value: nat, interval: nat)
    requires
        interval > 0,
    ensures
        value <= spec_pad_to_next(value, interval) * interval,
        value > 0 ==> (spec_pad_to_next(value, interval) - 1) * interval < value,
        value == 0 ==> spec_pad_to_next(value, interval) == 1,
{
    let below: nat = if value == 0 {
        0
    } else {
        (value - 1) as nat
    };
    let q = below / interval;
    let r = below % interval;
    vstd::arithmetic::div_mod::lemma_fundamental_div_mod(below as int, interval as int);
    assert(below == q * interval + r);
    assert(spec_pad_to_next(value, interval) == q + 1);
    assert((q + 1) * interval == q * interval + interval) by (nonlinear_arith);
}

/// How many pages a linear memory of `existing_size` bytes must grow by to hold `required_size`
/// bytes: none (`None`) where it is large enough already; otherwise the pages needed for the
/// required size less the whole pages it has.
pub fn linear_memory_growth(existing_size: usize, required_size: u32) -> (result: Option<u64>)
    ensures
        existing_size >= required_size ==> result is None,
        existing_size < required_size ==> result == Some(
            (spec_pad_to_next(required_size as nat, WASM_PAGE_SIZE as nat) - existing_size as nat
                / WASM_PAGE_SIZE as nat) as u64,
        ),
{
    let required = required_size as usize;
    if existing_size >= required {
        return None;
    }
    let existing_pages = existing_size / WASM_PAGE_SIZE;
    let required_pages = pad_to_next(required, WASM_PAGE_SIZE);
    assert(existing_pages <= required_pages) by {
        vstd::arithmetic::div_mod::lemma_div_is_ordered(
            existing_size as int,
            (required - 1) as int,
            WASM_PAGE_SIZE as int,
        );
    }
    Some((required_pages - existing_pages) as u64)
}

/// The Unix time in milliseconds of the RFC 3339 date-time `text`, as chrono reads it; `None`
/// where it is not one.
pub uninterp spec fn rfc3339_timestamp_millis(text: Seq<char>) -> Option<i64>;

/// The Unix time in milliseconds of the date-time `text` in the strftime-style `format`, read
/// without an offset as UTC, as chrono reads it; `None` where it does not match.
pub uninterp spec fn naive_timestamp_millis(text: Seq<char>, format: Seq<char>) -> Option<i64>;

/// Reads an RFC 3339 date-time with `chrono::DateTime::parse_from_rfc3339` and takes its
/// `timestamp_millis`. Claimed: the result depends on the text alone.
#[verifier::external_body]
fn parse_rfc3339_millis(text: &str) -> (result: Option<i64>)
    ensures
        result == rfc3339_timestamp_millis(text@),
{
    chrono::DateTime::parse_from_rfc3339(text).ok().map(|date| date.timestamp_millis())
}

/// Reads a date-time without offset with `chrono::NaiveDateTime::parse_from_str` and takes the
/// `timestamp_millis` of it as a UTC time. Claimed: the result depends on the text and format
/// alone.
#[verifier::external_body]
fn parse_naive_millis(text: &str, format: &str) -> (result: Option<i64>)
    ensures
        result == naive_timestamp_millis(text@, format@),
{
    chrono::NaiveDateTime::parse_from_str(text, format).ok().map(|date| date.and_utc().timestamp_millis())
}

/// Reads a date-time as Unix milliseconds: as RFC 3339 if it is one, else as
/// `%Y-%m-%dT%H:%M:%S%.f` taken as UTC; `None` where it is neither.
pub fn parse_string_timestamp(timestamp: &str) -> (result: Option<i64>)
    ensures
        result == match rfc3339_timestamp_millis(timestamp@) {
            Some(millis) => Some(millis),
            None => naive_timestamp_millis(timestamp@, "%Y-%m-%dT%H:%M:%S%.f"@),
        },
{
    match parse_rfc3339_millis(timestamp) {
        Some(millis) => Some(millis),
        None => parse_naive_millis(timestamp, "%Y-%m-%dT%H:%M:%S%.f"),
    }
}

/// Growing a memory of `existing_size` bytes by the pages that `linear_memory_growth` gives
/// makes it hold `required_size` bytes.
pub proof fn law_growth_holds_required_size(existing_size: nat, required_size: nat)
    requires
        existing_size < required_size,
    ensures
        (existing_size / (WASM_PAGE_SIZE as nat) + (spec_pad_to_next(required_size, WASM_PAGE_SIZE as nat)
            - existing_size / (WASM_PAGE_SIZE as nat))) * WASM_PAGE_SIZE >= required_size,
{
    law_pad_to_next_is_least_cover(required_size, WASM_PAGE_SIZE as nat);
}

} // verus!
