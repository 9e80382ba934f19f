//! Disposable worker processes, as the strategies see them: what a worker
//! reported, how much of it counts, and when the fresh-process strategy
//! launches the next one.
//!
//! A worker process prints the count of its run in decimal. Launching one and
//! collecting its output is the caller's part; reading the output is done
//! here.

use crate::metrics::spec_counter_sum;
use crate::workload::POLL_INTERVAL_MS;
use vstd::prelude::*;

verus! {

/// The pause after a worker process that could not be launched or that
/// failed, before the next one is tried.
pub const BACKOFF_MILLIS: u64 = POLL_INTERVAL_MS;

/// An ASCII white-space byte: tab, line feed, vertical tab, form feed,
/// carriage return or space.
pub open spec fn spec_is_space(b: u8) -> bool {
    b == 9 || b == 10 || b == 11 || b == 12 || b == 13 || b == 32
}

/// An ASCII decimal digit.
pub open spec fn spec_is_digit(b: u8) -> bool {
    48 <= b <= 57
}

/// `s` without its leading white space.
pub open spec fn spec_trim_start(s: Seq<u8>) -> Seq<u8>
    decreases s.len(),
{
    if s.len() > 0 && spec_is_space(s[0]) {
        spec_trim_start(s.drop_first())
    } else {
        s
    }
}

/// `s` without its trailing white space.
pub open spec fn spec_trim_end(s: Seq<u8>) -> Seq<u8>
    decreases s.len(),
{
    if s.len() > 0 && spec_is_space(s.last()) {
        spec_trim_end(s.drop_last())
    } else {
        s
    }
}

/// Every byte of `s` is a decimal digit.
pub open spec fn spec_all_digits(s: Seq<u8>) -> bool {
    forall|i: int| 0 <= i < s.len() ==> spec_is_digit(#[trigger] s[i])
}

/// The number that the decimal digits `s` denote.
pub open spec fn spec_digits_value(s: Seq<u8>) -> nat
    decreases s.len(),
{
    if s.len() == 0 {
        0
    } else {
        spec_digits_value(s.drop_last()) * 10 + (s.last() - 48) as nat
    }
}

/// `s` without one leading plus sign.
pub open spec fn spec_strip_plus(s: Seq<u8>) -> Seq<u8> {
    if s.len() > 0 && s[0] == 43 {
        s.drop_first()
    } else {
        s
    }
}

/// The count that a worker's output reports: the output, without the white
/// space around it and without one leading plus sign, must be one or more
/// decimal digits that denote a 64-bit number.
pub open spec fn spec_parse_count(output: Seq<u8>) -> Option<u64> {
    let digits = spec_strip_plus(spec_trim_end(spec_trim_start(output)));
    if digits.len() > 0 && spec_all_digits(digits) && spec_digits_value(digits) <= u64::MAX {
        Some(spec_digits_value(digits) as u64)
    } else {
        None
    }
}

fn is_space(b: u8) -> (r: bool)
    ensures
        r == spec_is_space(b),
{
    b == 9 || b == 10 || b == 11 || b == 12 || b == 13 || b == 32
}

/// Trimming the start of a sequence whose first byte is white space is
/// trimming the start of its tail; this carries the fact along a suffix.
proof fn lemma_trim_start_suffix(s: Seq<u8>, lo: int)
    requires
        0 <= lo < s.len(),
        spec_is_space(s[lo]),
    ensures
        spec_trim_start(s.subrange(lo, s.len() as int)) == spec_trim_start(
            s.subrange(lo + 1, s.len() as int),
        ),
{
    let t = s.subrange(lo, s.len() as int);
    assert(t[0] == s[lo]);
    assert(t.drop_first() =~= s.subrange(lo + 1, s.len() as int));
}

proof fn lemma_trim_end_prefix(s: Seq<u8>, hi: int)
    requires
        0 < hi <= s.len(),
        spec_is_space(s[hi - 1]),
    ensures
        spec_trim_end(s.subrange(0, hi)) == spec_trim_end(s.subrange(0, hi - 1)),
{
    let t = s.subrange(0, hi);
    assert(t.last() == s[hi - 1]);
    assert(t.drop_last() =~= s.subrange(0, hi - 1));
}

/// Appending digits never makes the denoted number smaller.
proof fn lemma_digits_value_grows(s: Seq<u8>, k: int)
    requires
        0 <= k <= s.len(),
        spec_all_digits(s),
    ensures
        spec_digits_value(s.subrange(0, k)) <= spec_digits_value(s),
    decreases s.len() - k,
{
    if k == s.len() {
        assert(s.subrange(0, k) =~= s);
    } else {
        let front = s.drop_last();
        assert(spec_all_digits(front)) by {
            assert forall|i: int| 0 <= i < front.len() implies spec_is_digit(
                #[trigger] front[i],
            ) by {
                assert(front[i] == s[i]);
            }
        }
        lemma_digits_value_grows(front, k);
        assert(front.subrange(0, k) =~= s.subrange(0, k));
        assert(spec_is_digit(s.last()));
    }
}

/// Reads the count that a worker process printed. `None` where the output is
/// not a count.
pub fn parse_reported_count(output: &[u8]) -> (count: Option<u64>)
    ensures
        count == spec_parse_count(output@),
{
    let len: usize = output.len();
    let mut lo: usize = 0;
    assert(output@.subrange(0, len as int) =~= output@);
    while lo < len && is_space(output[lo])
        invariant
            len == output@.len(),
            lo <= len,
            spec_trim_start(output@) == spec_trim_start(output@.subrange(lo as int, len as int)),
        decreases len - lo,
    {
        proof {
            lemma_trim_start_suffix(output@, lo as int);
        }
        lo = lo + 1;
    }
    let ghost started = output@.subrange(lo as int, len as int);
    assert(spec_trim_start(output@) == started) by {
        if lo < len {
            assert(started[0] == output@[lo as int]);
        }
    }
    let mut hi: usize = len;
    assert(started.subrange(0, (hi - lo) as int) =~= started);
    while hi > lo && is_space(output[hi - 1])
        invariant
            len == output@.len(),
            lo <= hi <= len,
            started == output@.subrange(lo as int, len as int),
            spec_trim_end(started) == spec_trim_end(started.subrange(0, (hi - lo) as int)),
        decreases hi,
    {
        proof {
            assert(started[hi - lo - 1] == output@[hi - 1]);
            lemma_trim_end_prefix(started, (hi - lo) as int);
        }
        hi = hi - 1;
    }
    let ghost trimmed = output@.subrange(lo as int, hi as int);
    assert(started.subrange(0, (hi - lo) as int) =~= trimmed);
    assert(spec_trim_end(started) == trimmed) by {
        if hi > lo {
            assert(trimmed.last() == output@[hi - 1]);
        }
    }
    let mut start: usize = lo;
    if start < hi && output[start] == 43 {
        start = start + 1;
    }
    let ghost digits = output@.subrange(start as int, hi as int);
    assert(spec_strip_plus(trimmed) =~= digits) by {
        if lo < hi {
            assert(trimmed[0] == output@[lo as int]);
        }
    }
    if start == hi {
        return None;
    }
    let mut value: u64 = 0;
    let mut i: usize = start;
    assert(digits.subrange(0, 0) =~= Seq::<u8>::empty());
    while i < hi
        invariant
            len == output@.len(),
            start <= i <= hi <= len,
            digits == output@.subrange(start as int, hi as int),
            digits == spec_strip_plus(spec_trim_end(spec_trim_start(output@))),
            spec_all_digits(digits.subrange(0, (i - start) as int)),
            value == spec_digits_value(digits.subrange(0, (i - start) as int)),
        decreases hi - i,
    {
        let b: u8 = output[i];
        let ghost upto = digits.subrange(0, (i - start) as int);
        let ghost next = digits.subrange(0, (i - start + 1) as int);
        proof {
            assert(digits[i - start] == b);
            assert(next.drop_last() =~= upto);
            assert(next.last() == b);
        }
        if b < 48 || b > 57 {
            assert(!spec_is_digit(digits[i - start]));
            return None;
        }
        proof {
            assert(spec_all_digits(next)) by {
                assert forall|k: int| 0 <= k < next.len() implies spec_is_digit(
                    #[trigger] next[k],
                ) by {
                    if k < next.len() - 1 {
                        assert(next[k] == upto[k]);
                    }
                }
            }
            assert(spec_digits_value(next) == value * 10 + (b - 48));
        }
        let digit: u64 = (b - 48) as u64;
        if value > (u64::MAX - digit) / 10 {
            proof {
                assert(spec_digits_value(next) > u64::MAX);
                if spec_all_digits(digits) {
                    lemma_digits_value_grows(digits, (i - start + 1) as int);
                }
            }
            return None;
        }
        value = value * 10 + digit;
        i = i + 1;
    }
    assert(digits.subrange(0, (hi - start) as int) =~= digits);
    Some(value)
}

/// How a worker process ended.
#[derive(Debug)]
pub enum SpawnResult {
    /// The process ran and exited; `success` is its exit status and `output`
    /// what it printed.
    Exited { success: bool, output: Vec<u8> },
    /// The process could not be launched or waited for.
    LaunchFailed,
}

/// The units that a worker process contributes: the count it reported if it
/// exited with success and its output is a count, and nothing otherwise.
pub open spec fn spec_units_of(result: SpawnResult) -> u64 {
    match result {
        SpawnResult::Exited { success: true, output } => match spec_parse_count(output@) {
            Some(count) => count,
            None => 0,
        },
        _ => 0,
    }
}

/// The pause after a worker process: none where it exited with success, the
/// backoff where it failed or could not be launched.
pub open spec fn spec_backoff_after(result: SpawnResult) -> u64 {
    match result {
        SpawnResult::Exited { success: true, .. } => 0,
        _ => BACKOFF_MILLIS,
    }
}

/// The units of a burst: those of its worker processes, added up as a 64-bit
/// counter adds.
pub open spec fn spec_total_units(results: Seq<SpawnResult>) -> nat
    decreases results.len(),
{
    if results.len() == 0 {
        0
    } else {
        spec_counter_sum(spec_total_units(results.drop_last()), spec_units_of(results.last()) as nat)
    }
}

/// The units that one worker process contributes to the counters.
pub fn units_of(result: &SpawnResult) -> (units: u64)
    ensures
        units == spec_units_of(*result),
{
    match result {
        SpawnResult::Exited { success, output } => {
            if *success {
                match parse_reported_count(output.as_slice()) {
                    Some(count) => count,
                    None => 0,
                }
            } else {
                0
            }
        },
        SpawnResult::LaunchFailed => 0,
    }
}

/// The pause that the fresh-process strategy takes after one worker process.
pub fn backoff_after(result: &SpawnResult) -> (millis: u64)
    ensures
        millis == spec_backoff_after(*result),
{
    match result {
        SpawnResult::Exited { success, .. } => {
            if *success {
                0
            } else {
                BACKOFF_MILLIS
            }
        },
        SpawnResult::LaunchFailed => BACKOFF_MILLIS,
    }
}

/// The units of one burst, from the results of all its worker processes.
pub fn total_units(results: &Vec<SpawnResult>) -> (total: u64)
    ensures
        total == spec_total_units(results@),
{
    let mut total: u64 = 0;
    let mut i: usize = 0;
    assert(results@.subrange(0, 0) =~= Seq::<SpawnResult>::empty());
    while i < results.len()
        invariant
            i <= results.len(),
            total == spec_total_units(results@.subrange(0, i as int)),
        decreases results.len() - i,
    {
        let units: u64 = units_of(&results[i]);
        proof {
            let next = results@.subrange(0, i + 1);
            assert(next.drop_last() =~= results@.subrange(0, i as int));
            assert(next.last() == results@[i as int]);
        }
        total = total.wrapping_add(units);
        i = i + 1;
    }
    assert(results@.subrange(0, i as int) =~= results@);
    total
}

/// What a spawner of the fresh-process strategy does next.
#[derive(Clone, Copy, Debug, PartialEq, Eq, Structural)]
pub enum SpawnerAction {
    /// The strategy is not active: sleep, then look again.
    Park { millis: u64 },
    /// Launch one worker process of `ops` units and wait for it.
    Spawn { ops: u64 },
}

/// One decision of a spawner's loop: launch while the strategy is active,
/// park otherwise.
pub fn spawner_action(active: bool, worker_ops: u64) -> (action: SpawnerAction)
    ensures
        active ==> action == (SpawnerAction::Spawn { ops: worker_ops }),
        !active ==> action == (SpawnerAction::Park { millis: POLL_INTERVAL_MS }),
{
    if active {
        SpawnerAction::Spawn { ops: worker_ops }
    } else {
        SpawnerAction::Park { millis: POLL_INTERVAL_MS }
    }
}

} // verus!
