//! Throughput figures for the periodic stats report.

use vstd::prelude::*;

verus! {

/// Messages per second, in hundredths, over a span of milliseconds; none for
/// an empty span.
pub open spec fn rate_centi_spec(count: nat, elapsed_millis: nat) -> Option<u128> {
    if elapsed_millis == 0 {
        None
    } else {
        Some((count * 100000 / elapsed_millis) as u128)
    }
}

/// What a stats report shows.
#[derive(Clone, Copy, Debug, PartialEq, Eq, Structural)]
pub struct StatsReport {
    /// Messages received since the connection was made.
    pub message_count: u64,
    /// Messages per second, in hundredths; none where no time has passed.
    pub rate_centi: Option<u128>,
}

/// Messages per second, in hundredths, over a span of milliseconds.
pub fn rate_centi(count: u64, elapsed_millis: u64) -> (r: Option<u128>)
    ensures
        r == rate_centi_spec(count as nat, elapsed_millis as nat),
{
    if elapsed_millis == 0 {
        return None;
    }
    let scaled: u128 = (count as u128) * 100000;
    Some(scaled / (elapsed_millis as u128))
}

/// The stats report for a count of messages over a span of milliseconds.
pub fn stats_report(message_count: u64, elapsed_millis: u64) -> (r: StatsReport)
    ensures
        r.message_count == message_count,
        r.rate_centi == rate_centi_spec(message_count as nat, elapsed_millis as nat),
{
    StatsReport { message_count, rate_centi: rate_centi(message_count, elapsed_millis) }
}

} // verus!
