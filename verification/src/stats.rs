//! The figures of a test run: round trip times, transfers and their rates.
//!
//! Times and sizes are whole numbers; an average or a rate is kept as the
//! fraction that it is.

use vstd::prelude::*;

use crate::json;
use crate::json::Json;

verus! {

/// The fraction `num / den`.
#[derive(Clone, Copy, Debug, PartialEq, Eq, Structural)]
pub struct Ratio {
    pub num: u128,
    pub den: u128,
}

impl Ratio {
    /// Whether the fraction has a value.
    pub open spec fn wf(self) -> bool {
        self.den > 0
    }

    /// The fraction of value zero that stands for a missing figure.
    pub open spec fn zero() -> Ratio {
        Ratio { num: 0, den: 1 }
    }
}

/// The sum of the round trip times.
pub open spec fn total(rtts: Seq<u64>) -> nat
    decreases rtts.len(),
{
    if rtts.len() == 0 {
        0
    } else {
        total(rtts.drop_last()) + rtts.last() as nat
    }
}

/// The least of the round trip times, and 0 where there is none.
pub open spec fn lowest(rtts: Seq<u64>) -> u64
    decreases rtts.len(),
{
    if rtts.len() == 0 {
        0
    } else if rtts.len() == 1 || rtts.last() < lowest(rtts.drop_last()) {
        rtts.last()
    } else {
        lowest(rtts.drop_last())
    }
}

/// The greatest of the round trip times, and 0 where there is none.
pub open spec fn highest(rtts: Seq<u64>) -> u64
    decreases rtts.len(),
{
    if rtts.len() == 0 {
        0
    } else if rtts.last() > highest(rtts.drop_last()) {
        rtts.last()
    } else {
        highest(rtts.drop_last())
    }
}

/// `lowest` is one of the times, and none is below it.
pub proof fn lowest_is_least(rtts: Seq<u64>)
    requires
        rtts.len() > 0,
    ensures
        rtts.contains(lowest(rtts)),
        forall|i: int| 0 <= i < rtts.len() ==> lowest(rtts) <= #[trigger] rtts[i],
    decreases rtts.len(),
{
    let rest = rtts.drop_last();
    if rtts.len() > 1 {
        lowest_is_least(rest);
        assert forall|i: int| 0 <= i < rtts.len() implies lowest(rtts) <= #[trigger] rtts[i] by {
            if i < rest.len() {
                assert(rest[i] == rtts[i]);
            }
        }
        let i = choose|i: int| 0 <= i < rest.len() && rest[i] == lowest(rest);
        assert(rtts[i] == lowest(rest));
    }
    assert(rtts[rtts.len() - 1] == rtts.last());
}

/// `highest` is one of the times, and none is above it.
pub proof fn highest_is_greatest(rtts: Seq<u64>)
    requires
        rtts.len() > 0,
    ensures
        rtts.contains(highest(rtts)),
        forall|i: int| 0 <= i < rtts.len() ==> #[trigger] rtts[i] <= highest(rtts),
    decreases rtts.len(),
{
    let rest = rtts.drop_last();
    assert(rtts[rtts.len() - 1] == rtts.last());
    if rtts.len() > 1 {
        highest_is_greatest(rest);
        assert forall|i: int| 0 <= i < rtts.len() implies #[trigger] rtts[i] <= highest(rtts) by {
            if i < rest.len() {
                assert(rest[i] == rtts[i]);
            }
        }
        let i = choose|i: int| 0 <= i < rest.len() && rest[i] == highest(rest);
        assert(rtts[i] == highest(rest));
    }
}

/// The sum lies between the number of times the least and the greatest.
pub proof fn total_bounds(rtts: Seq<u64>)
    ensures
        rtts.len() * lowest(rtts) <= total(rtts) <= rtts.len() * highest(rtts),
    decreases rtts.len(),
{
    if rtts.len() > 0 {
        let rest = rtts.drop_last();
        total_bounds(rest);
        let n = rest.len() as int;
        let (lo, rest_lo) = (lowest(rtts) as int, lowest(rest) as int);
        let (hi, rest_hi) = (highest(rtts) as int, highest(rest) as int);
        assert(n * lo <= n * rest_lo) by (nonlinear_arith)
            requires
                n == 0 || (n > 0 && lo <= rest_lo),
        ;
        assert(n * rest_hi <= n * hi) by (nonlinear_arith)
            requires
                n >= 0,
                rest_hi <= hi,
        ;
        assert((n + 1) * lo == n * lo + lo) by (nonlinear_arith);
        assert((n + 1) * hi == n * hi + hi) by (nonlinear_arith);
    }
}

/// The sum adds up the times one by one: none of them gives nothing, and each
/// more adds just itself.
pub proof fn total_adds_each_time(rtts: Seq<u64>, rtt_ms: u64)
    ensures
        total(Seq::<u64>::empty()) == 0,
        total(rtts.push(rtt_ms)) == total(rtts) + rtt_ms,
{
    assert(rtts.push(rtt_ms).drop_last() == rtts);
}

/// The sum is that of all times from the first to the last.
pub proof fn total_is_sum(rtts: Seq<u64>)
    ensures
        total(rtts) == rtts.fold_left(0int, |sum: int, rtt: u64| sum + rtt),
    decreases rtts.len(),
{
    if rtts.len() > 0 {
        total_is_sum(rtts.drop_last());
    }
}

/// The times of two rows add up to the sums of both.
pub proof fn total_of_rows(first: Seq<u64>, second: Seq<u64>)
    ensures
        total(first + second) == total(first) + total(second),
    decreases second.len(),
{
    if second.len() == 0 {
        assert(first + second == first);
    } else {
        total_of_rows(first, second.drop_last());
        assert((first + second).drop_last() == first + second.drop_last());
    }
}

/// As many times as a `u64` counts add up to less than a `u128` holds.
pub proof fn total_fits(rtts: Seq<u64>)
    requires
        rtts.len() <= u64::MAX,
    ensures
        total(rtts) <= rtts.len() * u64::MAX,
        total(rtts) <= u64::MAX as nat * u64::MAX as nat,
        total(rtts) <= u128::MAX,
{
    total_bounds(rtts);
    let (n, hi) = (rtts.len() as int, highest(rtts) as int);
    assert(n * hi <= n * u64::MAX && n * u64::MAX <= u64::MAX * u64::MAX) by (nonlinear_arith)
        requires
            0 <= n <= u64::MAX,
            0 <= hi <= u64::MAX,
    ;
}

/// What a ping phase reports: how many pings were answered, and the average,
/// the least and the greatest of their round trip times in milliseconds.
#[derive(Clone, Copy, Debug, PartialEq, Eq, Structural)]
pub struct PingSummary {
    pub count: u64,
    pub average: Ratio,
    pub min_ms: u64,
    pub max_ms: u64,
}

/// The summary of these round trip times. Without any, all figures are zero.
pub open spec fn summary(rtts: Seq<u64>) -> PingSummary {
    PingSummary {
        count: rtts.len() as u64,
        average: if rtts.len() > 0 {
            Ratio { num: total(rtts) as u128, den: rtts.len() as u128 }
        } else {
            Ratio::zero()
        },
        min_ms: lowest(rtts),
        max_ms: highest(rtts),
    }
}

/// The figures of round trip times: how many there are, their sum over their
/// number, and the ones that no other is below or above. Each time counts.
pub proof fn figures_of_the_times(rtts: Seq<u64>)
    requires
        0 < rtts.len() <= u64::MAX,
    ensures
        summary(rtts).count == rtts.len(),
        summary(rtts).average.num == rtts.fold_left(0int, |sum: int, rtt: u64| sum + rtt),
        summary(rtts).average.den == rtts.len(),
        rtts.contains(summary(rtts).min_ms),
        rtts.contains(summary(rtts).max_ms),
        forall|i: int|
            0 <= i < rtts.len() ==> summary(rtts).min_ms <= #[trigger] rtts[i] <= summary(
                rtts,
            ).max_ms,
{
    total_fits(rtts);
    total_is_sum(rtts);
    lowest_is_least(rtts);
    highest_is_greatest(rtts);
}

/// Without an answer, every figure is zero.
pub proof fn figures_of_no_times()
    ensures
        summary(Seq::<u64>::empty()) == (PingSummary {
            count: 0,
            average: Ratio { num: 0, den: 1 },
            min_ms: 0,
            max_ms: 0,
        }),
{
}

/// What one more answer does to the figures: the count grows by one and the sum
/// by its time, and it becomes the least or the greatest time if it is.
pub proof fn figures_with_one_more(rtts: Seq<u64>, rtt_ms: u64)
    requires
        0 < rtts.len() < u64::MAX,
    ensures
        ({
            let (old, new) = (summary(rtts), summary(rtts.push(rtt_ms)));
            &&& new.count == old.count + 1
            &&& new.average.num == old.average.num + rtt_ms
            &&& new.average.den == old.average.den + 1
            &&& new.min_ms == if rtt_ms < old.min_ms {
                rtt_ms
            } else {
                old.min_ms
            }
            &&& new.max_ms == if rtt_ms > old.max_ms {
                rtt_ms
            } else {
                old.max_ms
            }
        }),
{
    total_fits(rtts);
    total_fits(rtts.push(rtt_ms));
    assert(rtts.push(rtt_ms).drop_last() == rtts);
}

/// The average lies between the least and the greatest round trip time.
pub proof fn average_between_extremes(rtts: Seq<u64>)
    requires
        rtts.len() <= u64::MAX,
    ensures
        summary(rtts).average.wf(),
        summary(rtts).min_ms * summary(rtts).average.den <= summary(rtts).average.num,
        summary(rtts).average.num <= summary(rtts).max_ms * summary(rtts).average.den,
{
    total_fits(rtts);
    total_bounds(rtts);
    let (n, lo, hi) = (rtts.len() as int, lowest(rtts) as int, highest(rtts) as int);
    assert(n * lo == lo * n && n * hi == hi * n) by (nonlinear_arith);
    if n > 0 {
        assert(summary(rtts).average.den == n);
        assert(summary(rtts).min_ms * summary(rtts).average.den == lo * n);
        assert(summary(rtts).max_ms * summary(rtts).average.den == hi * n);
    }
}

/// A running account of round trip times.
pub struct PingStats {
    count: u64,
    total_ms: u128,
    lowest_ms: u64,
    highest_ms: u64,
    rtts: Ghost<Seq<u64>>,
}

impl View for PingStats {
    type V = Seq<u64>;

    /// The round trip times, in the order in which they were recorded.
    closed spec fn view(&self) -> Seq<u64> {
        self.rtts@
    }
}

impl PingStats {
    /// Whether the figures are those of the recorded times.
    pub closed spec fn wf(self) -> bool {
        &&& self.count == self@.len()
        &&& self.total_ms == total(self@)
        &&& self.lowest_ms == lowest(self@)
        &&& self.highest_ms == highest(self@)
    }

    /// No time recorded yet.
    pub fn new() -> (stats: PingStats)
        ensures
            stats.wf(),
            stats@ == Seq::<u64>::empty(),
    {
        PingStats { count: 0, total_ms: 0, lowest_ms: 0, highest_ms: 0, rtts: Ghost(Seq::empty()) }
    }

    /// One more round trip time.
    pub fn record(&mut self, rtt_ms: u64)
        requires
            old(self).wf(),
            old(self)@.len() < u64::MAX,
        ensures
            final(self).wf(),
            final(self)@ == old(self)@.push(rtt_ms),
    {
        proof {
            total_fits(self@);
            assert(self@.push(rtt_ms).drop_last() == self@);
            assert(self.count * u64::MAX + u64::MAX <= u128::MAX) by (nonlinear_arith)
                requires
                    self.count <= u64::MAX,
            ;
        }
        if self.count == 0 || rtt_ms < self.lowest_ms {
            self.lowest_ms = rtt_ms;
        }
        if rtt_ms > self.highest_ms {
            self.highest_ms = rtt_ms;
        }
        self.total_ms = self.total_ms + rtt_ms as u128;
        self.count = self.count + 1;
        self.rtts = Ghost(self.rtts@.push(rtt_ms));
    }

    /// The figures of the times recorded so far.
    pub fn summary(&self) -> (figures: PingSummary)
        requires
            self.wf(),
        ensures
            figures == summary(self@),
    {
        let average = if self.count > 0 {
            Ratio { num: self.total_ms, den: self.count as u128 }
        } else {
            Ratio { num: 0, den: 1 }
        };
        PingSummary {
            count: self.count,
            average,
            min_ms: self.lowest_ms,
            max_ms: self.highest_ms,
        }
    }
}

/// Bytes that went one way, and the milliseconds that they took.
#[derive(Clone, Copy, Debug, PartialEq, Eq, Structural)]
pub struct Transfer {
    pub bytes: u64,
    pub ms: u64,
}

impl Transfer {
    /// No transfer.
    pub open spec fn none() -> Transfer {
        Transfer { bytes: 0, ms: 0 }
    }

    /// The rate in megabits per second: bits per microsecond, and zero for a
    /// transfer that took no time.
    pub open spec fn mbps(self) -> Ratio {
        if self.ms > 0 {
            Ratio { num: (self.bytes * 8) as u128, den: (self.ms * 1000) as u128 }
        } else {
            Ratio::zero()
        }
    }

    /// The rate in megabits per second.
    pub fn rate_mbps(&self) -> (rate: Ratio)
        ensures
            rate == self.mbps(),
            rate.wf(),
            self.ms > 0 ==> rate.num == self.bytes * 8 && rate.den == self.ms * 1000,
            self.ms == 0 ==> rate == Ratio::zero(),
    {
        if self.ms > 0 {
            Ratio { num: self.bytes as u128 * 8, den: self.ms as u128 * 1000 }
        } else {
            Ratio { num: 0, den: 1 }
        }
    }
}

/// A rate in megabits per second is eight bits for each byte, over the time in
/// milliseconds, a thousand to the megabit: the fraction `8 * bytes` over
/// `1000 * ms`. What took no time has the rate zero.
pub proof fn rate_is_bits_over_time(transfer: Transfer)
    ensures
        transfer.mbps().den > 0,
        transfer.ms > 0 ==> transfer.mbps().num * (1000 * transfer.ms) == (8 * transfer.bytes)
            * transfer.mbps().den,
        transfer.ms > 0 ==> transfer.mbps().num == 8 * transfer.bytes && transfer.mbps().den == 1000
            * transfer.ms,
        transfer.ms == 0 ==> transfer.mbps().num == 0 && transfer.mbps().den == 1,
{
}

/// The results of a test run.
#[derive(Clone, Copy, Debug, PartialEq, Eq, Structural)]
pub struct TestResults {
    pub ping: PingSummary,
    pub download: Transfer,
    pub upload: Transfer,
}

impl TestResults {
    /// The whole numbers of the results, by phase.
    pub open spec fn counts(self) -> Json {
        Json::Object(
            map![
                "ping"@ => Json::Object(map!["count"@ => Json::Unsigned(self.ping.count)]),
                "download"@ => Json::Object(map![
                    "bytes"@ => Json::Unsigned(self.download.bytes),
                    "ms"@ => Json::Unsigned(self.download.ms),
                ]),
                "upload"@ => Json::Object(map![
                    "bytes"@ => Json::Unsigned(self.upload.bytes),
                    "ms"@ => Json::Unsigned(self.upload.ms),
                ]),
            ],
        )
    }

    /// The whole numbers of the results, by phase. The averages and rates are
    /// fractions, which the caller puts in as reals.
    pub fn to_json(&self) -> (value: serde_json::Value)
        ensures
            json::tree(value) == self.counts(),
    {
        let mut ping = json::new_object();
        json::put(&mut ping, "count", json::unsigned_value(self.ping.count));
        let mut download = json::new_object();
        json::put(&mut download, "bytes", json::unsigned_value(self.download.bytes));
        json::put(&mut download, "ms", json::unsigned_value(self.download.ms));
        let mut upload = json::new_object();
        json::put(&mut upload, "bytes", json::unsigned_value(self.upload.bytes));
        json::put(&mut upload, "ms", json::unsigned_value(self.upload.ms));
        let mut report = json::new_object();
        json::put(&mut report, "ping", json::object_value(ping));
        json::put(&mut report, "download", json::object_value(download));
        json::put(&mut report, "upload", json::object_value(upload));
        json::object_value(report)
    }
}

/// Each whole number of the results stands under its phase and its own name, and
/// nothing else does.
pub proof fn counts_by_phase(results: TestResults)
    ensures
        results.counts().member("ping"@) matches Some(ping) && ping.member("count"@) == Some(
            Json::Unsigned(results.ping.count),
        ),
        results.counts().member("download"@) matches Some(download) && download.member("bytes"@)
            == Some(Json::Unsigned(results.download.bytes)) && download.member("ms"@) == Some(
            Json::Unsigned(results.download.ms),
        ),
        results.counts().member("upload"@) matches Some(upload) && upload.member("bytes"@) == Some(
            Json::Unsigned(results.upload.bytes),
        ) && upload.member("ms"@) == Some(Json::Unsigned(results.upload.ms)),
        forall|key: Seq<char>|
            key != "ping"@ && key != "download"@ && key != "upload"@
                ==> #[trigger] results.counts().member(key) is None,
        forall|key: Seq<char>|
            key != "count"@ ==> #[trigger] results.counts().member("ping"@)->0.member(key) is None,
        forall|key: Seq<char>|
            key != "bytes"@ && key != "ms"@ ==> #[trigger] results.counts().member(
                "download"@,
            )->0.member(key) is None,
        forall|key: Seq<char>|
            key != "bytes"@ && key != "ms"@ ==> #[trigger] results.counts().member(
                "upload"@,
            )->0.member(key) is None,
{
    reveal_strlit("ping");
    reveal_strlit("download");
    reveal_strlit("upload");
    reveal_strlit("bytes");
    reveal_strlit("ms");
    assert("ping"@.len() == 4 && "download"@.len() == 8 && "upload"@.len() == 6);
    assert("bytes"@.len() == 5 && "ms"@.len() == 2);
}

} // verus!
