use lan_speedtest::stats::{PingStats, PingSummary, Ratio, Transfer};

fn figures(rtts: &[u64]) -> PingSummary {
    let mut stats = PingStats::new();
    for rtt in rtts {
        stats.record(*rtt);
    }
    stats.summary()
}

#[test]
fn no_answers_give_zero_figures() {
    assert_eq!(
        figures(&[]),
        PingSummary { count: 0, average: Ratio { num: 0, den: 1 }, min_ms: 0, max_ms: 0 }
    );
}

#[test]
fn figures_of_several_answers() {
    assert_eq!(
        figures(&[5, 2, 9, 2]),
        PingSummary { count: 4, average: Ratio { num: 18, den: 4 }, min_ms: 2, max_ms: 9 }
    );
    assert_eq!(
        figures(&[3]),
        PingSummary { count: 1, average: Ratio { num: 3, den: 1 }, min_ms: 3, max_ms: 3 }
    );
    assert_eq!(figures(&[0, 4]).min_ms, 0);
}

#[test]
fn large_times_do_not_run_over() {
    assert_eq!(
        figures(&[u64::MAX, u64::MAX]).average,
        Ratio { num: 2 * u64::MAX as u128, den: 2 }
    );
}

#[test]
fn average_lies_between_the_extremes() {
    let f = figures(&[7, 1, 30, 12]);
    assert!(f.min_ms as u128 * f.average.den <= f.average.num);
    assert!(f.average.num <= f.max_ms as u128 * f.average.den);
}

#[test]
fn rate_is_bits_per_microsecond() {
    assert_eq!(
        Transfer { bytes: 1_000_000, ms: 1000 }.rate_mbps(),
        Ratio { num: 8_000_000, den: 1_000_000 }
    );
    assert_eq!(
        Transfer { bytes: u64::MAX, ms: u64::MAX }.rate_mbps(),
        Ratio { num: u64::MAX as u128 * 8, den: u64::MAX as u128 * 1000 }
    );
}

#[test]
fn rate_of_no_time_is_zero() {
    assert_eq!(
        Transfer { bytes: 500, ms: 0 }.rate_mbps(),
        Ratio { num: 0, den: 1 }
    );
}
