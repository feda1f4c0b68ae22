use imgur_enumerator::reporter::Reporter;
use imgur_enumerator::stats::Stats;

#[test]
fn second_boundary_samples_and_resets() {
    // Five requests counted during the first one-second window: after
    // exactly twenty ticks the rendered per-second value is five and the
    // internal counter is zero.
    let mut reporter = Reporter::new();
    let mut stats = Stats::new();
    for _ in 0..5 {
        stats.record_outcome(false);
    }
    for _ in 0..20 {
        reporter.tick(&mut stats);
    }
    assert_eq!(reporter.cached_requests_per_second, 5);
    assert_eq!(stats.requests_this_second, 0);
    assert_eq!(reporter.elapsed_seconds, 1);
    assert_eq!(stats.total_requests, 5);
}

#[test]
fn no_sample_before_the_boundary() {
    let mut reporter = Reporter::new();
    let mut stats = Stats::new();
    stats.record_outcome(false);
    for _ in 0..19 {
        reporter.tick(&mut stats);
    }
    assert_eq!(reporter.cached_requests_per_second, 0);
    assert_eq!(stats.requests_this_second, 1);
    assert_eq!(reporter.elapsed_seconds, 0);
}

#[test]
fn minute_boundary_samples_discoveries() {
    let mut reporter = Reporter::new();
    let mut stats = Stats::new();
    for _ in 0..3 {
        stats.record_outcome(true);
    }
    // 59 seconds pass: the per-minute window is untouched.
    for _ in 0..(59 * 20) {
        reporter.tick(&mut stats);
    }
    assert_eq!(reporter.cached_found_per_minute, 0);
    assert_eq!(stats.found_this_minute, 3);
    // The 60th one-second boundary samples and resets it.
    for _ in 0..20 {
        reporter.tick(&mut stats);
    }
    assert_eq!(reporter.cached_found_per_minute, 3);
    assert_eq!(stats.found_this_minute, 0);
    assert_eq!(reporter.elapsed_seconds, 60);
    // Lifetime totals are never reset.
    assert_eq!(stats.total_found, 3);
    assert_eq!(stats.total_requests, 3);
}

#[test]
fn windows_count_only_their_own_increments() {
    let mut reporter = Reporter::new();
    let mut stats = Stats::new();
    for _ in 0..20 {
        reporter.tick(&mut stats);
    }
    assert_eq!(reporter.cached_requests_per_second, 0);
    // Two requests in the second window, one a discovery.
    stats.record_outcome(true);
    stats.record_outcome(false);
    for _ in 0..20 {
        reporter.tick(&mut stats);
    }
    assert_eq!(reporter.cached_requests_per_second, 2);
    assert_eq!(stats.requests_this_second, 0);
    assert_eq!(stats.found_this_minute, 1);
    assert_eq!(stats.total_requests, 2);
    assert_eq!(stats.total_found, 1);
}

#[test]
fn render_uses_cached_windows_and_live_totals() {
    let mut reporter = Reporter::new();
    let mut stats = Stats::new();
    for _ in 0..5 {
        stats.record_outcome(true);
    }
    for _ in 0..20 {
        reporter.tick(&mut stats);
    }
    let line = reporter.render(&stats);
    assert_eq!(
        line,
        "5 req / sec - 0 found / min - uptime 1s - total reqs 5 - total found 5"
    );
}
