use netbench::reader::{ReadOutcome, ReaderState};
use netbench::stats::RECV_REPORT_INTERVAL;

/// Feeds data reads of the given sizes and then a closing zero read, the
/// way the stream receiver's per-connection reader does, and returns the
/// partial reports and the final summary.
fn run_connection(sizes: &[usize]) -> (Vec<(u64, usize, usize)>, (u64, usize, usize)) {
    let mut state = ReaderState::new();
    let mut partials = Vec::new();
    let mut window: u64 = 0;
    for (i, &size) in sizes.iter().enumerate() {
        window += 1;
        match state.on_read(size, window, i as u64 + 1) {
            ReadOutcome::Progress => {}
            ReadOutcome::Partial(stats) => {
                assert!(!stats.summary);
                partials.push((stats.period_nanos, stats.bytes, stats.operations));
                window = 0;
            }
            ReadOutcome::Summary(_) => panic!("summary before the peer closed"),
        }
    }
    let close = state.on_read(0, window + 1, sizes.len() as u64 + 1);
    match close {
        ReadOutcome::Summary(stats) => {
            assert!(stats.summary);
            (partials, (stats.period_nanos, stats.bytes, stats.operations))
        }
        _ => panic!("a zero read must produce the summary"),
    }
}

#[test]
fn close_reports_whole_connection() {
    // K bytes then a close: exactly one summary with bytes == K. The
    // closing read itself is included in the read count.
    let (partials, (_, bytes, reads)) = run_connection(&[700, 300]);
    assert!(partials.is_empty());
    assert_eq!(bytes, 1000);
    assert_eq!(reads, 3);
}

#[test]
fn empty_connection_reports_zero_bytes() {
    let (partials, (_, bytes, reads)) = run_connection(&[]);
    assert!(partials.is_empty());
    assert_eq!(bytes, 0);
    assert_eq!(reads, 1);
}

#[test]
fn window_threshold_emits_partials() {
    // Three reads of 100 MiB: the second read completes a 200 MiB window
    // and emits one partial covering exactly that window; the summary
    // still covers all 300 MiB.
    let hundred = 100 * 1024 * 1024;
    let (partials, (_, bytes, reads)) = run_connection(&[hundred, hundred, hundred]);
    assert_eq!(partials.len(), 1);
    let (_, partial_bytes, partial_reads) = partials[0];
    assert_eq!(partial_bytes, 2 * hundred);
    assert_eq!(partial_reads, 2);
    assert_eq!(bytes, 3 * hundred);
    assert_eq!(reads, 4);
    // The partials cover at most the whole connection.
    assert!(partial_bytes <= bytes);
}

#[test]
fn partial_windows_reset_counters() {
    // Two full windows, then a remainder: each partial covers only the
    // bytes and reads since the previous report.
    let half = RECV_REPORT_INTERVAL / 2;
    let (partials, (_, bytes, _)) =
        run_connection(&[half, half, half, half, 17]);
    assert_eq!(partials.len(), 2);
    assert_eq!(partials[0].1, RECV_REPORT_INTERVAL);
    assert_eq!(partials[0].2, 2);
    assert_eq!(partials[1].1, RECV_REPORT_INTERVAL);
    assert_eq!(partials[1].2, 2);
    assert_eq!(bytes, 2 * RECV_REPORT_INTERVAL + 17);
}

#[test]
fn boundary_hit_covers_connection_exactly() {
    // A single read of exactly the reporting threshold emits a partial
    // whose bytes equal the whole connection: the partials' sum is then
    // not strictly below the summary's bytes. The summary still reports
    // the full total.
    let (partials, (_, bytes, _)) = run_connection(&[RECV_REPORT_INTERVAL]);
    assert_eq!(partials.len(), 1);
    assert_eq!(partials[0].1, RECV_REPORT_INTERVAL);
    assert_eq!(bytes, RECV_REPORT_INTERVAL);
}

#[test]
fn summary_carries_connection_period() {
    let mut state = ReaderState::new();
    assert!(matches!(state.on_read(42, 5, 5), ReadOutcome::Progress));
    match state.on_read(0, 6, 987) {
        ReadOutcome::Summary(stats) => {
            assert_eq!(stats.period_nanos, 987);
            assert_eq!(stats.bytes, 42);
            assert_eq!(stats.operations, 2);
        }
        _ => panic!("expected the summary"),
    }
}
