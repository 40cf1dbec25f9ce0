use updater_core::progress::DownloadProgress;

#[test]
fn percent_is_floor_of_ratio_times_hundred() {
    let mut p = DownloadProgress::new();
    p.record_chunk(50, Some(100));
    assert_eq!(p.percent(), 50);

    let mut p = DownloadProgress::new();
    p.record_chunk(1, Some(3));
    // 1/3 * 100 = 33.33..., rounded down
    assert_eq!(p.percent(), 33);

    let mut p = DownloadProgress::new();
    p.record_chunk(999, Some(1000));
    assert_eq!(p.percent(), 99);

    let mut p = DownloadProgress::new();
    p.record_chunk(1000, Some(1000));
    assert_eq!(p.percent(), 100);
}

#[test]
fn percent_zero_at_start() {
    let mut p = DownloadProgress::new();
    p.record_chunk(0, Some(1_048_576));
    assert_eq!(p.percent(), 0);
}

#[test]
fn percent_saturates_far_past_total() {
    let mut p = DownloadProgress::new();
    p.record_chunk(u64::MAX, Some(1));
    assert_eq!(p.percent(), i32::MAX);
}

#[test]
fn unknown_total_reports_indeterminate() {
    let mut p = DownloadProgress::new();
    assert_eq!(p.percent(), -1);
    p.record_chunk(123, None);
    assert_eq!(p.percent(), -1);
    p.record_chunk(10_000_000, None);
    assert_eq!(p.percent(), -1);
}

#[test]
fn percent_never_decreases_over_chunks() {
    let total: u64 = 10_000;
    let mut p = DownloadProgress::new();
    let mut last: i32 = 0;
    for chunk in [1u64, 7, 100, 0, 2500, 999, 6000, 393] {
        p.record_chunk(chunk, Some(total));
        let now = p.percent();
        assert!(now >= last);
        last = now;
    }
    assert_eq!(last, 100);
}

#[test]
fn record_chunk_accumulates_and_tracks_total() {
    let mut p = DownloadProgress::new();
    p.record_chunk(10, None);
    p.record_chunk(20, Some(120));
    p.record_chunk(30, Some(120));
    assert_eq!(p.bytes_downloaded, 60);
    assert_eq!(p.total_bytes, Some(120));
    assert_eq!(p.percent(), 50);
}
