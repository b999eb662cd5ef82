// The download tracker: byte counting, TTFB, the progress cadence, the
// result record's invariant, and the filename helper.

use speedrun::downloader::{extract_filename, DownloadError, DownloadTracker};
use speedrun::units::SpeedUnit;

#[test]
fn simulated_ten_megabytes_per_second_link() {
    // A 100,000,000-byte payload delivered as one-megabyte chunks every
    // 100ms: a simulated 10 MB/s link that takes ten seconds.
    let mut t = DownloadTracker::new(200, Some(100_000_000), 50_000, 50_000, SpeedUnit::BytesBinary);
    let mut now: u64 = 50_000;
    let mut last_msg = None;
    for _ in 0..100 {
        now += 100_000;
        let msg = t.on_chunk(1_000_000, now);
        assert!(msg.is_some());
        last_msg = msg;
    }
    // The live rate under bytes-binary reads on the MiB/s scale.
    assert_eq!(last_msg.unwrap(), "9.5 MiB/s");
    let result = t.finish(now);
    assert_eq!(result.bytes_downloaded, 100_000_000);
    assert_eq!(result.status_code, 200);
    // Ten seconds and the 50ms of connection setup, in microseconds.
    assert_eq!(result.total_time, 10_050_000);
    assert!(result.connect_time <= result.total_time);
}

#[test]
fn non_2xx_status_still_yields_a_result() {
    // A 404 with a 50-byte error body is not an error at this layer.
    let mut t = DownloadTracker::new(404, Some(50), 10_000, 10_500, SpeedUnit::BitsMetric);
    let msg = t.on_chunk(50, 40_000);
    assert!(msg.is_none());
    let result = t.finish(60_000);
    assert_eq!(result.status_code, 404);
    assert_eq!(result.bytes_downloaded, 50);
    assert_eq!(result.ttfb, 40_000 - 10_500);
    assert!(result.connect_time <= result.total_time);
}

#[test]
fn empty_body_substitutes_connect_time_for_ttfb() {
    let t = DownloadTracker::new(204, None, 12_345, 12_400, SpeedUnit::BitsMetric);
    let result = t.finish(20_000);
    assert_eq!(result.bytes_downloaded, 0);
    assert_eq!(result.ttfb, 12_345);
    assert_eq!(result.connect_time, 12_345);
}

#[test]
fn ttfb_is_set_by_the_first_chunk_only() {
    let mut t = DownloadTracker::new(200, Some(2000), 5_000, 6_000, SpeedUnit::BitsMetric);
    t.on_chunk(1000, 9_000);
    t.on_chunk(1000, 500_000);
    let result = t.finish(600_000);
    assert_eq!(result.ttfb, 3_000);
    assert_eq!(result.bytes_downloaded, 2000);
}

#[test]
fn bytes_downloaded_is_the_sum_of_all_chunks() {
    let mut t = DownloadTracker::new(200, None, 0, 0, SpeedUnit::BitsMetric);
    let chunks: [u64; 5] = [3, 1500, 0, 42, 65536];
    let mut now: u64 = 0;
    for len in chunks {
        now += 10_000;
        t.on_chunk(len, now);
    }
    let result = t.finish(now);
    assert_eq!(result.bytes_downloaded, chunks.iter().sum::<u64>());
}

#[test]
fn progress_refreshes_at_most_every_100ms() {
    // Chunks every 50ms: only every other chunk carries a speed message.
    let mut t = DownloadTracker::new(200, Some(1_000_000), 0, 0, SpeedUnit::BitsMetric);
    let mut now: u64 = 0;
    let mut refreshed = Vec::new();
    for _ in 0..6 {
        now += 50_000;
        refreshed.push(t.on_chunk(10_000, now).is_some());
    }
    assert_eq!(refreshed, vec![false, true, false, true, false, true]);
}

#[test]
fn progress_message_shows_the_recent_rate() {
    // 200,000 bytes over the 100ms window is 2 MB/s, not the session average.
    let mut t = DownloadTracker::new(200, Some(1_000_000), 0, 0, SpeedUnit::BitsMetric);
    assert!(t.on_chunk(5_000_000, 50_000).is_none());
    let msg = t.on_chunk(200_000, 150_000).unwrap();
    // 5,200,000 bytes since the last refresh over 150ms: 34.666 MB/s is
    // 277.33 Mbps.
    assert_eq!(msg, "277.33 Mbps");
    let msg2 = t.on_chunk(200_000, 250_000).unwrap();
    // 200,000 bytes over 100ms: 2 MB/s is 16 Mbps.
    assert_eq!(msg2, "16.00 Mbps");
}

#[test]
fn interrupted_transfer_is_a_transfer_error() {
    // 40,000 of an advertised 100,000 bytes, then the stream breaks off.
    let mut t = DownloadTracker::new(200, Some(100_000), 1_000, 1_200, SpeedUnit::BitsMetric);
    t.on_chunk(40_000, 30_000);
    assert_eq!(t.bytes_downloaded, 40_000);
    let err = DownloadError::Transfer(String::from("connection reset by peer"));
    assert!(matches!(err, DownloadError::Transfer(_)));
    assert_eq!(err.describe(), "transfer error: connection reset by peer");
}

#[test]
fn error_phases_are_distinguished() {
    let c = DownloadError::Connection(String::from("dns failure"));
    let f = DownloadError::FileSystem(String::from("permission denied"));
    assert_eq!(c.describe(), "connection error: dns failure");
    assert_eq!(f.describe(), "file error: permission denied");
}

#[test]
fn progress_template_matches_knowledge_of_the_size() {
    let known = DownloadTracker::new(200, Some(1), 0, 0, SpeedUnit::BitsMetric);
    let unknown = DownloadTracker::new(200, None, 0, 0, SpeedUnit::BitsMetric);
    assert_eq!(known.progress_template(), "{bar:40.cyan/blue} {bytes}/{total_bytes} {msg} ({eta})");
    assert_eq!(unknown.progress_template(), "{spinner:.cyan} {bytes} {msg}");
}

#[test]
fn filename_comes_from_the_last_path_segment() {
    assert_eq!(extract_filename("https://example.com/files/100MB.bin"), "100MB.bin");
    assert_eq!(extract_filename("https://example.com/files/100MB.bin?token=abc"), "100MB.bin");
    assert_eq!(extract_filename("plain"), "plain");
}

#[test]
fn filename_falls_back_when_the_segment_is_empty() {
    assert_eq!(extract_filename("https://example.com/"), "speedtest_file.dat");
    assert_eq!(extract_filename(""), "speedtest_file.dat");
    assert_eq!(extract_filename("https://example.com/dir/?q=1"), "speedtest_file.dat");
    assert_eq!(
        extract_filename("https://speed.cloudflare.com/__down?bytes=100000000"),
        "__down"
    );
}
