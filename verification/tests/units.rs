// The unit formatter: zero rates, threshold inclusivity at every power
// boundary, the byte conventions, idempotence, and the instantaneous rate.

use speedrun::units::{format_speed, instant_rate, SpeedUnit, RATE_MILLI_MAX};

#[test]
fn zero_rate_bits_metric() {
    assert_eq!(format_speed(0, SpeedUnit::BitsMetric), "0.00 bps");
}

#[test]
fn zero_rate_bits_binary() {
    assert_eq!(format_speed(0, SpeedUnit::BitsBinary), "0.00 bps");
}

#[test]
fn zero_rate_bytes_metric() {
    assert_eq!(format_speed(0, SpeedUnit::BytesMetric), "0 B/s");
}

#[test]
fn zero_rate_bytes_binary() {
    assert_eq!(format_speed(0, SpeedUnit::BytesBinary), "0 B/s");
}

#[test]
fn metric_kilo_boundary_inclusive() {
    // Exactly 1000 bits/s (125 bytes/s) crosses into Kbps.
    assert_eq!(format_speed(125_000, SpeedUnit::BitsMetric), "1.00 Kbps");
    // One millibyte per second below stays in bps.
    assert_eq!(format_speed(124_999, SpeedUnit::BitsMetric), "999.99 bps");
}

#[test]
fn metric_mega_boundary_inclusive() {
    // Exactly 1,000,000 bits/s (125000.0 bytes/s).
    assert_eq!(format_speed(125_000_000, SpeedUnit::BitsMetric), "1.00 Mbps");
    assert_eq!(format_speed(124_999_000, SpeedUnit::BitsMetric), "999.99 Kbps");
}

#[test]
fn metric_giga_boundary_inclusive() {
    assert_eq!(format_speed(125_000_000_000, SpeedUnit::BitsMetric), "1.00 Gbps");
    assert_eq!(format_speed(124_999_000_000, SpeedUnit::BitsMetric), "999.99 Mbps");
}

#[test]
fn binary_kibi_boundary_inclusive() {
    // Exactly 1024 bits/s (128 bytes/s).
    assert_eq!(format_speed(128_000, SpeedUnit::BitsBinary), "1.00 Kibps");
    assert_eq!(format_speed(127_999, SpeedUnit::BitsBinary), "1023.99 bps");
}

#[test]
fn binary_mebi_boundary_inclusive() {
    // Exactly 2^20 bits/s (131072 bytes/s).
    assert_eq!(format_speed(131_072_000, SpeedUnit::BitsBinary), "1.00 Mibps");
    assert_eq!(format_speed(134_216_000_000, SpeedUnit::BitsBinary), "1023.99 Mibps");
}

#[test]
fn binary_gibi_boundary_inclusive() {
    // Exactly 2^30 bits/s (134217728 bytes/s).
    assert_eq!(format_speed(134_217_728_000, SpeedUnit::BitsBinary), "1.00 Gibps");
}

#[test]
fn near_kilo_rate_rounds_up_in_kbps() {
    // 999.999 bytes/s is 7999.992 bits/s: above the 1000 bits/s threshold,
    // so it reports in Kbps, rounded to 8.00.
    assert_eq!(format_speed(999_999, SpeedUnit::BitsMetric), "8.00 Kbps");
}

#[test]
fn bytes_metric_uses_si_ladder() {
    // 999 bytes/s stays integral; 1000 bytes/s crosses into kB.
    assert_eq!(format_speed(999_000, SpeedUnit::BytesMetric), "999 B/s");
    assert_eq!(format_speed(1_000_000, SpeedUnit::BytesMetric), "1.0 kB/s");
    assert_eq!(format_speed(10_000_000_000, SpeedUnit::BytesMetric), "10.0 MB/s");
}

#[test]
fn bytes_binary_uses_iec_ladder() {
    // 1023 bytes/s stays integral; 1024 bytes/s crosses into KiB.
    assert_eq!(format_speed(1_023_000, SpeedUnit::BytesBinary), "1023 B/s");
    assert_eq!(format_speed(1_024_000, SpeedUnit::BytesBinary), "1.0 KiB/s");
    // Ten decimal megabytes per second on the binary ladder.
    assert_eq!(format_speed(10_000_000_000, SpeedUnit::BytesBinary), "9.5 MiB/s");
}

#[test]
fn formatter_is_idempotent() {
    for unit in [
        SpeedUnit::BitsMetric,
        SpeedUnit::BitsBinary,
        SpeedUnit::BytesMetric,
        SpeedUnit::BytesBinary,
    ] {
        for rate in [0u64, 124_999, 125_000, 999_999, 10_000_000_000, RATE_MILLI_MAX] {
            let first = format_speed(rate, unit);
            let second = format_speed(rate, unit);
            assert_eq!(first, second);
            assert_eq!(first.as_bytes(), second.as_bytes());
        }
    }
}

#[test]
fn truncated_millibytes_match_bytesize_directly() {
    // The byte conventions hand whole bytes to the bytesize crate after
    // truncating the millibyte rate, exactly as bytesize itself renders them.
    let rate_milli: u64 = 2_345_678;
    let expected_si = format!("{}/s", bytesize::ByteSize::b(rate_milli / 1000).display().si());
    let expected_iec = format!("{}/s", bytesize::ByteSize::b(rate_milli / 1000));
    assert_eq!(format_speed(rate_milli, SpeedUnit::BytesMetric), expected_si);
    assert_eq!(format_speed(rate_milli, SpeedUnit::BytesBinary), expected_iec);
}

#[test]
fn instant_rate_from_refresh_window() {
    // One megabyte gained over a tenth of a second is ten megabytes per
    // second, i.e. 10^10 millibytes per second.
    assert_eq!(instant_rate(1_000_000, 100_000), 10_000_000_000);
    // Saturation at the formatter's cap.
    assert_eq!(instant_rate(u64::MAX, 1), RATE_MILLI_MAX);
}

#[test]
fn speed_unit_from_string_folds_case() {
    assert_eq!(SpeedUnit::from_string("bits-metric"), SpeedUnit::BitsMetric);
    assert_eq!(SpeedUnit::from_string("BITS-BINARY"), SpeedUnit::BitsBinary);
    assert_eq!(SpeedUnit::from_string("Bytes-Metric"), SpeedUnit::BytesMetric);
    assert_eq!(SpeedUnit::from_string("bytes-binary"), SpeedUnit::BytesBinary);
    assert_eq!(SpeedUnit::from_string("anything-else"), SpeedUnit::BitsMetric);
}
