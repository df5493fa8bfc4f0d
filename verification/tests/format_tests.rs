use perch::services::{format_bytes, format_percentage, format_rate};
use perch::models::Percentage;

#[test]
fn test_format_bytes_small() {
    assert_eq!(format_bytes(512), "512.0 B");
}

#[test]
fn test_format_bytes_kb() {
    assert_eq!(format_bytes(1024), "1.0 KB");
    assert_eq!(format_bytes(1536), "1.5 KB");
}

#[test]
fn test_format_bytes_mb() {
    assert_eq!(format_bytes(1048576), "1.0 MB");
    assert_eq!(format_bytes(1572864), "1.5 MB");
}

#[test]
fn test_format_bytes_gb() {
    assert_eq!(format_bytes(1073741824), "1.0 GB");
    assert_eq!(format_bytes(2147483648), "2.0 GB");
}

#[test]
fn test_format_rate() {
    assert_eq!(format_rate(1024), "1.0 KB/s");
    assert_eq!(format_rate(1048576), "1.0 MB/s");
}

fn floating_text(bytes: u64) -> String {
    let units = ["B", "KB", "MB", "GB", "TB"];
    let mut size = bytes as f64;
    let mut unit = 0;
    while size >= 1024.0 && unit < units.len() - 1 {
        size /= 1024.0;
        unit += 1;
    }
    format!("{:.1} {}", size, units[unit])
}

#[test]
fn format_bytes_zero_and_one() {
    assert_eq!(format_bytes(0), "0.0 B");
    assert_eq!(format_bytes(1), "1.0 B");
    assert_eq!(format_bytes(1023), "1023.0 B");
}

#[test]
fn format_bytes_terabytes_do_not_change_unit() {
    assert_eq!(format_bytes(1_099_511_627_776), "1.0 TB");
    assert_eq!(format_bytes(1_099_511_627_776 * 2048), "2048.0 TB");
    assert_eq!(format_bytes(u64::MAX), "16777216.0 TB");
}

#[test]
fn format_bytes_rounds_up_to_next_unit_size() {
    assert_eq!(format_bytes(1_048_575), "1024.0 KB");
}

#[test]
fn format_bytes_tie_goes_to_even_digit() {
    // 1.25 KB and 1.75 KB lie midway between two tenths.
    assert_eq!(format_bytes(1280), "1.2 KB");
    assert_eq!(format_bytes(1792), "1.8 KB");
    // 1.35 KB does not: it is rounded to the nearest.
    assert_eq!(format_bytes(1382), "1.3 KB");
    assert_eq!(format_bytes(1383), "1.4 KB");
}

#[test]
fn format_bytes_agrees_with_floating_point_text() {
    let mut samples: Vec<u64> = vec![0, 1, 9, 10, 99, 511, 512, 1000, 1023, 1024, 1025, 1075, 1076, 1280, 1792];
    let mut power: u64 = 1;
    for _ in 0..63 {
        power *= 2;
        for offset in [0u64, 1, 2, 3, 51, 52, 53, 1023, 1024, 1025] {
            samples.push(power.wrapping_sub(offset));
            samples.push(power.wrapping_add(offset));
            samples.push((power / 5).wrapping_mul(3).wrapping_add(offset));
            samples.push((power / 10).wrapping_mul(11).wrapping_add(offset));
        }
    }
    // Ties of the tenths digit above 2^53: odd multiples of 2^38 that are five times an odd number.
    for odd in [5u64 * 32767, 5 * 32769, 5 * 65535, 5 * 1_000_001, 15, 25, 35] {
        let tie = odd << 38;
        if odd < (1 << 26) {
            for offset in 0..1200u64 {
                samples.push(tie.wrapping_add(offset));
                samples.push(tie.wrapping_sub(offset));
            }
        }
    }
    let mut state: u64 = 0x9e37_79b9_7f4a_7c15;
    for _ in 0..20_000 {
        state ^= state << 13;
        state ^= state >> 7;
        state ^= state << 17;
        samples.push(state);
        samples.push(state >> (state % 64));
    }
    for bytes in samples {
        assert_eq!(format_bytes(bytes), floating_text(bytes), "for {}", bytes);
    }
}

#[test]
fn format_rate_appends_per_second() {
    assert_eq!(format_rate(0), "0.0 B/s");
    assert_eq!(format_rate(1536), "1.5 KB/s");
    assert_eq!(format_rate(1_000_000), "976.6 KB/s");
}

#[test]
fn format_percentage_has_two_places() {
    assert_eq!(format_percentage(Percentage { part: 45_678, whole: 100_000 }), "45.68%");
    assert_eq!(format_percentage(Percentage { part: 3, whole: 4 }), "75.00%");
    assert_eq!(format_percentage(Percentage { part: 1, whole: 3 }), "33.33%");
    assert_eq!(format_percentage(Percentage { part: 2, whole: 3 }), "66.67%");
    assert_eq!(format_percentage(Percentage { part: 5, whole: 100 }), "5.00%");
    assert_eq!(format_percentage(Percentage { part: 7, whole: 0 }), "0.00%");
    assert_eq!(format_percentage(Percentage { part: 0, whole: 9 }), "0.00%");
}

#[test]
fn format_percentage_tie_goes_to_even_digit() {
    // 0.125 % and 0.375 % lie midway between two hundredths.
    assert_eq!(format_percentage(Percentage { part: 125, whole: 100_000 }), "0.12%");
    assert_eq!(format_percentage(Percentage { part: 375, whole: 100_000 }), "0.38%");
}

#[test]
fn format_percentage_of_the_largest_share() {
    assert_eq!(format_percentage(Percentage { part: u64::MAX, whole: 1 }), "1844674407370955161500.00%");
    assert_eq!(format_percentage(Percentage { part: u64::MAX, whole: u64::MAX }), "100.00%");
}
