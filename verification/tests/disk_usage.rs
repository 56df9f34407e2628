use sheepdog::disk_usage::format_bytes;

/// The formatting the byte counts are meant to match: the float value divided
/// down to its unit and shown with one decimal.
fn float_reference(bytes: u64) -> String {
    let units = ["B", "KB", "MB", "GB", "TB"];
    let mut value = bytes as f64;
    let mut unit = 0;
    while value >= 1024.0 && unit < units.len() - 1 {
        value /= 1024.0;
        unit += 1;
    }
    if unit == 0 {
        format!("{bytes} {}", units[unit])
    } else {
        format!("{value:.1} {}", units[unit])
    }
}

#[test]
fn formats_human_readable_sizes() {
    assert_eq!(format_bytes(0), "0 B");
    assert_eq!(format_bytes(1024), "1.0 KB");
    assert_eq!(format_bytes(1024 * 1024 * 3), "3.0 MB");
    assert_eq!(format_bytes(1024 * 1024 * 1024 * 2), "2.0 GB");
}

#[test]
fn formats_small_counts_in_bytes() {
    assert_eq!(format_bytes(1), "1 B");
    assert_eq!(format_bytes(1023), "1023 B");
}

#[test]
fn rounds_ties_to_even() {
    assert_eq!(format_bytes(1280), "1.2 KB");
    assert_eq!(format_bytes(1792), "1.8 KB");
    assert_eq!(format_bytes(1536), "1.5 KB");
}

#[test]
fn rounding_can_reach_the_next_thousand() {
    // 1048575 bytes is just under 1 MB; it shows as 1024.0 KB.
    assert_eq!(format_bytes(1024 * 1024 - 1), "1024.0 KB");
}

#[test]
fn largest_sizes_stay_in_terabytes() {
    assert_eq!(format_bytes(1024u64.pow(4)), "1.0 TB");
    assert_eq!(format_bytes(1024u64.pow(5)), "1024.0 TB");
    assert_eq!(format_bytes(u64::MAX), "16777216.0 TB");
}

#[test]
fn demo_sizes_format_as_megabytes() {
    assert_eq!(format_bytes(120 * 1024 * 1024), "120.0 MB");
    assert_eq!(format_bytes(42 * 1024 * 1024), "42.0 MB");
}

#[test]
fn matches_float_formatting_on_many_values() {
    let mut samples: Vec<u64> = Vec::new();
    for b in 0..5000u64 {
        samples.push(b);
    }
    for k in 0..64u32 {
        let p = 1u64 << k;
        for d in [0u64, 1, 2, 3, 511, 512, 513, 1023, 1024, 1025] {
            samples.push(p.wrapping_add(d));
            samples.push(p.wrapping_sub(d));
        }
    }
    let mut x: u64 = 0x9e37_79b9_7f4a_7c15;
    for _ in 0..20000 {
        x ^= x << 13;
        x ^= x >> 7;
        x ^= x << 17;
        samples.push(x);
        samples.push(x >> (x % 64));
    }
    for b in [1_999_999_999_999u64, 1_099_511_627_775, 9_007_199_254_740_993, 18_014_398_509_481_983] {
        samples.push(b);
    }
    for b in samples {
        assert_eq!(format_bytes(b), float_reference(b), "bytes = {b}");
    }
}
