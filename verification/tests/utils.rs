use oxygen::utils;
use std::time::Duration;

#[test]
fn test_basic_functionality() {
    assert_eq!(2 + 2, 4);
}

#[test]
fn test_utils_format_duration() {
    let duration = Duration::from_millis(1500);
    let formatted = utils::format_duration(duration);
    assert!(formatted.contains("1.5"));
}

/// The sizes as floating point shows them.
fn bytes_by_floats(bytes: u64) -> String {
    let units = ["B", "KB", "MB", "GB"];
    let mut size = bytes as f64;
    let mut unit = 0;
    while size >= 1024.0 && unit < units.len() - 1 {
        size /= 1024.0;
        unit += 1;
    }
    if unit == 0 {
        format!("{} {}", bytes, units[unit])
    } else {
        format!("{:.2} {}", size, units[unit])
    }
}

#[test]
fn format_bytes_small_sizes_are_plain_counts() {
    assert_eq!(utils::format_bytes(0), "0 B");
    assert_eq!(utils::format_bytes(1), "1 B");
    assert_eq!(utils::format_bytes(500), "500 B");
    assert_eq!(utils::format_bytes(1023), "1023 B");
}

#[test]
fn format_bytes_scales_by_1024() {
    assert_eq!(utils::format_bytes(1024), "1.00 KB");
    assert_eq!(utils::format_bytes(2048), "2.00 KB");
    assert_eq!(utils::format_bytes(1536), "1.50 KB");
    assert_eq!(utils::format_bytes(1048576), "1.00 MB");
    assert_eq!(utils::format_bytes(5 * 1048576 + 524288), "5.50 MB");
    assert_eq!(utils::format_bytes(1073741824), "1.00 GB");
}

#[test]
fn format_bytes_rounds_to_nearest_and_ties_to_even() {
    // 1152 / 1024 = 1.125 exactly
    assert_eq!(utils::format_bytes(1152), "1.12 KB");
    // 1.375 exactly
    assert_eq!(utils::format_bytes(1408), "1.38 KB");
    assert_eq!(utils::format_bytes(1025), "1.00 KB");
    assert_eq!(utils::format_bytes(1030), "1.01 KB");
}

#[test]
fn format_bytes_keeps_the_unit_chosen_before_rounding() {
    assert_eq!(utils::format_bytes(1048575), "1024.00 KB");
    assert_eq!(utils::format_bytes(1073741823), "1024.00 MB");
}

#[test]
fn format_bytes_stops_at_gigabytes() {
    assert_eq!(utils::format_bytes(1099511627776), "1024.00 GB");
    assert_eq!(utils::format_bytes(u64::MAX), "17179869184.00 GB");
}

#[test]
fn format_bytes_agrees_with_floating_point() {
    let mut b: u64 = 1;
    let mut step: u64 = 1;
    while b < (1u64 << 53) {
        assert_eq!(utils::format_bytes(b), bytes_by_floats(b), "at {}", b);
        assert_eq!(utils::format_bytes(b - 1), bytes_by_floats(b - 1), "at {}", b - 1);
        step = step * 3 + 7;
        b += step % 1_000_003 + b / 7;
    }
    for b in 0..20_000u64 {
        assert_eq!(utils::format_bytes(b), bytes_by_floats(b), "at {}", b);
    }
    for k in 0..2_000u64 {
        let b = 1_048_000 + k;
        assert_eq!(utils::format_bytes(b), bytes_by_floats(b), "at {}", b);
        let b = 1_073_741_000 + k;
        assert_eq!(utils::format_bytes(b), bytes_by_floats(b), "at {}", b);
    }
}

#[test]
fn format_duration_below_a_second_is_whole_milliseconds() {
    assert_eq!(utils::format_duration(Duration::from_nanos(0)), "0ms");
    assert_eq!(utils::format_duration(Duration::from_micros(500)), "0ms");
    assert_eq!(utils::format_duration(Duration::from_millis(1)), "1ms");
    assert_eq!(utils::format_duration(Duration::from_millis(250)), "250ms");
    assert_eq!(utils::format_duration(Duration::from_millis(999)), "999ms");
    assert_eq!(utils::format_duration(Duration::from_nanos(999_999_999)), "999ms");
}

#[test]
fn format_duration_from_a_second_on_is_seconds() {
    assert_eq!(utils::format_duration(Duration::from_secs(1)), "1.00s");
    assert_eq!(utils::format_duration(Duration::from_millis(1500)), "1.50s");
    assert_eq!(utils::format_duration(Duration::from_millis(1234)), "1.23s");
    assert_eq!(utils::format_duration(Duration::from_millis(1236)), "1.24s");
    assert_eq!(utils::format_duration(Duration::from_millis(65_432)), "65.43s");
    assert_eq!(utils::format_duration(Duration::from_secs(3600)), "3600.00s");
}

/// The seconds as floating point shows them.
fn seconds_by_floats(d: Duration) -> String {
    let secs = d.as_secs_f64();
    if secs < 1.0 {
        format!("{:.0}ms", d.as_millis())
    } else {
        format!("{:.2}s", secs)
    }
}

#[test]
fn format_duration_between_two_hundredths_goes_as_the_double_does() {
    // the doubles behind these lie just below the middle
    assert_eq!(utils::format_duration(Duration::from_millis(1005)), "1.00s");
    assert_eq!(utils::format_duration(Duration::from_millis(1015)), "1.01s");
    assert_eq!(utils::format_duration(Duration::from_millis(1035)), "1.03s");
    assert_eq!(utils::format_duration(Duration::from_millis(1055)), "1.05s");
    assert_eq!(utils::format_duration(Duration::from_millis(2675)), "2.67s");
    // these are doubles themselves: the tie goes to the even hundredth
    assert_eq!(utils::format_duration(Duration::from_millis(1125)), "1.12s");
    assert_eq!(utils::format_duration(Duration::from_millis(1375)), "1.38s");
    assert_eq!(utils::format_duration(Duration::from_millis(2625)), "2.62s");
}

#[test]
fn format_duration_takes_the_longest_duration() {
    let longest = Duration::new(u64::MAX, 999_999_999);
    assert_eq!(utils::format_duration(longest), "18446744073709551616.00s");
    assert_eq!(utils::format_duration(longest), seconds_by_floats(longest));
}

#[test]
fn format_duration_agrees_with_floating_point_on_every_five_milliseconds() {
    let mut ms: u64 = 0;
    while ms < 300_000 {
        let d = Duration::from_millis(ms);
        assert_eq!(utils::format_duration(d), seconds_by_floats(d), "at {} ms", ms);
        ms += 5;
    }
}

#[test]
fn format_duration_agrees_with_floating_point_all_over() {
    let mut n: u64 = 1;
    let mut i: u64 = 0;
    while i < 60_000 {
        n = n.wrapping_mul(6364136223846793005).wrapping_add(1442695040888963407);
        let secs = match i % 6 {
            0 => n % 100,
            1 => n % 1_000_000,
            2 => n >> 11,
            3 => n,
            4 => (1u64 << 53) + (n % 5) - 2,
            _ => u64::MAX - (n % 4096),
        };
        n = n.wrapping_mul(6364136223846793005).wrapping_add(1442695040888963407);
        let nanos = match i % 5 {
            0 => (n % 1_000_000_000) as u32,
            1 => ((n % 200) * 5_000_000) as u32,
            2 => 999_999_999,
            3 => (n % 3) as u32,
            _ => ((n % 1_000) * 1_000_000 + 500_000) as u32,
        };
        let d = Duration::new(secs, nanos);
        assert_eq!(utils::format_duration(d), seconds_by_floats(d), "at {} s {} ns", secs, nanos);
        i += 1;
    }
}

#[test]
fn format_nanos_is_what_format_duration_shows() {
    assert_eq!(utils::format_nanos(1_500_000_000), "1.50s");
    assert_eq!(utils::format_nanos(999_000_000), "999ms");
    assert_eq!(utils::format_nanos(1_000_000_000), "1.00s");
}
