use newcrc::outcome::{FileDigest, HashError, HashResult};
use newcrc::report::{human_readable, manifest, manifest_line, summarize, throughput, FileTask, RunStatistics};

fn ok(digest: &str, bytes: u64) -> HashResult {
    Ok(FileDigest { digest: String::from(digest), bytes_hashed: bytes })
}

fn io_error(message: &str) -> HashResult {
    Err(HashError::Io { message: String::from(message) })
}

fn task(path: &str, relative: &str) -> FileTask {
    FileTask { path: String::from(path), relative_path: String::from(relative) }
}

// The amount as double-precision arithmetic shows it.
fn with_doubles(num_bytes: u64) -> String {
    let units = ["B", "KiB", "MiB", "GiB", "TiB", "PiB"];
    let mut i = 0;
    let mut n = num_bytes as f64;
    while n >= 1024.0 && i < units.len() - 1 {
        n /= 1024.0;
        i += 1;
    }
    format!("{:.2} {}", n, units[i])
}

#[test]
fn line_of_a_hashed_file() {
    let line = manifest_line(&task("./data/sub/file.txt", "sub/file.txt"), &ok("2d06800538d394c2", 0));
    assert_eq!(line, "2d06800538d394c2 *..\\sub/file.txt\n");
}

#[test]
fn line_of_a_failed_file() {
    let line = manifest_line(&task("./data/locked.bin", "locked.bin"), &io_error("Permission denied (os error 13)"));
    assert_eq!(line, "[ERROR] ./data/locked.bin: Permission denied (os error 13)\n");
    let line = manifest_line(&task("big.bin", "big.bin"), &Err(HashError::StreamingUnsupported));
    assert_eq!(
        line,
        "[ERROR] big.bin: City128 does not support streaming. Increase --full-load-limit or choose another algorithm.\n"
    );
    let line = manifest_line(&task("huge.bin", "huge.bin"), &Err(HashError::InputTooLong));
    assert_eq!(line, "[ERROR] huge.bin: the input is too long for the digest algorithms\n");
}

#[test]
fn manifest_has_one_line_per_file_in_order() {
    let tasks = vec![task("r/a", "a"), task("r/b", "b"), task("r/c", "c"), task("r/d", "d")];
    let outcomes = vec![ok("aa", 1), io_error("gone"), ok("cc", 3), ok("dd", 4)];
    let lines = manifest(&tasks, &outcomes);
    assert_eq!(lines, vec!["aa *..\\a\n", "[ERROR] r/b: gone\n", "cc *..\\c\n", "dd *..\\d\n"]);
}

#[test]
fn an_empty_tree_has_an_empty_manifest() {
    let lines = manifest(&Vec::new(), &Vec::new());
    assert!(lines.is_empty());
    let totals = summarize(&Vec::new(), 0).unwrap();
    assert_eq!(totals, RunStatistics { total_files: 0, total_errors: 0, total_bytes: 0, elapsed_nanos: 0 });
    assert_eq!(totals.throughput(), 0);
    assert_eq!(human_readable(totals.throughput()), "0.00 B");
    assert_eq!(summarize(&Vec::new(), 1_000).unwrap().throughput(), 0);
    assert_eq!(throughput(0, 0), 0);
    assert_eq!(throughput(0, 5_000_000), 0);
    assert_eq!(human_readable(throughput(0, 0)), "0.00 B");
}

#[test]
fn totals_of_a_run() {
    let outcomes = vec![ok("aa", 10), io_error("gone"), ok("cc", 5 * 1024 * 1024), io_error("denied"), ok("ee", 0)];
    let totals = summarize(&outcomes, 2_000_000_000).unwrap();
    assert_eq!(
        totals,
        RunStatistics { total_files: 5, total_errors: 2, total_bytes: 10 + 5 * 1024 * 1024, elapsed_nanos: 2_000_000_000 }
    );
    assert_eq!(totals.throughput(), (10 + 5 * 1024 * 1024) / 2);
    assert_eq!(human_readable(totals.total_bytes), "5.00 MiB");
    assert_eq!(human_readable(totals.throughput()), "2.50 MiB");
}

#[test]
fn a_run_that_took_no_time_has_rate_zero() {
    let totals = summarize(&vec![ok("aa", 1000)], 0).unwrap();
    assert_eq!(totals.total_bytes, 1000);
    assert_eq!(totals.throughput(), 0);
    assert_eq!(human_readable(totals.throughput()), "0.00 B");
}

#[test]
fn bytes_are_the_sizes_of_the_hashed_files() {
    let sizes: [u64; 6] = [0, 1, 1024, 123_456_789, 7, 1 << 40];
    let failed = [false, true, false, false, true, false];
    let mut outcomes = Vec::new();
    let mut expected = 0u64;
    for i in 0..sizes.len() {
        if failed[i] {
            outcomes.push(io_error("unreadable"));
        } else {
            outcomes.push(ok("00", sizes[i]));
            expected += sizes[i];
        }
    }
    let totals = summarize(&outcomes, 1).unwrap();
    assert_eq!(totals.total_bytes, expected);
    assert_eq!(totals.total_errors, 2);
    assert_eq!(totals.total_files, 6);
}

#[test]
fn totals_stop_at_64_bits() {
    assert_eq!(
        summarize(&vec![ok("a", u64::MAX - 1), ok("b", 1)], 7),
        Some(RunStatistics { total_files: 2, total_errors: 0, total_bytes: u64::MAX, elapsed_nanos: 7 })
    );
    assert_eq!(summarize(&vec![ok("a", u64::MAX - 1), ok("b", 2)], 7), None);
    assert_eq!(summarize(&vec![ok("a", u64::MAX), io_error("x"), ok("b", 1), ok("c", 0)], 7), None);
}

#[test]
fn throughput_is_bytes_per_second() {
    assert_eq!(throughput(1000, 1_000_000_000), 1000);
    assert_eq!(throughput(1000, 2_000_000_000), 500);
    assert_eq!(throughput(1000, 500_000_000), 2000);
    assert_eq!(throughput(10, 3_000_000_000), 3);
    assert_eq!(throughput(1, 1_000_000_001), 0);
    assert_eq!(throughput(515 * 1024 * 1024, 2_500_000_000), 216_006_656);
    assert_eq!(throughput(u64::MAX, 1_000_000_000), u64::MAX);
    assert_eq!(throughput(u64::MAX, u128::MAX), 0);
}

#[test]
fn throughput_never_divides_by_zero() {
    assert_eq!(throughput(0, 0), 0);
    assert_eq!(throughput(1, 0), 0);
    assert_eq!(throughput(u64::MAX, 0), 0);
}

#[test]
fn throughput_is_held_to_64_bits() {
    assert_eq!(throughput(u64::MAX, 1), u64::MAX);
    assert_eq!(throughput(u64::MAX, 999_999_999), u64::MAX);
    assert_eq!(throughput(1 << 40, 1), u64::MAX);
    assert_eq!(throughput(18_446_744_073, 1), 18_446_744_073_000_000_000);
    assert_eq!(throughput(18_446_744_074, 1), u64::MAX);
}

#[test]
fn human_readable_units() {
    assert_eq!(human_readable(0), "0.00 B");
    assert_eq!(human_readable(1), "1.00 B");
    assert_eq!(human_readable(1023), "1023.00 B");
    assert_eq!(human_readable(1024), "1.00 KiB");
    assert_eq!(human_readable(1536), "1.50 KiB");
    assert_eq!(human_readable(1024 * 1024), "1.00 MiB");
    assert_eq!(human_readable(5 * 1024 * 1024 + 10), "5.00 MiB");
    assert_eq!(human_readable(209_715_200), "200.00 MiB");
    assert_eq!(human_readable(1 << 30), "1.00 GiB");
    assert_eq!(human_readable(1 << 40), "1.00 TiB");
    assert_eq!(human_readable(1 << 50), "1.00 PiB");
    assert_eq!(human_readable(1 << 60), "1024.00 PiB");
    assert_eq!(human_readable(u64::MAX), "16384.00 PiB");
}

#[test]
fn human_readable_rounds_to_the_nearest_hundredth() {
    assert_eq!(human_readable(1029), "1.00 KiB");
    assert_eq!(human_readable(1030), "1.01 KiB");
    assert_eq!(human_readable(1048575), "1024.00 KiB");
    assert_eq!(human_readable(2047), "2.00 KiB");
    assert_eq!(human_readable(1234567), "1.18 MiB");
}

#[test]
fn human_readable_sends_ties_to_the_even_hundredth() {
    // 1152 / 1024 = 1.125 and 1408 / 1024 = 1.375, both exactly.
    assert_eq!(human_readable(1152), "1.12 KiB");
    assert_eq!(human_readable(1408), "1.38 KiB");
    assert_eq!(human_readable(1152), with_doubles(1152));
    assert_eq!(human_readable(1408), with_doubles(1408));
}

#[test]
fn human_readable_matches_double_precision_arithmetic() {
    let mut x: u64 = 0x2545_f491_4f6c_dd1d;
    for round in 0..20_000u32 {
        x ^= x << 13;
        x ^= x >> 7;
        x ^= x << 17;
        let value = x >> (round % 64);
        assert_eq!(human_readable(value), with_doubles(value), "for {}", value);
    }
    for shift in 0..64u32 {
        let base = 1u64 << shift;
        for delta in 0..300u64 {
            for value in [base.wrapping_add(delta), base.wrapping_sub(delta), base.wrapping_add(delta * 128), (base / 100).wrapping_mul(delta)] {
                assert_eq!(human_readable(value), with_doubles(value), "for {}", value);
            }
        }
    }
    for value in [u64::MAX, u64::MAX - 1, u64::MAX - 1023, u64::MAX - 1024, u64::MAX - 1025, (1 << 53) + 1, (1 << 53) - 1, (1 << 54) + 2, (1 << 54) + 6] {
        assert_eq!(human_readable(value), with_doubles(value), "for {}", value);
    }
}

#[test]
fn human_readable_ties_in_every_unit() {
    // Amounts that are an odd number of half hundredths of their unit, where that is exact.
    for unit in 1..=5u32 {
        let size = 1u64 << (10 * unit);
        for k in 0..2000u64 {
            let value = size + k * (size / 1024);
            assert_eq!(human_readable(value), with_doubles(value), "for {}", value);
            let value = size + k * (size / 128);
            assert_eq!(human_readable(value), with_doubles(value), "for {}", value);
        }
    }
}
