use newcrc::algo::{HashAlgo, BUFFER_SIZE, DEFAULT_FULL_LOAD_LIMIT};
use newcrc::castagnoli::Crc32cTable;
use newcrc::file::{plan_file, select_strategy, FilePlan, Strategy, StreamProgress};
use newcrc::outcome::{FileDigest, HashError, HashResult};
use newcrc::report::{manifest, manifest_line, summarize, FileTask};
use newcrc::stream::digest_whole;

const MIB: u64 = 1024 * 1024;

const ALL: [HashAlgo; 8] = [
    HashAlgo::Crc32,
    HashAlgo::Crc32c,
    HashAlgo::City128,
    HashAlgo::Xxh3,
    HashAlgo::Sha256,
    HashAlgo::Sha512,
    HashAlgo::Blake2b,
    HashAlgo::Blake2s,
];

fn pattern(len: usize, seed: u8) -> Vec<u8> {
    (0..len).map(|i| (i as u8).wrapping_mul(31).wrapping_add(seed)).collect()
}

// A stand-in for the 128-bit hash that the caller takes outside the library.
fn outside_hash(data: &[u8]) -> u128 {
    data.iter().fold(0x0123_4567_89ab_cdef_u128, |h, b| h.rotate_left(9) ^ (*b as u128))
}

// Hashes an in-memory file the way a caller hashes one on disk: by the plan, reading at
// most `chunk_len` bytes at a time when streaming.
fn hash_in_memory(data: &[u8], size: u64, limit: u64, algo: HashAlgo, table: &Crc32cTable) -> (HashResult, Strategy) {
    match plan_file(size, limit, algo, table) {
        Err(error) => (Err(error), Strategy::Streaming),
        Ok(FilePlan::Whole(file)) => {
            assert_eq!(file.capacity(), size);
            (file.finish(data), Strategy::FullLoad)
        }
        Ok(FilePlan::WholeCity128(file)) => {
            assert_eq!(file.capacity(), size);
            (Ok(file.finish(outside_hash(data))), Strategy::FullLoad)
        }
        Ok(FilePlan::Streamed(mut file)) => {
            let mut offset = 0usize;
            loop {
                let n = (data.len() - offset).min(file.chunk_len());
                assert_eq!(file.consumed_len(), offset as u64);
                match file.absorb(&data[offset..offset + n]) {
                    StreamProgress::More(next) => {
                        assert!(n > 0);
                        file = next;
                        offset += n;
                    }
                    StreamProgress::Done(outcome) => {
                        assert_eq!(n, 0);
                        return (outcome, Strategy::Streaming);
                    }
                }
            }
        }
    }
}

fn is_lower_hex(text: &str) -> bool {
    text.chars().all(|c| matches!(c, '0'..='9' | 'a'..='f'))
}

#[test]
fn strategy_is_full_load_up_to_the_limit() {
    for algo in ALL {
        assert_eq!(select_strategy(0, 0, algo).unwrap(), Strategy::FullLoad);
        assert_eq!(select_strategy(10, 200 * MIB, algo).unwrap(), Strategy::FullLoad);
        assert_eq!(select_strategy(200 * MIB, 200 * MIB, algo).unwrap(), Strategy::FullLoad);
        assert_eq!(select_strategy(u64::MAX, u64::MAX, algo).unwrap(), Strategy::FullLoad);
    }
}

#[test]
fn strategy_is_streaming_above_the_limit() {
    for algo in ALL {
        if algo == HashAlgo::City128 {
            continue;
        }
        assert_eq!(select_strategy(200 * MIB + 1, 200 * MIB, algo).unwrap(), Strategy::Streaming);
        assert_eq!(select_strategy(1, 0, algo).unwrap(), Strategy::Streaming);
        assert_eq!(select_strategy(u64::MAX, u64::MAX - 1, algo).unwrap(), Strategy::Streaming);
    }
}

#[test]
fn city128_above_the_limit_is_refused() {
    assert!(matches!(
        select_strategy(200 * MIB + 1, 200 * MIB, HashAlgo::City128),
        Err(HashError::StreamingUnsupported)
    ));
    assert!(matches!(select_strategy(1, 0, HashAlgo::City128), Err(HashError::StreamingUnsupported)));
    let table = Crc32cTable::new();
    assert!(matches!(
        plan_file(500 * MIB, DEFAULT_FULL_LOAD_LIMIT, HashAlgo::City128, &table),
        Err(HashError::StreamingUnsupported)
    ));
}

#[test]
fn error_messages() {
    assert_eq!(
        HashError::StreamingUnsupported.message(),
        "City128 does not support streaming. Increase --full-load-limit or choose another algorithm."
    );
    assert_eq!(HashError::InputTooLong.message(), "the input is too long for the digest algorithms");
    assert_eq!(
        HashError::Io { message: String::from("No such file or directory (os error 2)") }.message(),
        "No such file or directory (os error 2)"
    );
}

#[test]
fn plans_follow_the_strategy() {
    let table = Crc32cTable::new();
    for algo in ALL {
        let plan = plan_file(100, 100, algo, &table).unwrap();
        if algo == HashAlgo::City128 {
            assert!(matches!(plan, FilePlan::WholeCity128(_)));
        } else {
            assert!(matches!(plan, FilePlan::Whole(_)));
            assert!(matches!(plan_file(101, 100, algo, &table).unwrap(), FilePlan::Streamed(_)));
        }
    }
}

#[test]
fn both_strategies_give_the_same_digest() {
    let table = Crc32cTable::new();
    let data = pattern(3 * BUFFER_SIZE + 12345, 5);
    let size = data.len() as u64;
    for algo in ALL {
        if algo == HashAlgo::City128 {
            continue;
        }
        let (whole, how_whole) = hash_in_memory(&data, size, size, algo, &table);
        let (chunked, how_chunked) = hash_in_memory(&data, size, size - 1, algo, &table);
        assert_eq!(how_whole, Strategy::FullLoad);
        assert_eq!(how_chunked, Strategy::Streaming);
        let whole = whole.unwrap();
        let chunked = chunked.unwrap();
        assert_eq!(whole.digest, chunked.digest);
        assert_eq!(whole.digest, digest_whole(algo, &data).unwrap());
        assert_eq!(whole.digest.len(), algo.digest_hex_width());
        assert_eq!(whole.bytes_hashed, size);
        assert_eq!(chunked.bytes_hashed, size);
    }
}

#[test]
fn an_empty_file_is_hashed_either_way() {
    let table = Crc32cTable::new();
    for algo in ALL {
        if algo == HashAlgo::City128 {
            continue;
        }
        let (whole, _) = hash_in_memory(b"", 0, 0, algo, &table);
        let whole = whole.unwrap();
        assert_eq!(whole.bytes_hashed, 0);
        assert_eq!(whole.digest, digest_whole(algo, b"").unwrap());
        // A file that shrank to nothing after its size was taken is streamed to the same digest.
        let (chunked, how) = hash_in_memory(b"", 10, 5, algo, &table);
        assert_eq!(how, Strategy::Streaming);
        let chunked = chunked.unwrap();
        assert_eq!(chunked.digest, whole.digest);
        assert_eq!(chunked.bytes_hashed, 10);
    }
}

#[test]
fn reported_size_is_the_size_found_at_opening() {
    let table = Crc32cTable::new();
    let data = pattern(1000, 1);
    let (whole, _) = hash_in_memory(&data, 4242, 5000, HashAlgo::Sha256, &table);
    assert_eq!(whole.unwrap().bytes_hashed, 4242);
    let (chunked, _) = hash_in_memory(&data, 4242, 10, HashAlgo::Sha256, &table);
    assert_eq!(chunked.unwrap().bytes_hashed, 4242);
    let (city, _) = hash_in_memory(&data, 4242, 5000, HashAlgo::City128, &table);
    assert_eq!(city.unwrap().bytes_hashed, 4242);
}

#[test]
fn city128_digest_is_the_hash_in_32_digits() {
    let table = Crc32cTable::new();
    match plan_file(3, 10, HashAlgo::City128, &table).unwrap() {
        FilePlan::WholeCity128(file) => {
            let digest = file.finish(0x0000_0000_dead_beef_0123_4567_89ab_cdef);
            assert_eq!(digest.digest, "00000000deadbeef0123456789abcdef");
            assert_eq!(digest.bytes_hashed, 3);
        }
        _ => panic!("City128 under the limit is hashed whole"),
    }
}

#[test]
fn three_files_with_xxh3() {
    let table = Crc32cTable::new();
    let limit = 200 * MIB;
    let small = pattern(10, 1);
    let medium = pattern(5 * MIB as usize, 2);
    let chunk = pattern(BUFFER_SIZE, 3);
    let tasks = vec![
        FileTask { path: String::from("tree/a.bin"), relative_path: String::from("a.bin") },
        FileTask { path: String::from("tree/sub/b.bin"), relative_path: String::from("sub/b.bin") },
        FileTask { path: String::from("tree/sub/c.bin"), relative_path: String::from("sub/c.bin") },
    ];

    let (first, how_first) = hash_in_memory(&small, 10, limit, HashAlgo::Xxh3, &table);
    let (second, how_second) = hash_in_memory(&medium, 5 * MIB, limit, HashAlgo::Xxh3, &table);
    assert_eq!(how_first, Strategy::FullLoad);
    assert_eq!(how_second, Strategy::FullLoad);

    // The 500 MiB file: 500 reads of 1 MiB from a buffer that is reused, then the empty read.
    let mut file = match plan_file(500 * MIB, limit, HashAlgo::Xxh3, &table).unwrap() {
        FilePlan::Streamed(file) => file,
        _ => panic!("a file above the limit is streamed"),
    };
    for _ in 0..500 {
        file = match file.absorb(&chunk) {
            StreamProgress::More(next) => next,
            StreamProgress::Done(_) => panic!("the file is not at its end"),
        };
    }
    assert_eq!(file.consumed_len(), 500 * MIB);
    let third = match file.absorb(&[]) {
        StreamProgress::Done(outcome) => outcome,
        StreamProgress::More(_) => panic!("an empty read ends the file"),
    };

    let outcomes = vec![first, second, third];
    let lines = manifest(&tasks, &outcomes);
    assert_eq!(lines.len(), 3);
    let names = ["a.bin", "sub/b.bin", "sub/c.bin"];
    for i in 0..3 {
        let digest = &outcomes[i].as_ref().unwrap().digest;
        assert_eq!(digest.len(), 16);
        assert!(is_lower_hex(digest));
        assert_eq!(lines[i], format!("{} *..\\{}\n", digest, names[i]));
    }
    assert_eq!(outcomes[0].as_ref().unwrap().digest, digest_whole(HashAlgo::Xxh3, &small).unwrap());
    assert_eq!(outcomes[1].as_ref().unwrap().digest, digest_whole(HashAlgo::Xxh3, &medium).unwrap());
    let totals = summarize(&outcomes, 3_000_000_000).unwrap();
    assert_eq!(totals.total_files, 3);
    assert_eq!(totals.total_errors, 0);
    assert_eq!(totals.total_bytes, 10 + 5 * MIB + 500 * MIB);
}

#[test]
fn three_files_with_city128() {
    let table = Crc32cTable::new();
    let limit = 200 * MIB;
    let small = pattern(10, 1);
    let medium = pattern(5 * MIB as usize, 2);
    let tasks = vec![
        FileTask { path: String::from("tree/a.bin"), relative_path: String::from("a.bin") },
        FileTask { path: String::from("tree/b.bin"), relative_path: String::from("b.bin") },
        FileTask { path: String::from("tree/c.bin"), relative_path: String::from("c.bin") },
    ];
    let (first, _) = hash_in_memory(&small, 10, limit, HashAlgo::City128, &table);
    let (second, _) = hash_in_memory(&medium, 5 * MIB, limit, HashAlgo::City128, &table);
    let (third, _) = hash_in_memory(&[], 500 * MIB, limit, HashAlgo::City128, &table);
    let outcomes = vec![first, second, third];
    let lines = manifest(&tasks, &outcomes);
    assert_eq!(lines.len(), 3);
    for i in 0..2 {
        let digest = &outcomes[i].as_ref().unwrap().digest;
        assert_eq!(digest.len(), 32);
        assert!(is_lower_hex(digest));
        assert_eq!(lines[i], format!("{} *..\\{}\n", digest, tasks[i].relative_path));
    }
    assert!(lines[2].starts_with("[ERROR] tree/c.bin: City128 does not support streaming"));
    assert!(lines[2].ends_with("\n"));
    assert_eq!(manifest_line(&tasks[2], &outcomes[2]), lines[2]);
    let totals = summarize(&outcomes, 3_000_000_000).unwrap();
    assert_eq!(totals.total_files, 3);
    assert_eq!(totals.total_errors, 1);
    assert_eq!(totals.total_bytes, 10 + 5 * MIB);
}

#[test]
fn digest_values_can_be_built_by_hand() {
    let digest = FileDigest { digest: String::from("00ff"), bytes_hashed: 2 };
    let task = FileTask { path: String::from("p"), relative_path: String::from("r") };
    assert_eq!(manifest_line(&task, &Ok(digest)), "00ff *..\\r\n");
}
