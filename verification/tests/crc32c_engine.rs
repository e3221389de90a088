use newcrc::algo::HashAlgo;
use newcrc::castagnoli::{Crc32cStream, Crc32cTable};
use newcrc::stream::{digest_whole, StreamHasher};

#[test]
fn table_has_256_entries_with_known_values() {
    let table = Crc32cTable::new();
    let entries = table.entries();
    assert_eq!(entries.len(), 256);
    assert_eq!(entries[0], 0);
    assert_eq!(entries[1], 0xf26b8303);
    assert_eq!(entries[128], 0x82f63b78);
    assert_eq!(entries[255], 0xad7d5351);
    assert_eq!(table.entry(1), 0xf26b8303);
    assert_eq!(table.entry(255), 0xad7d5351);
}

#[test]
fn table_construction_is_deterministic() {
    let first = Crc32cTable::new();
    let second = Crc32cTable::new();
    assert_eq!(first.entries(), second.entries());
    for i in 0..=255u8 {
        assert_eq!(first.entry(i), second.entry(i));
    }
}

#[test]
fn table_entries_follow_the_bitwise_rule() {
    let table = Crc32cTable::new();
    for i in 0..256u32 {
        let mut c = i;
        for _ in 0..8 {
            c = if c & 1 != 0 { 0x82F63B78 ^ (c >> 1) } else { c >> 1 };
        }
        assert_eq!(table.entry(i as u8), c);
    }
}

#[test]
fn crc32c_check_value() {
    let table = Crc32cTable::new();
    let mut stream = Crc32cStream::new(&table);
    stream.update(b"123456789");
    assert_eq!(stream.checksum(), 0xe3069283);
}

#[test]
fn crc32c_of_nothing_is_zero() {
    let table = Crc32cTable::new();
    let stream = Crc32cStream::new(&table);
    assert_eq!(stream.checksum(), 0);
}

#[test]
fn crc32c_does_not_depend_on_the_cut() {
    let table = Crc32cTable::new();
    let data = b"123456789";
    for cut in 0..=data.len() {
        let mut stream = Crc32cStream::new(&table);
        stream.update(&data[..cut]);
        stream.update(&data[cut..]);
        assert_eq!(stream.checksum(), 0xe3069283);
    }
}

#[test]
fn crc32c_streamed_digest_is_e3069283() {
    let table = Crc32cTable::new();
    let hasher = StreamHasher::new(HashAlgo::Crc32c, &table).unwrap();
    let hasher = hasher.update(b"1234").unwrap();
    let hasher = hasher.update(b"56789").unwrap();
    assert_eq!(hasher.finalize(), "e3069283");
}

#[test]
fn crc32c_one_shot_agrees_with_the_table() {
    assert_eq!(digest_whole(HashAlgo::Crc32c, b"123456789").unwrap(), "e3069283");
    assert_eq!(digest_whole(HashAlgo::Crc32c, b"Hello world!").unwrap(), "7b98e751");
    assert_eq!(digest_whole(HashAlgo::Crc32c, b"").unwrap(), "00000000");
    let table = Crc32cTable::new();
    let mut data = Vec::new();
    for i in 0..5000u32 {
        data.push((i * 31 + 7) as u8);
        let mut stream = Crc32cStream::new(&table);
        stream.update(&data);
        let expected = format!("{:08x}", stream.checksum());
        assert_eq!(digest_whole(HashAlgo::Crc32c, &data).unwrap(), expected);
    }
}
