use mz_oxide::checksum::mz_adler32_oxide;
use mz_oxide::checksum::mz_crc32_oxide;

#[test]
fn adler32_known_value() {
    assert_eq!(mz_adler32_oxide(1, b"Wikipedia"), 0x11E6_0398);
}

#[test]
fn adler32_of_nothing_keeps_seed() {
    assert_eq!(mz_adler32_oxide(1, b""), 1);
    assert_eq!(mz_adler32_oxide(0xdead_beef, b""), 0xdead_beef);
}

#[test]
fn adler32_chunked_equals_one_shot() {
    let data: Vec<u8> = (0..5000u32).map(|i| (i * 7 + 3) as u8).collect();
    let whole = mz_adler32_oxide(1, &data);
    for split in [0usize, 1, 17, 2500, 4999, 5000] {
        let first = mz_adler32_oxide(1, &data[..split]);
        assert_eq!(mz_adler32_oxide(first, &data[split..]), whole);
    }
}

#[test]
fn adler32_large_run_stays_reduced() {
    let data = vec![0xffu8; 100_000];
    let r = mz_adler32_oxide(1, &data);
    assert!((r & 0xffff) < 65521);
    assert!((r >> 16) < 65521);
}

#[test]
fn crc32_known_value() {
    assert_eq!(mz_crc32_oxide(0, b"123456789"), 0xCBF4_3926);
    assert_eq!(mz_crc32_oxide(0, b"The quick brown fox jumps over the lazy dog"), 0x414F_A339);
}

#[test]
fn crc32_of_nothing_keeps_seed() {
    assert_eq!(mz_crc32_oxide(0, b""), 0);
    assert_eq!(mz_crc32_oxide(0x1234_5678, b""), 0x1234_5678);
}

#[test]
fn crc32_chunked_equals_one_shot() {
    let data: Vec<u8> = (0..3000u32).map(|i| (i * 13 + 5) as u8).collect();
    let whole = mz_crc32_oxide(0, &data);
    for split in [0usize, 1, 64, 1500, 2999, 3000] {
        let first = mz_crc32_oxide(0, &data[..split]);
        assert_eq!(mz_crc32_oxide(first, &data[split..]), whole);
    }
}
