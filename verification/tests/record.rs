use snake::record::{decode, encode, RECORD_LEN};

#[test]
fn record_is_eight_bytes_least_significant_first() {
    assert_eq!(RECORD_LEN, 8);
    assert_eq!(encode(0x0102_0304_0506_0708), vec![8, 7, 6, 5, 4, 3, 2, 1]);
    assert_eq!(encode(0), vec![0; 8]);
    assert_eq!(encode(450), vec![0xc2, 0x01, 0, 0, 0, 0, 0, 0]);
    assert_eq!(encode(u64::MAX), vec![0xff; 8]);
}

#[test]
fn record_is_read_least_significant_first() {
    assert_eq!(decode(&[1, 0, 0, 0, 0, 0, 0, 0]), Some(1));
    assert_eq!(decode(&[0, 1, 0, 0, 0, 0, 0, 0]), Some(256));
    assert_eq!(decode(&[0, 0, 0, 0, 0, 0, 0, 0x80]), Some(1 << 63));
    assert_eq!(decode(&[0xc2, 0x01, 0, 0, 0, 0, 0, 0]), Some(450));
    assert_eq!(decode(&[8, 7, 6, 5, 4, 3, 2, 1]), Some(0x0102_0304_0506_0708));
}

#[test]
fn bytes_of_another_length_are_no_record() {
    assert_eq!(decode(&[]), None);
    assert_eq!(decode(&[1, 2, 3, 4, 5, 6, 7]), None);
    assert_eq!(decode(&[1, 2, 3, 4, 5, 6, 7, 8, 9]), None);
    assert_eq!(decode(&[0; 16]), None);
}

#[test]
fn record_round_trips() {
    for h in [0, 1, 100, 450, 255, 256, 65_535, 1 << 32, u64::MAX - 1, u64::MAX] {
        assert_eq!(decode(&encode(h)), Some(h));
    }
    let bytes = [0x10, 0x32, 0x54, 0x76, 0x98, 0xba, 0xdc, 0xfe];
    assert_eq!(encode(decode(&bytes).expect("eight bytes")), bytes.to_vec());
}
