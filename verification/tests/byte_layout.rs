use fundraiser::layout::{
    read_address, read_i64, read_u64, same_address, write_bytes, write_i64, write_u64,
};

#[test]
fn u64_round_trips_little_endian() {
    let mut data = vec![0xFFu8; 12];
    write_u64(&mut data, 2, 0x1122_3344_5566_7788);
    assert_eq!(&data[2..10], &[0x88, 0x77, 0x66, 0x55, 0x44, 0x33, 0x22, 0x11][..]);
    assert_eq!(&data[..2], &[0xFF, 0xFF][..]);
    assert_eq!(&data[10..], &[0xFF, 0xFF][..]);
    assert_eq!(read_u64(&data, 2), 0x1122_3344_5566_7788);
}

#[test]
fn i64_round_trips_twos_complement() {
    let mut data = vec![0u8; 8];
    write_i64(&mut data, 0, -2);
    assert_eq!(data, vec![0xFE, 0xFF, 0xFF, 0xFF, 0xFF, 0xFF, 0xFF, 0xFF]);
    assert_eq!(read_i64(&data, 0), -2);
    write_i64(&mut data, 0, i64::MIN);
    assert_eq!(read_i64(&data, 0), i64::MIN);
}

#[test]
fn addresses_read_and_compare() {
    let mut data = vec![0u8; 40];
    write_bytes(&mut data, 4, &[3u8; 32]);
    assert_eq!(read_address(&data, 4), [3u8; 32]);
    assert_eq!(data[3], 0);
    assert_eq!(data[36], 0);
    assert!(same_address(&[5u8; 32], &[5u8; 32]));
    let mut other = [5u8; 32];
    other[31] = 6;
    assert!(!same_address(&[5u8; 32], &other));
}
