use mavio::consts::SIGNATURE_SECRET_KEY_LENGTH;
use mavio::{MavTimestamp, SecretKey, Signature};

#[test]
fn key_from_array() {
    let key = SecretKey::from([1u8; SIGNATURE_SECRET_KEY_LENGTH]);
    assert_eq!(key.value(), [1u8; SIGNATURE_SECRET_KEY_LENGTH].as_slice());
}

#[test]
fn key_from_slice() {
    let key = SecretKey::from([1u8; SIGNATURE_SECRET_KEY_LENGTH].as_slice());
    assert_eq!(key.value(), [1u8; SIGNATURE_SECRET_KEY_LENGTH].as_slice());

    let key = SecretKey::from([1u8; SIGNATURE_SECRET_KEY_LENGTH + 10].as_slice());
    assert_eq!(key.value(), [1u8; SIGNATURE_SECRET_KEY_LENGTH].as_slice());

    let key = SecretKey::from([1u8; SIGNATURE_SECRET_KEY_LENGTH - 10].as_slice());
    let mut expected = [0u8; SIGNATURE_SECRET_KEY_LENGTH];
    expected[0..SIGNATURE_SECRET_KEY_LENGTH - 10]
        .copy_from_slice(&[1u8; SIGNATURE_SECRET_KEY_LENGTH - 10]);
    assert_eq!(key.value(), expected);
}

#[test]
fn key_from_strings() {
    let expected = {
        let mut expected = [0u8; SIGNATURE_SECRET_KEY_LENGTH];
        expected[0..6].copy_from_slice("abcdef".as_bytes());
        expected
    };

    let key_str = "abcdef".to_string();

    let key = SecretKey::from(key_str.as_str());
    assert_eq!(key.value(), expected);

    let key = SecretKey::from(&key_str);
    assert_eq!(key.value(), expected);

    let key = SecretKey::from(key_str);
    assert_eq!(key.value(), expected);
}

#[test]
fn default_key_is_all_zeros() {
    assert_eq!(SecretKey::default().value(), [0u8; 32].as_slice());
}

#[test]
fn timestamp_keeps_48_bits() {
    assert_eq!(MavTimestamp::from_raw_u64(0x1234_5678_9abc_def0).raw(), 0x5678_9abc_def0);
    assert_eq!(MavTimestamp::from(0xffff_ffff_ffff_ffffu64).raw(), 0xffff_ffff_ffff);
    let mut timestamp = MavTimestamp::default();
    assert_eq!(timestamp.raw(), 0);
    timestamp.set_raw(0x1_0000_0000_0001);
    assert_eq!(timestamp.raw(), 1);
}

#[test]
fn timestamp_conversions() {
    let timestamp = MavTimestamp::from_raw_u64(1000);
    assert_eq!(timestamp.millis_mavlink(), 10_000);
    assert_eq!(timestamp.millis(), 10_000 + 1_420_070_400_000_000);

    let mut timestamp = MavTimestamp::default();
    timestamp.set_millis_mavlink(12_345);
    assert_eq!(timestamp.raw(), 1_234);
    timestamp.set_millis(1_420_070_400_000_000 + 770);
    assert_eq!(timestamp.raw(), 77);
    assert_eq!(MavTimestamp::from_millis(1_420_070_400_000_000).raw(), 0);
    assert_eq!(MavTimestamp::from_millis(1_420_070_400_000_025).raw(), 2);
}

#[test]
fn timestamp_bytes_are_little_endian() {
    let timestamp = MavTimestamp::from_raw_u64(0x0605_0403_0201);
    assert_eq!(timestamp.to_bytes_array(), [1, 2, 3, 4, 5, 6]);
    assert_eq!(MavTimestamp::from_bytes(&[1, 2, 3, 4, 5, 6]).raw(), 0x0605_0403_0201);
    assert_eq!(
        MavTimestamp::from_bytes(&[0xff; 6]).raw(),
        0xffff_ffff_ffff
    );
}

#[test]
fn signature_bytes_layout() {
    let signature = Signature {
        link_id: 9,
        timestamp: MavTimestamp::from_raw_u64(0x0605_0403_0201),
        value: [10, 11, 12, 13, 14, 15],
    };
    let bytes = signature.to_byte_array();
    assert_eq!(bytes, [9, 1, 2, 3, 4, 5, 6, 10, 11, 12, 13, 14, 15]);
    let back = Signature::from_byte_array(bytes);
    assert_eq!(back, signature);
    assert_eq!(back.link_id(), 9);
    assert_eq!(back.timestamp().raw(), 0x0605_0403_0201);
    assert_eq!(back.value(), [10, 11, 12, 13, 14, 15]);
    assert!(Signature::try_from_slice(&bytes[0..12]).is_none());
    assert_eq!(Signature::try_from_slice(&bytes).unwrap(), signature);
}

#[test]
fn signature_from_a_longer_slice_reads_the_first_13_bytes() {
    let bytes = [9u8, 1, 2, 3, 4, 5, 6, 10, 11, 12, 13, 14, 15, 0xAA, 0xBB, 0xCC];
    let signature = Signature::try_from_slice(&bytes).unwrap();
    assert_eq!(signature.link_id, 9);
    assert_eq!(signature.timestamp.raw(), 0x0605_0403_0201);
    assert_eq!(signature.value, [10, 11, 12, 13, 14, 15]);
    assert_eq!(signature.to_byte_array(), bytes[0..13]);
    assert!(Signature::try_from_slice(&bytes[0..14]).is_some());
    assert!(Signature::try_from_slice(&[]).is_none());
    assert_eq!(Signature::from_slice(&bytes), signature);
}
