use mavio::consts::{STX_V1, STX_V2};
use mavio::{
    CompatFlags, Header, IncompatFlags, IoErrorKind, MavLinkVersion, SliceReader, Versionless, V1,
    V2,
};

#[test]
fn header_read_v1_header() {
    let content = vec![
        12,     // \
        24,     //  | Junk bytes
        240,    // /
        STX_V1, // magic byte
        8,      // payload_length
        1,      // sequence
        10,     // system ID
        255,    // component ID
        0,      // message ID
    ];
    let mut buffer = SliceReader::new(content.as_slice());

    let header = Header::<V1>::recv(&mut buffer).unwrap();
    let header = header.try_into_versioned::<V1>().unwrap();

    assert!(header.try_into_versioned::<V2>().is_err());
    assert!(matches!(header.version(), MavLinkVersion::V1));

    assert_eq!(header.payload_length(), 8u8);
    assert_eq!(header.sequence(), 1u8);
    assert_eq!(header.system_id(), 10u8);
    assert_eq!(header.component_id(), 255u8);
    assert_eq!(header.message_id(), 0u32);
}

#[test]
fn header_read_v2_header() {
    let content = vec![
        12,     // \
        24,     //  |Junk bytes
        240,    // /
        STX_V2, // magic byte
        8,      // payload_length
        1,      // incompatibility flags
        0,      // compatibility flags
        1,      // sequence
        10,     // system ID
        255,    // component ID
        0,      // \
        0,      //  | message ID
        0,      // /
    ];
    let mut reader = SliceReader::new(content.as_slice());

    let header = Header::<Versionless>::recv(&mut reader).unwrap();
    let header = header.try_into_versioned::<V2>().unwrap();

    assert!(header.try_into_versioned::<V1>().is_err());
    assert!(matches!(header.version(), MavLinkVersion::V2));

    assert_eq!(header.payload_length(), 8u8);
    assert_eq!(header.incompat_flags(), IncompatFlags::MAVLINK_IFLAG_SIGNED());
    assert_eq!(header.compat_flags(), CompatFlags::default());
    assert_eq!(header.sequence(), 1u8);
    assert_eq!(header.system_id(), 10u8);
    assert_eq!(header.component_id(), 255u8);
    assert_eq!(header.message_id(), 0u32);
}

#[test]
fn read_v2_header_magic_bytes_in_sequence() {
    let content = vec![
        12,     // \
        24,     //  |Junk bytes
        240,    // /
        STX_V2, // magic byte
        8,      // payload_length
        1,      // incompatibility flags
        0,      // compatibility flags
        STX_V2, // sequence
        10,     // system ID
        255,    // component ID
        0,      // \
        0,      //  | message ID
        0,      // /
    ];
    let mut reader = SliceReader::new(content.as_slice());

    let header = Header::<V2>::recv(&mut reader).unwrap();

    assert!(header.try_into_versioned::<V1>().is_err());
    assert!(matches!(header.version(), MavLinkVersion::V2));

    assert_eq!(header.payload_length(), 8u8);
    assert_eq!(header.incompat_flags(), IncompatFlags::MAVLINK_IFLAG_SIGNED());
    assert_eq!(header.compat_flags(), CompatFlags::default());
    assert_eq!(header.sequence(), STX_V2);
    assert_eq!(header.system_id(), 10u8);
    assert_eq!(header.component_id(), 255u8);
    assert_eq!(header.message_id(), 0u32);
}

#[test]
fn header_build_v1_header() {
    let header = Header::builder()
        .payload_length(10)
        .sequence(5)
        .system_id(10)
        .component_id(240)
        .message_id(42)
        .version(V1)
        .build();

    assert!(matches!(header.version(), MavLinkVersion::V1));
    assert_eq!(header.payload_length(), 10);
    assert_eq!(header.sequence(), 5);
    assert_eq!(header.system_id(), 10);
    assert_eq!(header.component_id(), 240);
    assert_eq!(header.message_id(), 42);
}

#[test]
fn header_build_v2_header() {
    let header = Header::builder()
        .incompat_flags(IncompatFlags::MAVLINK_IFLAG_SIGNED())
        .compat_flags(CompatFlags::BIT_4() | CompatFlags::BIT_7())
        .payload_length(10)
        .sequence(5)
        .system_id(10)
        .component_id(240)
        .message_id(42)
        .signed(true)
        .build();

    assert!(matches!(header.version(), MavLinkVersion::V2));
    assert_eq!(header.incompat_flags(), IncompatFlags::MAVLINK_IFLAG_SIGNED());
    assert_eq!(
        header.compat_flags(),
        CompatFlags::BIT_4() | CompatFlags::BIT_7()
    );
    assert_eq!(header.compat_flags().bits(), 8 | 64);
    assert_eq!(header.payload_length(), 10);
    assert_eq!(header.sequence(), 5);
    assert_eq!(header.system_id(), 10);
    assert_eq!(header.component_id(), 240);
    assert_eq!(header.message_id(), 42);
}

#[test]
fn set_get_is_signed() {
    let mut header = Header::builder()
        .payload_length(10)
        .sequence(5)
        .system_id(10)
        .component_id(240)
        .message_id(42)
        .version(V2)
        .build();

    assert!(!header.is_signed());

    header.set_is_signed(true);
    assert!(header.is_signed());

    let mut header = Header::builder()
        .payload_length(10)
        .sequence(5)
        .system_id(10)
        .component_id(240)
        .message_id(42)
        .incompat_flags(IncompatFlags::from_bits_truncate(0b01010100))
        .build();
    assert!(!header.is_signed());

    header.set_is_signed(true);
    assert!(header.is_signed());
    assert_eq!(header.incompat_flags().bits(), 0b01010101);

    header.set_is_signed(false);
    assert_eq!(header.incompat_flags().bits(), 0b01010100);
}

#[test]
fn header_encodes_fields_at_their_positions() {
    let v1 = Header::builder()
        .payload_length(8)
        .sequence(1)
        .system_id(10)
        .component_id(255)
        .message_id(0x1FF)
        .version(V1)
        .build();
    assert_eq!(v1.size(), 6);
    assert_eq!(v1.body_length(), 10);
    assert_eq!(v1.decode().as_slice(), &[0xFE, 8, 1, 10, 255, 0xFF]);
    assert_eq!(v1.decode().crc_data(), &[8, 1, 10, 255, 0xFF]);

    let v2 = Header::builder()
        .payload_length(9)
        .sequence(7)
        .system_id(1)
        .component_id(2)
        .message_id(0x030201)
        .incompat_flags(IncompatFlags::MAVLINK_IFLAG_SIGNED())
        .compat_flags(CompatFlags::BIT_2())
        .build();
    assert_eq!(v2.size(), 10);
    assert_eq!(v2.body_length(), 9 + 2 + 13);
    assert_eq!(
        v2.decode().as_slice(),
        &[0xFD, 9, 1, 2, 7, 1, 2, 0x01, 0x02, 0x03]
    );
    assert_eq!(v2.decode().size(), 10);

    let parsed = Header::<V2>::try_from_slice(v2.decode().as_slice()).unwrap();
    assert_eq!(parsed.message_id(), 0x030201);
    assert_eq!(parsed.incompat_flags().bits(), 1);
    assert_eq!(parsed.compat_flags().bits(), 2);
    assert!(parsed.is_signed());
}

#[test]
fn header_from_short_slice_fails_with_eof() {
    let err = Header::<V2>::try_from_slice(&[0xFD, 9, 0, 0]).unwrap_err();
    assert!(matches!(err.kind(), IoErrorKind::UnexpectedEof));
    let err = Header::<Versionless>::try_from_slice(&[0xFE, 9, 0, 0, 1]).unwrap_err();
    assert!(matches!(err.kind(), IoErrorKind::UnexpectedEof));
    let err = Header::<V1>::try_from_slice(&[]).unwrap_err();
    assert!(matches!(err.kind(), IoErrorKind::UnexpectedEof));
    let long = Header::<V1>::try_from_slice(&[0xFE, 1, 2, 3, 4, 5, 6, 7]).unwrap();
    assert_eq!(long.message_id(), 5);
}

#[test]
fn versionless_header_has_flags_only_for_v2() {
    let v1 = Header::builder()
        .payload_length(0)
        .sequence(0)
        .system_id(1)
        .component_id(1)
        .message_id(0)
        .version(V1)
        .build()
        .into_versionless();
    assert!(v1.incompat_flags().is_none());
    assert!(v1.compat_flags().is_none());
    let v2 = Header::builder()
        .payload_length(0)
        .sequence(0)
        .system_id(1)
        .component_id(1)
        .message_id(0)
        .version(V2)
        .build()
        .to_versionless();
    assert_eq!(v2.incompat_flags().unwrap().bits(), 0);
    assert_eq!(v2.compat_flags().unwrap().bits(), 0);
    assert!(v2.try_to_versioned::<V1>().is_err());
    assert!(v2.try_to_versioned::<V2>().is_ok());
}

#[test]
fn header_to_builder_drops_signed_flag() {
    let header = Header::builder()
        .payload_length(3)
        .sequence(4)
        .system_id(5)
        .component_id(6)
        .message_id(7)
        .incompat_flags(IncompatFlags::from_bits_truncate(0b101))
        .build();
    let again = header.to_builder().build();
    assert_eq!(again.incompat_flags().bits(), 0b100);
    assert_eq!(again.payload_length(), 3);
    assert_eq!(again.sequence(), 4);
    assert_eq!(again.system_id(), 5);
    assert_eq!(again.component_id(), 6);
    assert_eq!(again.message_id(), 7);
}

#[test]
fn read_v1_header() {
    let content = vec![
        12,     // \
        24,     //  | Junk bytes
        240,    // /
        STX_V1, // magic byte
        8,      // payload_length
        1,      // sequence
        10,     // system ID
        255,    // component ID
        0,      // message ID
    ];
    let mut buffer = SliceReader::new(content.as_slice());

    let header = Header::<Versionless>::recv(&mut buffer).unwrap();

    assert!(matches!(header.mavlink_version(), MavLinkVersion::V1));
    assert_eq!(header.payload_length(), 8u8);
    assert_eq!(header.sequence(), 1u8);
    assert_eq!(header.system_id(), 10u8);
    assert_eq!(header.component_id(), 255u8);
    assert_eq!(header.message_id(), 0u32);
}

#[test]
fn read_v2_header() {
    let content = vec![
        12,     // \
        24,     //  |Junk bytes
        240,    // /
        STX_V2, // magic byte
        8,      // payload_length
        1,      // incompatibility flags
        0,      // compatibility flags
        1,      // sequence
        10,     // system ID
        255,    // component ID
        0,      // \
        0,      //  | message ID
        0,      // /
    ];
    let mut reader = SliceReader::new(content.as_slice());

    let header = Header::<Versionless>::recv(&mut reader).unwrap();

    assert!(matches!(header.mavlink_version(), MavLinkVersion::V2));
    assert_eq!(header.payload_length(), 8u8);
    assert_eq!(header.incompat_flags().unwrap().bits(), 1u8);
    assert_eq!(header.compat_flags().unwrap().bits(), 0u8);
    assert_eq!(header.sequence(), 1u8);
    assert_eq!(header.system_id(), 10u8);
    assert_eq!(header.component_id(), 255u8);
    assert_eq!(header.message_id(), 0u32);
}

#[test]
fn build_v1_header() {
    let header = Header::builder()
        .payload_length(10)
        .sequence(5)
        .system_id(10)
        .component_id(240)
        .message_id(42)
        .version(V1)
        .build()
        .into_versionless();

    assert!(matches!(header.mavlink_version(), MavLinkVersion::V1));
    assert_eq!(header.payload_length(), 10);
    assert_eq!(header.sequence(), 5);
    assert_eq!(header.system_id(), 10);
    assert_eq!(header.component_id(), 240);
    assert_eq!(header.message_id(), 42);
}

#[test]
fn build_v2_header() {
    let header = Header::builder()
        .incompat_flags(IncompatFlags::from_bits_truncate(mavio::consts::MAVLINK_IFLAG_SIGNED))
        .compat_flags(CompatFlags::from_bits_truncate(8))
        .payload_length(10)
        .sequence(5)
        .system_id(10)
        .component_id(240)
        .message_id(42)
        .signed(true)
        .build()
        .into_versionless();

    assert!(matches!(header.mavlink_version(), MavLinkVersion::V2));
    assert_eq!(
        header.incompat_flags().unwrap().bits(),
        mavio::consts::MAVLINK_IFLAG_SIGNED
    );
    assert_eq!(header.compat_flags().unwrap().bits(), 8);
    assert_eq!(header.payload_length(), 10);
    assert_eq!(header.sequence(), 5);
    assert_eq!(header.system_id(), 10);
    assert_eq!(header.component_id(), 240);
    assert_eq!(header.message_id(), 42);
}
