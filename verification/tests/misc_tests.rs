use mavio::compat::CompatStrategy;
use mavio::endpoint::MavLinkId;
use mavio::payload::Payload;
use mavio::{
    Behold, CompatFlags, CompatProcessor, CompatProcessorBuilder, Device, Endpoint, Error, Frame,
    FrameError, IncompatFlags, IncompatFlagsError, IntoCompatProcessor, IntoSequencer, IoError,
    IoErrorKind, MavFrame, MavLinkVersion, MavSTX, MavSha256, MavTimestamp, SecretKey, Sequencer,
    SignatureError, ChecksumError, SpecError, TryUpdateFrom, UpdateFrame, VersionError,
    Versionless, V1, V2,
};

fn frame_v2(flags: u8, compat: u8) -> Frame<V2> {
    Frame::builder()
        .version(V2)
        .sequence(0)
        .system_id(1)
        .component_id(1)
        .message_id(0)
        .payload(&[1, 2, 3])
        .crc_extra(50)
        .incompat_flags(IncompatFlags::from_bits_truncate(flags))
        .compat_flags(CompatFlags::from_bits_truncate(compat))
        .build()
}

#[test]
fn sequencer_fork_independence() {
    let mut s = Sequencer::new();
    assert_eq!(s.next(), 0);
    assert_eq!(s.next(), 1);
    let mut f = s.fork();
    assert_eq!(f.next(), 2);
    assert_eq!(f.next(), 3);
    assert_eq!(s.current(), 2);
    s.sync(&f);
    assert_eq!(s.next(), 4);
}

#[test]
fn sequence_wraps_at_256() {
    let mut s = Sequencer::init(255);
    assert_eq!(s.next(), 255);
    assert_eq!(s.next(), 0);
    assert_eq!(s.current(), 1);
    s.rewind(250);
    assert_eq!(s.advance(10).unwrap(), 4);
    assert_eq!(s.current(), 4);
    s.advance(1).discard();
    assert_eq!(s.current(), 5);
    assert_eq!(Sequencer::default().current(), 0);
    assert_eq!(s.clone().current(), 5);
    assert_eq!(7u8.into_sequencer().current(), 7);
    assert_eq!((&s).into_sequencer().current(), 5);
    assert_eq!(s.into_sequencer().current(), 5);
}

#[test]
fn behold_wraps_a_value() {
    assert_eq!(Behold::new(5).unwrap(), 5);
    Behold::new(6).discard();
}

#[test]
fn endpoint_counts_frames() {
    let mut endpoint = Endpoint::v2(MavLinkId::new(3, 4));
    assert_eq!(endpoint.id(), MavLinkId { system: 3, component: 4 });
    assert_eq!(endpoint.system_id(), 3);
    assert_eq!(endpoint.component_id(), 4);
    assert_eq!(endpoint.next_sequence(), 0);
    assert_eq!(endpoint.sequencer().current(), 1);
    let frame = Frame::builder()
        .endpoint(&mut endpoint)
        .message_id(0)
        .payload(&[1])
        .crc_extra(50)
        .build();
    assert!(matches!(frame.version(), MavLinkVersion::V2));
    assert_eq!(frame.sequence(), 1);
    assert_eq!(frame.system_id(), 3);
    assert_eq!(frame.component_id(), 4);
    assert_eq!(endpoint.sequencer().current(), 2);

    let mut fork = endpoint.fork();
    assert_eq!(fork.advance(5).unwrap(), 7);
    assert_eq!(endpoint.sequencer().current(), 2);
    endpoint.sync(&fork);
    assert_eq!(endpoint.next_sequence(), 7);
    assert_eq!(endpoint.clone().next_sequence(), 8);

    let v1 = Endpoint::v1(MavLinkId::new(1, 1));
    assert_eq!(v1.sequencer().current(), 0);
    let either: Endpoint<Versionless> = Endpoint::versionless(MavLinkId::new(1, 1));
    assert_eq!(either.system_id(), 1);
    let other: Endpoint<V1> = Endpoint::new(MavLinkId::new(9, 8));
    assert_eq!(other.component_id(), 8);
}

#[test]
fn device_counts_frames() {
    let mut device = Device::v2(MavLinkId::new(3, 4));
    assert_eq!(device.id(), MavLinkId::new(3, 4));
    assert_eq!(device.system_id(), 3);
    assert_eq!(device.component_id(), 4);
    assert_eq!(device.next_sequence(), 0);
    assert_eq!(device.next_sequence(), 1);
    assert_eq!(device.sequencer().current(), 2);
    let v1 = Device::v1(MavLinkId::new(1, 2));
    assert_eq!(v1.system_id(), 1);
    let other: Device<V1> = Device::new(MavLinkId::new(5, 6));
    assert_eq!(other.component_id(), 6);
}

#[test]
fn payload_truncation() {
    let payload = Payload::new(0, &[1, 2, 3, 4, 5, 6u8], MavLinkVersion::V1);
    assert_eq!(payload.length(), 6);
    assert_eq!(payload.bytes(), &[1, 2, 3, 4, 5, 6u8]);

    let payload = Payload::new(0, &[1, 2, 3, 4, 0, 0u8], MavLinkVersion::V1);
    assert_eq!(payload.length(), 6);

    let payload = Payload::new(0, &[1, 2, 3, 4, 0, 0u8], MavLinkVersion::V2);
    assert_eq!(payload.length(), 4);
    assert_eq!(payload.bytes(), &[1, 2, 3, 4]);

    let payload = Payload::new(0, &[0, 0, 0, 0, 0, 0u8], MavLinkVersion::V2);
    assert_eq!(payload.length(), 1);
    assert_eq!(payload.bytes(), &[0]);

    let payload = Payload::new(7, &[], MavLinkVersion::V2);
    assert_eq!(payload.bytes(), &[0]);
    let payload = Payload::new(7, &[], MavLinkVersion::V1);
    assert_eq!(payload.bytes().len(), 0);

    let payload = Payload::new(0, &[1u8; 510], MavLinkVersion::V1);
    assert_eq!(payload.length(), 255);
    assert_eq!(payload.bytes(), &[1u8; 255]);

    let mut payload = Payload::new(5, &[1, 0, 0], MavLinkVersion::V1);
    assert_eq!(payload.id(), 5);
    assert!(matches!(payload.version(), MavLinkVersion::V1));
    payload.upgrade();
    assert!(matches!(payload.version(), MavLinkVersion::V2));
    assert_eq!(payload.bytes(), &[1, 0, 0]);
    let upgraded = Payload::new(5, &[1, 0, 0], MavLinkVersion::V1).upgraded();
    assert_eq!(upgraded.bytes(), &[1, 0, 0]);
    assert_eq!(upgraded.clone().bytes(), &[1, 0, 0]);
}

#[test]
fn stx_conversions() {
    assert!(MavSTX::is_magic_byte(0xFE));
    assert!(MavSTX::is_magic_byte(0xFD));
    assert!(!MavSTX::is_magic_byte(0xFC));
    assert_eq!(MavSTX::from(0xFEu8), MavSTX::V1);
    assert_eq!(MavSTX::from(0xFDu8), MavSTX::V2);
    assert_eq!(MavSTX::from(7u8), MavSTX::Unknown(7));
    assert_eq!(MavSTX::from(MavLinkVersion::V1), MavSTX::V1);
    assert_eq!(MavSTX::from(MavLinkVersion::V2), MavSTX::V2);
    assert_eq!(MavSTX::V1.to_byte(), 0xFE);
    assert_eq!(MavSTX::V2.to_byte(), 0xFD);
    assert_eq!(MavSTX::Unknown(9).to_byte(), 9);
    assert_eq!(MavSTX::default(), MavSTX::Unknown(0));
    assert_eq!(MavSTX::V1.to_mavlink_version(), Some(MavLinkVersion::V1));
    assert_eq!(MavSTX::V2.to_mavlink_version(), Some(MavLinkVersion::V2));
    assert_eq!(MavSTX::Unknown(1).to_mavlink_version(), None);
    assert_eq!(MavLinkVersion::default(), MavLinkVersion::V2);
}

#[test]
fn flags_operations() {
    let mut flags = IncompatFlags::from_bits_truncate(0b0101_0100);
    assert!(!flags.is_signed());
    assert!(!flags.contains(IncompatFlags::MAVLINK_IFLAG_SIGNED()));
    flags.set(IncompatFlags::MAVLINK_IFLAG_SIGNED(), true);
    assert_eq!(flags.bits(), 0b0101_0101);
    assert!(flags.is_signed());
    flags.set(IncompatFlags::MAVLINK_IFLAG_SIGNED(), false);
    assert_eq!(flags.bits(), 0b0101_0100);
    flags.insert(IncompatFlags::BIT_2());
    flags.remove(IncompatFlags::BIT_3());
    assert_eq!(flags.bits(), 0b0101_0010);
    assert!(flags.intersects(IncompatFlags::BIT_2() | IncompatFlags::BIT_8()));
    assert!(!flags.intersects(IncompatFlags::BIT_8()));
    assert_eq!(flags.with_signed(true).bits(), 0b0101_0011);
    assert_eq!(flags.union(IncompatFlags::BIT_8()).bits(), 0b1101_0010);
    assert_eq!(flags.intersection(IncompatFlags::BIT_5()).bits(), 0b0001_0000);
    assert_eq!(flags.difference(IncompatFlags::BIT_5()).bits(), 0b0100_0010);
    assert!(IncompatFlags::empty().is_empty());
    assert_eq!(IncompatFlags::all().bits(), 0xff);
    assert_eq!(IncompatFlags::from_bits(0x81).unwrap().bits(), 0x81);
    assert_eq!(
        (IncompatFlags::BIT_4() | IncompatFlags::BIT_6() | IncompatFlags::BIT_7()).bits(),
        0x08 | 0x20 | 0x40
    );
    assert_eq!(IncompatFlags::default(), IncompatFlags::empty());

    let mut compat = CompatFlags::BIT_1() | CompatFlags::BIT_8();
    assert_eq!(compat.bits(), 0x81);
    compat.set(CompatFlags::BIT_2(), true);
    compat.set(CompatFlags::BIT_1(), false);
    assert_eq!(compat.bits(), 0x82);
    compat.insert(CompatFlags::BIT_3());
    compat.remove(CompatFlags::BIT_8());
    assert_eq!(compat.bits(), 0x06);
    assert!(compat.contains(CompatFlags::BIT_2()));
    assert!(compat.intersects(CompatFlags::BIT_3() | CompatFlags::BIT_5()));
    assert_eq!(compat.union(CompatFlags::BIT_6()).bits(), 0x26);
    assert_eq!(compat.intersection(CompatFlags::BIT_2()).bits(), 0x02);
    assert_eq!(compat.difference(CompatFlags::BIT_2()).bits(), 0x04);
    assert!(CompatFlags::empty().is_empty());
    assert_eq!(CompatFlags::all().bits(), 0xff);
    assert_eq!(CompatFlags::from_bits(3).unwrap().bits(), 3);
    assert_eq!((CompatFlags::BIT_4() | CompatFlags::BIT_7()).bits(), 0x48);
    assert_eq!((CompatFlags::BIT_5() | CompatFlags::BIT_6()).bits(), 0x30);
}

#[test]
fn compat_processor_defaults() {
    let processor = CompatProcessor::builder().build();
    assert!(processor.incompat_flags().is_none());
    assert!(processor.compat_flags().is_none());
    assert_eq!(processor.incoming(), CompatStrategy::Reject);
    assert_eq!(processor.outgoing(), CompatStrategy::Enforce);
    assert!(processor.ignore_signature());

    let mut frame = frame_v2(0b100, 0b10);
    processor.process_incoming(&mut frame).unwrap();
    processor.process_outgoing(&mut frame).unwrap();
    assert_eq!(frame.header().incompat_flags().bits(), 0b100);
    assert_eq!(frame.header().compat_flags().bits(), 0b10);

    let changed = processor
        .update()
        .incoming(CompatStrategy::Proxy)
        .outgoing(CompatStrategy::RejectSet)
        .ignore_signature(false)
        .incompat_flags(IncompatFlags::BIT_2())
        .compat_flags(CompatFlags::BIT_3())
        .into_compat_processor();
    assert_eq!(changed.incoming(), CompatStrategy::Proxy);
    assert_eq!(changed.outgoing(), CompatStrategy::RejectSet);
    assert!(!changed.ignore_signature());
    assert_eq!(changed.incompat_flags().unwrap().bits(), 2);
    assert_eq!(changed.compat_flags().unwrap().bits(), 4);
    assert_eq!(changed.into_compat_processor().incoming(), CompatStrategy::Proxy);
    assert!(CompatProcessorBuilder::default().build().ignore_signature());
}

#[test]
fn compat_processor_strategies() {
    let processor = CompatProcessorBuilder::new()
        .incompat_flags(IncompatFlags::from_bits_truncate(0b110))
        .compat_flags(CompatFlags::from_bits_truncate(0b1000))
        .build();

    let mut frame = frame_v2(0b100, 0b1);
    match processor.process_for_strategy(&mut frame, CompatStrategy::Reject) {
        Err(IncompatFlagsError { expected, actual }) => {
            assert_eq!(expected.bits(), 0b110);
            assert_eq!(actual.bits(), 0b100);
        }
        Ok(_) => panic!("flags passed that should not"),
    }
    assert_eq!(frame.header().incompat_flags().bits(), 0b100);
    assert_eq!(frame.header().compat_flags().bits(), 0b1);

    assert!(processor
        .process_for_strategy(&mut frame, CompatStrategy::RejectSet)
        .is_err());
    assert_eq!(frame.header().compat_flags().bits(), 0b1);

    let mut matching = frame_v2(0b110, 0b1);
    processor
        .process_for_strategy(&mut matching, CompatStrategy::Reject)
        .unwrap();
    assert_eq!(matching.header().compat_flags().bits(), 0b1);
    processor
        .process_for_strategy(&mut matching, CompatStrategy::RejectSet)
        .unwrap();
    assert_eq!(matching.header().compat_flags().bits(), 0b1000);
    assert_eq!(matching.header().incompat_flags().bits(), 0b110);

    processor
        .process_for_strategy(&mut frame, CompatStrategy::EnforceProxy)
        .unwrap();
    assert_eq!(frame.header().incompat_flags().bits(), 0b110);
    assert_eq!(frame.header().compat_flags().bits(), 0b1);

    let mut frame = frame_v2(0b100, 0b1);
    processor
        .process_for_strategy(&mut frame, CompatStrategy::Proxy)
        .unwrap();
    assert_eq!(frame.header().incompat_flags().bits(), 0b100);
    assert_eq!(frame.header().compat_flags().bits(), 0b1);

    processor
        .process_for_strategy(&mut frame, CompatStrategy::Enforce)
        .unwrap();
    assert_eq!(frame.header().incompat_flags().bits(), 0b110);
    assert_eq!(frame.header().compat_flags().bits(), 0b1000);
}

#[test]
fn compat_processor_and_signatures() {
    let ignoring = CompatProcessorBuilder::new()
        .incompat_flags(IncompatFlags::from_bits_truncate(0b10))
        .build();
    let mut signed = frame_v2(0b10, 0);
    signed.sign(
        &mut MavSha256::default(),
        1,
        MavTimestamp::from_raw_u64(2),
        &SecretKey::default(),
    );
    assert_eq!(signed.header().incompat_flags().bits(), 0b11);
    ignoring.process_incoming(&mut signed).unwrap();
    ignoring.process_outgoing(&mut signed).unwrap();
    assert_eq!(signed.header().incompat_flags().bits(), 0b11);
    assert!(signed.is_consistent());

    let strict = ignoring.update().ignore_signature(false).build();
    match strict.process_incoming(&mut signed) {
        Err(e) => {
            assert_eq!(e.expected.bits(), 0b10);
            assert_eq!(e.actual.bits(), 0b11);
        }
        Ok(_) => panic!("a signed frame passed a strict filter"),
    }
    strict.process_outgoing(&mut signed).unwrap();
    assert_eq!(signed.header().incompat_flags().bits(), 0b10);
    assert!(!signed.is_consistent());
}

#[test]
fn compat_processor_leaves_v1_frames_alone() {
    let processor = CompatProcessorBuilder::new()
        .incompat_flags(IncompatFlags::all())
        .compat_flags(CompatFlags::all())
        .incoming(CompatStrategy::Enforce)
        .build();
    let mut frame = Frame::builder()
        .version(V1)
        .sequence(0)
        .system_id(1)
        .component_id(1)
        .message_id(0)
        .payload(&[1, 2, 3])
        .crc_extra(50)
        .build();
    let before = frame.header().decode();
    processor.process_incoming(&mut frame).unwrap();
    processor
        .process_for_strategy(&mut frame, CompatStrategy::Reject)
        .unwrap();
    assert_eq!(frame.header().decode().as_slice(), before.as_slice());
    assert!(frame.incompat_flags().is_none());
    assert!(frame.compat_flags().is_none());
}

#[test]
fn mav_frame_takes_the_shape_of_its_version() {
    let v2 = MavFrame::new(frame_v2(0, 0).into_versionless());
    assert!(matches!(v2, MavFrame::V2(_)));
    assert!(matches!(v2.version(), MavLinkVersion::V2));
    assert_eq!(v2.payload_length(), 3);
    assert_eq!(v2.sequence(), 0);
    assert_eq!(v2.system_id(), 1);
    assert_eq!(v2.component_id(), 1);
    assert_eq!(v2.message_id(), 0);
    assert_eq!(v2.payload().bytes(), &[1, 2, 3]);
    assert_eq!(v2.checksum(), v2.calculate_crc(50));
    assert_eq!(v2.body_length(), 5);
    assert!(!v2.is_signed());
    assert!(v2.signature().is_none());
    assert!(v2.matches_version(V2));
    assert!(!v2.matches_version(V1));
    v2.validate_checksum_with_crc_extra(50).unwrap();
    assert!(matches!(
        v2.validate_checksum_with_crc_extra(49),
        Err(Error::Frame(FrameError::Checksum))
    ));

    let mut signed = frame_v2(0, 0);
    signed.sign(
        &mut MavSha256::default(),
        1,
        MavTimestamp::default(),
        &SecretKey::default(),
    );
    let mut signed = MavFrame::new(signed);
    assert!(signed.is_signed());
    assert_eq!(signed.signature().unwrap().link_id, 1);
    assert_eq!(signed.body_length(), 18);
    signed.remove_signature();
    assert!(!signed.is_signed());
    assert_eq!(signed.body_length(), 5);
    assert!(signed.try_into_versioned::<V1>().is_err());

    let v1 = Frame::builder()
        .version(V1)
        .sequence(0)
        .system_id(1)
        .component_id(1)
        .message_id(0)
        .payload(&[1, 2, 3])
        .crc_extra(50)
        .build();
    let mut v1 = MavFrame::new(v1);
    assert!(matches!(v1, MavFrame::V1(_)));
    assert!(!v1.is_signed());
    v1.remove_signature();
    assert!(v1.signature().is_none());
    let versionless = v1.into_versionless();
    assert!(matches!(versionless.version(), MavLinkVersion::V1));
    let back = MavFrame::new(versionless).try_into_versioned::<V1>().unwrap();
    assert_eq!(back.payload().bytes(), &[1, 2, 3]);
}

#[test]
fn errors_convert_upwards() {
    let version = VersionError {
        expected: MavLinkVersion::V1,
        actual: MavLinkVersion::V2,
    };
    assert_eq!(FrameError::from(version), FrameError::Version(version));
    assert_eq!(FrameError::from(ChecksumError), FrameError::Checksum);
    assert_eq!(FrameError::from(SignatureError), FrameError::Signature);
    let flags = IncompatFlagsError {
        expected: IncompatFlags::BIT_2(),
        actual: IncompatFlags::BIT_3(),
    };
    assert_eq!(FrameError::from(flags), FrameError::Incompatible(flags));
    assert_eq!(Error::from(version), Error::Frame(FrameError::Version(version)));
    assert_eq!(Error::from(ChecksumError), Error::Frame(FrameError::Checksum));
    assert_eq!(Error::from(SignatureError), Error::Frame(FrameError::Signature));
    assert_eq!(Error::from(flags), Error::Frame(FrameError::Incompatible(flags)));
    assert_eq!(
        Error::from(FrameError::NotInDialect(5)),
        Error::Frame(FrameError::NotInDialect(5))
    );
    assert_eq!(
        Error::from(SpecError::NotInDialect(5)),
        Error::Frame(FrameError::NotInDialect(5))
    );
    assert_eq!(
        Error::from(SpecError::InvalidEnumValue { enum_name: "MavType" }),
        Error::Spec(SpecError::InvalidEnumValue { enum_name: "MavType" })
    );
    let io = IoError::from(IoErrorKind::Interrupted);
    assert_eq!(*io.kind(), IoErrorKind::Interrupted);
    assert_eq!(Error::from(io), Error::Io(io));
    assert_eq!(*IoError::new(IoErrorKind::Generic).kind(), IoErrorKind::Generic);
}

#[test]
fn conversions_between_forms() {
    assert_eq!(u8::from(MavSTX::V1), 0xFE);
    assert_eq!(u8::from(MavSTX::V2), 0xFD);
    assert_eq!(u8::from(MavSTX::Unknown(3)), 3);
    assert_eq!(
        Option::<MavLinkVersion>::from(MavSTX::V2),
        Some(MavLinkVersion::V2)
    );
    assert_eq!(Option::<MavLinkVersion>::from(MavSTX::Unknown(0)), None);

    let timestamp = MavTimestamp::from([6u8, 5, 4, 3, 2, 1]);
    assert_eq!(timestamp.raw(), 0x0102_0304_0506);
    let bytes: [u8; 6] = timestamp.into();
    assert_eq!(bytes, [6, 5, 4, 3, 2, 1]);

    let wire = [1u8, 2, 0, 0, 0, 0, 0, 9, 8, 7, 6, 5, 4];
    let signature = mavio::Signature::from(wire);
    assert_eq!(signature.link_id, 1);
    assert_eq!(signature.timestamp.raw(), 2);
    assert_eq!(signature.value, [9, 8, 7, 6, 5, 4]);
    let back: [u8; 13] = signature.into();
    assert_eq!(back, wire);

    let sequencer = Sequencer::from(9u8);
    assert_eq!(Sequencer::from(&sequencer).current(), 9);

    let frame = MavFrame::from(frame_v2(0, 0));
    assert!(matches!(frame, MavFrame::V2(_)));
    match Frame::<V1>::try_from(MavFrame::from(frame_v2(0, 0))) {
        Err(Error::Frame(FrameError::Version(e))) => {
            assert_eq!(e.expected, MavLinkVersion::V1);
            assert_eq!(e.actual, MavLinkVersion::V2);
        }
        _ => panic!("a MAVLink 2 frame passed for a MAVLink 1 frame"),
    }
    let bound = Frame::<V2>::try_from(frame).unwrap();
    assert_eq!(bound.payload().bytes(), &[1, 2, 3]);
    let either = Frame::<Versionless>::try_from(MavFrame::from(bound)).unwrap();
    assert!(matches!(either.version(), MavLinkVersion::V2));
}

struct Flipper;

impl<V: mavio::MaybeVersioned> mavio::UpdateFrameUnsafe<V> for Flipper {
    fn update_unsafe(
        &mut self,
        _header: mavio::Header<V>,
        payload: &mut [u8],
        _checksum: &mut u16,
        _signature: &mut Option<mavio::Signature>,
    ) {
        for i in 0..payload.len() {
            payload[i] = payload[i] ^ 0xff;
        }
    }
}

impl<V: mavio::MaybeVersioned> mavio::UpdateFrame<V> for Flipper {}

struct Signing;

impl<V: mavio::MaybeVersioned> mavio::UpdateFrameUnsafe<V> for Signing {
    fn update_unsafe(
        &mut self,
        _header: mavio::Header<V>,
        _payload: &mut [u8],
        checksum: &mut u16,
        signature: &mut Option<mavio::Signature>,
    ) {
        *checksum = 0xBEEF;
        *signature = Some(mavio::Signature {
            link_id: 1,
            timestamp: MavTimestamp::default(),
            value: [0; 6],
        });
    }
}

impl<V: mavio::MaybeVersioned> mavio::UpdateFrame<V> for Signing {}

#[test]
fn updater_changes_a_frame_in_place() {
    let mut frame = Frame::builder()
        .version(V2)
        .sequence(0)
        .system_id(0)
        .component_id(0)
        .message_id(0)
        .payload(&[0, 1, 255])
        .crc_extra(0)
        .build();

    let mut flipper = Flipper;
    flipper.update(&mut frame, 42);

    assert_eq!(frame.payload().bytes(), &[255, 254, 0]);
    assert_eq!(frame.payload_length(), 3);
    assert_eq!(frame.checksum(), frame.calculate_crc(42));
    assert!(frame.is_consistent());

    Signing.update_unchecked(&mut frame);
    assert_eq!(frame.checksum(), 0xBEEF);
    assert!(frame.is_signed());
    assert!(frame.header().is_signed());
    assert!(frame.is_consistent());
    frame.recalculate_crc(42);
    assert_eq!(frame.checksum(), frame.calculate_crc(42));

    let mut v1 = Frame::builder()
        .version(V1)
        .sequence(0)
        .system_id(0)
        .component_id(0)
        .message_id(0)
        .payload(&[1])
        .crc_extra(0)
        .build();
    Signing.update(&mut v1, 0);
    assert!(!v1.is_signed());
    assert!(v1.is_consistent());
    v1.update_with(&mut Flipper);
    assert_eq!(v1.payload().bytes(), &[0xfe]);
}

struct Limit(u8);

impl mavio::TryUpdateFrom<u8> for Limit {
    type Error = u8;

    fn check_try_update_from(&self, value: &u8) -> Result<(), u8> {
        if *value > 100 {
            Err(*value)
        } else {
            Ok(())
        }
    }

    fn update_from_unchecked(&mut self, value: u8) {
        self.0 = value;
    }
}

#[test]
fn update_is_made_only_after_the_check() {
    let mut limit = Limit(1);
    assert_eq!(limit.try_update_from(50), Ok(()));
    assert_eq!(limit.0, 50);
    assert_eq!(limit.try_update_from(101), Err(101));
    assert_eq!(limit.0, 50);
    limit.update_from_unchecked(200);
    assert_eq!(limit.0, 200);
}
