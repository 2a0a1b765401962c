use mavio::{
    Error, Frame, IoErrorKind, MavLinkVersion, MaybeVersioned, Message, Payload, Receiver,
    Sender, Sequence, SliceReader, SliceWriter, SpecError, Versioned, V1, V2,
};

/// The heartbeat of the minimal dialect.
#[derive(Debug)]
struct Heartbeat {
    type_: u8,
    autopilot: u8,
    base_mode: u8,
    custom_mode: u32,
    system_status: u8,
    mavlink_version: u8,
}

impl Default for Heartbeat {
    fn default() -> Self {
        Heartbeat {
            type_: 0,
            autopilot: 0,
            base_mode: 0,
            custom_mode: 0,
            system_status: 0,
            mavlink_version: 3,
        }
    }
}

impl Heartbeat {
    const ID: u32 = 0;

    fn try_from(payload: &Payload) -> Result<Heartbeat, SpecError> {
        let mut bytes = [0u8; 9];
        let given = payload.bytes();
        if given.len() > 9 {
            return Err(SpecError::V2PayloadIsTooLong {
                actual: given.len(),
                maximum: 9,
            });
        }
        bytes[0..given.len()].copy_from_slice(given);
        Ok(Heartbeat {
            custom_mode: u32::from_le_bytes([bytes[0], bytes[1], bytes[2], bytes[3]]),
            type_: bytes[4],
            autopilot: bytes[5],
            base_mode: bytes[6],
            system_status: bytes[7],
            mavlink_version: bytes[8],
        })
    }
}

impl Message for Heartbeat {
    fn id(&self) -> u32 {
        0
    }

    fn crc_extra(&self) -> u8 {
        50
    }

    fn encode(&self, version: MavLinkVersion) -> Result<Payload, SpecError> {
        let custom = self.custom_mode.to_le_bytes();
        let bytes = [
            custom[0],
            custom[1],
            custom[2],
            custom[3],
            self.type_,
            self.autopilot,
            self.base_mode,
            self.system_status,
            self.mavlink_version,
        ];
        Ok(Payload::new(0, &bytes, version))
    }
}

fn default_heartbeat_message() -> Heartbeat {
    Heartbeat {
        type_: 1,
        autopilot: 0,
        base_mode: 0,
        custom_mode: 0,
        system_status: 4,
        mavlink_version: 3,
    }
}

fn default_heartbeat_frame<V: Versioned>(version: V) -> Frame<V> {
    Frame::builder()
        .version(version)
        .sequence(0)
        .system_id(1)
        .component_id(42)
        .message(&default_heartbeat_message())
        .unwrap()
        .build()
}

fn assert_default_frame<V: Versioned>(frame: Frame<V>) {
    assert_eq!(frame.sequence(), 0);
    assert_eq!(frame.system_id(), 1);
    assert_eq!(frame.component_id(), 42);
    assert!(V::matches(frame.version()));
    frame.validate_checksum_with_crc_extra(50).unwrap();

    match frame.message_id() {
        Heartbeat::ID => {
            let message = Heartbeat::try_from(frame.payload()).unwrap();
            let expected_message = default_heartbeat_message();
            assert_eq!(message.mavlink_version, expected_message.mavlink_version);
            assert_eq!(message.autopilot, expected_message.autopilot);
            assert_eq!(message.base_mode, expected_message.base_mode);
            assert_eq!(message.custom_mode, expected_message.custom_mode);
            assert_eq!(message.system_status, expected_message.system_status);
            assert_eq!(message.type_, expected_message.type_);
        }
        id => panic!("Incorrect message: {id}"),
    }
}

fn v1_v2_frames_buffer() -> ([u8; 255], usize) {
    let frame_v1 = default_heartbeat_frame(V1);
    let frame_v2 = default_heartbeat_frame(V2);

    let mut buffer = [0u8; 255];

    let mut sender_v1 = Sender::new(SliceWriter::new(buffer.as_mut_slice()));
    let frame_v2_offset = sender_v1.send(&frame_v1).unwrap();

    let mut sender_v2 = Sender::new(SliceWriter::new(
        &mut buffer.as_mut_slice()[frame_v2_offset..],
    ));
    sender_v2.send(&frame_v2).unwrap();

    (buffer, frame_v2_offset)
}

#[test]
fn test_write_versionless_read_versionless() {
    let mut buffer = [0u8; 255];

    let mut sender = Sender::versionless(SliceWriter::new(buffer.as_mut_slice()));

    sender
        .send(&default_heartbeat_frame(V1).versionless())
        .unwrap();
    sender
        .send(&default_heartbeat_frame(V2).versionless())
        .unwrap();

    let mut receiver = Receiver::versionless(SliceReader::new(buffer.as_slice()));

    let frame_v1 = receiver.recv().unwrap().try_versioned(V1).unwrap();
    let frame_v2 = receiver.recv().unwrap().try_versioned(V2).unwrap();

    assert_default_frame(frame_v1);
    assert_default_frame(frame_v2);
}

#[test]
fn test_write_versioned_read_versionless() {
    let (buffer, _) = v1_v2_frames_buffer();

    let mut receiver = Receiver::versionless(SliceReader::new(buffer.as_slice()));

    let frame_v1 = receiver.recv().unwrap().try_versioned(V1).unwrap();
    let frame_v2 = receiver.recv().unwrap().try_versioned(V2).unwrap();

    assert_default_frame(frame_v1);
    assert_default_frame(frame_v2);
}

#[test]
fn test_write_versioned_read_versioned() {
    let (buffer, frame_v2_offset) = v1_v2_frames_buffer();

    let mut receiver_v1 = Receiver::new::<V1>(SliceReader::new(buffer.as_slice()));
    let frame = receiver_v1.recv().unwrap();
    assert_default_frame(frame);
    assert!(receiver_v1.recv().is_err());

    let mut receiver_v2 =
        Receiver::new::<V2>(SliceReader::new(&buffer.as_slice()[frame_v2_offset..]));
    let frame = receiver_v2.recv().unwrap();
    assert_default_frame(frame);
    assert!(receiver_v2.recv().is_err());

    let mut receiver_v2_first_frame =
        Receiver::new::<V2>(SliceReader::new(&buffer.as_slice()[0..frame_v2_offset]));
    assert!(receiver_v2_first_frame.recv().is_err());
}

#[test]
fn test_all_sequences() {
    fn make_frame(sequence: Sequence) -> Frame<V2> {
        Frame::builder()
            .version(V2)
            .sequence(sequence)
            .system_id(1)
            .component_id(42)
            .message(&default_heartbeat_message())
            .unwrap()
            .build()
    }

    let mut buf = vec![0u8; u16::MAX as usize];

    let mut sender = Sender::new(SliceWriter::new(buf.as_mut_slice()));

    let mut bytes_written = 0;
    for i in 0..255 {
        let frame = make_frame(i);
        bytes_written += sender.send(&frame).unwrap();
    }

    let mut receiver = Receiver::new(SliceReader::new(&buf[0..bytes_written]));

    for i in 0..255 {
        let frame: Frame<V2> = receiver.recv().unwrap();
        assert_eq!(frame.sequence(), i);
    }
}

#[test]
fn junk_then_v1_resync() {
    let mut stream: Vec<u8> = vec![0x0C, 0x18, 0xF0, 0xFE, 0x08, 0x01, 0x0A, 0xFF, 0x00];
    stream.extend_from_slice(&[0u8; 8]);
    let mut calculator = crc_any::CRCu16::crc16mcrf4cc();
    calculator.digest(&stream[4..17]);
    calculator.digest(&[50u8]);
    let crc = calculator.get_crc();
    stream.extend_from_slice(&crc.to_le_bytes());

    let mut receiver = Receiver::new::<V1>(SliceReader::new(stream.as_slice()));
    let frame = receiver.recv().unwrap();
    assert!(matches!(frame.version(), MavLinkVersion::V1));
    assert_eq!(frame.payload_length(), 8);
    assert_eq!(frame.sequence(), 1);
    assert_eq!(frame.system_id(), 10);
    assert_eq!(frame.component_id(), 255);
    assert_eq!(frame.message_id(), 0);
    assert_eq!(frame.payload().bytes(), &[0u8; 8]);
    assert_eq!(frame.checksum(), crc);
    frame.validate_checksum_with_crc_extra(50).unwrap();
    match receiver.recv() {
        Err(Error::Io(e)) => assert!(matches!(e.kind(), IoErrorKind::UnexpectedEof)),
        _ => panic!("a second frame came out of thin air"),
    }

    stream.extend_from_slice(&[1, 2, 3, 4, 5, 6, 7]);
    let mut receiver = Receiver::versionless(SliceReader::new(stream.as_slice()));
    assert!(receiver.recv().is_ok());
    match receiver.recv() {
        Err(Error::Io(e)) => assert!(matches!(e.kind(), IoErrorKind::UnexpectedEof)),
        _ => panic!("junk passed for a frame"),
    }
    let reader = receiver.extract();
    assert_eq!(reader.num_remaining_bytes(), 1);
}

#[test]
fn versioned_receiver_rejects_wrong_version() {
    let frame = default_heartbeat_frame(V2);
    let mut buffer = [0u8; 21];
    let mut sender = Sender::new(SliceWriter::new(buffer.as_mut_slice()));
    assert_eq!(sender.send(&frame).unwrap(), 21);
    sender.flush().unwrap();
    let writer = sender.extract();
    assert_eq!(writer.pos(), 21);

    let mut bound_to_v1 = Receiver::versioned(SliceReader::new(buffer.as_slice()), V1);
    match bound_to_v1.recv() {
        Err(Error::Io(e)) => assert!(matches!(e.kind(), IoErrorKind::UnexpectedEof)),
        _ => panic!("a MAVLink 2 frame passed for a MAVLink 1 frame"),
    }

    let mut versionless = Receiver::versionless(SliceReader::new(buffer.as_slice()));
    let received = versionless.recv().unwrap();
    assert!(matches!(received.version(), MavLinkVersion::V2));
    assert_eq!(received.body(), frame.body());
    assert_eq!(
        received.header().decode().as_slice(),
        frame.header().decode().as_slice()
    );
}

#[test]
fn sender_fails_when_the_writer_is_full() {
    let frame = default_heartbeat_frame(V1);
    let mut buffer = [0u8; 10];
    let mut sender = Sender::new(SliceWriter::new(buffer.as_mut_slice()));
    match sender.send(&frame) {
        Err(Error::Io(e)) => assert!(matches!(e.kind(), IoErrorKind::UnexpectedEof)),
        _ => panic!("17 bytes went into 10"),
    }
}

#[test]
fn sender_writes_the_header_when_only_the_header_fits() {
    let frame = default_heartbeat_frame(V1);
    let mut buffer = [0u8; 8];
    let mut sender = Sender::new(SliceWriter::new(buffer.as_mut_slice()));
    match sender.send(&frame) {
        Err(Error::Io(e)) => assert!(matches!(e.kind(), IoErrorKind::UnexpectedEof)),
        _ => panic!("17 bytes went into 8"),
    }
    let writer = sender.extract();
    assert_eq!(writer.pos(), 6);
    assert_eq!(writer.num_remaining_bytes(), 2);
    assert_eq!(&buffer[0..6], frame.header().decode().as_slice());

    let mut exact = [0u8; 17];
    let mut sender = Sender::new(SliceWriter::new(exact.as_mut_slice()));
    assert_eq!(sender.send(&frame).unwrap(), 17);
    sender.flush().unwrap();
    assert_eq!(sender.extract().num_remaining_bytes(), 0);

    let mut short = [0u8; 5];
    let mut writer = SliceWriter::new(short.as_mut_slice());
    assert!(frame.header().send(&mut writer).is_err());
    assert_eq!(writer.pos(), 0);
    let mut room = [0u8; 6];
    let mut writer = SliceWriter::new(room.as_mut_slice());
    assert_eq!(frame.header().send(&mut writer).unwrap(), 6);
    assert_eq!(writer.pos(), 6);
}

#[test]
fn receiver_keeps_untruncated_payloads() {
    let wire: [u8; 15] = [0xFD, 3, 0, 0, 4, 1, 2, 9, 0, 0, 7, 0, 0, 0x34, 0x12];
    let mut receiver = Receiver::new::<V2>(SliceReader::new(&wire));
    let frame = receiver.recv().unwrap();
    assert_eq!(frame.payload_length(), 3);
    assert_eq!(frame.payload().bytes(), &[7, 0, 0]);
    assert_eq!(frame.checksum(), 0x1234);
    assert_eq!(frame.message_id(), 9);
    assert!(frame.is_consistent());
    assert!(V2::matches(frame.version()));
}
