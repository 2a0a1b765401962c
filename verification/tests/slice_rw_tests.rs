use mavio::{IoErrorKind, Read, SliceReader, SliceWriter, Write};

#[test]
fn reader_reads() {
    let content = [0, 1, 2, 3, 4, 5, 6, 7, 8, 9u8];
    let mut buffer = [0u8; 5];

    let mut reader = SliceReader::new(&content);
    reader.read_exact(buffer.as_mut_slice()).unwrap();

    assert_eq!(&content[0..5], &buffer[0..5]);
    assert_eq!(reader.pos(), 5);
}

#[test]
fn reader_reads_it_all() {
    let content = [0, 1, 2, 3, 4, 5, 6, 7, 8, 9u8];
    let mut buffer = [0u8; 10];

    let mut reader = SliceReader::new(&content);
    reader.read_exact(buffer.as_mut_slice()).unwrap();

    assert_eq!(content, buffer);
}

#[test]
fn writer_writes() {
    let content = [0, 1, 2, 3, 4u8];
    let mut buffer = [0u8; 10];

    let mut writer = SliceWriter::new(&mut buffer);
    writer.write_all(&content).unwrap();

    assert_eq!(&content[0..5], &writer.content()[0..5]);
    assert_eq!(writer.pos(), 5);
}

#[test]
fn writer_writes_it_all() {
    let content = [0, 1, 2, 3, 4, 5, 6, 7, 8, 9u8];
    let mut buffer = [0u8; 10];

    let mut writer = SliceWriter::new(&mut buffer);
    writer.write_all(&content).unwrap();

    assert_eq!(content, buffer);
}

#[test]
fn writer_leaves_the_rest_of_the_slice_alone() {
    let mut buffer = [7u8; 8];
    let mut writer = SliceWriter::new(&mut buffer);
    writer.write_all(&[1, 2]).unwrap();
    assert_eq!(writer.content(), &[1, 2, 7, 7, 7, 7, 7, 7]);
    writer.write_all(&[3, 4, 5]).unwrap();
    assert_eq!(writer.content(), &[1, 2, 3, 4, 5, 7, 7, 7]);
    writer.write_all(&[]).unwrap();
    assert_eq!(writer.pos(), 5);
    assert_eq!(buffer, [1, 2, 3, 4, 5, 7, 7, 7]);
}

#[test]
fn reader_fails_at_the_end_and_reads_nothing() {
    let content = [1, 2, 3u8];
    let mut reader = SliceReader::new(&content);
    let mut buffer = [9u8; 4];
    let err = reader.read_exact(buffer.as_mut_slice()).unwrap_err();
    assert!(matches!(err.kind(), IoErrorKind::UnexpectedEof));
    assert_eq!(reader.pos(), 0);
    assert_eq!(reader.num_remaining_bytes(), 3);
    assert_eq!(buffer, [9u8; 4]);
    assert_eq!(reader.content(), &content);
}

#[test]
fn writer_fails_when_full_and_writes_nothing() {
    let mut buffer = [0u8; 3];
    let mut writer = SliceWriter::new(&mut buffer);
    writer.write_all(&[1, 2]).unwrap();
    let err = writer.write_all(&[3, 4]).unwrap_err();
    assert!(matches!(err.kind(), IoErrorKind::UnexpectedEof));
    assert_eq!(writer.pos(), 2);
    assert_eq!(writer.num_remaining_bytes(), 1);
    writer.flush().unwrap();
    assert_eq!(buffer, [1, 2, 0]);
}
