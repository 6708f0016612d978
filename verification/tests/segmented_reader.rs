use backseat_safe_system_2k::debugger::segmented_reader::{
    Error, Segment, SegmentedReader, INITIAL_BUFFER_SIZE,
};

type Result<T> = std::result::Result<T, Error>;

#[test]
fn read_returns_correct_segments() -> Result<()> {
    let mut reader = SegmentedReader::new();
    let read = b"hello\0world\0";
    let segments = reader.read(&read[..])?;
    assert_eq!(
        &[
            Segment {
                start: 0,
                end: 5,
                buffer_version: reader.buffer_version()
            },
            Segment {
                start: 6,
                end: 11,
                buffer_version: reader.buffer_version()
            }
        ][..],
        &segments[..]
    );
    Ok(())
}

#[test]
fn read_returns_disconnected_when_reading_zero_bytes() {
    let mut reader = SegmentedReader::new();
    let result = reader.read(&b""[..]);
    assert!(matches!(result, Err(Error::Disconnected)));
}

#[test]
fn segment_returns_correct_slice() -> Result<()> {
    let mut reader = SegmentedReader::new();
    let read = b"hello\0world\0";
    let segments = reader.read(&read[..])?;
    assert_eq!(2, segments.len());
    assert_eq!(&b"hello"[..], reader.segment(&segments[0]));
    assert_eq!(&b"world"[..], reader.segment(&segments[1]));

    let mut reader = SegmentedReader::new();
    let read = b"\0this is some text\0012345\0\0not finished yet...";
    let segments = reader.read(&read[..])?;
    assert_eq!(4, segments.len());
    assert_eq!(&b""[..], reader.segment(&segments[0]));
    assert_eq!(&b"this is some text"[..], reader.segment(&segments[1]));
    assert_eq!(&b"012345"[..], reader.segment(&segments[2]));
    assert_eq!(&b""[..], reader.segment(&segments[3]));

    Ok(())
}

#[test]
fn segment_panics_when_given_invalid_segment() -> Result<()> {
    let mut reader = SegmentedReader::new();
    let read = b"hello\0world\0";
    let mut segments = reader.read(&read[..])?;

    segments[0].buffer_version += 42;
    assert!(!reader.is_current(&segments[0]));
    assert!(reader.is_current(&segments[1]));

    Ok(())
}

#[test]
fn multiple_reads_work_correctly() -> Result<()> {
    let mut reader = SegmentedReader::new();
    let read1 = b"hello\0world\0";
    let read2 = b"simple\0case\0";
    reader.read(&read1[..])?;
    let segments2 = reader.read(&read2[..])?;

    assert_eq!(2, segments2.len());
    assert_eq!(&b"simple"[..], reader.segment(&segments2[0]));
    assert_eq!(&b"case"[..], reader.segment(&segments2[1]));

    Ok(())
}

#[test]
fn read_invalidates_old_segments() -> Result<()> {
    let mut reader = SegmentedReader::new();
    let read1 = b"hello\0world\0";
    let read2 = b"simple\0case\0";
    let segments1 = reader.read(&read1[..])?;
    let version1 = reader.buffer_version();
    reader.read(&read2[..])?;

    assert_eq!(2, segments1.len());
    assert!(!reader.is_current(&segments1[0]));
    assert_eq!(version1 + 1, reader.buffer_version());

    Ok(())
}

#[test]
fn read_overlapping_segments() -> Result<()> {
    let mut reader = SegmentedReader::new();
    let read1 = b"hello\0world\0over";
    let read2 = b"lapping\0case\0";

    let segments1 = reader.read(&read1[..])?;
    assert_eq!(2, segments1.len());
    assert_eq!(&b"hello"[..], reader.segment(&segments1[0]));
    assert_eq!(&b"world"[..], reader.segment(&segments1[1]));

    let segments2 = reader.read(&read2[..])?;
    assert_eq!(2, segments2.len());
    assert_eq!(&b"overlapping"[..], reader.segment(&segments2[0]));
    assert_eq!(&b"case"[..], reader.segment(&segments2[1]));

    Ok(())
}

#[test]
fn multiple_reads_for_single_segment() -> Result<()> {
    let mut reader = SegmentedReader::new();
    let read1 = b"read1 ";
    let read2 = b"read2 ";
    let read3 = b"read3\0";

    let segments = reader.read(&read1[..])?;
    assert_eq!(0, segments.len());
    let segments = reader.read(&read2[..])?;
    assert_eq!(0, segments.len());
    let segments = reader.read(&read3[..])?;
    assert_eq!(1, segments.len());
    assert_eq!(&b"read1 read2 read3"[..], reader.segment(&segments[0]));

    Ok(())
}

#[test]
fn read_grows_buffer() -> Result<()> {
    let mut reader = SegmentedReader::new();

    let buffer_size = reader.buffer_size();
    let mut read = vec![5; 3 * buffer_size];
    *read.last_mut().unwrap() = 0;

    let mut slice = &read[..];
    let segments = loop {
        let taken = reader.next_window().min(slice.len());
        let segments = reader.read(&slice[..taken])?;
        slice = &slice[taken..];
        if segments.len() != 0 {
            break segments;
        }
    };

    assert_eq!(1, segments.len());
    assert_eq!(&read[0..3 * buffer_size - 1], reader.segment(&segments[0]));

    Ok(())
}

#[test]
fn clear_resets_reader_correctly() -> Result<()> {
    let mut reader = SegmentedReader::new();

    let read1 = b"read1";
    let segments = reader.read(&read1[..])?;
    assert_eq!(0, segments.len());

    let read2 = b"read2\0";
    reader.clear();
    let segments = reader.read(&read2[..])?;
    assert_eq!(1, segments.len());
    assert_eq!(&b"read2"[..], reader.segment(&segments[0]));

    Ok(())
}

#[test]
fn clear_invalidates_old_segments() -> Result<()> {
    let mut reader = SegmentedReader::new();

    let read1 = b"read1\0read2";
    let segments = reader.read(&read1[..])?;
    assert_eq!(1, segments.len());

    reader.clear();
    assert!(!reader.is_current(&segments[0]));

    Ok(())
}

#[test]
fn read_fills_the_window_and_the_buffer_doubles() -> Result<()> {
    let mut reader = SegmentedReader::new();
    assert_eq!(INITIAL_BUFFER_SIZE, reader.next_window());
    let mut read = vec![7u8; INITIAL_BUFFER_SIZE + 10];
    read[INITIAL_BUFFER_SIZE + 5] = 0;

    // The source delivers as much as the window admits: the zero byte is not
    // among it.
    let segments = reader.read(&read[..INITIAL_BUFFER_SIZE])?;
    assert_eq!(0, segments.len());

    // The buffer is full, so it doubles and the window is the old size.
    assert_eq!(INITIAL_BUFFER_SIZE, reader.next_window());
    let segments = reader.read(&read[INITIAL_BUFFER_SIZE..])?;
    assert_eq!(2 * INITIAL_BUFFER_SIZE, reader.buffer_size());
    assert_eq!(INITIAL_BUFFER_SIZE - 4, reader.next_window());
    assert_eq!(1, segments.len());
    assert_eq!(
        Segment {
            start: 0,
            end: INITIAL_BUFFER_SIZE + 5,
            buffer_version: 0
        },
        segments[0]
    );
    assert_eq!(&read[..INITIAL_BUFFER_SIZE + 5], reader.segment(&segments[0]));
    Ok(())
}

#[test]
fn read_moves_a_long_tail_into_a_buffer_of_twice_its_length() -> Result<()> {
    let mut reader = SegmentedReader::new();
    let mut read = vec![9u8; 1000];
    read[99] = 0;
    let segments = reader.read(&read[..])?;
    assert_eq!(1, segments.len());
    // 900 bytes are left behind the segment: the next buffer holds 1800.
    assert_eq!(900, reader.next_window());
    let segments = reader.read(&b"\0"[..])?;
    assert_eq!(1800, reader.buffer_size());
    assert_eq!(1, reader.buffer_version());
    assert_eq!(1, segments.len());
    assert_eq!(&read[100..], reader.segment(&segments[0]));
    Ok(())
}

#[test]
fn reader_tells_when_it_cannot_read() {
    let reader = SegmentedReader::new();
    assert!(reader.can_read());
}

#[test]
fn disconnected_has_a_message() {
    assert_eq!(Error::Disconnected.to_string(), "input disconnected");
}
