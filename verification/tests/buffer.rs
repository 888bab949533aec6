use osutil::buffer::{OutputBuffer, PumpStep, ReadOutcome, READ_CHUNK};

#[test]
fn new_buffer_is_empty() {
    let buffer = OutputBuffer::new();
    assert_eq!(buffer.len(), 0);
    assert_eq!(buffer.as_slice(), b"");
}

#[test]
fn read_chunk_is_8_kib() {
    assert_eq!(READ_CHUNK, 8192);
}

#[test]
fn append_adds_behind() {
    let mut buffer = OutputBuffer::new();
    buffer.append(b"hello");
    buffer.append(b"");
    buffer.append(b" world");
    assert_eq!(buffer.as_slice(), b"hello world");
    assert_eq!(buffer.len(), 11);
}

#[test]
fn pump_appends_what_was_read() {
    let mut buffer = OutputBuffer::new();
    let mut scratch = [0u8; 16];
    scratch[..5].copy_from_slice(b"hello");
    let step = buffer.pump_step(&scratch, ReadOutcome::Bytes(5));
    assert_eq!(step, PumpStep { keep_reading: true, mark_dirty: true });
    assert_eq!(buffer.as_slice(), b"hello");
    scratch[..2].copy_from_slice(b"!\n");
    let step = buffer.pump_step(&scratch, ReadOutcome::Bytes(2));
    assert!(step.keep_reading && step.mark_dirty);
    assert_eq!(buffer.as_slice(), b"hello!\n");
}

#[test]
fn pump_takes_a_full_scratch() {
    let mut buffer = OutputBuffer::new();
    let scratch = [7u8; 8];
    let step = buffer.pump_step(&scratch, ReadOutcome::Bytes(8));
    assert!(step.keep_reading);
    assert_eq!(buffer.as_slice(), &[7u8; 8]);
}

#[test]
fn pump_stops_at_end_of_file() {
    let mut buffer = OutputBuffer::new();
    buffer.append(b"abc");
    let step = buffer.pump_step(&[1, 2, 3], ReadOutcome::Bytes(0));
    assert_eq!(step, PumpStep { keep_reading: false, mark_dirty: true });
    assert_eq!(buffer.as_slice(), b"abc");
}

#[test]
fn pump_stops_on_a_failed_read() {
    let mut buffer = OutputBuffer::new();
    buffer.append(b"abc");
    let step = buffer.pump_step(&[1, 2, 3], ReadOutcome::Failed);
    assert_eq!(step, PumpStep { keep_reading: false, mark_dirty: true });
    assert_eq!(buffer.as_slice(), b"abc");
}

#[test]
fn pump_stops_on_an_impossible_count() {
    let mut buffer = OutputBuffer::new();
    let step = buffer.pump_step(&[1, 2, 3], ReadOutcome::Bytes(4));
    assert_eq!(step, PumpStep { keep_reading: false, mark_dirty: true });
    assert_eq!(buffer.len(), 0);
}

#[test]
fn buffer_length_never_decreases() {
    let mut buffer = OutputBuffer::new();
    let scratch = *b"0123456789";
    let outcomes = [
        ReadOutcome::Bytes(3),
        ReadOutcome::Bytes(10),
        ReadOutcome::Failed,
        ReadOutcome::Bytes(1),
        ReadOutcome::Bytes(0),
        ReadOutcome::Bytes(11),
        ReadOutcome::Bytes(7),
    ];
    let mut seen: Vec<u8> = Vec::new();
    for outcome in outcomes {
        buffer.pump_step(&scratch, outcome);
        assert!(buffer.len() >= seen.len());
        assert_eq!(&buffer.as_slice()[..seen.len()], seen.as_slice());
        seen = buffer.as_slice().to_vec();
    }
    assert_eq!(seen, b"012012345678900123456".to_vec());
}
