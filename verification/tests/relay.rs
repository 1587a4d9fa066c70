use tunnel_net::{ReadAction, ReadBuffer, ReadOutcome, INITIAL_READ_CAPACITY, READ_GROWTH};

#[test]
fn new_buffer_is_empty_with_full_window() {
    let b = ReadBuffer::new();
    assert_eq!(b.len(), 0);
    assert_eq!(b.window_len(), INITIAL_READ_CAPACITY);
    assert_eq!(b.received(), &[] as &[u8]);
    assert_eq!(b.contents().len(), 4096);
    assert!(b.contents().iter().all(|x| *x == 0));
}

#[test]
fn bytes_are_appended_and_reading_goes_on() {
    let mut b = ReadBuffer::new();
    assert_eq!(b.step(ReadOutcome::Bytes(3), &[1, 2, 3]), ReadAction::ReadMore);
    assert_eq!(b.step(ReadOutcome::Bytes(2), &[4, 5]), ReadAction::ReadMore);
    assert_eq!(b.received(), &[1, 2, 3, 4, 5]);
    assert_eq!(b.window_len(), 4096 - 5);
    assert_eq!(&b.contents()[..6], &[1, 2, 3, 4, 5, 0]);
}

#[test]
fn end_of_stream_and_would_block_finish() {
    let mut b = ReadBuffer::new();
    b.step(ReadOutcome::Bytes(1), &[9]);
    assert_eq!(b.step(ReadOutcome::Bytes(0), &[]), ReadAction::Done);
    assert_eq!(b.step(ReadOutcome::WouldBlock, &[]), ReadAction::Done);
    assert_eq!(b.received(), &[9]);
}

#[test]
fn interruption_reads_again_and_errors_abort() {
    let mut b = ReadBuffer::new();
    assert_eq!(b.step(ReadOutcome::Interrupted, &[]), ReadAction::ReadMore);
    assert_eq!(b.step(ReadOutcome::Failed, &[]), ReadAction::Abort);
    assert_eq!(b.len(), 0);
}

#[test]
fn a_full_buffer_grows_by_one_step() {
    let mut b = ReadBuffer::new();
    let chunk = vec![7u8; INITIAL_READ_CAPACITY - 1];
    b.step(ReadOutcome::Bytes(chunk.len()), &chunk);
    assert_eq!(b.window_len(), 1);
    assert_eq!(b.step(ReadOutcome::Bytes(1), &[8]), ReadAction::ReadMore);
    assert_eq!(b.len(), INITIAL_READ_CAPACITY);
    assert_eq!(b.window_len(), READ_GROWTH);
    assert_eq!(b.contents().len(), INITIAL_READ_CAPACITY + READ_GROWTH);
    assert_eq!(b.received()[INITIAL_READ_CAPACITY - 1], 8);
    let more = vec![1u8; READ_GROWTH];
    b.step(ReadOutcome::Bytes(READ_GROWTH), &more);
    assert_eq!(b.contents().len(), INITIAL_READ_CAPACITY + 2 * READ_GROWTH);
    assert_eq!(b.window_len(), READ_GROWTH);
}

#[test]
fn collects_everything_delivered_in_order() {
    let mut b = ReadBuffer::new();
    let mut expected = Vec::new();
    for round in 0..20u32 {
        let n = ((round as usize * 397) % 700 + 1).min(b.window_len());
        let chunk: Vec<u8> = (0..n).map(|i| (i as u32 + round) as u8).collect();
        b.step(ReadOutcome::Bytes(n), &chunk);
        b.step(ReadOutcome::Interrupted, &[]);
        expected.extend_from_slice(&chunk);
    }
    assert_eq!(b.received(), &expected[..]);
    assert!(b.window_len() > 0);
}
