use fyde::stream::{EventStream, LogPosition, StreamError, StreamStep};

fn at(block_number: u64, log_index: u64) -> LogPosition {
    LogPosition { block_number, log_index }
}

#[test]
fn chain_order_goes_by_block_then_index() {
    assert!(at(1, 5).comes_before(&at(2, 0)));
    assert!(at(1, 5).comes_before(&at(1, 6)));
    assert!(!at(1, 5).comes_before(&at(1, 5)));
    assert!(!at(1, 5).comes_before(&at(1, 4)));
    assert!(!at(2, 0).comes_before(&at(1, 9)));
    assert!(at(0, 0).comes_before(&at(u64::MAX, u64::MAX)));
}

#[test]
fn stream_delivers_logs_in_chain_order() {
    let mut stream = EventStream::new();
    assert_eq!(stream.last, None);
    assert_eq!(stream.next(at(10, 3), true), Ok(StreamStep::Deliver));
    assert_eq!(stream.next(at(10, 4), true), Ok(StreamStep::Deliver));
    assert_eq!(stream.next(at(12, 0), true), Ok(StreamStep::Deliver));
    assert_eq!(stream.last, Some(at(12, 0)));
    assert!(stream.skipped.is_empty());
}

#[test]
fn stream_sets_a_malformed_log_aside_and_goes_on() {
    let mut stream = EventStream::new();
    assert_eq!(stream.next(at(10, 3), true), Ok(StreamStep::Deliver));
    assert_eq!(stream.next(at(10, 4), false), Ok(StreamStep::Skip));
    assert_eq!(stream.next(at(11, 0), true), Ok(StreamStep::Deliver));
    assert_eq!(stream.next(at(11, 1), false), Ok(StreamStep::Skip));
    assert_eq!(stream.skipped, vec![at(10, 4), at(11, 1)]);
    assert_eq!(stream.last, Some(at(11, 1)));
}

#[test]
fn stream_refuses_a_log_out_of_order() {
    let mut stream = EventStream::new();
    assert_eq!(stream.next(at(10, 3), false), Ok(StreamStep::Skip));
    let refused = StreamError::OutOfOrder { previous: at(10, 3), found: at(10, 3) };
    assert_eq!(stream.next(at(10, 3), true), Err(refused));
    let refused = StreamError::OutOfOrder { previous: at(10, 3), found: at(9, 7) };
    assert_eq!(stream.next(at(9, 7), false), Err(refused));
    assert_eq!(stream.last, Some(at(10, 3)));
    assert_eq!(stream.skipped, vec![at(10, 3)]);
    assert_eq!(stream.next(at(10, 4), true), Ok(StreamStep::Deliver));
}
