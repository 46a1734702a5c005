use fyde::batch::{BatchError, BatchReader, CallOutcome, CallReturn, ReadCall, TransportError};
use fyde::primitives::Address;

fn call(tag: u8) -> ReadCall {
    ReadCall { target: Address { bytes: [tag; 20] }, call_data: vec![tag, tag + 1] }
}

fn good(data: &[u8]) -> CallReturn {
    CallReturn { success: true, return_data: data.to_vec() }
}

fn bad(data: &[u8]) -> CallReturn {
    CallReturn { success: false, return_data: data.to_vec() }
}

fn staged(n: u8) -> BatchReader {
    let mut reader = BatchReader::new();
    reader.stage((0..n).map(call).collect());
    reader
}

#[test]
fn strict_batch_keeps_positions() {
    let reader = staged(3);
    let reply = Ok(vec![good(&[1]), good(&[]), good(&[3, 4])]);
    let values = reader.collect_strict(&reply).unwrap();
    assert_eq!(values, vec![vec![1u8], vec![], vec![3, 4]]);
}

#[test]
fn strict_batch_fails_on_the_first_failed_call() {
    let reader = staged(4);
    let reply = Ok(vec![good(&[1]), bad(&[9]), good(&[3]), bad(&[8])]);
    assert_eq!(reader.collect_strict(&reply).unwrap_err(), BatchError::CallFailed { index: 1 });
}

#[test]
fn tolerant_batch_wraps_each_outcome() {
    let reader = staged(3);
    let reply = Ok(vec![good(&[1]), bad(&[9, 9]), good(&[3])]);
    let outcomes = reader.collect_tolerant(&reply).unwrap();
    assert_eq!(outcomes.len(), 3);
    assert!(matches!(&outcomes[0], CallOutcome::Success(d) if d == &vec![1u8]));
    assert!(matches!(&outcomes[1], CallOutcome::Failure(d) if d == &vec![9u8, 9]));
    assert!(matches!(&outcomes[2], CallOutcome::Success(d) if d == &vec![3u8]));
}

#[test]
fn batch_reports_the_transport() {
    let reader = staged(2);
    let reply = Err(TransportError::TimedOut);
    assert_eq!(
        reader.collect_strict(&reply).unwrap_err(),
        BatchError::Transport(TransportError::TimedOut)
    );
    let reply = Err(TransportError::RateLimited);
    assert_eq!(
        reader.collect_tolerant(&reply).unwrap_err(),
        BatchError::Transport(TransportError::RateLimited)
    );
    let reply = Err(TransportError::Unreachable);
    assert_eq!(
        reader.collect_strict(&reply).unwrap_err(),
        BatchError::Transport(TransportError::Unreachable)
    );
}

#[test]
fn batch_reports_a_reply_of_the_wrong_length() {
    let reader = staged(2);
    let reply = Ok(vec![good(&[1])]);
    let expected = BatchError::CountMismatch { expected: 2, returned: 1 };
    assert_eq!(reader.collect_strict(&reply).unwrap_err(), expected);
    assert_eq!(reader.collect_tolerant(&reply).unwrap_err(), expected);
    let reply = Ok(vec![bad(&[1]), good(&[1]), good(&[1])]);
    let expected = BatchError::CountMismatch { expected: 2, returned: 3 };
    assert_eq!(reader.collect_strict(&reply).unwrap_err(), expected);
    assert_eq!(reader.collect_tolerant(&reply).unwrap_err(), expected);
}

#[test]
fn empty_batch_succeeds() {
    let reader = BatchReader::new();
    assert_eq!(reader.len(), 0);
    assert_eq!(reader.collect_strict(&Ok(vec![])).unwrap(), Vec::<Vec<u8>>::new());
    assert!(reader.collect_tolerant(&Ok(vec![])).unwrap().is_empty());
}

#[test]
fn staging_leaves_nothing_of_the_batch_before() {
    let mut reader = BatchReader::new();
    reader.add_call(call(1));
    reader.add_call(call(2));
    assert_eq!(reader.len(), 2);
    assert_eq!(reader.calls[1].call_data, vec![2, 3]);
    reader.stage(vec![call(7)]);
    assert_eq!(reader.len(), 1);
    assert_eq!(reader.calls[0].target, Address { bytes: [7; 20] });
    reader.clear_calls();
    assert_eq!(reader.len(), 0);
    reader.add_call(call(4));
    assert_eq!(reader.len(), 1);
    assert_eq!(reader.calls[0].call_data, vec![4, 5]);
}
