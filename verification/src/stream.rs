//! Event streams: the logs of one query, taken one by one in chain order.
//!
//! The caller decodes each log and tells the stream where the log sits and
//! whether it could be read. The stream answers what to do with it, keeps
//! the places of the logs that were set aside, and refuses a log that does
//! not come after the one before it.

use vstd::prelude::*;

verus! {

/// Where a log sits on the chain.
#[derive(Clone, Copy, Debug, PartialEq, Eq)]
pub struct LogPosition {
    pub block_number: u64,
    pub log_index: u64,
}

/// What to do with a log that the stream took.
#[derive(Clone, Copy, Debug, PartialEq, Eq)]
pub enum StreamStep {
    /// The log was read: hand its event on.
    Deliver,
    /// The log could not be read: it was set aside, and the stream goes on.
    Skip,
}

/// Why the stream refused a log.
#[derive(Clone, Copy, Debug, PartialEq, Eq)]
pub enum StreamError {
    /// The log at `found` does not come after the log at `previous`.
    OutOfOrder { previous: LogPosition, found: LogPosition },
}

/// The state of a stream: the place of the last log taken, and the places of
/// the logs set aside so far, in the order in which they came.
#[derive(Debug)]
pub struct EventStream {
    pub last: Option<LogPosition>,
    pub skipped: Vec<LogPosition>,
}

impl LogPosition {
    /// Chain order: by block, and within a block by the log's index.
    pub open spec fn before(self, other: LogPosition) -> bool {
        self.block_number < other.block_number || (self.block_number == other.block_number
            && self.log_index < other.log_index)
    }

    /// Whether this log comes before `other` in chain order.
    pub fn comes_before(&self, other: &LogPosition) -> (r: bool)
        ensures
            r == self.before(*other),
    {
        self.block_number < other.block_number || (self.block_number == other.block_number
            && self.log_index < other.log_index)
    }
}

/// Every log of `positions` comes before all that follow it.
pub open spec fn ascending(positions: Seq<LogPosition>) -> bool {
    forall|i: int, j: int|
        0 <= i < j < positions.len() ==> (#[trigger] positions[i]).before(#[trigger] positions[j])
}

/// Logs of which each comes after the one before it are in chain order
/// throughout.
pub proof fn stepwise_order_is_chain_order(positions: Seq<LogPosition>)
    requires
        forall|i: int|
            0 < i < positions.len() ==> positions[i - 1].before(#[trigger] positions[i]),
    ensures
        ascending(positions),
    decreases positions.len(),
{
    if positions.len() > 1 {
        let shorter = positions.drop_last();
        assert forall|i: int| 0 < i < shorter.len() implies shorter[i - 1].before(
            #[trigger] shorter[i],
        ) by {
            assert(shorter[i] == positions[i] && shorter[i - 1] == positions[i - 1]);
            assert(positions[i - 1].before(positions[i]));
        }
        stepwise_order_is_chain_order(shorter);
        let n = positions.len() - 1;
        assert(positions[n - 1].before(positions[n]));
        assert forall|i: int, j: int| 0 <= i < j < positions.len() implies (
        #[trigger] positions[i]).before(#[trigger] positions[j]) by {
            if j < n {
                assert(shorter[i].before(shorter[j]));
            } else if i < n - 1 {
                assert(shorter[i].before(shorter[n - 1]));
            }
        }
    }
}

impl EventStream {
    /// The stream takes a log at `position`: it is the first, or it comes
    /// after the last one taken.
    pub open spec fn accepts(self, position: LogPosition) -> bool {
        match self.last {
            None => true,
            Some(last) => last.before(position),
        }
    }

    /// A stream that has taken no log yet.
    pub fn new() -> (stream: Self)
        ensures
            stream.last.is_none(),
            stream.skipped@.len() == 0,
    {
        EventStream { last: None, skipped: Vec::new() }
    }

    /// Takes the next log. A log that comes after the last one is taken: it
    /// is delivered where it was decoded, and set aside, with its place
    /// recorded, where it was not. Any other log is refused and leaves the
    /// stream as it was.
    pub fn next(&mut self, position: LogPosition, decoded: bool) -> (step: Result<
        StreamStep,
        StreamError,
    >)
        ensures
            match step {
                Ok(action) => {
                    &&& old(self).accepts(position)
                    &&& final(self).last == Some(position)
                    &&& decoded ==> action == StreamStep::Deliver && final(self).skipped@ == old(
                        self,
                    ).skipped@
                    &&& !decoded ==> action == StreamStep::Skip && final(self).skipped@ == old(
                        self,
                    ).skipped@.push(position)
                },
                Err(e) => {
                    &&& !old(self).accepts(position)
                    &&& *final(self) == *old(self)
                    &&& old(self).last.is_some()
                    &&& e == (StreamError::OutOfOrder {
                        previous: old(self).last.unwrap(),
                        found: position,
                    })
                },
            },
    {
        match self.last {
            Some(last) => {
                if !last.comes_before(&position) {
                    return Err(StreamError::OutOfOrder { previous: last, found: position });
                }
            },
            None => {},
        }
        self.last = Some(position);
        if decoded {
            Ok(StreamStep::Deliver)
        } else {
            self.skipped.push(position);
            Ok(StreamStep::Skip)
        }
    }
}

} // verus!
