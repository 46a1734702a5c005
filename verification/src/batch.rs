//! Batched reads: many independent calls staged as one round trip, and the
//! reply taken apart again so that each result stands at its call's position.
//!
//! The round trip itself is the caller's: it sends `calls` and hands back
//! what came, or the transport's failure.

use crate::primitives::{copy_vec, Address};
use vstd::prelude::*;

verus! {

/// One read to make: the contract to ask and the encoded question.
#[derive(Debug)]
pub struct ReadCall {
    pub target: Address,
    pub call_data: Vec<u8>,
}

/// What came back for one call of a batch.
#[derive(Debug)]
pub struct CallReturn {
    pub success: bool,
    pub return_data: Vec<u8>,
}

/// Why a round trip brought nothing. All of these may pass with time.
#[derive(Clone, Copy, Debug, PartialEq, Eq)]
pub enum TransportError {
    Unreachable,
    RateLimited,
    TimedOut,
}

/// Why a batch has no result.
#[derive(Clone, Copy, Debug, PartialEq, Eq)]
pub enum BatchError {
    /// The round trip failed.
    Transport(TransportError),
    /// The reply does not hold one return for each call.
    CountMismatch { expected: usize, returned: usize },
    /// Under the strict policy: the call at `index` failed, and none before it.
    CallFailed { index: usize },
}

/// The outcome of one call under the tolerant policy, with the data that the
/// call returned or reverted with.
#[derive(Debug)]
pub enum CallOutcome {
    Success(Vec<u8>),
    Failure(Vec<u8>),
}

/// The calls staged for one round trip.
#[derive(Debug)]
pub struct BatchReader {
    pub calls: Vec<ReadCall>,
}

/// The position of the first failed call in a reply, or the reply's length
/// where every call succeeded.
pub open spec fn first_failed(replies: Seq<CallReturn>) -> int
    decreases replies.len(),
{
    if replies.len() == 0 {
        0
    } else if !replies[0].success {
        0
    } else {
        1 + first_failed(replies.drop_first())
    }
}

/// `first_failed` names a failed call with only successful calls before it,
/// or the end of a reply without failures.
pub proof fn first_failed_is_first(replies: Seq<CallReturn>)
    ensures
        0 <= first_failed(replies) <= replies.len(),
        first_failed(replies) < replies.len() ==> !replies[first_failed(replies)].success,
        forall|k: int| 0 <= k < first_failed(replies) ==> (#[trigger] replies[k]).success,
    decreases replies.len(),
{
    if replies.len() > 0 && replies[0].success {
        let rest = replies.drop_first();
        first_failed_is_first(rest);
        assert forall|k: int| 0 <= k < first_failed(replies) implies (#[trigger] replies[k]).success by {
            if k > 0 {
                assert(rest[k - 1] == replies[k]);
            }
        }
    }
}

/// A failed call with only successful calls before it is the one that
/// `first_failed` names; so is the end of a reply without failures.
pub proof fn first_failed_at(replies: Seq<CallReturn>, at: int)
    requires
        0 <= at <= replies.len(),
        at < replies.len() ==> !replies[at].success,
        forall|k: int| 0 <= k < at ==> (#[trigger] replies[k]).success,
    ensures
        first_failed(replies) == at,
    decreases replies.len(),
{
    if replies.len() > 0 && at > 0 {
        let rest = replies.drop_first();
        assert(replies[0].success);
        assert forall|k: int| 0 <= k < at - 1 implies (#[trigger] rest[k]).success by {
            assert(rest[k] == replies[k + 1]);
        }
        first_failed_at(rest, at - 1);
    }
}

/// The result of a batch of `expected` calls under the strict policy: the
/// returned data of every call, at the call's position, provided that the
/// round trip succeeded, brought one return for each call, and no call
/// failed.
pub open spec fn strict_result(
    expected: nat,
    reply: Result<Vec<CallReturn>, TransportError>,
) -> Result<Seq<Seq<u8>>, BatchError> {
    match reply {
        Err(e) => Err(BatchError::Transport(e)),
        Ok(replies) => if replies@.len() != expected {
            Err(
                BatchError::CountMismatch {
                    expected: expected as usize,
                    returned: replies@.len() as usize,
                },
            )
        } else if first_failed(replies@) < replies@.len() {
            Err(BatchError::CallFailed { index: first_failed(replies@) as usize })
        } else {
            Ok(Seq::new(replies@.len(), |i: int| replies@[i].return_data@))
        },
    }
}

/// The view of a tolerant outcome: whether the call succeeded, and its data.
pub open spec fn outcome_view(outcome: CallOutcome) -> (bool, Seq<u8>) {
    match outcome {
        CallOutcome::Success(data) => (true, data@),
        CallOutcome::Failure(data) => (false, data@),
    }
}

/// The result of a batch of `expected` calls under the tolerant policy: the
/// outcome of every call, at the call's position, provided that the round
/// trip succeeded and brought one return for each call.
pub open spec fn tolerant_result(
    expected: nat,
    reply: Result<Vec<CallReturn>, TransportError>,
) -> Result<Seq<(bool, Seq<u8>)>, BatchError> {
    match reply {
        Err(e) => Err(BatchError::Transport(e)),
        Ok(replies) => if replies@.len() != expected {
            Err(
                BatchError::CountMismatch {
                    expected: expected as usize,
                    returned: replies@.len() as usize,
                },
            )
        } else {
            Ok(Seq::new(replies@.len(), |i: int| (replies@[i].success, replies@[i].return_data@)))
        },
    }
}

impl BatchReader {
    /// A reader with nothing staged.
    pub fn new() -> (reader: Self)
        ensures
            reader.calls@.len() == 0,
    {
        BatchReader { calls: Vec::new() }
    }

    /// Drops whatever is staged.
    pub fn clear_calls(&mut self)
        ensures
            final(self).calls@.len() == 0,
    {
        self.calls = Vec::new();
    }

    /// Stages one more call, behind those already staged.
    pub fn add_call(&mut self, call: ReadCall)
        ensures
            final(self).calls@ == old(self).calls@.push(call),
    {
        self.calls.push(call);
    }

    /// Stages `calls` for the next round trip, and nothing else: whatever an
    /// earlier batch left behind is dropped first.
    pub fn stage(&mut self, calls: Vec<ReadCall>)
        ensures
            final(self).calls@ == calls@,
    {
        self.clear_calls();
        self.calls = calls;
    }

    /// The number of staged calls.
    pub fn len(&self) -> (n: usize)
        ensures
            n == self.calls@.len(),
    {
        self.calls.len()
    }

    /// Takes the reply to the staged calls apart under the strict policy: any
    /// failed call fails the batch.
    pub fn collect_strict(&self, reply: &Result<Vec<CallReturn>, TransportError>) -> (result:
        Result<Vec<Vec<u8>>, BatchError>)
        ensures
            match result {
                Ok(values) => Ok(Seq::new(values@.len(), |i: int| values@[i]@)),
                Err(e) => Err(e),
            } == strict_result(self.calls@.len(), *reply),
    {
        match reply {
            Err(e) => Err(BatchError::Transport(*e)),
            Ok(replies) => {
                if replies.len() != self.calls.len() {
                    return Err(
                        BatchError::CountMismatch {
                            expected: self.calls.len(),
                            returned: replies.len(),
                        },
                    );
                }
                let mut values: Vec<Vec<u8>> = Vec::new();
                let mut i: usize = 0;
                while i < replies.len()
                    invariant
                        i <= replies.len(),
                        replies@.len() == self.calls@.len(),
                        *reply == Ok::<Vec<CallReturn>, TransportError>(*replies),
                        values@.len() == i,
                        forall|k: int| 0 <= k < i ==> (#[trigger] replies@[k]).success,
                        forall|k: int|
                            0 <= k < i ==> (#[trigger] values@[k])@ == replies@[k].return_data@,
                    decreases replies.len() - i,
                {
                    if !replies[i].success {
                        proof {
                            first_failed_at(replies@, i as int);
                        }
                        return Err(BatchError::CallFailed { index: i });
                    }
                    values.push(copy_vec(&replies[i].return_data));
                    i += 1;
                }
                proof {
                    first_failed_at(replies@, replies@.len() as int);
                    assert(Seq::new(values@.len(), |i: int| values@[i]@) =~= Seq::new(
                        replies@.len(),
                        |i: int| replies@[i].return_data@,
                    ));
                }
                Ok(values)
            },
        }
    }

    /// Takes the reply to the staged calls apart under the tolerant policy:
    /// each call carries its own outcome, and the batch succeeds wherever the
    /// round trip did.
    pub fn collect_tolerant(&self, reply: &Result<Vec<CallReturn>, TransportError>) -> (result:
        Result<Vec<CallOutcome>, BatchError>)
        ensures
            match result {
                Ok(outcomes) => Ok(Seq::new(outcomes@.len(), |i: int| outcome_view(outcomes@[i]))),
                Err(e) => Err(e),
            } == tolerant_result(self.calls@.len(), *reply),
    {
        match reply {
            Err(e) => Err(BatchError::Transport(*e)),
            Ok(replies) => {
                if replies.len() != self.calls.len() {
                    return Err(
                        BatchError::CountMismatch {
                            expected: self.calls.len(),
                            returned: replies.len(),
                        },
                    );
                }
                let mut outcomes: Vec<CallOutcome> = Vec::new();
                let mut i: usize = 0;
                while i < replies.len()
                    invariant
                        i <= replies.len(),
                        outcomes@.len() == i,
                        forall|k: int|
                            0 <= k < i ==> outcome_view(#[trigger] outcomes@[k]) == (
                                replies@[k].success,
                                replies@[k].return_data@,
                            ),
                    decreases replies.len() - i,
                {
                    let data = copy_vec(&replies[i].return_data);
                    if replies[i].success {
                        outcomes.push(CallOutcome::Success(data));
                    } else {
                        outcomes.push(CallOutcome::Failure(data));
                    }
                    i += 1;
                }
                proof {
                    assert(Seq::new(outcomes@.len(), |i: int| outcome_view(outcomes@[i]))
                        =~= Seq::new(
                        replies@.len(),
                        |i: int| (replies@[i].success, replies@[i].return_data@),
                    ));
                }
                Ok(outcomes)
            },
        }
    }
}

} // verus!
