//! The join of requests and settlements into one ordered history.

use crate::history::{
    ActionView, IntegrityError, RequestEvent, RequestView, SettlementEvent, UserAction,
};
use crate::merge::merge_spec;
use std::collections::{HashMap, HashSet};
use vstd::prelude::*;

verus! {

broadcast use vstd::std_specs::hash::group_hash_axioms;

/// Some request carries the identifier `id`.
pub open spec fn has_request(requests: Seq<RequestView>, id: u32) -> bool {
    exists|k: int| 0 <= k < requests.len() && (#[trigger] requests[k]).request_id == id
}

/// Settlement `j` executed a request that is not among `requests`.
pub open spec fn is_orphan(
    requests: Seq<RequestView>,
    settlements: Seq<SettlementEvent>,
    j: int,
) -> bool {
    0 <= j < settlements.len() && !has_request(requests, settlements[j].id())
}

/// Settlement `j` carries the identifier of an earlier settlement.
pub open spec fn is_repeat(settlements: Seq<SettlementEvent>, j: int) -> bool {
    0 <= j < settlements.len() && exists|i: int|
        0 <= i < j && (#[trigger] settlements[i]).id() == settlements[j].id()
}

/// Settlement `j` carries the identifier `id`.
pub open spec fn settled_by(settlements: Seq<SettlementEvent>, id: u32, j: int) -> bool {
    0 <= j < settlements.len() && settlements[j].id() == id
}

/// Some settlement carries the identifier `id`.
pub open spec fn has_settlement(settlements: Seq<SettlementEvent>, id: u32) -> bool {
    exists|j: int| settled_by(settlements, id, j)
}

/// No settlement is an orphan.
pub open spec fn no_orphans(requests: Seq<RequestView>, settlements: Seq<SettlementEvent>) -> bool {
    forall|j: int| !is_orphan(requests, settlements, j)
}

/// No two settlements carry the same identifier.
pub open spec fn no_repeats(settlements: Seq<SettlementEvent>) -> bool {
    forall|j: int| !is_repeat(settlements, j)
}

/// The position of the first orphan among the settlements.
pub open spec fn first_orphan(
    requests: Seq<RequestView>,
    settlements: Seq<SettlementEvent>,
) -> int {
    choose|j: int|
        is_orphan(requests, settlements, j) && forall|i: int|
            0 <= i < j ==> !is_orphan(requests, settlements, i)
}

/// The position of the first settlement that repeats an earlier identifier.
pub open spec fn first_repeat(settlements: Seq<SettlementEvent>) -> int {
    choose|j: int|
        is_repeat(settlements, j) && forall|i: int| 0 <= i < j ==> !is_repeat(settlements, i)
}

/// The position of a settlement that carries `id`; where no identifier
/// repeats, of the only one.
pub open spec fn settlement_index(settlements: Seq<SettlementEvent>, id: u32) -> int {
    choose|j: int| settled_by(settlements, id, j)
}

/// What becomes of one request: merged with the settlement that carries its
/// identifier, or `MissingSettlement` where none does.
pub open spec fn request_outcome(request: RequestView, settlements: Seq<SettlementEvent>) -> Result<
    ActionView,
    IntegrityError,
> {
    if has_settlement(settlements, request.request_id) {
        merge_spec(request, settlements[settlement_index(settlements, request.request_id)])
    } else {
        Err(IntegrityError::MissingSettlement { request_id: request.request_id })
    }
}

/// Request `k` cannot be turned into an action.
pub open spec fn request_fails(
    requests: Seq<RequestView>,
    settlements: Seq<SettlementEvent>,
    k: int,
) -> bool {
    0 <= k < requests.len() && request_outcome(requests[k], settlements) is Err
}

/// The position of the first request that cannot be turned into an action.
pub open spec fn first_failure(
    requests: Seq<RequestView>,
    settlements: Seq<SettlementEvent>,
) -> int {
    choose|k: int|
        request_fails(requests, settlements, k) && forall|i: int|
            0 <= i < k ==> !request_fails(requests, settlements, i)
}

/// The reconciled history of `requests` and `settlements`.
///
/// The settlements are examined first: the first one, in their order, that
/// no request asked for is reported as `OrphanSettlement`; where there is
/// none, the first one that repeats an earlier identifier is reported as
/// `DuplicateSettlement`. Then the requests are taken in their order, and the
/// first one that has no settlement or does not merge with it is reported.
/// Where nothing is reported, the history holds one action for each request,
/// at the request's position.
pub open spec fn reconcile_spec(
    requests: Seq<RequestView>,
    settlements: Seq<SettlementEvent>,
) -> Result<Seq<ActionView>, IntegrityError> {
    if !no_orphans(requests, settlements) {
        Err(
            IntegrityError::OrphanSettlement {
                request_id: settlements[first_orphan(requests, settlements)].id(),
            },
        )
    } else if !no_repeats(settlements) {
        Err(
            IntegrityError::DuplicateSettlement {
                request_id: settlements[first_repeat(settlements)].id(),
            },
        )
    } else if exists|k: int| request_fails(requests, settlements, k) {
        Err(request_outcome(requests[first_failure(requests, settlements)], settlements)->Err_0)
    } else {
        Ok(
            Seq::new(
                requests.len(),
                |k: int| request_outcome(requests[k], settlements)->Ok_0,
            ),
        )
    }
}

/// The views of a sequence of requests.
pub open spec fn request_views(requests: Seq<RequestEvent>) -> Seq<RequestView> {
    Seq::new(requests.len(), |k: int| requests[k]@)
}

/// The views of a sequence of actions.
pub open spec fn action_views(actions: Seq<UserAction>) -> Seq<ActionView> {
    Seq::new(actions.len(), |k: int| actions[k]@)
}

/// The view of a reconciliation's outcome.
pub open spec fn history_outcome(r: Result<Vec<UserAction>, IntegrityError>) -> Result<
    Seq<ActionView>,
    IntegrityError,
> {
    match r {
        Ok(actions) => Ok(action_views(actions@)),
        Err(e) => Err(e),
    }
}

/// Where no identifier repeats, the settlement that carries `id` is the one
/// that `settlement_index` names.
pub proof fn settlement_index_is_unique(settlements: Seq<SettlementEvent>, id: u32, j: int)
    requires
        no_repeats(settlements),
        settled_by(settlements, id, j),
    ensures
        has_settlement(settlements, id),
        settlement_index(settlements, id) == j,
{
    let c = settlement_index(settlements, id);
    assert(settled_by(settlements, id, c));
    if c < j {
        assert(is_repeat(settlements, j));
    } else if j < c {
        assert(is_repeat(settlements, c));
    }
}

/// The least position at which a settlement is an orphan is the one that
/// `first_orphan` names.
pub proof fn first_orphan_is_least(
    requests: Seq<RequestView>,
    settlements: Seq<SettlementEvent>,
    j: int,
)
    requires
        is_orphan(requests, settlements, j),
        forall|i: int| 0 <= i < j ==> !is_orphan(requests, settlements, i),
    ensures
        !no_orphans(requests, settlements),
        first_orphan(requests, settlements) == j,
{
    let c = first_orphan(requests, settlements);
    assert(is_orphan(requests, settlements, c) && forall|i: int|
        0 <= i < c ==> !is_orphan(requests, settlements, i));
}

/// The least position at which a settlement repeats an earlier identifier is
/// the one that `first_repeat` names.
pub proof fn first_repeat_is_least(settlements: Seq<SettlementEvent>, j: int)
    requires
        is_repeat(settlements, j),
        forall|i: int| 0 <= i < j ==> !is_repeat(settlements, i),
    ensures
        !no_repeats(settlements),
        first_repeat(settlements) == j,
{
    let c = first_repeat(settlements);
    assert(is_repeat(settlements, c) && forall|i: int| 0 <= i < c ==> !is_repeat(settlements, i));
}

/// The least position at which a request fails is the one that
/// `first_failure` names.
pub proof fn first_failure_is_least(
    requests: Seq<RequestView>,
    settlements: Seq<SettlementEvent>,
    k: int,
)
    requires
        request_fails(requests, settlements, k),
        forall|i: int| 0 <= i < k ==> !request_fails(requests, settlements, i),
    ensures
        first_failure(requests, settlements) == k,
{
    let c = first_failure(requests, settlements);
    assert(request_fails(requests, settlements, c) && forall|i: int|
        0 <= i < c ==> !request_fails(requests, settlements, i));
}

/// `index` sends each identifier that a settlement carries to the position
/// of a settlement that carries it, and holds no other identifier.
pub open spec fn indexes(index: Map<u32, usize>, settlements: Seq<SettlementEvent>) -> bool {
    &&& forall|id: u32| index.contains_key(id) <==> has_settlement(settlements, id)
    &&& forall|id: u32|
        index.contains_key(id) ==> settled_by(settlements, id, (#[trigger] index[id]) as int)
}

/// The identifiers that the requests carry.
fn request_id_set(requests: &Vec<RequestEvent>) -> (ids: HashSet<u32>)
    ensures
        forall|id: u32| ids@.contains(id) == has_request(request_views(requests@), id),
{
    let ghost rv = request_views(requests@);
    let mut ids: HashSet<u32> = HashSet::new();
    let mut k: usize = 0;
    while k < requests.len()
        invariant
            k <= requests.len(),
            rv == request_views(requests@),
            forall|id: u32|
                ids@.contains(id) <==> exists|i: int|
                    0 <= i < k && (#[trigger] rv[i]).request_id == id,
        decreases requests.len() - k,
    {
        let id: u32 = requests[k].request_id;
        ids.insert(id);
        assert(rv[k as int].request_id == id);
        k += 1;
    }
    ids
}

/// The identifier of the first settlement that no request asked for, if
/// there is one.
fn find_orphan(
    requests: &Vec<RequestEvent>,
    request_ids: &HashSet<u32>,
    settlements: &Vec<SettlementEvent>,
) -> (orphan: Option<u32>)
    requires
        forall|id: u32|
            request_ids@.contains(id) == has_request(request_views(requests@), id),
    ensures
        match orphan {
            Some(id) => !no_orphans(request_views(requests@), settlements@) && id
                == settlements@[first_orphan(request_views(requests@), settlements@)].id(),
            None => no_orphans(request_views(requests@), settlements@),
        },
{
    let ghost rv = request_views(requests@);
    let ghost sv = settlements@;
    let mut j: usize = 0;
    while j < settlements.len()
        invariant
            j <= settlements.len(),
            rv == request_views(requests@),
            sv == settlements@,
            forall|id: u32| request_ids@.contains(id) == has_request(rv, id),
            forall|i: int| 0 <= i < j ==> !is_orphan(rv, sv, i),
        decreases settlements.len() - j,
    {
        let id: u32 = settlements[j].request_id();
        if !request_ids.contains(&id) {
            proof {
                assert(is_orphan(rv, sv, j as int));
                first_orphan_is_least(rv, sv, j as int);
            }
            return Some(id);
        }
        j += 1;
    }
    None
}

/// The settlements by identifier; or, where an identifier repeats, the
/// identifier of the first settlement that repeats one.
fn index_settlements(settlements: &Vec<SettlementEvent>) -> (index: Result<HashMap<u32, usize>, u32>)
    ensures
        match index {
            Ok(by_id) => no_repeats(settlements@) && indexes(by_id@, settlements@),
            Err(id) => !no_repeats(settlements@) && id == settlements@[first_repeat(
                settlements@,
            )].id(),
        },
{
    let ghost sv = settlements@;
    let mut by_id: HashMap<u32, usize> = HashMap::new();
    let mut j: usize = 0;
    while j < settlements.len()
        invariant
            j <= settlements.len(),
            sv == settlements@,
            forall|id: u32|
                by_id@.contains_key(id) <==> exists|i: int|
                    0 <= i < j && (#[trigger] sv[i]).id() == id,
            forall|id: u32|
                by_id@.contains_key(id) ==> 0 <= (#[trigger] by_id@[id]) < j && sv[by_id@[id] as int].id()
                    == id,
            forall|i: int| 0 <= i < j ==> !is_repeat(sv, i),
        decreases settlements.len() - j,
    {
        let id: u32 = settlements[j].request_id();
        if by_id.contains_key(&id) {
            proof {
                assert(is_repeat(sv, j as int));
                first_repeat_is_least(sv, j as int);
            }
            return Err(id);
        }
        by_id.insert(id, j);
        assert(sv[j as int].id() == id);
        j += 1;
    }
    proof {
        assert forall|id: u32| by_id@.contains_key(id) <==> has_settlement(sv, id) by {
            if has_settlement(sv, id) {
                let w = choose|w: int| settled_by(sv, id, w);
                assert(sv[w].id() == id);
            }
            if by_id@.contains_key(id) {
                assert(settled_by(sv, id, by_id@[id] as int));
            }
        }
    }
    Ok(by_id)
}

/// Joins requests and settlements into the history that `reconcile_spec`
/// describes: one action per request, in the order of the requests, or the
/// first integrity fault.
pub fn reconcile(requests: &Vec<RequestEvent>, settlements: &Vec<SettlementEvent>) -> (result:
    Result<Vec<UserAction>, IntegrityError>)
    ensures
        history_outcome(result) == reconcile_spec(request_views(requests@), settlements@),
{
    let ghost rv = request_views(requests@);
    let ghost sv = settlements@;

    let request_ids = request_id_set(requests);
    match find_orphan(requests, &request_ids, settlements) {
        Some(request_id) => {
            return Err(IntegrityError::OrphanSettlement { request_id });
        },
        None => {},
    }
    let index = match index_settlements(settlements) {
        Ok(by_id) => by_id,
        Err(request_id) => {
            return Err(IntegrityError::DuplicateSettlement { request_id });
        },
    };

    let mut actions: Vec<UserAction> = Vec::new();
    let mut k: usize = 0;
    while k < requests.len()
        invariant
            k <= requests.len(),
            rv == request_views(requests@),
            sv == settlements@,
            no_orphans(rv, sv),
            no_repeats(sv),
            indexes(index@, sv),
            actions@.len() == k,
            forall|i: int|
                0 <= i < k ==> request_outcome(rv[i], sv) == Ok::<ActionView, IntegrityError>(
                    (#[trigger] actions@[i])@,
                ),
        decreases requests.len() - k,
    {
        let request = &requests[k];
        assert(rv[k as int] == request@);
        proof {
            assert forall|i: int| 0 <= i < k implies !request_fails(rv, sv, i) by {
                assert(request_outcome(rv[i], sv) == Ok::<ActionView, IntegrityError>(
                    actions@[i]@,
                ));
            }
        }
        match index.get(&request.request_id) {
            None => {
                proof {
                    assert(request_fails(rv, sv, k as int));
                    first_failure_is_least(rv, sv, k as int);
                }
                return Err(IntegrityError::MissingSettlement { request_id: request.request_id });
            },
            Some(found) => {
                let at: usize = *found;
                proof {
                    assert(settled_by(sv, request.request_id, at as int));
                    settlement_index_is_unique(sv, request.request_id, at as int);
                }
                match UserAction::merge(request, &settlements[at]) {
                    Ok(action) => {
                        actions.push(action);
                    },
                    Err(e) => {
                        proof {
                            assert(request_fails(rv, sv, k as int));
                            first_failure_is_least(rv, sv, k as int);
                        }
                        return Err(e);
                    },
                }
            },
        }
        k += 1;
    }
    proof {
        assert forall|i: int| !request_fails(rv, sv, i) by {
            if 0 <= i < rv.len() {
                assert(request_outcome(rv[i], sv) == Ok::<ActionView, IntegrityError>(
                    actions@[i]@,
                ));
            }
        }
        assert(action_views(actions@) =~= Seq::new(
            rv.len(),
            |k: int| request_outcome(rv[k], sv)->Ok_0,
        )) by {
            assert forall|i: int| 0 <= i < rv.len() implies action_views(actions@)[i]
                == request_outcome(rv[i], sv)->Ok_0 by {
                assert(request_outcome(rv[i], sv) == Ok::<ActionView, IntegrityError>(
                    actions@[i]@,
                ));
            }
        }
    }
    Ok(actions)
}

} // verus!
