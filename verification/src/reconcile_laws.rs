//! What holds of every reconciliation.

use crate::history::{
    ActionView, IntegrityError, RequestEvent, RequestView, SettlementEvent, UserAction,
};
use crate::merge::merge_spec;
use crate::reconcile::{
    first_orphan, first_orphan_is_least, has_request, history_outcome, is_orphan, is_repeat,
    no_orphans, no_repeats, reconcile_spec, request_fails, request_outcome, request_views,
    settled_by, settlement_index, settlement_index_is_unique,
};
use vstd::prelude::*;

verus! {

/// A settlement that no request asked for always fails the reconciliation:
/// the outcome is `OrphanSettlement`, and the identifier it names is that of
/// the first such settlement, which stands at or before `j`.
pub proof fn orphan_is_reported(
    requests: Seq<RequestView>,
    settlements: Seq<SettlementEvent>,
    j: int,
)
    requires
        is_orphan(requests, settlements, j),
    ensures
        is_orphan(requests, settlements, first_orphan(requests, settlements)),
        first_orphan(requests, settlements) <= j,
        reconcile_spec(requests, settlements) == Err::<Seq<ActionView>, IntegrityError>(
            IntegrityError::OrphanSettlement {
                request_id: settlements[first_orphan(requests, settlements)].id(),
            },
        ),
        !has_request(requests, settlements[first_orphan(requests, settlements)].id()),
{
    let least = least_orphan(requests, settlements, j);
    first_orphan_is_least(requests, settlements, least);
}

/// The least orphan at or before `j`.
proof fn least_orphan(requests: Seq<RequestView>, settlements: Seq<SettlementEvent>, j: int) -> (m:
    int)
    requires
        is_orphan(requests, settlements, j),
    ensures
        m <= j,
        is_orphan(requests, settlements, m),
        forall|i: int| 0 <= i < m ==> !is_orphan(requests, settlements, i),
    decreases j,
{
    if exists|i: int| 0 <= i < j && is_orphan(requests, settlements, i) {
        let i = choose|i: int| 0 <= i < j && is_orphan(requests, settlements, i);
        least_orphan(requests, settlements, i)
    } else {
        j
    }
}

/// A history follows its requests: it holds one action for each request, at
/// the request's position, with the request's identifier, block number and
/// kind; so it is ordered as the requests are. Each action is the merge of
/// its request with the one settlement that carries the request's
/// identifier, which is of the request's kind.
pub proof fn history_follows_requests(
    requests: Seq<RequestView>,
    settlements: Seq<SettlementEvent>,
)
    requires
        reconcile_spec(requests, settlements) is Ok,
    ensures
        no_orphans(requests, settlements),
        no_repeats(settlements),
        reconcile_spec(requests, settlements)->Ok_0.len() == requests.len(),
        forall|k: int|
            0 <= k < requests.len() ==> {
                let action = #[trigger] reconcile_spec(requests, settlements)->Ok_0[k];
                let at = settlement_index(settlements, requests[k].request_id);
                &&& settled_by(settlements, requests[k].request_id, at)
                &&& settlements[at].kind_spec() == requests[k].kind
                &&& merge_spec(requests[k], settlements[at]) == Ok::<ActionView, IntegrityError>(
                    action,
                )
                &&& action.request_id() == requests[k].request_id
                &&& action.block_number() == requests[k].block_number
                &&& action.kind() == requests[k].kind
            },
{
    assert forall|k: int| 0 <= k < requests.len() implies {
        let action = #[trigger] reconcile_spec(requests, settlements)->Ok_0[k];
        let at = settlement_index(settlements, requests[k].request_id);
        &&& settled_by(settlements, requests[k].request_id, at)
        &&& settlements[at].kind_spec() == requests[k].kind
        &&& merge_spec(requests[k], settlements[at]) == Ok::<ActionView, IntegrityError>(action)
        &&& action.request_id() == requests[k].request_id
        &&& action.block_number() == requests[k].block_number
        &&& action.kind() == requests[k].kind
    } by {
        assert(!request_fails(requests, settlements, k));
    }
}

/// Where no two requests share an identifier, no two actions of the history
/// do.
pub proof fn history_ids_are_unique(
    requests: Seq<RequestView>,
    settlements: Seq<SettlementEvent>,
    a: int,
    b: int,
)
    requires
        reconcile_spec(requests, settlements) is Ok,
        forall|i: int, j: int|
            0 <= i < j < requests.len() ==> (#[trigger] requests[i]).request_id
                != (#[trigger] requests[j]).request_id,
        0 <= a < b < requests.len(),
    ensures
        reconcile_spec(requests, settlements)->Ok_0[a].request_id() != reconcile_spec(
            requests,
            settlements,
        )->Ok_0[b].request_id(),
{
    history_follows_requests(requests, settlements);
    assert(requests[a].request_id != requests[b].request_id);
}

/// Settlement `j` is the partner of some request under `pairing`.
pub open spec fn is_partner(pairing: Seq<int>, j: int) -> bool {
    exists|k: int| 0 <= k < pairing.len() && #[trigger] pairing[k] == j
}

/// Every well-formed set of pairs is reconciled in full. Let each request
/// `k` be paired with settlement `pairing[k]`, so that the two carry the same
/// identifier and merge, every settlement is some request's partner, and no
/// two requests share an identifier. Then the reconciliation succeeds, holds
/// as many actions as there are pairs, and action `k` is the merge of pair
/// `k`, wherever its settlement stood.
pub proof fn complete_on_matching_pairs(
    requests: Seq<RequestView>,
    settlements: Seq<SettlementEvent>,
    pairing: Seq<int>,
)
    requires
        pairing.len() == requests.len(),
        forall|k: int| 0 <= k < pairing.len() ==> 0 <= #[trigger] pairing[k] < settlements.len(),
        forall|j: int| 0 <= j < settlements.len() ==> is_partner(pairing, j),
        forall|k: int|
            0 <= k < pairing.len() ==> settlements[#[trigger] pairing[k]].id()
                == requests[k].request_id,
        forall|a: int, b: int|
            0 <= a < b < requests.len() ==> (#[trigger] requests[a]).request_id
                != (#[trigger] requests[b]).request_id,
        forall|k: int|
            0 <= k < pairing.len() ==> merge_spec(requests[k], settlements[#[trigger] pairing[k]])
                is Ok,
    ensures
        reconcile_spec(requests, settlements) is Ok,
        reconcile_spec(requests, settlements)->Ok_0.len() == requests.len(),
        forall|k: int|
            0 <= k < requests.len() ==> Ok::<ActionView, IntegrityError>(
                #[trigger] reconcile_spec(requests, settlements)->Ok_0[k],
            ) == merge_spec(requests[k], settlements[pairing[k]]),
{
    assert forall|j: int| !is_orphan(requests, settlements, j) by {
        if 0 <= j < settlements.len() {
            assert(is_partner(pairing, j));
            let k = choose|k: int| 0 <= k < pairing.len() && #[trigger] pairing[k] == j;
            assert(requests[k].request_id == settlements[j].id());
        }
    }
    assert forall|j: int| !is_repeat(settlements, j) by {
        if is_repeat(settlements, j) {
            let i = choose|i: int|
                0 <= i < j && (#[trigger] settlements[i]).id() == settlements[j].id();
            assert(is_partner(pairing, i) && is_partner(pairing, j));
            let a = choose|k: int| 0 <= k < pairing.len() && #[trigger] pairing[k] == i;
            let b = choose|k: int| 0 <= k < pairing.len() && #[trigger] pairing[k] == j;
            assert(requests[a].request_id == requests[b].request_id);
            assert(a != b);
        }
    }
    assert forall|k: int| 0 <= k < requests.len() implies request_outcome(
        #[trigger] requests[k],
        settlements,
    ) == merge_spec(requests[k], settlements[pairing[k]]) by {
        assert(settled_by(settlements, requests[k].request_id, pairing[k]));
        settlement_index_is_unique(settlements, requests[k].request_id, pairing[k]);
    }
    assert forall|k: int| !request_fails(requests, settlements, k) by {
        if 0 <= k < requests.len() {
            assert(request_outcome(requests[k], settlements) == merge_spec(
                requests[k],
                settlements[pairing[k]],
            ));
        }
    }
    assert forall|k: int| 0 <= k < requests.len() implies Ok::<ActionView, IntegrityError>(
        #[trigger] reconcile_spec(requests, settlements)->Ok_0[k],
    ) == merge_spec(requests[k], settlements[pairing[k]]) by {
        assert(request_outcome(requests[k], settlements) == merge_spec(
            requests[k],
            settlements[pairing[k]],
        ));
    }
}

/// The order in which the settlements arrive does not matter. Where
/// `reordered` holds the settlements of `settlements` in another order
/// (`to` sends each position to its new place and `from` brings it back),
/// and the reconciliation of `settlements` succeeds, that of `reordered`
/// succeeds with the same history.
pub proof fn settlement_order_is_irrelevant(
    requests: Seq<RequestView>,
    settlements: Seq<SettlementEvent>,
    reordered: Seq<SettlementEvent>,
    to: Seq<int>,
    from: Seq<int>,
)
    requires
        reordered.len() == settlements.len(),
        to.len() == settlements.len(),
        from.len() == settlements.len(),
        forall|j: int|
            0 <= j < settlements.len() ==> 0 <= #[trigger] to[j] < settlements.len() && from[to[j]]
                == j && reordered[to[j]] == settlements[j],
        forall|i: int|
            0 <= i < settlements.len() ==> 0 <= #[trigger] from[i] < settlements.len()
                && to[from[i]] == i,
        reconcile_spec(requests, settlements) is Ok,
    ensures
        reconcile_spec(requests, reordered) == reconcile_spec(requests, settlements),
{
    history_follows_requests(requests, settlements);
    assert forall|i: int| 0 <= i < reordered.len() implies #[trigger] reordered[i]
        == settlements[from[i]] by {
        assert(reordered[to[from[i]]] == settlements[from[i]]);
    }
    assert forall|i: int| !is_orphan(requests, reordered, i) by {
        if 0 <= i < reordered.len() {
            assert(!is_orphan(requests, settlements, from[i]));
        }
    }
    assert forall|i: int| !is_repeat(reordered, i) by {
        if is_repeat(reordered, i) {
            let h = choose|h: int|
                0 <= h < i && (#[trigger] reordered[h]).id() == reordered[i].id();
            let a = from[h];
            let b = from[i];
            assert(to[a] == h && to[b] == i);
            assert(settlements[a].id() == settlements[b].id());
            if a < b {
                assert(is_repeat(settlements, b));
            } else {
                assert(is_repeat(settlements, a));
            }
        }
    }
    assert forall|k: int| 0 <= k < requests.len() implies request_outcome(
        #[trigger] requests[k],
        reordered,
    ) == request_outcome(requests[k], settlements) by {
        let id = requests[k].request_id;
        assert(!request_fails(requests, settlements, k));
        let at = settlement_index(settlements, id);
        assert(settled_by(settlements, id, at));
        assert(reordered[to[at]] == settlements[at]);
        assert(settled_by(reordered, id, to[at]));
        settlement_index_is_unique(reordered, id, to[at]);
    }
    assert forall|k: int| !request_fails(requests, reordered, k) by {
        if 0 <= k < requests.len() {
            assert(request_outcome(requests[k], reordered) == request_outcome(
                requests[k],
                settlements,
            ));
            assert(!request_fails(requests, settlements, k));
        }
    }
    assert(reconcile_spec(requests, reordered)->Ok_0 =~= reconcile_spec(
        requests,
        settlements,
    )->Ok_0) by {
        assert forall|k: int| 0 <= k < requests.len() implies reconcile_spec(
            requests,
            reordered,
        )->Ok_0[k] == reconcile_spec(requests, settlements)->Ok_0[k] by {
            assert(request_outcome(requests[k], reordered) == request_outcome(
                requests[k],
                settlements,
            ));
        }
    }
}

/// Reconciling the same events again gives the same outcome: two runs over
/// requests with the same content and over the same settlements agree on the
/// history, or on the fault.
pub proof fn reconciliation_is_repeatable(
    first_requests: Seq<RequestEvent>,
    second_requests: Seq<RequestEvent>,
    settlements: Seq<SettlementEvent>,
    first: Result<Vec<UserAction>, IntegrityError>,
    second: Result<Vec<UserAction>, IntegrityError>,
)
    requires
        request_views(first_requests) == request_views(second_requests),
        history_outcome(first) == reconcile_spec(request_views(first_requests), settlements),
        history_outcome(second) == reconcile_spec(request_views(second_requests), settlements),
    ensures
        history_outcome(first) == history_outcome(second),
{
}

} // verus!
