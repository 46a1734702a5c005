//! The queue of governance participants to rebalance, most under-funded first.

use crate::primitives::{signed_is_zero, signed_lt, Address, SignedAmount};
use vstd::prelude::*;

verus! {

/// How far a participant's holdings in the governance pool are from target.
#[derive(Clone, Copy, Debug, PartialEq, Eq)]
pub struct GovernanceImbalance {
    pub user_address: Address,
    pub signed_delta: SignedAmount,
}

/// The number of participants that have an imbalance: the length of the
/// shorter list.
pub open spec fn paired(gov_users: Seq<Address>, unbalance: Seq<SignedAmount>) -> int {
    if gov_users.len() <= unbalance.len() {
        gov_users.len() as int
    } else {
        unbalance.len() as int
    }
}

/// The signed values of the first `n` imbalances.
pub open spec fn delta_values(unbalance: Seq<SignedAmount>, n: int) -> Seq<int> {
    Seq::new(n as nat, |i: int| unbalance[i].value())
}

/// Participant `i` is served before participant `j`: its imbalance is the
/// lower one, or the two are equal and `i` stands first in the list.
pub open spec fn precedes(deltas: Seq<int>, i: int, j: int) -> bool {
    deltas[i] < deltas[j] || (deltas[i] == deltas[j] && i < j)
}

/// Participant `i` has a place in `order`.
pub open spec fn listed(order: Seq<usize>, i: int) -> bool {
    exists|a: int| 0 <= a < order.len() && #[trigger] order[a] == i
}

/// `order` ranks the first `m` participants: it lists exactly those among
/// them whose imbalance is not zero, each before all that it precedes.
pub open spec fn ranks(deltas: Seq<int>, m: int, order: Seq<usize>) -> bool {
    &&& forall|a: int|
        0 <= a < order.len() ==> 0 <= #[trigger] order[a] < m && deltas[order[a] as int] != 0
    &&& forall|i: int| 0 <= i < m && deltas[i] != 0 ==> #[trigger] listed(order, i)
    &&& forall|a: int, b: int|
        0 <= a < b < order.len() ==> precedes(
            deltas,
            #[trigger] order[a] as int,
            #[trigger] order[b] as int,
        )
}

/// The rebalance order of all participants.
pub open spec fn is_rebalance_order(deltas: Seq<int>, order: Seq<usize>) -> bool {
    ranks(deltas, deltas.len() as int, order)
}

/// The addresses of the participants that `order` lists, in its order.
pub open spec fn addresses_in_order(users: Seq<Address>, order: Seq<usize>) -> Seq<Address> {
    Seq::new(order.len(), |a: int| users[order[a] as int])
}

/// Two rebalance orders of the same imbalances agree on their first `n`
/// places.
proof fn orders_agree_upto(deltas: Seq<int>, first: Seq<usize>, second: Seq<usize>, n: int)
    requires
        is_rebalance_order(deltas, first),
        is_rebalance_order(deltas, second),
        0 <= n <= first.len(),
        n <= second.len(),
    ensures
        forall|a: int| 0 <= a < n ==> first[a] == second[a],
    decreases n,
{
    if n > 0 {
        orders_agree_upto(deltas, first, second, n - 1);
        let a = n - 1;
        let x = first[a];
        let y = second[a];
        assert(listed(second, x as int));
        assert(listed(first, y as int));
        let b = choose|b: int| 0 <= b < second.len() && #[trigger] second[b] == x;
        let c = choose|c: int| 0 <= c < first.len() && #[trigger] first[c] == y;
        if b < a {
            assert(first[b] == second[b]);
            assert(precedes(deltas, first[b] as int, first[a] as int));
        }
        if c < a {
            assert(first[c] == second[c]);
            assert(precedes(deltas, second[c] as int, second[a] as int));
        }
        if b > a && c > a {
            assert(precedes(deltas, second[a] as int, second[b] as int));
            assert(precedes(deltas, first[a] as int, first[c] as int));
        }
    }
}

/// A longer order cannot rank the same imbalances as a shorter one.
proof fn orders_have_equal_length(deltas: Seq<int>, first: Seq<usize>, second: Seq<usize>)
    requires
        is_rebalance_order(deltas, first),
        is_rebalance_order(deltas, second),
        first.len() <= second.len(),
    ensures
        first.len() == second.len(),
{
    if first.len() < second.len() {
        orders_agree_upto(deltas, first, second, first.len() as int);
        let y = second[first.len() as int];
        assert(listed(first, y as int));
        let c = choose|c: int| 0 <= c < first.len() && #[trigger] first[c] == y;
        assert(second[c] == first[c]);
        assert(precedes(deltas, second[c] as int, second[first.len() as int] as int));
    }
}

/// The imbalances determine their rebalance order: there is only one.
pub proof fn rebalance_order_is_unique(deltas: Seq<int>, first: Seq<usize>, second: Seq<usize>)
    requires
        is_rebalance_order(deltas, first),
        is_rebalance_order(deltas, second),
    ensures
        first == second,
{
    if first.len() <= second.len() {
        orders_have_equal_length(deltas, first, second);
    } else {
        orders_have_equal_length(deltas, second, first);
    }
    orders_agree_upto(deltas, first, second, first.len() as int);
    assert(first =~= second);
}

/// The participants to rebalance, in the order in which to serve them.
///
/// `unbalance[i]` is the imbalance of `gov_users[i]`; where the two lists
/// differ in length, the longer one's tail is left out. Participants whose
/// imbalance is zero are dropped. The others are listed by ascending
/// imbalance, the most negative first, and those with equal imbalance in the
/// order of `gov_users`.
pub fn proxies_to_rebalance(gov_users: &Vec<Address>, unbalance: &Vec<SignedAmount>) -> (queue:
    Vec<Address>)
    ensures
        exists|order: Seq<usize>|
            {
                &&& #[trigger] is_rebalance_order(
                    delta_values(unbalance@, paired(gov_users@, unbalance@)),
                    order,
                )
                &&& queue@ == addresses_in_order(gov_users@, order)
            },
{
    let n: usize = if gov_users.len() <= unbalance.len() {
        gov_users.len()
    } else {
        unbalance.len()
    };
    let ghost deltas = delta_values(unbalance@, n as int);
    let mut order: Vec<usize> = Vec::new();
    let mut i: usize = 0;
    while i < n
        invariant
            i <= n,
            n <= gov_users.len(),
            n <= unbalance.len(),
            n == paired(gov_users@, unbalance@),
            deltas == delta_values(unbalance@, n as int),
            ranks(deltas, i as int, order@),
        decreases n - i,
    {
        if !signed_is_zero(&unbalance[i]) {
            let ghost before = order@;
            let mut p: usize = order.len();
            while p > 0 && signed_lt(&unbalance[i], &unbalance[order[p - 1]])
                invariant
                    p <= order.len(),
                    i < n,
                    n <= unbalance.len(),
                    deltas == delta_values(unbalance@, n as int),
                    ranks(deltas, i as int, order@),
                    forall|b: int| p <= b < order.len() ==> deltas[i as int] < deltas[order@[b] as int],
                decreases p,
            {
                p -= 1;
            }
            order.insert(p, i);
            proof {
                let after = order@;
                assert(after == before.insert(p as int, i));
                assert forall|j: int| 0 <= j < i + 1 && deltas[j] != 0 implies #[trigger] listed(
                    after,
                    j,
                ) by {
                    if j == i {
                        assert(after[p as int] == i);
                    } else {
                        assert(listed(before, j));
                        let a = choose|a: int| 0 <= a < before.len() && #[trigger] before[a] == j;
                        if a < p {
                            assert(after[a] == j);
                        } else {
                            assert(after[a + 1] == j);
                        }
                    }
                }
                assert forall|a: int, b: int| 0 <= a < b < after.len() implies precedes(
                    deltas,
                    #[trigger] after[a] as int,
                    #[trigger] after[b] as int,
                ) by {
                    if b < p {
                        assert(after[a] == before[a] && after[b] == before[b]);
                    } else if b == p {
                        assert(after[a] == before[a]);
                        if a < p - 1 {
                            assert(precedes(deltas, before[a] as int, before[p - 1] as int));
                        }
                        assert(before[p - 1] < i);
                    } else if a < p {
                        assert(after[a] == before[a] && after[b] == before[b - 1]);
                    } else if a == p {
                        assert(after[b] == before[b - 1]);
                    } else {
                        assert(after[a] == before[a - 1] && after[b] == before[b - 1]);
                    }
                }
                assert forall|a: int| 0 <= a < after.len() implies 0 <= #[trigger] after[a] < i + 1
                    && deltas[after[a] as int] != 0 by {
                    if a < p {
                        assert(after[a] == before[a]);
                    } else if a > p {
                        assert(after[a] == before[a - 1]);
                    }
                }
            }
        } else {
            proof {
                assert forall|j: int| 0 <= j < i + 1 && deltas[j] != 0 implies #[trigger] listed(
                    order@,
                    j,
                ) by {
                    assert(j < i);
                }
            }
        }
        i += 1;
    }
    let mut queue: Vec<Address> = Vec::new();
    let mut a: usize = 0;
    while a < order.len()
        invariant
            a <= order.len(),
            n <= gov_users.len(),
            n == paired(gov_users@, unbalance@),
            deltas == delta_values(unbalance@, n as int),
            ranks(deltas, n as int, order@),
            queue@ == addresses_in_order(gov_users@, order@.take(a as int)),
        decreases order.len() - a,
    {
        queue.push(gov_users[order[a]]);
        assert(queue@ =~= addresses_in_order(gov_users@, order@.take(a + 1)));
        a += 1;
    }
    assert(order@.take(order.len() as int) == order@);
    assert(is_rebalance_order(deltas, order@));
    queue
}

} // verus!
