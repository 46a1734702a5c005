//! What the vault's event log says: the settlements it holds, and the share
//! tokens minted as fees or burned by swaps.

use crate::history::{DepositSettled, SettlementEvent, SwapSettled, WithdrawSettled};
use crate::primitives::{
    amount_checked_add, amount_checked_div, amount_checked_sub, amount_limit, Address, Amount,
};
use vstd::prelude::*;

verus! {

/// A transfer of share tokens. A transfer from the zero address is a mint,
/// one to the zero address a burn.
#[derive(Clone, Copy, Debug, PartialEq, Eq)]
pub struct Transfer {
    pub from: Address,
    pub to: Address,
    pub amount: Amount,
}

/// One event of the vault's log. Kinds that nothing here reads are `Other`.
#[derive(Clone, Copy, Debug, PartialEq, Eq)]
pub enum VaultEvent {
    Deposit(DepositSettled),
    Withdraw(WithdrawSettled),
    Swap(SwapSettled),
    Transfer(Transfer),
    ManagementFeeCollected { fee_to_mint: Amount },
    Other,
}

/// The quantities that can be added up over the log of the vault at address
/// `vault`.
#[derive(Clone, Copy, Debug, PartialEq, Eq)]
pub enum Tally {
    /// Share tokens minted to the vault itself: all fees.
    TotalFees { vault: Address },
    /// Share tokens minted as management fee.
    ManagementFees,
    /// Share tokens of the vault that were burned.
    BurnedBySwap { vault: Address },
}

impl VaultEvent {
    /// The settlement that the event reports, if it reports one.
    pub open spec fn settlement(self) -> Option<SettlementEvent> {
        match self {
            VaultEvent::Deposit(s) => Some(SettlementEvent::Deposit(s)),
            VaultEvent::Withdraw(s) => Some(SettlementEvent::Withdraw(s)),
            VaultEvent::Swap(s) => Some(SettlementEvent::Swap(s)),
            _ => None,
        }
    }

    /// What the event adds to a tally.
    pub open spec fn counts(self, tally: Tally) -> int {
        match (tally, self) {
            (Tally::TotalFees { vault }, VaultEvent::Transfer(t)) => if t.from.is_zero_spec()
                && t.to == vault {
                t.amount.value()
            } else {
                0
            },
            (Tally::BurnedBySwap { vault }, VaultEvent::Transfer(t)) => if t.to.is_zero_spec()
                && t.from == vault {
                t.amount.value()
            } else {
                0
            },
            (Tally::ManagementFees, VaultEvent::ManagementFeeCollected { fee_to_mint }) =>
                fee_to_mint.value(),
            _ => 0,
        }
    }
}

/// The settlements among `events`, in the order of the log.
pub open spec fn settlements_in(events: Seq<VaultEvent>) -> Seq<SettlementEvent>
    decreases events.len(),
{
    if events.len() == 0 {
        Seq::empty()
    } else {
        match events.last().settlement() {
            Some(s) => settlements_in(events.drop_last()).push(s),
            None => settlements_in(events.drop_last()),
        }
    }
}

/// The sum of what each of `events` adds to a tally.
pub open spec fn tally_of(events: Seq<VaultEvent>, tally: Tally) -> int
    decreases events.len(),
{
    if events.len() == 0 {
        0
    } else {
        tally_of(events.drop_last(), tally) + events.last().counts(tally)
    }
}

/// A tally never shrinks as the log grows.
pub proof fn tally_grows(events: Seq<VaultEvent>, tally: Tally, n: int)
    requires
        0 <= n <= events.len(),
    ensures
        0 <= tally_of(events.take(n), tally) <= tally_of(events, tally),
    decreases events.len() - n,
{
    if n < events.len() {
        tally_grows(events, tally, n + 1);
        let longer = events.take(n + 1);
        assert(longer.drop_last() == events.take(n));
        nonnegative_tally(events.take(n), tally);
        match longer.last() {
            VaultEvent::Transfer(t) => {
                t.amount.value_in_range();
            },
            VaultEvent::ManagementFeeCollected { fee_to_mint } => {
                fee_to_mint.value_in_range();
            },
            _ => {},
        }
    } else {
        assert(events.take(n) == events);
        nonnegative_tally(events, tally);
    }
}

/// A tally is never negative.
proof fn nonnegative_tally(events: Seq<VaultEvent>, tally: Tally)
    ensures
        0 <= tally_of(events, tally),
    decreases events.len(),
{
    if events.len() > 0 {
        nonnegative_tally(events.drop_last(), tally);
        match events.last() {
            VaultEvent::Transfer(t) => {
                t.amount.value_in_range();
            },
            VaultEvent::ManagementFeeCollected { fee_to_mint } => {
                fee_to_mint.value_in_range();
            },
            _ => {},
        }
    }
}

/// The settlements that the vault logged, in the order of the log.
pub fn settlements_of(events: &Vec<VaultEvent>) -> (settlements: Vec<SettlementEvent>)
    ensures
        settlements@ == settlements_in(events@),
{
    let mut settlements: Vec<SettlementEvent> = Vec::new();
    let mut i: usize = 0;
    while i < events.len()
        invariant
            i <= events.len(),
            settlements@ == settlements_in(events@.take(i as int)),
        decreases events.len() - i,
    {
        assert(events@.take(i + 1).drop_last() == events@.take(i as int));
        match events[i] {
            VaultEvent::Deposit(s) => settlements.push(SettlementEvent::Deposit(s)),
            VaultEvent::Withdraw(s) => settlements.push(SettlementEvent::Withdraw(s)),
            VaultEvent::Swap(s) => settlements.push(SettlementEvent::Swap(s)),
            _ => {},
        }
        i += 1;
    }
    assert(events@.take(events.len() as int) == events@);
    settlements
}

/// Adds up a tally over the vault's log. `None` where the sum passes
/// 2^256 - 1, the largest amount there is.
pub fn tally_events(events: &Vec<VaultEvent>, tally: Tally) -> (total: Option<Amount>)
    ensures
        match total {
            Some(sum) => sum.value() == tally_of(events@, tally),
            None => tally_of(events@, tally) >= amount_limit(),
        },
{
    let mut sum = Amount::zero();
    let mut i: usize = 0;
    while i < events.len()
        invariant
            i <= events.len(),
            sum.value() == tally_of(events@.take(i as int), tally),
        decreases events.len() - i,
    {
        assert(events@.take(i + 1).drop_last() == events@.take(i as int));
        let counted: Option<Amount> = match (tally, events[i]) {
            (Tally::TotalFees { vault }, VaultEvent::Transfer(t)) => if t.from.is_zero()
                && t.to.same(&vault) {
                Some(t.amount)
            } else {
                None
            },
            (Tally::BurnedBySwap { vault }, VaultEvent::Transfer(t)) => if t.to.is_zero()
                && t.from.same(&vault) {
                Some(t.amount)
            } else {
                None
            },
            (Tally::ManagementFees, VaultEvent::ManagementFeeCollected { fee_to_mint }) => Some(
                fee_to_mint,
            ),
            _ => None,
        };
        match counted {
            Some(amount) => {
                match amount_checked_add(&sum, &amount) {
                    Some(next) => {
                        sum = next;
                    },
                    None => {
                        proof {
                            tally_grows(events@, tally, i + 1);
                        }
                        return None;
                    },
                }
            },
            None => {},
        }
        i += 1;
    }
    assert(events@.take(events.len() as int) == events@);
    Some(sum)
}

/// All fees: the share tokens minted to the vault itself.
pub fn total_fees(events: &Vec<VaultEvent>, vault: &Address) -> (total: Option<Amount>)
    ensures
        match total {
            Some(sum) => sum.value() == tally_of(events@, Tally::TotalFees { vault: *vault }),
            None => tally_of(events@, Tally::TotalFees { vault: *vault }) >= amount_limit(),
        },
{
    tally_events(events, Tally::TotalFees { vault: *vault })
}

/// The share tokens minted as management fee.
pub fn management_fees(events: &Vec<VaultEvent>) -> (total: Option<Amount>)
    ensures
        match total {
            Some(sum) => sum.value() == tally_of(events@, Tally::ManagementFees),
            None => tally_of(events@, Tally::ManagementFees) >= amount_limit(),
        },
{
    tally_events(events, Tally::ManagementFees)
}

/// The share tokens of the vault that swaps burned.
pub fn burned_trsy_by_swap(events: &Vec<VaultEvent>, vault: &Address) -> (total: Option<Amount>)
    ensures
        match total {
            Some(sum) => sum.value() == tally_of(events@, Tally::BurnedBySwap { vault: *vault }),
            None => tally_of(events@, Tally::BurnedBySwap { vault: *vault }) >= amount_limit(),
        },
{
    tally_events(events, Tally::BurnedBySwap { vault: *vault })
}

/// The fees that are not management fees: `total_fees - management_fees`,
/// and `None` where the management fees are the larger.
pub fn tax_fees(total_fees: &Amount, management_fees: &Amount) -> (fees: Option<Amount>)
    ensures
        match fees {
            Some(f) => f.value() == total_fees.value() - management_fees.value(),
            None => total_fees.value() < management_fees.value(),
        },
{
    amount_checked_sub(total_fees, management_fees)
}

/// The value of one share token: the protocol's assets under management over
/// the supply of share tokens, rounded down; `None` where there is no supply.
pub fn trsy_value(tvl: &Amount, trsy_supply: &Amount) -> (value: Option<Amount>)
    ensures
        match value {
            Some(v) => trsy_supply.value() != 0 && v.value() == tvl.value() / trsy_supply.value(),
            None => trsy_supply.value() == 0,
        },
{
    amount_checked_div(tvl, trsy_supply)
}

} // verus!
