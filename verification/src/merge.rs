//! The merge of one request with the settlement that executed it.

use crate::history::{
    ActionKind, ActionView, Deposit, DepositSettled, IntegrityError, MetaFromBlock, RelayerEvent,
    RelayerRequest, RequestEvent, RequestView, SettlementEvent, Swap, SwapSettled, UserAction,
    Withdraw, WithdrawSettled,
};
use crate::primitives::copy_vec;
use vstd::prelude::*;

verus! {

/// A swap names exactly one input asset, one input amount and one output asset.
pub open spec fn swap_shaped(request: RequestView) -> bool {
    request.asset_in.len() == 1 && request.amount_in.len() == 1 && request.asset_out.len() == 1
}

/// What a request and the settlement that executed it merge into: the
/// request's block data and assets with the settlement's computed amounts.
/// The two must carry the same identifier and be of the same kind, and a
/// swap must be shaped as one.
pub open spec fn merge_spec(request: RequestView, settlement: SettlementEvent) -> Result<
    ActionView,
    IntegrityError,
> {
    if request.request_id != settlement.id() {
        Err(
            IntegrityError::RequestIdMismatch {
                request_id: request.request_id,
                settlement_id: settlement.id(),
            },
        )
    } else if request.kind != settlement.kind_spec() {
        Err(IntegrityError::KindMismatch { request_id: request.request_id })
    } else {
        match settlement {
            SettlementEvent::Deposit(s) => Ok(
                ActionView::Deposit {
                    tx_hash: request.tx_hash,
                    block_number: request.block_number,
                    timestamp: request.timestamp,
                    request_id: request.request_id,
                    user: request.requestor,
                    asset_in: request.asset_in,
                    amount_in: request.amount_in,
                    keep_gov_rights: request.keep_gov_rights,
                    minted_at_trsy_price: s.trsy_price,
                    usd_value_deposited: s.usd_deposit_value,
                    trsy_minted: s.trsy_minted,
                },
            ),
            SettlementEvent::Withdraw(s) => Ok(
                ActionView::Withdraw {
                    tx_hash: request.tx_hash,
                    block_number: request.block_number,
                    timestamp: request.timestamp,
                    request_id: request.request_id,
                    user: request.requestor,
                    asset_out: request.asset_out,
                    amount_out: request.amount_out,
                    burned_at_trsy_price: s.trsy_price,
                    usd_value_withdrawn: s.usd_withdraw_value,
                    trsy_burned: s.trsy_burned,
                },
            ),
            SettlementEvent::Swap(s) => if swap_shaped(request) {
                Ok(
                    ActionView::Swap {
                        tx_hash: request.tx_hash,
                        block_number: request.block_number,
                        timestamp: request.timestamp,
                        request_id: request.request_id,
                        user: request.requestor,
                        asset_in: request.asset_in[0],
                        asset_out: request.asset_out[0],
                        amount_in: request.amount_in[0],
                        amount_out: s.amount_out,
                    },
                )
            } else {
                Err(IntegrityError::ShapeMismatch { request_id: request.request_id })
            },
        }
    }
}

/// The view of a merge's outcome.
pub open spec fn action_outcome(r: Result<UserAction, IntegrityError>) -> Result<
    ActionView,
    IntegrityError,
> {
    match r {
        Ok(a) => Ok(a@),
        Err(e) => Err(e),
    }
}

impl RelayerEvent {
    /// The request that the event logs, with its kind, if it logs one.
    pub fn into_request(self) -> (request: Option<(ActionKind, RelayerRequest)>)
        ensures
            request == match self {
                RelayerEvent::Deposit(r) => Some((ActionKind::Deposit, r)),
                RelayerEvent::Withdraw(r) => Some((ActionKind::Withdraw, r)),
                RelayerEvent::Swap(r) => Some((ActionKind::Swap, r)),
                RelayerEvent::Other => None,
            },
    {
        match self {
            RelayerEvent::Deposit(r) => Some((ActionKind::Deposit, r)),
            RelayerEvent::Withdraw(r) => Some((ActionKind::Withdraw, r)),
            RelayerEvent::Swap(r) => Some((ActionKind::Swap, r)),
            RelayerEvent::Other => None,
        }
    }
}

impl RequestEvent {
    /// A request logged under `kind`, enriched with the block data of its
    /// transaction; the sender of the transaction is the requestor.
    pub fn from_log(kind: ActionKind, event: RelayerRequest, meta: MetaFromBlock) -> (r:
        RequestEvent)
        ensures
            r@ == (RequestView {
                kind,
                tx_hash: meta.tx_hash,
                block_number: meta.block_number,
                timestamp: meta.timestamp,
                request_id: event.request_id,
                requestor: meta.from,
                asset_in: event.asset_in@,
                asset_out: event.asset_out@,
                amount_in: event.amount_in@,
                amount_out: event.amount_out@,
                keep_gov_rights: event.keep_gov_rights,
            }),
    {
        RequestEvent {
            kind,
            tx_hash: meta.tx_hash,
            block_number: meta.block_number,
            timestamp: meta.timestamp,
            request_id: event.request_id,
            requestor: meta.from,
            asset_in: event.asset_in,
            asset_out: event.asset_out,
            amount_in: event.amount_in,
            amount_out: event.amount_out,
            keep_gov_rights: event.keep_gov_rights,
        }
    }
}

impl Deposit {
    /// The deposit that `request` and `settled` describe together;
    /// `RequestIdMismatch` where they carry different identifiers, and
    /// `KindMismatch` where the request asks for another kind of operation.
    pub fn from_events(request: &RequestEvent, settled: &DepositSettled) -> (r: Result<
        Deposit,
        IntegrityError,
    >)
        ensures
            match r {
                Ok(d) => Ok(d@),
                Err(e) => Err(e),
            } == merge_spec(request@, SettlementEvent::Deposit(*settled)),
    {
        if request.request_id != settled.request_id {
            return Err(
                IntegrityError::RequestIdMismatch {
                    request_id: request.request_id,
                    settlement_id: settled.request_id,
                },
            );
        }
        match request.kind {
            ActionKind::Deposit => {},
            _ => {
                return Err(IntegrityError::KindMismatch { request_id: request.request_id });
            },
        }
        Ok(
            Deposit {
                tx_hash: request.tx_hash,
                block_number: request.block_number,
                timestamp: request.timestamp,
                request_id: request.request_id,
                user: request.requestor,
                asset_in: copy_vec(&request.asset_in),
                amount_in: copy_vec(&request.amount_in),
                keep_gov_rights: request.keep_gov_rights,
                minted_at_trsy_price: settled.trsy_price,
                usd_value_deposited: settled.usd_deposit_value,
                trsy_minted: settled.trsy_minted,
            },
        )
    }
}

impl Withdraw {
    /// The withdrawal that `request` and `settled` describe together;
    /// `RequestIdMismatch` where they carry different identifiers, and
    /// `KindMismatch` where the request asks for another kind of operation.
    pub fn from_events(request: &RequestEvent, settled: &WithdrawSettled) -> (r: Result<
        Withdraw,
        IntegrityError,
    >)
        ensures
            match r {
                Ok(w) => Ok(w@),
                Err(e) => Err(e),
            } == merge_spec(request@, SettlementEvent::Withdraw(*settled)),
    {
        if request.request_id != settled.request_id {
            return Err(
                IntegrityError::RequestIdMismatch {
                    request_id: request.request_id,
                    settlement_id: settled.request_id,
                },
            );
        }
        match request.kind {
            ActionKind::Withdraw => {},
            _ => {
                return Err(IntegrityError::KindMismatch { request_id: request.request_id });
            },
        }
        Ok(
            Withdraw {
                tx_hash: request.tx_hash,
                block_number: request.block_number,
                timestamp: request.timestamp,
                request_id: request.request_id,
                user: request.requestor,
                asset_out: copy_vec(&request.asset_out),
                amount_out: copy_vec(&request.amount_out),
                burned_at_trsy_price: settled.trsy_price,
                usd_value_withdrawn: settled.usd_withdraw_value,
                trsy_burned: settled.trsy_burned,
            },
        )
    }
}

impl Swap {
    /// The swap that `request` and `settled` describe together;
    /// `RequestIdMismatch` where they carry different identifiers,
    /// `KindMismatch` where the request asks for another kind of operation,
    /// and `ShapeMismatch` where it does not name exactly one input asset, one
    /// input amount and one output asset.
    pub fn from_events(request: &RequestEvent, settled: &SwapSettled) -> (r: Result<
        Swap,
        IntegrityError,
    >)
        ensures
            match r {
                Ok(s) => Ok(s@),
                Err(e) => Err(e),
            } == merge_spec(request@, SettlementEvent::Swap(*settled)),
    {
        if request.request_id != settled.request_id {
            return Err(
                IntegrityError::RequestIdMismatch {
                    request_id: request.request_id,
                    settlement_id: settled.request_id,
                },
            );
        }
        match request.kind {
            ActionKind::Swap => {},
            _ => {
                return Err(IntegrityError::KindMismatch { request_id: request.request_id });
            },
        }
        if request.asset_in.len() != 1 || request.amount_in.len() != 1 || request.asset_out.len()
            != 1 {
            return Err(IntegrityError::ShapeMismatch { request_id: request.request_id });
        }
        Ok(
            Swap {
                tx_hash: request.tx_hash,
                block_number: request.block_number,
                timestamp: request.timestamp,
                request_id: request.request_id,
                user: request.requestor,
                asset_in: request.asset_in[0],
                asset_out: request.asset_out[0],
                amount_in: request.amount_in[0],
                amount_out: settled.amount_out,
            },
        )
    }
}

impl UserAction {
    /// The history entry of a deposit.
    pub fn from_deposit(d: Deposit) -> (a: UserAction)
        ensures
            a@ == d@,
    {
        UserAction::Deposit {
            tx_hash: d.tx_hash,
            block_number: d.block_number,
            timestamp: d.timestamp,
            request_id: d.request_id,
            user: d.user,
            asset_in: d.asset_in,
            amount_in: d.amount_in,
            keep_gov_rights: d.keep_gov_rights,
            minted_at_trsy_price: d.minted_at_trsy_price,
            usd_value_deposited: d.usd_value_deposited,
            trsy_minted: d.trsy_minted,
        }
    }

    /// The history entry of a withdrawal.
    pub fn from_withdraw(w: Withdraw) -> (a: UserAction)
        ensures
            a@ == w@,
    {
        UserAction::Withdraw {
            tx_hash: w.tx_hash,
            block_number: w.block_number,
            timestamp: w.timestamp,
            request_id: w.request_id,
            user: w.user,
            asset_out: w.asset_out,
            amount_out: w.amount_out,
            burned_at_trsy_price: w.burned_at_trsy_price,
            usd_value_withdrawn: w.usd_value_withdrawn,
            trsy_burned: w.trsy_burned,
        }
    }

    /// The history entry of a swap.
    pub fn from_swap(s: Swap) -> (a: UserAction)
        ensures
            a@ == s@,
    {
        UserAction::Swap {
            tx_hash: s.tx_hash,
            block_number: s.block_number,
            timestamp: s.timestamp,
            request_id: s.request_id,
            user: s.user,
            asset_in: s.asset_in,
            asset_out: s.asset_out,
            amount_in: s.amount_in,
            amount_out: s.amount_out,
        }
    }

    /// Merges a request with the settlement that executed it. Fails with
    /// `RequestIdMismatch` where the two carry different identifiers, with
    /// `KindMismatch` where they are of different kinds, and with
    /// `ShapeMismatch` where a swap is not shaped as one.
    pub fn merge(request: &RequestEvent, settlement: &SettlementEvent) -> (r: Result<
        UserAction,
        IntegrityError,
    >)
        ensures
            action_outcome(r) == merge_spec(request@, *settlement),
    {
        match settlement {
            SettlementEvent::Deposit(s) => match Deposit::from_events(request, s) {
                Ok(d) => Ok(UserAction::from_deposit(d)),
                Err(e) => Err(e),
            },
            SettlementEvent::Withdraw(s) => match Withdraw::from_events(request, s) {
                Ok(w) => Ok(UserAction::from_withdraw(w)),
                Err(e) => Err(e),
            },
            SettlementEvent::Swap(s) => match Swap::from_events(request, s) {
                Ok(w) => Ok(UserAction::from_swap(w)),
                Err(e) => Err(e),
            },
        }
    }
}

} // verus!
