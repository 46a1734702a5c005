//! Reconciliation of request events with the settlements that executed them.
//!
//! A user's request and the protocol's settlement of it are emitted apart and
//! share only a request identifier. `reconcile` joins the two streams into
//! one history, in the order of the requests, and reports every way in which
//! the two streams fail to pair up as an `IntegrityError`.

use crate::primitives::{Address, Amount, TxHash};
use vstd::prelude::*;

verus! {

/// Where a transaction sits on the chain, and who sent it.
#[derive(Clone, Copy, Debug, PartialEq, Eq)]
pub struct MetaFromBlock {
    pub tx_hash: TxHash,
    pub block_number: u32,
    pub timestamp: u64,
    pub from: Address,
}

/// The kinds of operation that a user can ask for and the vault can settle.
#[derive(Clone, Copy, Debug, PartialEq, Eq, Structural)]
pub enum ActionKind {
    Deposit,
    Withdraw,
    Swap,
}

/// What a user asked for, as the relayer logged it.
#[derive(Debug)]
pub struct RelayerRequest {
    pub request_id: u32,
    pub asset_in: Vec<Address>,
    pub asset_out: Vec<Address>,
    pub amount_in: Vec<Amount>,
    pub amount_out: Vec<Amount>,
    pub keep_gov_rights: bool,
}

/// One event of the relayer's log. A request is logged under the kind of
/// operation that it asks for; events that ask for nothing are `Other`.
#[derive(Debug)]
pub enum RelayerEvent {
    Deposit(RelayerRequest),
    Withdraw(RelayerRequest),
    Swap(RelayerRequest),
    Other,
}

/// A logged request together with the block data of its transaction.
#[derive(Debug)]
pub struct RequestEvent {
    pub kind: ActionKind,
    pub tx_hash: TxHash,
    pub block_number: u32,
    pub timestamp: u64,
    pub request_id: u32,
    pub requestor: Address,
    pub asset_in: Vec<Address>,
    pub asset_out: Vec<Address>,
    pub amount_in: Vec<Amount>,
    pub amount_out: Vec<Amount>,
    pub keep_gov_rights: bool,
}

/// The mathematical content of a `RequestEvent`.
pub struct RequestView {
    pub kind: ActionKind,
    pub tx_hash: TxHash,
    pub block_number: u32,
    pub timestamp: u64,
    pub request_id: u32,
    pub requestor: Address,
    pub asset_in: Seq<Address>,
    pub asset_out: Seq<Address>,
    pub amount_in: Seq<Amount>,
    pub amount_out: Seq<Amount>,
    pub keep_gov_rights: bool,
}

impl View for RequestEvent {
    type V = RequestView;

    open spec fn view(&self) -> RequestView {
        RequestView {
            kind: self.kind,
            tx_hash: self.tx_hash,
            block_number: self.block_number,
            timestamp: self.timestamp,
            request_id: self.request_id,
            requestor: self.requestor,
            asset_in: self.asset_in@,
            asset_out: self.asset_out@,
            amount_in: self.amount_in@,
            amount_out: self.amount_out@,
            keep_gov_rights: self.keep_gov_rights,
        }
    }
}

/// The vault executed a deposit request.
#[derive(Clone, Copy, Debug, PartialEq, Eq)]
pub struct DepositSettled {
    pub request_id: u32,
    pub trsy_price: Amount,
    pub usd_deposit_value: Amount,
    pub trsy_minted: Amount,
}

/// The vault executed a withdrawal request.
#[derive(Clone, Copy, Debug, PartialEq, Eq)]
pub struct WithdrawSettled {
    pub request_id: u32,
    pub trsy_price: Amount,
    pub usd_withdraw_value: Amount,
    pub trsy_burned: Amount,
}

/// The vault executed a swap request.
#[derive(Clone, Copy, Debug, PartialEq, Eq)]
pub struct SwapSettled {
    pub request_id: u32,
    pub amount_out: Amount,
}

/// One settlement of any kind.
#[derive(Clone, Copy, Debug, PartialEq, Eq)]
pub enum SettlementEvent {
    Deposit(DepositSettled),
    Withdraw(WithdrawSettled),
    Swap(SwapSettled),
}

/// A fault in the data handed to the reconciler. Each variant names the
/// request identifier at which the fault was found.
#[derive(Clone, Copy, Debug, PartialEq, Eq)]
pub enum IntegrityError {
    /// A settlement whose identifier no request carries.
    OrphanSettlement { request_id: u32 },
    /// A settlement whose identifier an earlier settlement already carries.
    DuplicateSettlement { request_id: u32 },
    /// A request that no settlement executed.
    MissingSettlement { request_id: u32 },
    /// A settlement of another kind than the request that it executed.
    KindMismatch { request_id: u32 },
    /// A swap whose request does not name exactly one input asset, one input
    /// amount and one output asset.
    ShapeMismatch { request_id: u32 },
    /// A request and a settlement with different identifiers were paired.
    RequestIdMismatch { request_id: u32, settlement_id: u32 },
}

/// A settled deposit.
#[derive(Debug)]
pub struct Deposit {
    pub tx_hash: TxHash,
    pub block_number: u32,
    pub timestamp: u64,
    pub request_id: u32,
    pub user: Address,
    pub asset_in: Vec<Address>,
    pub amount_in: Vec<Amount>,
    pub keep_gov_rights: bool,
    pub minted_at_trsy_price: Amount,
    pub usd_value_deposited: Amount,
    pub trsy_minted: Amount,
}

/// A settled withdrawal.
#[derive(Debug)]
pub struct Withdraw {
    pub tx_hash: TxHash,
    pub block_number: u32,
    pub timestamp: u64,
    pub request_id: u32,
    pub user: Address,
    pub asset_out: Vec<Address>,
    pub amount_out: Vec<Amount>,
    pub burned_at_trsy_price: Amount,
    pub usd_value_withdrawn: Amount,
    pub trsy_burned: Amount,
}

/// A settled swap of one asset for another.
#[derive(Clone, Copy, Debug, PartialEq, Eq)]
pub struct Swap {
    pub tx_hash: TxHash,
    pub block_number: u32,
    pub timestamp: u64,
    pub request_id: u32,
    pub user: Address,
    pub asset_in: Address,
    pub asset_out: Address,
    pub amount_in: Amount,
    pub amount_out: Amount,
}

/// One entry of the reconciled history.
#[allow(inconsistent_fields)]
#[derive(Debug)]
pub enum UserAction {
    Deposit {
        tx_hash: TxHash,
        block_number: u32,
        timestamp: u64,
        request_id: u32,
        user: Address,
        asset_in: Vec<Address>,
        amount_in: Vec<Amount>,
        keep_gov_rights: bool,
        minted_at_trsy_price: Amount,
        usd_value_deposited: Amount,
        trsy_minted: Amount,
    },
    Withdraw {
        tx_hash: TxHash,
        block_number: u32,
        timestamp: u64,
        request_id: u32,
        user: Address,
        asset_out: Vec<Address>,
        amount_out: Vec<Amount>,
        burned_at_trsy_price: Amount,
        usd_value_withdrawn: Amount,
        trsy_burned: Amount,
    },
    Swap {
        tx_hash: TxHash,
        block_number: u32,
        timestamp: u64,
        request_id: u32,
        user: Address,
        asset_in: Address,
        asset_out: Address,
        amount_in: Amount,
        amount_out: Amount,
    },
}

/// The mathematical content of a `UserAction`, and of a `Deposit`, a
/// `Withdraw` or a `Swap` taken as one.
#[allow(inconsistent_fields)]
pub enum ActionView {
    Deposit {
        tx_hash: TxHash,
        block_number: u32,
        timestamp: u64,
        request_id: u32,
        user: Address,
        asset_in: Seq<Address>,
        amount_in: Seq<Amount>,
        keep_gov_rights: bool,
        minted_at_trsy_price: Amount,
        usd_value_deposited: Amount,
        trsy_minted: Amount,
    },
    Withdraw {
        tx_hash: TxHash,
        block_number: u32,
        timestamp: u64,
        request_id: u32,
        user: Address,
        asset_out: Seq<Address>,
        amount_out: Seq<Amount>,
        burned_at_trsy_price: Amount,
        usd_value_withdrawn: Amount,
        trsy_burned: Amount,
    },
    Swap {
        tx_hash: TxHash,
        block_number: u32,
        timestamp: u64,
        request_id: u32,
        user: Address,
        asset_in: Address,
        asset_out: Address,
        amount_in: Amount,
        amount_out: Amount,
    },
}

impl ActionView {
    /// The request identifier that the action carries.
    pub open spec fn request_id(self) -> u32 {
        match self {
            ActionView::Deposit { request_id, .. } => request_id,
            ActionView::Withdraw { request_id, .. } => request_id,
            ActionView::Swap { request_id, .. } => request_id,
        }
    }

    /// The number of the block in which the action was asked for.
    pub open spec fn block_number(self) -> u32 {
        match self {
            ActionView::Deposit { block_number, .. } => block_number,
            ActionView::Withdraw { block_number, .. } => block_number,
            ActionView::Swap { block_number, .. } => block_number,
        }
    }

    /// The kind of the action.
    pub open spec fn kind(self) -> ActionKind {
        match self {
            ActionView::Deposit { .. } => ActionKind::Deposit,
            ActionView::Withdraw { .. } => ActionKind::Withdraw,
            ActionView::Swap { .. } => ActionKind::Swap,
        }
    }
}

impl View for Deposit {
    type V = ActionView;

    open spec fn view(&self) -> ActionView {
        ActionView::Deposit {
            tx_hash: self.tx_hash,
            block_number: self.block_number,
            timestamp: self.timestamp,
            request_id: self.request_id,
            user: self.user,
            asset_in: self.asset_in@,
            amount_in: self.amount_in@,
            keep_gov_rights: self.keep_gov_rights,
            minted_at_trsy_price: self.minted_at_trsy_price,
            usd_value_deposited: self.usd_value_deposited,
            trsy_minted: self.trsy_minted,
        }
    }
}

impl View for Withdraw {
    type V = ActionView;

    open spec fn view(&self) -> ActionView {
        ActionView::Withdraw {
            tx_hash: self.tx_hash,
            block_number: self.block_number,
            timestamp: self.timestamp,
            request_id: self.request_id,
            user: self.user,
            asset_out: self.asset_out@,
            amount_out: self.amount_out@,
            burned_at_trsy_price: self.burned_at_trsy_price,
            usd_value_withdrawn: self.usd_value_withdrawn,
            trsy_burned: self.trsy_burned,
        }
    }
}

impl View for Swap {
    type V = ActionView;

    open spec fn view(&self) -> ActionView {
        ActionView::Swap {
            tx_hash: self.tx_hash,
            block_number: self.block_number,
            timestamp: self.timestamp,
            request_id: self.request_id,
            user: self.user,
            asset_in: self.asset_in,
            asset_out: self.asset_out,
            amount_in: self.amount_in,
            amount_out: self.amount_out,
        }
    }
}

impl View for UserAction {
    type V = ActionView;

    open spec fn view(&self) -> ActionView {
        match *self {
            UserAction::Deposit {
                tx_hash,
                block_number,
                timestamp,
                request_id,
                user,
                asset_in,
                amount_in,
                keep_gov_rights,
                minted_at_trsy_price,
                usd_value_deposited,
                trsy_minted,
            } => ActionView::Deposit {
                tx_hash,
                block_number,
                timestamp,
                request_id,
                user,
                asset_in: asset_in@,
                amount_in: amount_in@,
                keep_gov_rights,
                minted_at_trsy_price,
                usd_value_deposited,
                trsy_minted,
            },
            UserAction::Withdraw {
                tx_hash,
                block_number,
                timestamp,
                request_id,
                user,
                asset_out,
                amount_out,
                burned_at_trsy_price,
                usd_value_withdrawn,
                trsy_burned,
            } => ActionView::Withdraw {
                tx_hash,
                block_number,
                timestamp,
                request_id,
                user,
                asset_out: asset_out@,
                amount_out: amount_out@,
                burned_at_trsy_price,
                usd_value_withdrawn,
                trsy_burned,
            },
            UserAction::Swap {
                tx_hash,
                block_number,
                timestamp,
                request_id,
                user,
                asset_in,
                asset_out,
                amount_in,
                amount_out,
            } => ActionView::Swap {
                tx_hash,
                block_number,
                timestamp,
                request_id,
                user,
                asset_in,
                asset_out,
                amount_in,
                amount_out,
            },
        }
    }
}

impl SettlementEvent {
    /// The kind of operation that was settled.
    pub open spec fn kind_spec(self) -> ActionKind {
        match self {
            SettlementEvent::Deposit(_) => ActionKind::Deposit,
            SettlementEvent::Withdraw(_) => ActionKind::Withdraw,
            SettlementEvent::Swap(_) => ActionKind::Swap,
        }
    }

    /// The kind of operation that was settled.
    pub fn kind(&self) -> (kind: ActionKind)
        ensures
            kind == self.kind_spec(),
    {
        match self {
            SettlementEvent::Deposit(_) => ActionKind::Deposit,
            SettlementEvent::Withdraw(_) => ActionKind::Withdraw,
            SettlementEvent::Swap(_) => ActionKind::Swap,
        }
    }

    /// The identifier of the request that this settlement executed.
    pub open spec fn id(self) -> u32 {
        match self {
            SettlementEvent::Deposit(s) => s.request_id,
            SettlementEvent::Withdraw(s) => s.request_id,
            SettlementEvent::Swap(s) => s.request_id,
        }
    }

    /// The identifier of the request that this settlement executed.
    pub fn request_id(&self) -> (id: u32)
        ensures
            id == self.id(),
    {
        match self {
            SettlementEvent::Deposit(s) => s.request_id,
            SettlementEvent::Withdraw(s) => s.request_id,
            SettlementEvent::Swap(s) => s.request_id,
        }
    }
}

} // verus!
