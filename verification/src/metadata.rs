//! The block data of a transaction, put together from what the chain client
//! found.

use crate::history::MetaFromBlock;
use crate::primitives::{Address, TxHash};
use vstd::prelude::*;

verus! {

/// What the chain client knows of a transaction. `block_number` is `None`
/// while the transaction is in no block.
#[derive(Clone, Copy, Debug, PartialEq, Eq)]
pub struct TransactionInfo {
    pub block_number: Option<u64>,
    pub from: Address,
}

/// What the chain client knows of a block.
#[derive(Clone, Copy, Debug, PartialEq, Eq)]
pub struct BlockInfo {
    pub number: Option<u64>,
    pub timestamp: u64,
}

/// Why a transaction has no block data.
#[derive(Clone, Copy, Debug, PartialEq, Eq)]
pub enum MetadataError {
    /// The client does not have the transaction, or it is in no block.
    TransactionNotFound,
    /// The client does not have the transaction's block, or the block has no
    /// number yet.
    BlockNotFound,
    /// The block's number does not fit in 32 bits.
    BlockNumberTooLarge,
}

/// The number of the block to look up for a transaction.
pub fn block_to_fetch(transaction: &Option<TransactionInfo>) -> (number: Result<u64, MetadataError>)
    ensures
        number == match *transaction {
            Some(TransactionInfo { block_number: Some(n), .. }) => Ok::<u64, MetadataError>(n),
            _ => Err::<u64, MetadataError>(MetadataError::TransactionNotFound),
        },
{
    match transaction {
        Some(info) => match info.block_number {
            Some(n) => Ok(n),
            None => Err(MetadataError::TransactionNotFound),
        },
        None => Err(MetadataError::TransactionNotFound),
    }
}

/// The block data of a transaction, as a specification.
pub open spec fn resolved(
    tx_hash: TxHash,
    transaction: Option<TransactionInfo>,
    block: Option<BlockInfo>,
) -> Result<MetaFromBlock, MetadataError> {
    match transaction {
        None => Err(MetadataError::TransactionNotFound),
        Some(info) => if info.block_number.is_none() {
            Err(MetadataError::TransactionNotFound)
        } else {
            match block {
                Some(BlockInfo { number: Some(n), timestamp }) => if n <= u32::MAX {
                    Ok(
                        MetaFromBlock {
                            tx_hash,
                            block_number: n as u32,
                            timestamp,
                            from: info.from,
                        },
                    )
                } else {
                    Err(MetadataError::BlockNumberTooLarge)
                },
                _ => Err(MetadataError::BlockNotFound),
            }
        },
    }
}

/// Puts the block data of a transaction together: the block's number and
/// timestamp and the transaction's sender. A transaction or a block that the
/// client did not find is reported, as is a block number beyond 32 bits.
pub fn resolve(
    tx_hash: TxHash,
    transaction: &Option<TransactionInfo>,
    block: &Option<BlockInfo>,
) -> (meta: Result<MetaFromBlock, MetadataError>)
    ensures
        meta == resolved(tx_hash, *transaction, *block),
{
    let info = match transaction {
        Some(info) => info,
        None => {
            return Err(MetadataError::TransactionNotFound);
        },
    };
    if info.block_number.is_none() {
        return Err(MetadataError::TransactionNotFound);
    }
    match block {
        Some(found) => match found.number {
            Some(n) => {
                if n > 0xffff_ffff {
                    return Err(MetadataError::BlockNumberTooLarge);
                }
                Ok(
                    MetaFromBlock {
                        tx_hash,
                        block_number: n as u32,
                        timestamp: found.timestamp,
                        from: info.from,
                    },
                )
            },
            None => Err(MetadataError::BlockNotFound),
        },
        None => Err(MetadataError::BlockNotFound),
    }
}

} // verus!
