//! Correlation and aggregation of protocol data: reconciled user histories,
//! governance rebalance queues, decaying voting-power curves and the shaping
//! of batched read results. Everything here works on plain values; fetching
//! them from a chain client or an HTTP endpoint is left to the caller.

pub mod asset;
pub mod batch;
pub mod chain;
pub mod decay;
pub mod history;
pub mod merge;
pub mod metadata;
pub mod primitives;
pub mod rebalance;
pub mod reconcile;
pub mod reconcile_laws;
pub mod snapshot;
pub mod stream;
pub mod user;
pub mod vault;
pub mod ve_fyde;
