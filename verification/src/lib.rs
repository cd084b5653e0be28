//! A reward-accruing staking ledger.
//!
//! Participants deposit collectible assets into a custodial vault and earn
//! fungible reward tokens that accrue continuously, at a pool-wide default
//! rate or at a per-collection override rate. The library is the verified
//! core: the rate registry, the collection membership table, the per-
//! participant stake ledger, the accrual engine, and the stake / unstake /
//! claim state machine. Custody transfers, collection-membership proofs,
//! the clock, and account addressing are collaborators supplied by the
//! caller as plain values.

pub mod errors;
pub mod pool;
pub mod vault;
pub mod rates;
pub mod user;
pub mod accrual;
pub mod staking;
pub mod laws;
pub mod lookup;
