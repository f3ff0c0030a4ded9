//! Settlement core of a lending market's deposit pool.
//!
//! Depositors lock a stable asset and are minted a yield-bearing receipt
//! token at the pool's exchange rate; burning the receipt redeems the asset
//! at the rate of that moment. This crate holds the pricing rule and the two
//! state transitions as verified functions on plain values. Storage, balance
//! and supply queries, interest accrual and the execution of the commands
//! that a transition emits belong to the host.

pub mod address;
pub mod asset;
pub mod command;
pub mod deposit;
pub mod error;
pub mod number;
pub mod rate;
pub mod redeem;
pub mod state;
