//! Accounting core of an overcollateralized, fixed loan-to-value credit line.
//!
//! Users deposit a collateral asset, borrow a second asset up to a fraction of
//! that collateral, repay, and withdraw. This crate holds the rules: what each
//! request does to a position, when it is refused, and which asset movement it
//! calls for. Storage, authorization, the asset ledgers and the clock belong to
//! the host; every function here takes what the host read and returns what the
//! host must do.

pub mod contract;
pub mod error;
pub mod laws;
pub mod limit;
pub mod position;
pub mod token;
