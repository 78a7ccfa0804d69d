//! A calling-convention bridge for an asset ledger.
//!
//! The crate accepts binary-encoded function calls in a fixed external ABI
//! (a four-byte selector followed by packed arguments, as EVM-style contracts
//! use), decodes and validates them, accounts for their cost, and forwards
//! each as an originated request to an asset ledger reached through the
//! [`ledger::AssetLedger`] interface. Failures of any stage come back as
//! structured revert values, never as panics.

pub mod abi;
pub mod bridge;
pub mod domain;
pub mod gas;
pub mod ledger;
pub mod revert;
pub mod selector;
