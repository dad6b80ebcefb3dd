//! Payment links and staking balances kept in a contract's ledger storage.
//!
//! Creators are registered, open payment links that expire at a ledger, and may
//! cancel them while they are unpaid. An administrator moves a user's liquid
//! balance into a stake and credits yield to it.
//!
//! * [`types`]: the values that requests carry and storage holds.
//! * [`ledger`]: the mathematical model of the storage that a contract sees.
//! * [`host`]: the only calls into `soroban_sdk`, each with the contract that is
//!   believed of it.
//! * [`store`]: storage addressed by [`types::DataKey`].
//! * [`requests`]: what each request answers and what it leaves in the ledger.
//! * [`contract`]: the contract's entry points.
//! * [`laws`]: what holds across requests.
//! * [`calls`]: what a call of an entry point means for the entries in storage.
pub mod calls;
pub mod contract;
pub mod host;
pub mod laws;
pub mod ledger;
pub mod requests;
pub mod store;
pub mod types;
