//! A token ledger with a controller-only record of each participant's choice.
//!
//! `contract` holds the entry points (`instantiate`, `execute`, `query`) over a
//! `ContractState`; `choices` the record of choices; `ledger` the calls into
//! cw20-base and cosmwasm that the entry points rely on.
pub mod choices;
pub mod contract;
pub mod error;
pub mod ledger;
pub mod msg;
