//! A fungible token ledger and an employee registry that pays through it.
//!
//! Both are records keyed by holder identity, with the rules for changing
//! them stated over mathematical models and proved of the executable code.

pub mod address;
pub mod contract_states;
pub mod errors;
pub mod system;
pub mod system_model;
pub mod table;
pub mod payme_token;
pub mod token_model;
