//! Token streams from wallet to wallet: a payer locks funds for a recipient,
//! who withdraws the part that elapsed time has unlocked.
//!
//! Time is measured in whole seconds.
pub mod account;
pub mod errors;
pub mod stream;
pub mod utils;
pub mod streams_contract;
