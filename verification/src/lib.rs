//! Core engine of a cryptocurrency wallet: recovery of signing keys from a
//! mnemonic phrase, discovery of funds in a genesis block, conversion of
//! legacy funds into the account model with dust tracking, account-state
//! bookkeeping, and construction of signed conversion and vote-cast
//! transactions.

pub mod account;
pub mod block0;
pub mod convert;
pub mod crypto;
pub mod errors;
pub mod keys;
pub mod laws;
pub mod mnemonic;
pub mod vote;
pub mod wallet;
