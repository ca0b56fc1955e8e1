//! An escrow lifecycle (make, take, refund with a scheduled refund task) and a
//! randomness request/consume pair, as verified state transitions over plain
//! account values. Loading accounts and issuing cross-program calls is left to
//! the host program that drives these transitions.
pub mod keys;
pub mod address;
pub mod error;
pub mod randomness;
pub mod token;
pub mod escrow;
