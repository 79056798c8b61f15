//! The relay core of a bridge between an EVM chain and a validator-set chain:
//! claim translation, checkpoint hashing, signature assembly and the protocol
//! that submits a batch exactly once.

pub mod abi;
pub mod address;
pub mod error;
pub mod messages;
pub mod submit_batch;
pub mod uint256;
pub mod utils;
pub mod valset;
