//! A task-bounty escrow ledger.
//!
//! A creator posts a task and escrows a bounty in a fungible token, workers
//! submit candidate solutions, and the creator approves one of them, which
//! releases the bounty to its submitter. The ledger keeps dense identifiers,
//! a one-way task lifecycle and per-user statistics; every operation either
//! commits completely or leaves the ledger untouched.
pub mod automint;
pub mod engine;
pub mod identity;
pub mod laws;
pub mod model;
pub mod port;
pub mod records;
pub mod stats;
pub mod store;
pub mod token;
pub mod uint256;
