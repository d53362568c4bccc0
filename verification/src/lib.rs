//! Commit-certification layer of a BFT consensus engine.
//!
//! Validators sign finalized ledger states ([`commit_vote::CommitVote`]),
//! signed votes are aggregated into quorum certificates once a
//! stake-weighted supermajority is reached
//! ([`aggregator::QuorumAggregator`]), and certified blocks, certificates
//! and ledger infos are persisted in an epoch-and-round-indexed store
//! ([`store::LedgerStore`]) that read-only query interfaces consult.

pub mod aggregator;
pub mod codec;
pub mod command;
pub mod commit_vote;
pub mod config;
pub mod crypto;
pub mod hexutil;
pub mod signer;
pub mod status;
pub mod store;
pub mod types;
pub mod validator_verifier;
