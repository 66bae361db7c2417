//! A verified model of an on-chain share-weighted governance contract.
//!
//! Holders of a share token open proposals, vote with their share balance,
//! and a proposal that reaches quorum and the pass threshold (both measured
//! against the share supply recorded when it was opened) can be executed
//! once its voting window and timelock have passed.

pub mod types;
pub mod tally;
pub mod state;
pub mod governance;
pub mod laws;
pub mod outcomes;

pub use governance::Governance;
pub use tally::finalize_proposal;
pub use types::{Address, GovernanceConfig, GovernanceError, Proposal, ProposalStatus};
