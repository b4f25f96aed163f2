//! On-ledger governance core of a decentralized autonomous organization:
//! a role-gated document review and voting pipeline backed by a capped,
//! one-token-per-account membership token ledger.
//!
//! The enclosing ledger host (clock, caller authentication, persistence,
//! event delivery) is out of scope: operations take the current tick and
//! the authenticated caller as plain values and mutate an explicit state
//! struct, so that every rule of the core is stated and verified here.
use vstd::prelude::*;

pub mod dao;
pub mod nft;
mod ordered_set;
mod receipts;
mod store;
mod types;

pub use ordered_set::OrderedSet;
pub use receipts::ReceiptMap;
pub use store::KvMap;
pub use types::{
    collection_id, spec_collection_id, spec_status_code, spec_status_of_code, Document,
    DocumentStatus, Origin, ReceiptKey, Roles, Vote, VoteStatus, VoteType,
};

verus! {

/// Number of ticks a qualification voting window spans unless configured.
pub const DEFAULT_QUALIFICATION_VOTING_WINDOW: u32 = 14400;

/// Number of ticks a verification voting window spans unless configured.
pub const DEFAULT_VERIFICATION_VOTING_WINDOW: u32 = 14400;

/// Minimum total vote count a qualification round needs unless configured.
pub const DEFAULT_QUALIFICATION_QUORUM: u32 = 0;

/// Minimum total vote count a verification round needs unless configured.
pub const DEFAULT_VERIFICATION_QUORUM: u32 = 0;

} // verus!
