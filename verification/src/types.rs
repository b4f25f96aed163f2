use vstd::prelude::*;

verus! {

/// The caller of an operation, as the host's authentication resolves it
/// before the call reaches the core: either the privileged chain
/// authority or a signed account.
#[derive(Clone, Copy, PartialEq, Eq, Structural, Debug)]
pub enum Origin {
    Root,
    Signed(u64),
}

/// The three governance roles. Each is represented by a membership token
/// collection; `collection_id` gives the fixed mapping.
#[derive(Clone, Copy, PartialEq, Eq, Structural, Debug)]
pub enum Roles {
    QualifierRole,
    CollectorRole,
    ContributorRole,
}

pub open spec fn spec_collection_id(role: Roles) -> u32 {
    match role {
        Roles::QualifierRole => 1,
        Roles::CollectorRole => 2,
        Roles::ContributorRole => 3,
    }
}

/// The membership token collection that represents a role.
pub fn collection_id(role: Roles) -> (r: u32)
    ensures
        r == spec_collection_id(role),
{
    match role {
        Roles::QualifierRole => 1,
        Roles::CollectorRole => 2,
        Roles::ContributorRole => 3,
    }
}

/// Lifecycle of a document under review. `Verified` and `Rejected` are
/// terminal.
#[derive(Clone, Copy, PartialEq, Eq, Structural, Debug)]
pub enum DocumentStatus {
    Submitted,
    UnderReview,
    SuccessfulReview,
    VoteInProgress,
    Verified,
    Rejected,
}

/// The stable numeric code of a document status, as carried by
/// status-changed notifications.
pub open spec fn spec_status_code(s: DocumentStatus) -> u8 {
    match s {
        DocumentStatus::Submitted => 0,
        DocumentStatus::UnderReview => 1,
        DocumentStatus::SuccessfulReview => 2,
        DocumentStatus::VoteInProgress => 3,
        DocumentStatus::Verified => 4,
        DocumentStatus::Rejected => 5,
    }
}

/// The document status named by a numeric code; a code above 5 names no
/// status and leaves `fallback` in force.
pub open spec fn spec_status_of_code(code: u8, fallback: DocumentStatus) -> DocumentStatus {
    if code == 0 {
        DocumentStatus::Submitted
    } else if code == 1 {
        DocumentStatus::UnderReview
    } else if code == 2 {
        DocumentStatus::SuccessfulReview
    } else if code == 3 {
        DocumentStatus::VoteInProgress
    } else if code == 4 {
        DocumentStatus::Verified
    } else if code == 5 {
        DocumentStatus::Rejected
    } else {
        fallback
    }
}

/// Outcome of a voting round. `Expired` is a reserved value that no
/// operation currently assigns.
#[derive(Clone, Copy, PartialEq, Eq, Structural, Debug)]
pub enum VoteStatus {
    InProgress,
    Passed,
    Failed,
    Expired,
}

/// Discriminates the receipt namespaces of the two voting tracks.
/// `Proposal` is a reserved value that no operation currently uses.
#[derive(Clone, Copy, PartialEq, Eq, Structural, Debug)]
pub enum VoteType {
    Qualification,
    Verification,
    Proposal,
}

/// A document under governance review. Created by a contributor; its
/// status is advanced by the voting engine or an administrative override.
#[derive(Clone, Debug)]
pub struct Document {
    pub creator: u64,
    pub title: Vec<u8>,
    pub description: Vec<u8>,
    pub format: Vec<u8>,
    pub hash: Vec<u8>,
    pub status: DocumentStatus,
}

/// One voting round: tallies, the tick window within which votes count,
/// and the round's outcome.
#[derive(Clone, Copy, PartialEq, Eq, Structural, Debug)]
pub struct Vote {
    pub document_id: u64,
    pub yes_votes: u64,
    pub no_votes: u64,
    pub start: u64,
    pub end: u64,
    pub status: VoteStatus,
}

/// The key under which a cast vote is receipted: the existence of the
/// key — not the recorded choice — is the duplicate-vote guard.
#[derive(Clone, Copy, PartialEq, Eq, Structural, Debug)]
pub struct ReceiptKey {
    pub account: u64,
    pub vote_type: VoteType,
    pub round: u64,
}

} // verus!
