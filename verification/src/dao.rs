use crate::nft;
use crate::ordered_set::OrderedSet;
use crate::receipts::ReceiptMap;
use crate::store::KvMap;
use crate::types::{
    spec_collection_id, spec_status_code, spec_status_of_code, collection_id, Document,
    DocumentStatus, Origin, ReceiptKey, Roles, Vote, VoteStatus, VoteType,
};
use vstd::prelude::*;

verus! {

/// Notifications the governance core emits; the host delivers them and
/// never hands them back.
#[derive(Clone, Copy, PartialEq, Eq, Structural, Debug)]
pub enum Event {
    QualifierAdded(u64, u32),
    CollectorAdded(u64, u32),
    ContributorAdded(u64, u32),
    DocumentCreated(u64, u64),
    DocumentStatusUpdated(u64, u8),
    QualificationVotingWindowChanged(u32),
    QualificationVotingStarted(u64),
    VerificationVotingWindowChanged(u32),
    VerificationVotingStarted(u64),
    QualificationVotingEnded(u64),
    VerificationVotingEnded(u64),
    QualificationQuorumChanged(u32),
    VerificationQuorumChanged(u32),
    VoteCast(u8, u64),
}

/// Why a governance operation was refused.
#[derive(Clone, Copy, PartialEq, Eq, Structural, Debug)]
pub enum Error {
    QualifierAlreadyExists,
    CollectorAlreadyExists,
    ContributorAlreadyExists,
    NotAQualifier,
    NotACollector,
    NotAContributor,
    NotAuthorized,
    DocumentNotFound,
    IncorrectDocumentStatus,
    DocumentTitleNotProvided,
    DocumentDescriptionNotProvided,
    DocumentFormatNotProvided,
    DocumentIPFSHashNotProvided,
    VerificationVoteAlreadyCreated,
    VotingWindowNotValid,
    DocumentNotReviewed,
    VoteNotFound,
    VoteNotInProgress,
    VoteStillInProgress,
    DocumentNotUnderReview,
    MemberAlreadyVoted,
    BadOrigin,
    ArithmeticOverflow,
}

/// The edges along which a document's status may move under the review
/// pipeline, with `Rejected` reachable from a failed qualification and
/// from a failed verification.
pub open spec fn status_edge(a: DocumentStatus, b: DocumentStatus) -> bool {
    ||| (a == DocumentStatus::Submitted && b == DocumentStatus::UnderReview)
    ||| (a == DocumentStatus::UnderReview && b == DocumentStatus::SuccessfulReview)
    ||| (a == DocumentStatus::UnderReview && b == DocumentStatus::Rejected)
    ||| (a == DocumentStatus::SuccessfulReview && b == DocumentStatus::VoteInProgress)
    ||| (a == DocumentStatus::VoteInProgress && b == DocumentStatus::Verified)
    ||| (a == DocumentStatus::VoteInProgress && b == DocumentStatus::Rejected)
}

/// A round meets quorum when its total vote count reaches the threshold;
/// a total exactly at the threshold counts as meeting it.
pub open spec fn quorum_met(yes: u64, no: u64, quorum: u32) -> bool {
    yes + no >= quorum
}

/// A tally passes only on a strict majority of yes votes; a tie fails.
pub open spec fn tally_passes(yes: u64, no: u64) -> bool {
    yes > no
}

/// A round passes when it meets quorum and its tally passes.
pub open spec fn round_passes(yes: u64, no: u64, quorum: u32) -> bool {
    quorum_met(yes, no, quorum) && tally_passes(yes, no)
}

/// An ordered membership set grew by exactly the account `who`.
pub open spec fn role_set_added(pre: Seq<u64>, post: Seq<u64>, who: u64) -> bool {
    &&& post.len() == pre.len() + 1
    &&& forall|y: u64| #[trigger] post.contains(y) == (pre.contains(y) || y == who)
}

/// The ledger after a best-effort mint by the privileged caller: the
/// mint's effect if it would succeed, and the ledger untouched if not —
/// the failure is swallowed.
pub open spec fn best_effort_mint(
    pre: nft::Pallet,
    post: nft::Pallet,
    collection_id: u32,
    who: u64,
) -> bool {
    if pre.mint_ok(Origin::Root, collection_id, who) {
        nft::Pallet::mint_post(pre, post, collection_id, who)
    } else {
        post == pre
    }
}

/// The ledger after a best-effort collection creation by the privileged
/// caller: the creation's effect if it would succeed, and the ledger
/// untouched if not.
pub open spec fn best_effort_create(
    pre: nft::Pallet,
    post: nft::Pallet,
    uid: u32,
    total_supply: u32,
    metadata: Seq<u8>,
    now: u64,
) -> bool {
    if pre.create_collection_ok(Origin::Root, uid) {
        nft::Pallet::create_collection_post(pre, post, uid, total_supply, metadata, now)
    } else {
        post == pre
    }
}

/// The governance core's whole persisted state: counters, configuration,
/// documents, voting rounds, receipts, the three role membership sets,
/// and the membership token ledger it drives.
pub struct Pallet {
    pub total_items: u64,
    pub total_transactions: u64,
    pub contributors_count: u32,
    pub collectors_count: u32,
    pub qualifiers_count: u32,
    pub qualification_votes_count: u64,
    pub verification_votes_count: u64,
    pub qualification_voting_window: u32,
    pub verification_voting_window: u32,
    pub qualification_quorum: u32,
    pub verification_quorum: u32,
    pub documents: KvMap<Document>,
    pub qualification_votes: KvMap<Vote>,
    pub verification_votes: KvMap<Vote>,
    pub member_votes: ReceiptMap,
    pub qualifiers: OrderedSet,
    pub collectors: OrderedSet,
    pub contributors: OrderedSet,
    pub nft: nft::Pallet,
    pub events: Vec<Event>,
}

impl Pallet {
    pub open spec fn wf(self) -> bool {
        &&& self.documents.wf()
        &&& self.qualification_votes.wf()
        &&& self.verification_votes.wf()
        &&& self.member_votes.wf()
        &&& self.qualifiers.wf()
        &&& self.collectors.wf()
        &&& self.contributors.wf()
        &&& self.nft.wf()
    }

    /// The three membership sets and their counters are as before.
    pub open spec fn roles_unchanged(pre: Pallet, post: Pallet) -> bool {
        &&& post.qualifiers == pre.qualifiers
        &&& post.collectors == pre.collectors
        &&& post.contributors == pre.contributors
        &&& post.qualifiers_count == pre.qualifiers_count
        &&& post.collectors_count == pre.collectors_count
        &&& post.contributors_count == pre.contributors_count
    }

    /// Windows, quorums and the transaction counter are as before.
    pub open spec fn config_unchanged(pre: Pallet, post: Pallet) -> bool {
        &&& post.qualification_voting_window == pre.qualification_voting_window
        &&& post.verification_voting_window == pre.verification_voting_window
        &&& post.qualification_quorum == pre.qualification_quorum
        &&& post.verification_quorum == pre.verification_quorum
        &&& post.total_transactions == pre.total_transactions
    }

    /// The document store and its counter are as before.
    pub open spec fn docs_unchanged(pre: Pallet, post: Pallet) -> bool {
        &&& post.documents == pre.documents
        &&& post.total_items == pre.total_items
    }

    /// Rounds, round counters and receipts are as before.
    pub open spec fn votes_unchanged(pre: Pallet, post: Pallet) -> bool {
        &&& post.qualification_votes == pre.qualification_votes
        &&& post.verification_votes == pre.verification_votes
        &&& post.qualification_votes_count == pre.qualification_votes_count
        &&& post.verification_votes_count == pre.verification_votes_count
        &&& post.member_votes == pre.member_votes
    }

    /// A fresh core: empty stores, zero counters, and the default
    /// windows and quorums in force.
    pub fn new() -> (r: Self)
        ensures
            r.wf(),
            r.total_items == 0,
            r.total_transactions == 0,
            r.contributors_count == 0,
            r.collectors_count == 0,
            r.qualifiers_count == 0,
            r.qualification_votes_count == 0,
            r.verification_votes_count == 0,
            r.qualification_voting_window == crate::DEFAULT_QUALIFICATION_VOTING_WINDOW,
            r.verification_voting_window == crate::DEFAULT_VERIFICATION_VOTING_WINDOW,
            r.qualification_quorum == crate::DEFAULT_QUALIFICATION_QUORUM,
            r.verification_quorum == crate::DEFAULT_VERIFICATION_QUORUM,
            r.documents@ == Map::<u64, Document>::empty(),
            r.qualification_votes@ == Map::<u64, Vote>::empty(),
            r.verification_votes@ == Map::<u64, Vote>::empty(),
            r.member_votes@ == Map::<ReceiptKey, bool>::empty(),
            r.qualifiers@ == Seq::<u64>::empty(),
            r.collectors@ == Seq::<u64>::empty(),
            r.contributors@ == Seq::<u64>::empty(),
            r.nft.wf(),
            r.nft.total_collections == 0,
            r.nft.collections@ == Map::<u64, nft::CollectionEntry>::empty(),
            r.nft.events@ == Seq::<nft::Event>::empty(),
            r.events@ == Seq::<Event>::empty(),
    {
        Pallet {
            total_items: 0,
            total_transactions: 0,
            contributors_count: 0,
            collectors_count: 0,
            qualifiers_count: 0,
            qualification_votes_count: 0,
            verification_votes_count: 0,
            qualification_voting_window: crate::DEFAULT_QUALIFICATION_VOTING_WINDOW,
            verification_voting_window: crate::DEFAULT_VERIFICATION_VOTING_WINDOW,
            qualification_quorum: crate::DEFAULT_QUALIFICATION_QUORUM,
            verification_quorum: crate::DEFAULT_VERIFICATION_QUORUM,
            documents: KvMap::new(),
            qualification_votes: KvMap::new(),
            verification_votes: KvMap::new(),
            member_votes: ReceiptMap::new(),
            qualifiers: OrderedSet::new(),
            collectors: OrderedSet::new(),
            contributors: OrderedSet::new(),
            nft: nft::Pallet::new(),
            events: Vec::new(),
        }
    }

    /// Whether `who` is a contributor; binary search, no side effects.
    pub fn ensure_contributor(&self, who: u64) -> (r: bool)
        requires
            self.wf(),
        ensures
            r == self.contributors@.contains(who),
    {
        self.contributors.contains(who)
    }

    /// Whether `who` is a collector; binary search, no side effects.
    pub fn ensure_collector(&self, who: u64) -> (r: bool)
        requires
            self.wf(),
        ensures
            r == self.collectors@.contains(who),
    {
        self.collectors.contains(who)
    }

    /// Whether `who` is a qualifier; binary search, no side effects.
    pub fn ensure_qualifier(&self, who: u64) -> (r: bool)
        requires
            self.wf(),
        ensures
            r == self.qualifiers@.contains(who),
    {
        self.qualifiers.contains(who)
    }

    /// Success condition of `add_qualifier`.
    pub open spec fn add_qualifier_ok(self, origin: Origin, who: u64) -> bool {
        &&& origin == Origin::Root
        &&& self.qualifiers_count < u32::MAX
        &&& !self.qualifiers@.contains(who)
    }

    /// The error `add_qualifier` returns when it fails; meaningful only
    /// when `add_qualifier_ok` does not hold.
    pub open spec fn add_qualifier_err(self, origin: Origin, who: u64) -> Error {
        if origin != Origin::Root {
            Error::BadOrigin
        } else if self.qualifiers_count == u32::MAX {
            Error::ArithmeticOverflow
        } else {
            Error::QualifierAlreadyExists
        }
    }

    /// Grants the qualifier role to `who`: inserts the account at its
    /// sorted position, raises the membership counter, mints a
    /// qualifier-collection token best-effort (a mint failure is
    /// swallowed), and emits the role-added notification with the new
    /// counter value.
    pub fn add_qualifier(&mut self, origin: Origin, who: u64) -> (r: Result<(), Error>)
        requires
            old(self).wf(),
        ensures
            final(self).wf(),
            match r {
                Ok(_) => {
                    &&& old(self).add_qualifier_ok(origin, who)
                    &&& role_set_added(old(self).qualifiers@, final(self).qualifiers@, who)
                    &&& final(self).qualifiers_count == old(self).qualifiers_count + 1
                    &&& final(self).collectors == old(self).collectors
                    &&& final(self).contributors == old(self).contributors
                    &&& final(self).collectors_count == old(self).collectors_count
                    &&& final(self).contributors_count == old(self).contributors_count
                    &&& Pallet::config_unchanged(*old(self), *final(self))
                    &&& Pallet::docs_unchanged(*old(self), *final(self))
                    &&& Pallet::votes_unchanged(*old(self), *final(self))
                    &&& best_effort_mint(
                        old(self).nft,
                        final(self).nft,
                        spec_collection_id(Roles::QualifierRole),
                        who,
                    )
                    &&& final(self).events@ == old(self).events@.push(
                        Event::QualifierAdded(who, (old(self).qualifiers_count + 1) as u32),
                    )
                },
                Err(e) => !old(self).add_qualifier_ok(origin, who) && e == old(
                    self,
                ).add_qualifier_err(origin, who) && *final(self) == *old(self),
            },
    {
        if origin != Origin::Root {
            return Err(Error::BadOrigin);
        }
        if self.qualifiers_count == u32::MAX {
            return Err(Error::ArithmeticOverflow);
        }
        let uid = self.qualifiers_count + 1;
        if !self.qualifiers.insert(who) {
            return Err(Error::QualifierAlreadyExists);
        }
        self.qualifiers_count = uid;
        let _ = self.nft.mint(origin, collection_id(Roles::QualifierRole), who);
        self.events.push(Event::QualifierAdded(who, uid));
        Ok(())
    }

    /// Success condition of `add_collector`.
    pub open spec fn add_collector_ok(self, origin: Origin, who: u64) -> bool {
        &&& origin == Origin::Root
        &&& self.collectors_count < u32::MAX
        &&& !self.collectors@.contains(who)
    }

    /// The error `add_collector` returns when it fails; meaningful only
    /// when `add_collector_ok` does not hold.
    pub open spec fn add_collector_err(self, origin: Origin, who: u64) -> Error {
        if origin != Origin::Root {
            Error::BadOrigin
        } else if self.collectors_count == u32::MAX {
            Error::ArithmeticOverflow
        } else {
            Error::CollectorAlreadyExists
        }
    }

    /// Grants the collector role to `who`; the collector twin of
    /// `add_qualifier`.
    pub fn add_collector(&mut self, origin: Origin, who: u64) -> (r: Result<(), Error>)
        requires
            old(self).wf(),
        ensures
            final(self).wf(),
            match r {
                Ok(_) => {
                    &&& old(self).add_collector_ok(origin, who)
                    &&& role_set_added(old(self).collectors@, final(self).collectors@, who)
                    &&& final(self).collectors_count == old(self).collectors_count + 1
                    &&& final(self).qualifiers == old(self).qualifiers
                    &&& final(self).contributors == old(self).contributors
                    &&& final(self).qualifiers_count == old(self).qualifiers_count
                    &&& final(self).contributors_count == old(self).contributors_count
                    &&& Pallet::config_unchanged(*old(self), *final(self))
                    &&& Pallet::docs_unchanged(*old(self), *final(self))
                    &&& Pallet::votes_unchanged(*old(self), *final(self))
                    &&& best_effort_mint(
                        old(self).nft,
                        final(self).nft,
                        spec_collection_id(Roles::CollectorRole),
                        who,
                    )
                    &&& final(self).events@ == old(self).events@.push(
                        Event::CollectorAdded(who, (old(self).collectors_count + 1) as u32),
                    )
                },
                Err(e) => !old(self).add_collector_ok(origin, who) && e == old(
                    self,
                ).add_collector_err(origin, who) && *final(self) == *old(self),
            },
    {
        if origin != Origin::Root {
            return Err(Error::BadOrigin);
        }
        if self.collectors_count == u32::MAX {
            return Err(Error::ArithmeticOverflow);
        }
        let uid = self.collectors_count + 1;
        if !self.collectors.insert(who) {
            return Err(Error::CollectorAlreadyExists);
        }
        self.collectors_count = uid;
        let _ = self.nft.mint(origin, collection_id(Roles::CollectorRole), who);
        self.events.push(Event::CollectorAdded(who, uid));
        Ok(())
    }

    /// Success condition of `add_contributor`.
    pub open spec fn add_contributor_ok(self, origin: Origin, who: u64) -> bool {
        &&& origin == Origin::Root
        &&& self.contributors_count < u32::MAX
        &&& !self.contributors@.contains(who)
    }

    /// The error `add_contributor` returns when it fails; meaningful
    /// only when `add_contributor_ok` does not hold.
    pub open spec fn add_contributor_err(self, origin: Origin, who: u64) -> Error {
        if origin != Origin::Root {
            Error::BadOrigin
        } else if self.contributors_count == u32::MAX {
            Error::ArithmeticOverflow
        } else {
            Error::ContributorAlreadyExists
        }
    }

    /// Grants the contributor role to `who`; the contributor twin of
    /// `add_qualifier`.
    pub fn add_contributor(&mut self, origin: Origin, who: u64) -> (r: Result<(), Error>)
        requires
            old(self).wf(),
        ensures
            final(self).wf(),
            match r {
                Ok(_) => {
                    &&& old(self).add_contributor_ok(origin, who)
                    &&& role_set_added(old(self).contributors@, final(self).contributors@, who)
                    &&& final(self).contributors_count == old(self).contributors_count + 1
                    &&& final(self).qualifiers == old(self).qualifiers
                    &&& final(self).collectors == old(self).collectors
                    &&& final(self).qualifiers_count == old(self).qualifiers_count
                    &&& final(self).collectors_count == old(self).collectors_count
                    &&& Pallet::config_unchanged(*old(self), *final(self))
                    &&& Pallet::docs_unchanged(*old(self), *final(self))
                    &&& Pallet::votes_unchanged(*old(self), *final(self))
                    &&& best_effort_mint(
                        old(self).nft,
                        final(self).nft,
                        spec_collection_id(Roles::ContributorRole),
                        who,
                    )
                    &&& final(self).events@ == old(self).events@.push(
                        Event::ContributorAdded(who, (old(self).contributors_count + 1) as u32),
                    )
                },
                Err(e) => !old(self).add_contributor_ok(origin, who) && e == old(
                    self,
                ).add_contributor_err(origin, who) && *final(self) == *old(self),
            },
    {
        if origin != Origin::Root {
            return Err(Error::BadOrigin);
        }
        if self.contributors_count == u32::MAX {
            return Err(Error::ArithmeticOverflow);
        }
        let uid = self.contributors_count + 1;
        if !self.contributors.insert(who) {
            return Err(Error::ContributorAlreadyExists);
        }
        self.contributors_count = uid;
        let _ = self.nft.mint(origin, collection_id(Roles::ContributorRole), who);
        self.events.push(Event::ContributorAdded(who, uid));
        Ok(())
    }

    /// Success condition of `create_document`: a signed contributor,
    /// all four byte fields non-empty, and a fresh id available.
    pub open spec fn create_document_ok(
        self,
        origin: Origin,
        title: Seq<u8>,
        description: Seq<u8>,
        format: Seq<u8>,
        hash: Seq<u8>,
    ) -> bool {
        match origin {
            Origin::Root => false,
            Origin::Signed(who) => {
                &&& self.contributors@.contains(who)
                &&& title.len() > 0
                &&& description.len() > 0
                &&& format.len() > 0
                &&& hash.len() > 0
                &&& self.total_items < u64::MAX
            },
        }
    }

    /// The error `create_document` returns when it fails; meaningful
    /// only when `create_document_ok` does not hold.
    pub open spec fn create_document_err(
        self,
        origin: Origin,
        title: Seq<u8>,
        description: Seq<u8>,
        format: Seq<u8>,
        hash: Seq<u8>,
    ) -> Error {
        match origin {
            Origin::Root => Error::BadOrigin,
            Origin::Signed(who) => if !self.contributors@.contains(who) {
                Error::NotAContributor
            } else if title.len() == 0 {
                Error::DocumentTitleNotProvided
            } else if description.len() == 0 {
                Error::DocumentDescriptionNotProvided
            } else if format.len() == 0 {
                Error::DocumentFormatNotProvided
            } else if hash.len() == 0 {
                Error::DocumentIPFSHashNotProvided
            } else {
                Error::ArithmeticOverflow
            },
        }
    }

    /// State change of a successful `create_document` by `who`: the next
    /// document id holds a `Submitted` record of the given fields.
    pub open spec fn create_document_post(
        pre: Pallet,
        post: Pallet,
        who: u64,
        title: Seq<u8>,
        description: Seq<u8>,
        format: Seq<u8>,
        hash: Seq<u8>,
    ) -> bool {
        let uid = (pre.total_items + 1) as u64;
        let d = post.documents@[uid];
        &&& post.documents@.contains_key(uid)
        &&& d.creator == who
        &&& d.title@ == title
        &&& d.description@ == description
        &&& d.format@ == format
        &&& d.hash@ == hash
        &&& d.status == DocumentStatus::Submitted
        &&& post.documents@.remove(uid) == pre.documents@.remove(uid)
        &&& post.total_items == pre.total_items + 1
        &&& Pallet::roles_unchanged(pre, post)
        &&& Pallet::config_unchanged(pre, post)
        &&& Pallet::votes_unchanged(pre, post)
        &&& post.nft == pre.nft
        &&& post.events@ == pre.events@.push(Event::DocumentCreated(who, uid))
    }

    /// Creates a document: a signed contributor submits four non-empty
    /// byte fields; the record enters the store under the next id with
    /// status `Submitted`, and a creation notification is emitted.
    pub fn create_document(
        &mut self,
        origin: Origin,
        title: Vec<u8>,
        description: Vec<u8>,
        format: Vec<u8>,
        hash: Vec<u8>,
    ) -> (r: Result<(), Error>)
        requires
            old(self).wf(),
        ensures
            final(self).wf(),
            match r {
                Ok(_) => old(self).create_document_ok(origin, title@, description@, format@, hash@)
                    && (match origin {
                    Origin::Signed(who) => Pallet::create_document_post(
                        *old(self),
                        *final(self),
                        who,
                        title@,
                        description@,
                        format@,
                        hash@,
                    ),
                    Origin::Root => false,
                }),
                Err(e) => !old(self).create_document_ok(origin, title@, description@, format@, hash@)
                    && e == old(self).create_document_err(origin, title@, description@, format@, hash@)
                    && *final(self) == *old(self),
            },
    {
        let who = match origin {
            Origin::Signed(w) => w,
            Origin::Root => {
                return Err(Error::BadOrigin);
            },
        };
        if !self.ensure_contributor(who) {
            return Err(Error::NotAContributor);
        }
        if title.len() == 0 {
            return Err(Error::DocumentTitleNotProvided);
        }
        if description.len() == 0 {
            return Err(Error::DocumentDescriptionNotProvided);
        }
        if format.len() == 0 {
            return Err(Error::DocumentFormatNotProvided);
        }
        if hash.len() == 0 {
            return Err(Error::DocumentIPFSHashNotProvided);
        }
        if self.total_items == u64::MAX {
            return Err(Error::ArithmeticOverflow);
        }
        let uid = self.total_items + 1;
        let document = Document {
            creator: who,
            title,
            description,
            format,
            hash,
            status: DocumentStatus::Submitted,
        };
        self.documents.insert(uid, document);
        self.total_items = uid;
        self.events.push(Event::DocumentCreated(who, uid));
        proof {
            assert(self.documents@.remove(uid) =~= old(self).documents@.remove(uid));
        }
        Ok(())
    }

    /// Sets the qualification voting window. Privileged-caller only; a
    /// zero window is rejected. Rounds already opened keep the window
    /// captured at their opening.
    pub fn set_qualification_voting_window(&mut self, origin: Origin, window: u32) -> (r: Result<
        (),
        Error,
    >)
        requires
            old(self).wf(),
        ensures
            final(self).wf(),
            match r {
                Ok(_) => {
                    &&& origin == Origin::Root
                    &&& window > 0
                    &&& *final(self) == (Pallet {
                        qualification_voting_window: window,
                        events: final(self).events,
                        ..*old(self)
                    })
                    &&& final(self).events@ == old(self).events@.push(
                        Event::QualificationVotingWindowChanged(window),
                    )
                },
                Err(e) => {
                    &&& !(origin == Origin::Root && window > 0)
                    &&& e == (if origin != Origin::Root {
                        Error::BadOrigin
                    } else {
                        Error::VotingWindowNotValid
                    })
                    &&& *final(self) == *old(self)
                },
            },
    {
        if origin != Origin::Root {
            return Err(Error::BadOrigin);
        }
        if window == 0 {
            return Err(Error::VotingWindowNotValid);
        }
        self.qualification_voting_window = window;
        self.events.push(Event::QualificationVotingWindowChanged(window));
        Ok(())
    }

    /// Sets the verification voting window. Privileged-caller only; a
    /// zero window is rejected.
    pub fn set_verification_voting_window(&mut self, origin: Origin, window: u32) -> (r: Result<
        (),
        Error,
    >)
        requires
            old(self).wf(),
        ensures
            final(self).wf(),
            match r {
                Ok(_) => {
                    &&& origin == Origin::Root
                    &&& window > 0
                    &&& *final(self) == (Pallet {
                        verification_voting_window: window,
                        events: final(self).events,
                        ..*old(self)
                    })
                    &&& final(self).events@ == old(self).events@.push(
                        Event::VerificationVotingWindowChanged(window),
                    )
                },
                Err(e) => {
                    &&& !(origin == Origin::Root && window > 0)
                    &&& e == (if origin != Origin::Root {
                        Error::BadOrigin
                    } else {
                        Error::VotingWindowNotValid
                    })
                    &&& *final(self) == *old(self)
                },
            },
    {
        if origin != Origin::Root {
            return Err(Error::BadOrigin);
        }
        if window == 0 {
            return Err(Error::VotingWindowNotValid);
        }
        self.verification_voting_window = window;
        self.events.push(Event::VerificationVotingWindowChanged(window));
        Ok(())
    }

    /// Sets the qualification quorum; any value, including zero, is
    /// accepted. Privileged-caller only. The quorum is read at finalize
    /// time, so the change also affects rounds already in flight.
    pub fn set_qualification_quorum(&mut self, origin: Origin, quorum: u32) -> (r: Result<
        (),
        Error,
    >)
        requires
            old(self).wf(),
        ensures
            final(self).wf(),
            match r {
                Ok(_) => {
                    &&& origin == Origin::Root
                    &&& *final(self) == (Pallet {
                        qualification_quorum: quorum,
                        events: final(self).events,
                        ..*old(self)
                    })
                    &&& final(self).events@ == old(self).events@.push(
                        Event::QualificationQuorumChanged(quorum),
                    )
                },
                Err(e) => origin != Origin::Root && e == Error::BadOrigin && *final(self) == *old(
                    self,
                ),
            },
    {
        if origin != Origin::Root {
            return Err(Error::BadOrigin);
        }
        self.qualification_quorum = quorum;
        self.events.push(Event::QualificationQuorumChanged(quorum));
        Ok(())
    }

    /// Sets the verification quorum; any value, including zero, is
    /// accepted. Privileged-caller only.
    pub fn set_verification_quorum(&mut self, origin: Origin, quorum: u32) -> (r: Result<
        (),
        Error,
    >)
        requires
            old(self).wf(),
        ensures
            final(self).wf(),
            match r {
                Ok(_) => {
                    &&& origin == Origin::Root
                    &&& *final(self) == (Pallet {
                        verification_quorum: quorum,
                        events: final(self).events,
                        ..*old(self)
                    })
                    &&& final(self).events@ == old(self).events@.push(
                        Event::VerificationQuorumChanged(quorum),
                    )
                },
                Err(e) => origin != Origin::Root && e == Error::BadOrigin && *final(self) == *old(
                    self,
                ),
            },
    {
        if origin != Origin::Root {
            return Err(Error::BadOrigin);
        }
        self.verification_quorum = quorum;
        self.events.push(Event::VerificationQuorumChanged(quorum));
        Ok(())
    }

    /// Overwrites a document's status with the one named by the numeric
    /// code; a code above 5 leaves the status as it was. This is the
    /// administrative override: it is not bound to the review pipeline's
    /// edges. Fails only if the document is absent.
    pub fn update_document_status(&mut self, document_uid: u64, status: u8) -> (r: Result<
        (),
        Error,
    >)
        requires
            old(self).wf(),
        ensures
            final(self).wf(),
            match r {
                Ok(_) => {
                    &&& old(self).documents@.contains_key(document_uid)
                    &&& final(self).documents@.contains_key(document_uid)
                    &&& {
                        let d0 = old(self).documents@[document_uid];
                        let d1 = final(self).documents@[document_uid];
                        &&& d1.creator == d0.creator
                        &&& d1.title == d0.title
                        &&& d1.description == d0.description
                        &&& d1.format == d0.format
                        &&& d1.hash == d0.hash
                        &&& d1.status == spec_status_of_code(status, d0.status)
                    }
                    &&& final(self).documents@.remove(document_uid) == old(
                        self,
                    ).documents@.remove(document_uid)
                    &&& final(self).total_items == old(self).total_items
                    &&& Pallet::roles_unchanged(*old(self), *final(self))
                    &&& Pallet::config_unchanged(*old(self), *final(self))
                    &&& Pallet::votes_unchanged(*old(self), *final(self))
                    &&& final(self).nft == old(self).nft
                    &&& final(self).events@ == old(self).events@.push(
                        Event::DocumentStatusUpdated(document_uid, status),
                    )
                },
                Err(e) => !old(self).documents@.contains_key(document_uid) && e
                    == Error::DocumentNotFound && *final(self) == *old(self),
            },
    {
        if !self.documents.contains_key(document_uid) {
            return Err(Error::DocumentNotFound);
        }
        let mut document = match self.documents.remove(document_uid) {
            Some(d) => d,
            None => {
                proof {
                    assert(false);
                }
                return Err(Error::DocumentNotFound);
            },
        };
        if status == 0 {
            document.status = DocumentStatus::Submitted;
        } else if status == 1 {
            document.status = DocumentStatus::UnderReview;
        } else if status == 2 {
            document.status = DocumentStatus::SuccessfulReview;
        } else if status == 3 {
            document.status = DocumentStatus::VoteInProgress;
        } else if status == 4 {
            document.status = DocumentStatus::Verified;
        } else if status == 5 {
            document.status = DocumentStatus::Rejected;
        }
        self.documents.insert(document_uid, document);
        self.events.push(Event::DocumentStatusUpdated(document_uid, status));
        proof {
            assert(self.documents@.remove(document_uid) =~= old(self).documents@.remove(
                document_uid,
            ));
        }
        Ok(())
    }

    /// Success condition of `create_qualification_voting`: a signed
    /// qualifier, a document standing exactly at `Submitted`, and room
    /// for a fresh round id and window end.
    pub open spec fn create_qualification_voting_ok(
        self,
        origin: Origin,
        document_id: u64,
        now: u64,
    ) -> bool {
        match origin {
            Origin::Root => false,
            Origin::Signed(who) => {
                &&& self.qualifiers@.contains(who)
                &&& self.documents@.contains_key(document_id)
                &&& self.documents@[document_id].status == DocumentStatus::Submitted
                &&& self.qualification_votes_count < u64::MAX
                &&& now + self.qualification_voting_window <= u64::MAX
            },
        }
    }

    /// The error `create_qualification_voting` returns when it fails;
    /// meaningful only when the success condition does not hold.
    pub open spec fn create_qualification_voting_err(
        self,
        origin: Origin,
        document_id: u64,
        now: u64,
    ) -> Error {
        match origin {
            Origin::Root => Error::BadOrigin,
            Origin::Signed(who) => if !self.qualifiers@.contains(who) {
                Error::NotAQualifier
            } else if !self.documents@.contains_key(document_id) {
                Error::DocumentNotFound
            } else if self.documents@[document_id].status != DocumentStatus::Submitted {
                Error::VerificationVoteAlreadyCreated
            } else {
                Error::ArithmeticOverflow
            },
        }
    }

    /// State change of a successful `create_qualification_voting`: a
    /// fresh `InProgress` round with zero tallies, windowed from `now`,
    /// and the document advanced from `Submitted` to `UnderReview`.
    pub open spec fn create_qualification_voting_post(
        pre: Pallet,
        post: Pallet,
        document_id: u64,
        now: u64,
    ) -> bool {
        let uid = (pre.qualification_votes_count + 1) as u64;
        let endt = (now + pre.qualification_voting_window) as u64;
        let d0 = pre.documents@[document_id];
        let d1 = post.documents@[document_id];
        &&& post.qualification_votes@ == pre.qualification_votes@.insert(
            uid,
            (Vote {
                document_id,
                yes_votes: 0,
                no_votes: 0,
                start: now,
                end: endt,
                status: VoteStatus::InProgress,
            }),
        )
        &&& post.qualification_votes_count == uid
        &&& post.documents@.contains_key(document_id)
        &&& d1.creator == d0.creator
        &&& d1.title == d0.title
        &&& d1.description == d0.description
        &&& d1.format == d0.format
        &&& d1.hash == d0.hash
        &&& d1.status == DocumentStatus::UnderReview
        &&& status_edge(d0.status, d1.status)
        &&& post.documents@.remove(document_id) == pre.documents@.remove(document_id)
        &&& post.total_items == pre.total_items
        &&& post.verification_votes == pre.verification_votes
        &&& post.verification_votes_count == pre.verification_votes_count
        &&& post.member_votes == pre.member_votes
        &&& Pallet::roles_unchanged(pre, post)
        &&& Pallet::config_unchanged(pre, post)
        &&& post.nft == pre.nft
        &&& post.events@ == pre.events@.push(Event::QualificationVotingStarted(uid)).push(
            Event::DocumentStatusUpdated(document_id, spec_status_code(DocumentStatus::UnderReview)),
        )
    }

    /// Opens the qualification round for a document: a signed qualifier
    /// may do so while the document stands at `Submitted`. The round's
    /// window is captured from the configuration at this moment.
    pub fn create_qualification_voting(&mut self, origin: Origin, document_id: u64, now: u64) -> (r:
        Result<(), Error>)
        requires
            old(self).wf(),
        ensures
            final(self).wf(),
            match r {
                Ok(_) => old(self).create_qualification_voting_ok(origin, document_id, now)
                    && Pallet::create_qualification_voting_post(
                    *old(self),
                    *final(self),
                    document_id,
                    now,
                ),
                Err(e) => !old(self).create_qualification_voting_ok(origin, document_id, now) && e
                    == old(self).create_qualification_voting_err(origin, document_id, now) && *final(self) == *old(self),
            },
    {
        let who = match origin {
            Origin::Signed(w) => w,
            Origin::Root => {
                return Err(Error::BadOrigin);
            },
        };
        if !self.ensure_qualifier(who) {
            return Err(Error::NotAQualifier);
        }
        match self.documents.get(document_id) {
            None => {
                return Err(Error::DocumentNotFound);
            },
            Some(d) => {
                if d.status != DocumentStatus::Submitted {
                    return Err(Error::VerificationVoteAlreadyCreated);
                }
            },
        }
        if self.qualification_votes_count == u64::MAX {
            return Err(Error::ArithmeticOverflow);
        }
        let uid: u64 = self.qualification_votes_count + 1;
        let window: u64 = self.qualification_voting_window as u64;
        if now > u64::MAX - window {
            return Err(Error::ArithmeticOverflow);
        }
        let endt: u64 = now + window;
        let vote = Vote {
            document_id,
            yes_votes: 0,
            no_votes: 0,
            start: now,
            end: endt,
            status: VoteStatus::InProgress,
        };
        self.qualification_votes.insert(uid, vote);
        self.qualification_votes_count = uid;
        self.events.push(Event::QualificationVotingStarted(uid));
        let mut document = match self.documents.remove(document_id) {
            Some(d) => d,
            None => {
                proof {
                    assert(false);
                }
                return Err(Error::DocumentNotFound);
            },
        };
        document.status = DocumentStatus::UnderReview;
        self.documents.insert(document_id, document);
        self.events.push(Event::DocumentStatusUpdated(document_id, 1));
        proof {
            assert(self.documents@.remove(document_id) =~= old(self).documents@.remove(
                document_id,
            ));
        }
        Ok(())
    }

    /// Success condition of `create_verification_voting`: a signed
    /// qualifier or contributor, a document standing exactly at
    /// `SuccessfulReview`, and room for a fresh round id and window end.
    pub open spec fn create_verification_voting_ok(
        self,
        origin: Origin,
        document_id: u64,
        now: u64,
    ) -> bool {
        match origin {
            Origin::Root => false,
            Origin::Signed(who) => {
                &&& (self.qualifiers@.contains(who) || self.contributors@.contains(who))
                &&& self.documents@.contains_key(document_id)
                &&& self.documents@[document_id].status == DocumentStatus::SuccessfulReview
                &&& self.verification_votes_count < u64::MAX
                &&& now + self.verification_voting_window <= u64::MAX
            },
        }
    }

    /// The error `create_verification_voting` returns when it fails;
    /// meaningful only when the success condition does not hold.
    pub open spec fn create_verification_voting_err(
        self,
        origin: Origin,
        document_id: u64,
        now: u64,
    ) -> Error {
        match origin {
            Origin::Root => Error::BadOrigin,
            Origin::Signed(who) => if !(self.qualifiers@.contains(who)
                || self.contributors@.contains(who)) {
                Error::NotAuthorized
            } else if !self.documents@.contains_key(document_id) {
                Error::DocumentNotFound
            } else if self.documents@[document_id].status != DocumentStatus::SuccessfulReview {
                Error::DocumentNotReviewed
            } else {
                Error::ArithmeticOverflow
            },
        }
    }

    /// State change of a successful `create_verification_voting`: a
    /// fresh `InProgress` round in the verification track, and the
    /// document advanced from `SuccessfulReview` to `VoteInProgress`.
    pub open spec fn create_verification_voting_post(
        pre: Pallet,
        post: Pallet,
        document_id: u64,
        now: u64,
    ) -> bool {
        let uid = (pre.verification_votes_count + 1) as u64;
        let endt = (now + pre.verification_voting_window) as u64;
        let d0 = pre.documents@[document_id];
        let d1 = post.documents@[document_id];
        &&& post.verification_votes@ == pre.verification_votes@.insert(
            uid,
            (Vote {
                document_id,
                yes_votes: 0,
                no_votes: 0,
                start: now,
                end: endt,
                status: VoteStatus::InProgress,
            }),
        )
        &&& post.verification_votes_count == uid
        &&& post.documents@.contains_key(document_id)
        &&& d1.creator == d0.creator
        &&& d1.title == d0.title
        &&& d1.description == d0.description
        &&& d1.format == d0.format
        &&& d1.hash == d0.hash
        &&& d1.status == DocumentStatus::VoteInProgress
        &&& status_edge(d0.status, d1.status)
        &&& post.documents@.remove(document_id) == pre.documents@.remove(document_id)
        &&& post.total_items == pre.total_items
        &&& post.qualification_votes == pre.qualification_votes
        &&& post.qualification_votes_count == pre.qualification_votes_count
        &&& post.member_votes == pre.member_votes
        &&& Pallet::roles_unchanged(pre, post)
        &&& Pallet::config_unchanged(pre, post)
        &&& post.nft == pre.nft
        &&& post.events@ == pre.events@.push(Event::VerificationVotingStarted(uid)).push(
            Event::DocumentStatusUpdated(document_id, spec_status_code(DocumentStatus::VoteInProgress)),
        )
    }

    /// Opens the verification round for a document: a signed qualifier
    /// or contributor may do so while the document stands at
    /// `SuccessfulReview`.
    pub fn create_verification_voting(&mut self, origin: Origin, document_id: u64, now: u64) -> (r:
        Result<(), Error>)
        requires
            old(self).wf(),
        ensures
            final(self).wf(),
            match r {
                Ok(_) => old(self).create_verification_voting_ok(origin, document_id, now)
                    && Pallet::create_verification_voting_post(
                    *old(self),
                    *final(self),
                    document_id,
                    now,
                ),
                Err(e) => !old(self).create_verification_voting_ok(origin, document_id, now) && e
                    == old(self).create_verification_voting_err(origin, document_id, now) && *final(self) == *old(self),
            },
    {
        let who = match origin {
            Origin::Signed(w) => w,
            Origin::Root => {
                return Err(Error::BadOrigin);
            },
        };
        if !self.ensure_qualifier(who) && !self.ensure_contributor(who) {
            return Err(Error::NotAuthorized);
        }
        match self.documents.get(document_id) {
            None => {
                return Err(Error::DocumentNotFound);
            },
            Some(d) => {
                if d.status != DocumentStatus::SuccessfulReview {
                    return Err(Error::DocumentNotReviewed);
                }
            },
        }
        if self.verification_votes_count == u64::MAX {
            return Err(Error::ArithmeticOverflow);
        }
        let uid: u64 = self.verification_votes_count + 1;
        let window: u64 = self.verification_voting_window as u64;
        if now > u64::MAX - window {
            return Err(Error::ArithmeticOverflow);
        }
        let endt: u64 = now + window;
        let vote = Vote {
            document_id,
            yes_votes: 0,
            no_votes: 0,
            start: now,
            end: endt,
            status: VoteStatus::InProgress,
        };
        self.verification_votes.insert(uid, vote);
        self.verification_votes_count = uid;
        self.events.push(Event::VerificationVotingStarted(uid));
        let mut document = match self.documents.remove(document_id) {
            Some(d) => d,
            None => {
                proof {
                    assert(false);
                }
                return Err(Error::DocumentNotFound);
            },
        };
        document.status = DocumentStatus::VoteInProgress;
        self.documents.insert(document_id, document);
        self.events.push(Event::DocumentStatusUpdated(document_id, 3));
        proof {
            assert(self.documents@.remove(document_id) =~= old(self).documents@.remove(
                document_id,
            ));
        }
        Ok(())
    }

    /// Success condition of `cast_qualification_vote`: a signed
    /// qualifier with no receipt yet for this round, an `InProgress`
    /// round, a tick strictly inside the window, and a tally with room.
    pub open spec fn cast_qualification_vote_ok(
        self,
        origin: Origin,
        voting_id: u64,
        vote_cast: bool,
        now: u64,
    ) -> bool {
        match origin {
            Origin::Root => false,
            Origin::Signed(who) => {
                let v = self.qualification_votes@[voting_id];
                &&& self.qualifiers@.contains(who)
                &&& !self.member_votes@.contains_key(
                    ReceiptKey { account: who, vote_type: VoteType::Qualification, round: voting_id },
                )
                &&& self.qualification_votes@.contains_key(voting_id)
                &&& v.status == VoteStatus::InProgress
                &&& now > v.start
                &&& now < v.end
                &&& (if vote_cast {
                    v.yes_votes < u64::MAX
                } else {
                    v.no_votes < u64::MAX
                })
            },
        }
    }

    /// The error `cast_qualification_vote` returns when it fails;
    /// meaningful only when the success condition does not hold. The
    /// duplicate-vote refusal depends only on the receipt's existence,
    /// never on the choice being cast.
    pub open spec fn cast_qualification_vote_err(
        self,
        origin: Origin,
        voting_id: u64,
        vote_cast: bool,
        now: u64,
    ) -> Error {
        match origin {
            Origin::Root => Error::BadOrigin,
            Origin::Signed(who) => {
                let v = self.qualification_votes@[voting_id];
                if !self.qualifiers@.contains(who) {
                    Error::NotAQualifier
                } else if self.member_votes@.contains_key(
                    ReceiptKey { account: who, vote_type: VoteType::Qualification, round: voting_id },
                ) {
                    Error::MemberAlreadyVoted
                } else if !self.qualification_votes@.contains_key(voting_id) {
                    Error::VoteNotFound
                } else if v.status != VoteStatus::InProgress {
                    Error::VoteNotInProgress
                } else if !(now > v.start && now < v.end) {
                    Error::VotingWindowNotValid
                } else {
                    Error::ArithmeticOverflow
                }
            },
        }
    }

    /// State change of a successful `cast_qualification_vote` by `who`:
    /// one tally grows by one, the receipt is recorded under the
    /// qualification namespace, and a vote-cast notification goes out.
    pub open spec fn cast_qualification_vote_post(
        pre: Pallet,
        post: Pallet,
        who: u64,
        voting_id: u64,
        vote_cast: bool,
    ) -> bool {
        let v0 = pre.qualification_votes@[voting_id];
        let v1 = (Vote {
            yes_votes: if vote_cast {
                (v0.yes_votes + 1) as u64
            } else {
                v0.yes_votes
            },
            no_votes: if vote_cast {
                v0.no_votes
            } else {
                (v0.no_votes + 1) as u64
            },
            ..v0
        });
        &&& post.qualification_votes@ == pre.qualification_votes@.insert(voting_id, v1)
        &&& post.member_votes@ == pre.member_votes@.insert(
            (ReceiptKey { account: who, vote_type: VoteType::Qualification, round: voting_id }),
            vote_cast,
        )
        &&& post.verification_votes == pre.verification_votes
        &&& post.qualification_votes_count == pre.qualification_votes_count
        &&& post.verification_votes_count == pre.verification_votes_count
        &&& Pallet::docs_unchanged(pre, post)
        &&& Pallet::roles_unchanged(pre, post)
        &&& Pallet::config_unchanged(pre, post)
        &&& post.nft == pre.nft
        &&& post.events@ == pre.events@.push(Event::VoteCast(0, voting_id))
    }

    /// Casts a qualification vote: a signed qualifier may vote once per
    /// round, at a tick strictly after the round opened and strictly
    /// before its window ends.
    pub fn cast_qualification_vote(
        &mut self,
        origin: Origin,
        voting_id: u64,
        vote_cast: bool,
        now: u64,
    ) -> (r: Result<(), Error>)
        requires
            old(self).wf(),
        ensures
            final(self).wf(),
            match r {
                Ok(_) => old(self).cast_qualification_vote_ok(origin, voting_id, vote_cast, now)
                    && (match origin {
                    Origin::Signed(who) => Pallet::cast_qualification_vote_post(
                        *old(self),
                        *final(self),
                        who,
                        voting_id,
                        vote_cast,
                    ),
                    Origin::Root => false,
                }),
                Err(e) => !old(self).cast_qualification_vote_ok(origin, voting_id, vote_cast, now)
                    && e == old(self).cast_qualification_vote_err(origin, voting_id, vote_cast, now)
                    && *final(self) == *old(self),
            },
    {
        let who = match origin {
            Origin::Signed(w) => w,
            Origin::Root => {
                return Err(Error::BadOrigin);
            },
        };
        if !self.ensure_qualifier(who) {
            return Err(Error::NotAQualifier);
        }
        let key = ReceiptKey { account: who, vote_type: VoteType::Qualification, round: voting_id };
        if self.member_votes.contains_key(key) {
            return Err(Error::MemberAlreadyVoted);
        }
        let vote: Vote = match self.qualification_votes.get(voting_id) {
            Some(v) => *v,
            None => {
                return Err(Error::VoteNotFound);
            },
        };
        if vote.status != VoteStatus::InProgress {
            return Err(Error::VoteNotInProgress);
        }
        if !(now > vote.start && now < vote.end) {
            return Err(Error::VotingWindowNotValid);
        }
        let updated: Vote = if vote_cast {
            if vote.yes_votes == u64::MAX {
                return Err(Error::ArithmeticOverflow);
            }
            Vote { yes_votes: vote.yes_votes + 1, ..vote }
        } else {
            if vote.no_votes == u64::MAX {
                return Err(Error::ArithmeticOverflow);
            }
            Vote { no_votes: vote.no_votes + 1, ..vote }
        };
        self.qualification_votes.insert(voting_id, updated);
        self.member_votes.insert(key, vote_cast);
        self.events.push(Event::VoteCast(0, voting_id));
        Ok(())
    }

    /// Success condition of `cast_verification_vote`: as the
    /// qualification twin, but gated on the contributor role and the
    /// verification receipt namespace.
    pub open spec fn cast_verification_vote_ok(
        self,
        origin: Origin,
        voting_id: u64,
        vote_cast: bool,
        now: u64,
    ) -> bool {
        match origin {
            Origin::Root => false,
            Origin::Signed(who) => {
                let v = self.verification_votes@[voting_id];
                &&& self.contributors@.contains(who)
                &&& !self.member_votes@.contains_key(
                    ReceiptKey { account: who, vote_type: VoteType::Verification, round: voting_id },
                )
                &&& self.verification_votes@.contains_key(voting_id)
                &&& v.status == VoteStatus::InProgress
                &&& now > v.start
                &&& now < v.end
                &&& (if vote_cast {
                    v.yes_votes < u64::MAX
                } else {
                    v.no_votes < u64::MAX
                })
            },
        }
    }

    /// The error `cast_verification_vote` returns when it fails;
    /// meaningful only when the success condition does not hold.
    pub open spec fn cast_verification_vote_err(
        self,
        origin: Origin,
        voting_id: u64,
        vote_cast: bool,
        now: u64,
    ) -> Error {
        match origin {
            Origin::Root => Error::BadOrigin,
            Origin::Signed(who) => {
                let v = self.verification_votes@[voting_id];
                if !self.contributors@.contains(who) {
                    Error::NotAContributor
                } else if self.member_votes@.contains_key(
                    ReceiptKey { account: who, vote_type: VoteType::Verification, round: voting_id },
                ) {
                    Error::MemberAlreadyVoted
                } else if !self.verification_votes@.contains_key(voting_id) {
                    Error::VoteNotFound
                } else if v.status != VoteStatus::InProgress {
                    Error::VoteNotInProgress
                } else if !(now > v.start && now < v.end) {
                    Error::VotingWindowNotValid
                } else {
                    Error::ArithmeticOverflow
                }
            },
        }
    }

    /// State change of a successful `cast_verification_vote` by `who`.
    pub open spec fn cast_verification_vote_post(
        pre: Pallet,
        post: Pallet,
        who: u64,
        voting_id: u64,
        vote_cast: bool,
    ) -> bool {
        let v0 = pre.verification_votes@[voting_id];
        let v1 = (Vote {
            yes_votes: if vote_cast {
                (v0.yes_votes + 1) as u64
            } else {
                v0.yes_votes
            },
            no_votes: if vote_cast {
                v0.no_votes
            } else {
                (v0.no_votes + 1) as u64
            },
            ..v0
        });
        &&& post.verification_votes@ == pre.verification_votes@.insert(voting_id, v1)
        &&& post.member_votes@ == pre.member_votes@.insert(
            (ReceiptKey { account: who, vote_type: VoteType::Verification, round: voting_id }),
            vote_cast,
        )
        &&& post.qualification_votes == pre.qualification_votes
        &&& post.qualification_votes_count == pre.qualification_votes_count
        &&& post.verification_votes_count == pre.verification_votes_count
        &&& Pallet::docs_unchanged(pre, post)
        &&& Pallet::roles_unchanged(pre, post)
        &&& Pallet::config_unchanged(pre, post)
        &&& post.nft == pre.nft
        &&& post.events@ == pre.events@.push(Event::VoteCast(1, voting_id))
    }

    /// Casts a verification vote: a signed contributor may vote once per
    /// round, strictly inside the round's window.
    pub fn cast_verification_vote(
        &mut self,
        origin: Origin,
        voting_id: u64,
        vote_cast: bool,
        now: u64,
    ) -> (r: Result<(), Error>)
        requires
            old(self).wf(),
        ensures
            final(self).wf(),
            match r {
                Ok(_) => old(self).cast_verification_vote_ok(origin, voting_id, vote_cast, now)
                    && (match origin {
                    Origin::Signed(who) => Pallet::cast_verification_vote_post(
                        *old(self),
                        *final(self),
                        who,
                        voting_id,
                        vote_cast,
                    ),
                    Origin::Root => false,
                }),
                Err(e) => !old(self).cast_verification_vote_ok(origin, voting_id, vote_cast, now)
                    && e == old(self).cast_verification_vote_err(origin, voting_id, vote_cast, now)
                    && *final(self) == *old(self),
            },
    {
        let who = match origin {
            Origin::Signed(w) => w,
            Origin::Root => {
                return Err(Error::BadOrigin);
            },
        };
        if !self.ensure_contributor(who) {
            return Err(Error::NotAContributor);
        }
        let key = ReceiptKey { account: who, vote_type: VoteType::Verification, round: voting_id };
        if self.member_votes.contains_key(key) {
            return Err(Error::MemberAlreadyVoted);
        }
        let vote: Vote = match self.verification_votes.get(voting_id) {
            Some(v) => *v,
            None => {
                return Err(Error::VoteNotFound);
            },
        };
        if vote.status != VoteStatus::InProgress {
            return Err(Error::VoteNotInProgress);
        }
        if !(now > vote.start && now < vote.end) {
            return Err(Error::VotingWindowNotValid);
        }
        let updated: Vote = if vote_cast {
            if vote.yes_votes == u64::MAX {
                return Err(Error::ArithmeticOverflow);
            }
            Vote { yes_votes: vote.yes_votes + 1, ..vote }
        } else {
            if vote.no_votes == u64::MAX {
                return Err(Error::ArithmeticOverflow);
            }
            Vote { no_votes: vote.no_votes + 1, ..vote }
        };
        self.verification_votes.insert(voting_id, updated);
        self.member_votes.insert(key, vote_cast);
        self.events.push(Event::VoteCast(1, voting_id));
        Ok(())
    }

    /// Success condition of `finalize_qualification_voting`: a signed
    /// qualifier, an `InProgress` round whose document stands at
    /// `UnderReview`, a tick strictly past the window's end, and a total
    /// that fits.
    pub open spec fn finalize_qualification_voting_ok(
        self,
        origin: Origin,
        voting_id: u64,
        now: u64,
    ) -> bool {
        match origin {
            Origin::Root => false,
            Origin::Signed(who) => {
                let v = self.qualification_votes@[voting_id];
                &&& self.qualifiers@.contains(who)
                &&& self.qualification_votes@.contains_key(voting_id)
                &&& v.status == VoteStatus::InProgress
                &&& self.documents@.contains_key(v.document_id)
                &&& self.documents@[v.document_id].status == DocumentStatus::UnderReview
                &&& now > v.end
                &&& v.yes_votes + v.no_votes <= u64::MAX
            },
        }
    }

    /// The error `finalize_qualification_voting` returns when it fails;
    /// meaningful only when the success condition does not hold.
    pub open spec fn finalize_qualification_voting_err(
        self,
        origin: Origin,
        voting_id: u64,
        now: u64,
    ) -> Error {
        match origin {
            Origin::Root => Error::BadOrigin,
            Origin::Signed(who) => {
                let v = self.qualification_votes@[voting_id];
                if !self.qualifiers@.contains(who) {
                    Error::NotAQualifier
                } else if !self.qualification_votes@.contains_key(voting_id) {
                    Error::VoteNotFound
                } else if v.status != VoteStatus::InProgress {
                    Error::VoteNotInProgress
                } else if !self.documents@.contains_key(v.document_id) {
                    Error::DocumentNotFound
                } else if self.documents@[v.document_id].status != DocumentStatus::UnderReview {
                    Error::DocumentNotUnderReview
                } else if !(now > v.end) {
                    Error::VoteStillInProgress
                } else {
                    Error::ArithmeticOverflow
                }
            },
        }
    }

    /// State change of a successful `finalize_qualification_voting`,
    /// tallied against the quorum configured at this moment: on a met
    /// quorum and strict yes-majority the round passes and the document
    /// advances to `SuccessfulReview`; on a missed quorum or a tally
    /// without that majority (a tie fails) the round fails and the
    /// document is `Rejected`.
    pub open spec fn finalize_qualification_voting_post(
        pre: Pallet,
        post: Pallet,
        voting_id: u64,
    ) -> bool {
        let v0 = pre.qualification_votes@[voting_id];
        let did = v0.document_id;
        let pass = round_passes(v0.yes_votes, v0.no_votes, pre.qualification_quorum);
        let d0 = pre.documents@[did];
        let d1 = post.documents@[did];
        &&& post.qualification_votes@ == pre.qualification_votes@.insert(
            voting_id,
            (Vote {
                status: if pass {
                    VoteStatus::Passed
                } else {
                    VoteStatus::Failed
                },
                ..v0
            }),
        )
        &&& post.documents@.contains_key(did)
        &&& d1.creator == d0.creator
        &&& d1.title == d0.title
        &&& d1.description == d0.description
        &&& d1.format == d0.format
        &&& d1.hash == d0.hash
        &&& d1.status == (if pass {
            DocumentStatus::SuccessfulReview
        } else {
            DocumentStatus::Rejected
        })
        &&& status_edge(d0.status, d1.status)
        &&& post.documents@.remove(did) == pre.documents@.remove(did)
        &&& post.total_items == pre.total_items
        &&& post.verification_votes == pre.verification_votes
        &&& post.qualification_votes_count == pre.qualification_votes_count
        &&& post.verification_votes_count == pre.verification_votes_count
        &&& post.member_votes == pre.member_votes
        &&& Pallet::roles_unchanged(pre, post)
        &&& Pallet::config_unchanged(pre, post)
        &&& post.nft == pre.nft
        &&& post.events@ == pre.events@.push(
            Event::DocumentStatusUpdated(
                did,
                spec_status_code(
                    if pass {
                        DocumentStatus::SuccessfulReview
                    } else {
                        DocumentStatus::Rejected
                    },
                ),
            ),
        ).push(Event::QualificationVotingEnded(voting_id))
    }

    /// Finalizes a qualification round once its window has elapsed. The
    /// quorum is read now, not at the round's opening. A round that is
    /// no longer `InProgress` is refused, so finalization happens at
    /// most once.
    pub fn finalize_qualification_voting(&mut self, origin: Origin, voting_id: u64, now: u64) -> (r:
        Result<(), Error>)
        requires
            old(self).wf(),
        ensures
            final(self).wf(),
            match r {
                Ok(_) => old(self).finalize_qualification_voting_ok(origin, voting_id, now)
                    && Pallet::finalize_qualification_voting_post(*old(self), *final(self), voting_id),
                Err(e) => !old(self).finalize_qualification_voting_ok(origin, voting_id, now) && e
                    == old(self).finalize_qualification_voting_err(origin, voting_id, now)
                    && *final(self) == *old(self),
            },
    {
        let who = match origin {
            Origin::Signed(w) => w,
            Origin::Root => {
                return Err(Error::BadOrigin);
            },
        };
        if !self.ensure_qualifier(who) {
            return Err(Error::NotAQualifier);
        }
        let vote: Vote = match self.qualification_votes.get(voting_id) {
            Some(v) => *v,
            None => {
                return Err(Error::VoteNotFound);
            },
        };
        if vote.status != VoteStatus::InProgress {
            return Err(Error::VoteNotInProgress);
        }
        match self.documents.get(vote.document_id) {
            None => {
                return Err(Error::DocumentNotFound);
            },
            Some(d) => {
                if d.status != DocumentStatus::UnderReview {
                    return Err(Error::DocumentNotUnderReview);
                }
            },
        }
        if !(now > vote.end) {
            return Err(Error::VoteStillInProgress);
        }
        if vote.yes_votes > u64::MAX - vote.no_votes {
            return Err(Error::ArithmeticOverflow);
        }
        let total_votes: u64 = vote.yes_votes + vote.no_votes;
        let quorum: u64 = self.qualification_quorum as u64;
        let pass: bool = total_votes >= quorum && vote.yes_votes > vote.no_votes;
        let updated = Vote {
            status: if pass {
                VoteStatus::Passed
            } else {
                VoteStatus::Failed
            },
            ..vote
        };
        self.qualification_votes.insert(voting_id, updated);
        let mut document = match self.documents.remove(vote.document_id) {
            Some(d) => d,
            None => {
                proof {
                    assert(false);
                }
                return Err(Error::DocumentNotFound);
            },
        };
        document.status = if pass {
            DocumentStatus::SuccessfulReview
        } else {
            DocumentStatus::Rejected
        };
        self.documents.insert(vote.document_id, document);
        self.events.push(
            Event::DocumentStatusUpdated(
                vote.document_id,
                if pass {
                    2
                } else {
                    5
                },
            ),
        );
        self.events.push(Event::QualificationVotingEnded(voting_id));
        proof {
            assert(self.documents@.remove(vote.document_id) =~= old(self).documents@.remove(
                vote.document_id,
            ));
        }
        Ok(())
    }

    /// Success condition of `finalize_verification_voting`: a signed
    /// qualifier or contributor, an `InProgress` round whose document
    /// stands at `VoteInProgress`, a tick strictly past the window's
    /// end, and a total that fits.
    pub open spec fn finalize_verification_voting_ok(
        self,
        origin: Origin,
        voting_id: u64,
        now: u64,
    ) -> bool {
        match origin {
            Origin::Root => false,
            Origin::Signed(who) => {
                let v = self.verification_votes@[voting_id];
                &&& (self.qualifiers@.contains(who) || self.contributors@.contains(who))
                &&& self.verification_votes@.contains_key(voting_id)
                &&& v.status == VoteStatus::InProgress
                &&& self.documents@.contains_key(v.document_id)
                &&& self.documents@[v.document_id].status == DocumentStatus::VoteInProgress
                &&& now > v.end
                &&& v.yes_votes + v.no_votes <= u64::MAX
            },
        }
    }

    /// The error `finalize_verification_voting` returns when it fails;
    /// meaningful only when the success condition does not hold.
    pub open spec fn finalize_verification_voting_err(
        self,
        origin: Origin,
        voting_id: u64,
        now: u64,
    ) -> Error {
        match origin {
            Origin::Root => Error::BadOrigin,
            Origin::Signed(who) => {
                let v = self.verification_votes@[voting_id];
                if !(self.qualifiers@.contains(who) || self.contributors@.contains(who)) {
                    Error::NotAuthorized
                } else if !self.verification_votes@.contains_key(voting_id) {
                    Error::VoteNotFound
                } else if v.status != VoteStatus::InProgress {
                    Error::VoteNotInProgress
                } else if !self.documents@.contains_key(v.document_id) {
                    Error::DocumentNotFound
                } else if self.documents@[v.document_id].status != DocumentStatus::VoteInProgress {
                    Error::IncorrectDocumentStatus
                } else if !(now > v.end) {
                    Error::VoteStillInProgress
                } else {
                    Error::ArithmeticOverflow
                }
            },
        }
    }

    /// State change of a successful `finalize_verification_voting`: on a
    /// met quorum and strict yes-majority the round passes and the
    /// document is `Verified`; otherwise the round fails and the
    /// document is `Rejected`.
    pub open spec fn finalize_verification_voting_post(
        pre: Pallet,
        post: Pallet,
        voting_id: u64,
    ) -> bool {
        let v0 = pre.verification_votes@[voting_id];
        let did = v0.document_id;
        let pass = round_passes(v0.yes_votes, v0.no_votes, pre.verification_quorum);
        let d0 = pre.documents@[did];
        let d1 = post.documents@[did];
        &&& post.verification_votes@ == pre.verification_votes@.insert(
            voting_id,
            (Vote {
                status: if pass {
                    VoteStatus::Passed
                } else {
                    VoteStatus::Failed
                },
                ..v0
            }),
        )
        &&& post.documents@.contains_key(did)
        &&& d1.creator == d0.creator
        &&& d1.title == d0.title
        &&& d1.description == d0.description
        &&& d1.format == d0.format
        &&& d1.hash == d0.hash
        &&& d1.status == (if pass {
            DocumentStatus::Verified
        } else {
            DocumentStatus::Rejected
        })
        &&& status_edge(d0.status, d1.status)
        &&& post.documents@.remove(did) == pre.documents@.remove(did)
        &&& post.total_items == pre.total_items
        &&& post.qualification_votes == pre.qualification_votes
        &&& post.qualification_votes_count == pre.qualification_votes_count
        &&& post.verification_votes_count == pre.verification_votes_count
        &&& post.member_votes == pre.member_votes
        &&& Pallet::roles_unchanged(pre, post)
        &&& Pallet::config_unchanged(pre, post)
        &&& post.nft == pre.nft
        &&& post.events@ == pre.events@.push(
            Event::DocumentStatusUpdated(
                did,
                spec_status_code(
                    if pass {
                        DocumentStatus::Verified
                    } else {
                        DocumentStatus::Rejected
                    },
                ),
            ),
        ).push(Event::VerificationVotingEnded(voting_id))
    }

    /// Finalizes a verification round once its window has elapsed; the
    /// verification twin of `finalize_qualification_voting`.
    pub fn finalize_verification_voting(&mut self, origin: Origin, voting_id: u64, now: u64) -> (r:
        Result<(), Error>)
        requires
            old(self).wf(),
        ensures
            final(self).wf(),
            match r {
                Ok(_) => old(self).finalize_verification_voting_ok(origin, voting_id, now)
                    && Pallet::finalize_verification_voting_post(*old(self), *final(self), voting_id),
                Err(e) => !old(self).finalize_verification_voting_ok(origin, voting_id, now) && e
                    == old(self).finalize_verification_voting_err(origin, voting_id, now)
                    && *final(self) == *old(self),
            },
    {
        let who = match origin {
            Origin::Signed(w) => w,
            Origin::Root => {
                return Err(Error::BadOrigin);
            },
        };
        if !self.ensure_qualifier(who) && !self.ensure_contributor(who) {
            return Err(Error::NotAuthorized);
        }
        let vote: Vote = match self.verification_votes.get(voting_id) {
            Some(v) => *v,
            None => {
                return Err(Error::VoteNotFound);
            },
        };
        if vote.status != VoteStatus::InProgress {
            return Err(Error::VoteNotInProgress);
        }
        match self.documents.get(vote.document_id) {
            None => {
                return Err(Error::DocumentNotFound);
            },
            Some(d) => {
                if d.status != DocumentStatus::VoteInProgress {
                    return Err(Error::IncorrectDocumentStatus);
                }
            },
        }
        if !(now > vote.end) {
            return Err(Error::VoteStillInProgress);
        }
        if vote.yes_votes > u64::MAX - vote.no_votes {
            return Err(Error::ArithmeticOverflow);
        }
        let total_votes: u64 = vote.yes_votes + vote.no_votes;
        let quorum: u64 = self.verification_quorum as u64;
        let pass: bool = total_votes >= quorum && vote.yes_votes > vote.no_votes;
        let updated = Vote {
            status: if pass {
                VoteStatus::Passed
            } else {
                VoteStatus::Failed
            },
            ..vote
        };
        self.verification_votes.insert(voting_id, updated);
        let mut document = match self.documents.remove(vote.document_id) {
            Some(d) => d,
            None => {
                proof {
                    assert(false);
                }
                return Err(Error::DocumentNotFound);
            },
        };
        document.status = if pass {
            DocumentStatus::Verified
        } else {
            DocumentStatus::Rejected
        };
        self.documents.insert(vote.document_id, document);
        self.events.push(
            Event::DocumentStatusUpdated(
                vote.document_id,
                if pass {
                    4
                } else {
                    5
                },
            ),
        );
        self.events.push(Event::VerificationVotingEnded(voting_id));
        proof {
            assert(self.documents@.remove(vote.document_id) =~= old(self).documents@.remove(
                vote.document_id,
            ));
        }
        Ok(())
    }

    /// Sets up the three role collections in the ledger, best-effort and
    /// in role order, each capped at its fixed maximum membership.
    /// Privileged-caller only; a creation failure (an id already taken)
    /// is swallowed and the remaining creations still run.
    pub fn init_collections(&mut self, origin: Origin, now: u64) -> (r: Result<(), Error>)
        requires
            old(self).wf(),
        ensures
            final(self).wf(),
            match r {
                Ok(_) => {
                    &&& origin == Origin::Root
                    &&& exists|s1: nft::Pallet, s2: nft::Pallet|
                        #[trigger] best_effort_create(old(self).nft, s1, 1, 200, qualifiers_label(), now)
                            && #[trigger] best_effort_create(s1, s2, 2, 100, collectors_label(), now)
                            && best_effort_create(s2, final(self).nft, 3, 1000, contributors_label(), now)
                    &&& Pallet::roles_unchanged(*old(self), *final(self))
                    &&& Pallet::config_unchanged(*old(self), *final(self))
                    &&& Pallet::docs_unchanged(*old(self), *final(self))
                    &&& Pallet::votes_unchanged(*old(self), *final(self))
                    &&& final(self).events == old(self).events
                },
                Err(e) => origin != Origin::Root && e == Error::BadOrigin && *final(self) == *old(
                    self,
                ),
            },
    {
        if origin != Origin::Root {
            return Err(Error::BadOrigin);
        }
        let max_qualifiers: u32 = 200;
        let max_collectors: u32 = 100;
        let max_contributors: u32 = 1000;
        let _ = self.nft.create_collection(
            origin,
            collection_id(Roles::QualifierRole),
            max_qualifiers,
            qualifiers_metadata(),
            now,
        );
        let ghost s1 = self.nft;
        let _ = self.nft.create_collection(
            origin,
            collection_id(Roles::CollectorRole),
            max_collectors,
            collectors_metadata(),
            now,
        );
        let ghost s2 = self.nft;
        let _ = self.nft.create_collection(
            origin,
            collection_id(Roles::ContributorRole),
            max_contributors,
            contributors_metadata(),
            now,
        );
        proof {
            assert(best_effort_create(old(self).nft, s1, 1, 200, qualifiers_label(), now));
            assert(best_effort_create(s1, s2, 2, 100, collectors_label(), now));
            assert(best_effort_create(s2, self.nft, 3, 1000, contributors_label(), now));
        }
        Ok(())
    }

    /// How many documents were ever issued.
    pub fn get_total_items(&self) -> (r: u64)
        ensures
            r == self.total_items,
    {
        self.total_items
    }

    /// The qualifier membership counter.
    pub fn qualifiers_uid_count(&self) -> (r: u32)
        ensures
            r == self.qualifiers_count,
    {
        self.qualifiers_count
    }

    /// The collector membership counter.
    pub fn collectors_uid_count(&self) -> (r: u32)
        ensures
            r == self.collectors_count,
    {
        self.collectors_count
    }

    /// The contributor membership counter.
    pub fn contributors_uid_count(&self) -> (r: u32)
        ensures
            r == self.contributors_count,
    {
        self.contributors_count
    }

    /// The qualification voting window in force.
    pub fn get_qualification_voting_window(&self) -> (r: u32)
        ensures
            r == self.qualification_voting_window,
    {
        self.qualification_voting_window
    }

    /// The verification voting window in force.
    pub fn get_verification_voting_window(&self) -> (r: u32)
        ensures
            r == self.verification_voting_window,
    {
        self.verification_voting_window
    }

    /// The qualification quorum in force.
    pub fn get_qualification_quorum(&self) -> (r: u32)
        ensures
            r == self.qualification_quorum,
    {
        self.qualification_quorum
    }

    /// The verification quorum in force.
    pub fn get_verification_quorum(&self) -> (r: u32)
        ensures
            r == self.verification_quorum,
    {
        self.verification_quorum
    }

    /// How many qualification rounds were ever opened.
    pub fn get_qualification_vote_count(&self) -> (r: u64)
        ensures
            r == self.qualification_votes_count,
    {
        self.qualification_votes_count
    }

    /// How many verification rounds were ever opened.
    pub fn get_verification_vote_count(&self) -> (r: u64)
        ensures
            r == self.verification_votes_count,
    {
        self.verification_votes_count
    }

    /// The document under `id`, if any.
    pub fn get_document(&self, id: u64) -> (r: Option<&Document>)
        requires
            self.wf(),
        ensures
            match r {
                Some(d) => self.documents@.contains_key(id) && *d == self.documents@[id],
                None => !self.documents@.contains_key(id),
            },
    {
        self.documents.get(id)
    }

    /// The qualification round under `id`, if any.
    pub fn get_qualification_vote(&self, id: u64) -> (r: Option<Vote>)
        requires
            self.wf(),
        ensures
            match r {
                Some(v) => self.qualification_votes@.contains_key(id) && v
                    == self.qualification_votes@[id],
                None => !self.qualification_votes@.contains_key(id),
            },
    {
        match self.qualification_votes.get(id) {
            Some(v) => Some(*v),
            None => None,
        }
    }

    /// The verification round under `id`, if any.
    pub fn get_verification_vote(&self, id: u64) -> (r: Option<Vote>)
        requires
            self.wf(),
        ensures
            match r {
                Some(v) => self.verification_votes@.contains_key(id) && v
                    == self.verification_votes@[id],
                None => !self.verification_votes@.contains_key(id),
            },
    {
        match self.verification_votes.get(id) {
            Some(v) => Some(*v),
            None => None,
        }
    }
}

/// The metadata label of the qualifier collection.
pub open spec fn qualifiers_label() -> Seq<u8> {
    seq![81u8, 117u8, 97u8, 108u8, 105u8, 102u8, 105u8, 101u8, 114u8, 115u8]
}

/// The metadata label of the collector collection.
pub open spec fn collectors_label() -> Seq<u8> {
    seq![67u8, 111u8, 108u8, 108u8, 101u8, 99u8, 116u8, 111u8, 114u8, 115u8]
}

/// The metadata label of the contributor collection.
pub open spec fn contributors_label() -> Seq<u8> {
    seq![67u8, 111u8, 110u8, 116u8, 114u8, 105u8, 98u8, 117u8, 116u8, 111u8, 114u8, 115u8]
}

fn qualifiers_metadata() -> (r: Vec<u8>)
    ensures
        r@ == qualifiers_label(),
{
    let mut v: Vec<u8> = Vec::new();
    v.push(81);
    v.push(117);
    v.push(97);
    v.push(108);
    v.push(105);
    v.push(102);
    v.push(105);
    v.push(101);
    v.push(114);
    v.push(115);
    proof {
        assert(v@ =~= qualifiers_label());
    }
    v
}

fn collectors_metadata() -> (r: Vec<u8>)
    ensures
        r@ == collectors_label(),
{
    let mut v: Vec<u8> = Vec::new();
    v.push(67);
    v.push(111);
    v.push(108);
    v.push(108);
    v.push(101);
    v.push(99);
    v.push(116);
    v.push(111);
    v.push(114);
    v.push(115);
    proof {
        assert(v@ =~= collectors_label());
    }
    v
}



/// A document moves only along the review pipeline's edges: under any
/// of the four voting-engine steps, every stored document either keeps
/// its status or takes one pipeline edge — no step moves a document
/// backward or skips a state. (The administrative status override is
/// deliberately not bound by this.)
pub proof fn lemma_pipeline_moves_along_edges(pre: Pallet, post: Pallet, id: u64, now: u64)
    requires
        Pallet::create_qualification_voting_post(pre, post, id, now) || Pallet::create_verification_voting_post(
            pre,
            post,
            id,
            now,
        ) || Pallet::finalize_qualification_voting_post(pre, post, id)
            || Pallet::finalize_verification_voting_post(pre, post, id),
    ensures
        forall|d: u64| #![auto]
            pre.documents@.contains_key(d) && post.documents@.contains_key(d) ==> (
            post.documents@[d].status == pre.documents@[d].status || status_edge(
                pre.documents@[d].status,
                post.documents@[d].status,
            )),
{
    if Pallet::create_qualification_voting_post(pre, post, id, now) {
        assert forall|d: u64| #![auto]
            pre.documents@.contains_key(d) && post.documents@.contains_key(d) implies (
        post.documents@[d].status == pre.documents@[d].status || status_edge(
            pre.documents@[d].status,
            post.documents@[d].status,
        )) by {
            if d != id {
                assert(post.documents@.remove(id)[d] == pre.documents@.remove(id)[d]);
            }
        }
    } else if Pallet::create_verification_voting_post(pre, post, id, now) {
        assert forall|d: u64| #![auto]
            pre.documents@.contains_key(d) && post.documents@.contains_key(d) implies (
        post.documents@[d].status == pre.documents@[d].status || status_edge(
            pre.documents@[d].status,
            post.documents@[d].status,
        )) by {
            if d != id {
                assert(post.documents@.remove(id)[d] == pre.documents@.remove(id)[d]);
            }
        }
    } else if Pallet::finalize_qualification_voting_post(pre, post, id) {
        let did = pre.qualification_votes@[id].document_id;
        assert forall|d: u64| #![auto]
            pre.documents@.contains_key(d) && post.documents@.contains_key(d) implies (
        post.documents@[d].status == pre.documents@[d].status || status_edge(
            pre.documents@[d].status,
            post.documents@[d].status,
        )) by {
            if d != did {
                assert(post.documents@.remove(did)[d] == pre.documents@.remove(did)[d]);
            }
        }
    } else {
        let did = pre.verification_votes@[id].document_id;
        assert forall|d: u64| #![auto]
            pre.documents@.contains_key(d) && post.documents@.contains_key(d) implies (
        post.documents@[d].status == pre.documents@[d].status || status_edge(
            pre.documents@[d].status,
            post.documents@[d].status,
        )) by {
            if d != did {
                assert(post.documents@.remove(did)[d] == pre.documents@.remove(did)[d]);
            }
        }
    }
}

/// After a role set grew by `who`, the account is a member, and granting
/// the qualifier role to it again cannot succeed: with the authority
/// calling and counter room left, the refusal is the duplicate error.
pub proof fn lemma_add_qualifier_exactly_once(pre: Pallet, post: Pallet, who: u64)
    requires
        role_set_added(pre.qualifiers@, post.qualifiers@, who),
    ensures
        post.qualifiers@.contains(who),
        !post.add_qualifier_ok(Origin::Root, who),
        post.qualifiers_count < u32::MAX ==> post.add_qualifier_err(Origin::Root, who)
            == Error::QualifierAlreadyExists,
{
}

/// The collector twin of `lemma_add_qualifier_exactly_once`.
pub proof fn lemma_add_collector_exactly_once(pre: Pallet, post: Pallet, who: u64)
    requires
        role_set_added(pre.collectors@, post.collectors@, who),
    ensures
        post.collectors@.contains(who),
        !post.add_collector_ok(Origin::Root, who),
        post.collectors_count < u32::MAX ==> post.add_collector_err(Origin::Root, who)
            == Error::CollectorAlreadyExists,
{
}

/// The contributor twin of `lemma_add_qualifier_exactly_once`.
pub proof fn lemma_add_contributor_exactly_once(pre: Pallet, post: Pallet, who: u64)
    requires
        role_set_added(pre.contributors@, post.contributors@, who),
    ensures
        post.contributors@.contains(who),
        !post.add_contributor_ok(Origin::Root, who),
        post.contributors_count < u32::MAX ==> post.add_contributor_err(Origin::Root, who)
            == Error::ContributorAlreadyExists,
{
}

/// Once a receipt exists for `(who, Qualification, round)`, a further
/// qualification vote by `who` in that round is refused as a duplicate,
/// whatever the choice being cast and whatever the tick.
pub proof fn lemma_duplicate_qualification_vote_refused(
    s: Pallet,
    who: u64,
    voting_id: u64,
    vote_cast: bool,
    now: u64,
)
    requires
        s.qualifiers@.contains(who),
        s.member_votes@.contains_key(
            ReceiptKey { account: who, vote_type: VoteType::Qualification, round: voting_id },
        ),
    ensures
        !s.cast_qualification_vote_ok(Origin::Signed(who), voting_id, vote_cast, now),
        s.cast_qualification_vote_err(Origin::Signed(who), voting_id, vote_cast, now)
            == Error::MemberAlreadyVoted,
{
}

/// The verification twin of
/// `lemma_duplicate_qualification_vote_refused`.
pub proof fn lemma_duplicate_verification_vote_refused(
    s: Pallet,
    who: u64,
    voting_id: u64,
    vote_cast: bool,
    now: u64,
)
    requires
        s.contributors@.contains(who),
        s.member_votes@.contains_key(
            ReceiptKey { account: who, vote_type: VoteType::Verification, round: voting_id },
        ),
    ensures
        !s.cast_verification_vote_ok(Origin::Signed(who), voting_id, vote_cast, now),
        s.cast_verification_vote_err(Origin::Signed(who), voting_id, vote_cast, now)
            == Error::MemberAlreadyVoted,
{
}

/// The voting window is strict on both sides: with every other condition
/// in place, a qualification vote is accepted exactly at the ticks
/// strictly between the round's start and end, and a tick at or outside
/// either bound is refused as an invalid window.
pub proof fn lemma_qualification_window_strict(
    s: Pallet,
    who: u64,
    voting_id: u64,
    vote_cast: bool,
    now: u64,
)
    requires
        s.qualifiers@.contains(who),
        !s.member_votes@.contains_key(
            ReceiptKey { account: who, vote_type: VoteType::Qualification, round: voting_id },
        ),
        s.qualification_votes@.contains_key(voting_id),
        s.qualification_votes@[voting_id].status == VoteStatus::InProgress,
        if vote_cast {
            s.qualification_votes@[voting_id].yes_votes < u64::MAX
        } else {
            s.qualification_votes@[voting_id].no_votes < u64::MAX
        },
    ensures
        s.cast_qualification_vote_ok(Origin::Signed(who), voting_id, vote_cast, now) <==> (now
            > s.qualification_votes@[voting_id].start && now
            < s.qualification_votes@[voting_id].end),
        (now <= s.qualification_votes@[voting_id].start || now
            >= s.qualification_votes@[voting_id].end) ==> s.cast_qualification_vote_err(
            Origin::Signed(who),
            voting_id,
            vote_cast,
            now,
        ) == Error::VotingWindowNotValid,
{
}

/// The verification twin of `lemma_qualification_window_strict`.
pub proof fn lemma_verification_window_strict(
    s: Pallet,
    who: u64,
    voting_id: u64,
    vote_cast: bool,
    now: u64,
)
    requires
        s.contributors@.contains(who),
        !s.member_votes@.contains_key(
            ReceiptKey { account: who, vote_type: VoteType::Verification, round: voting_id },
        ),
        s.verification_votes@.contains_key(voting_id),
        s.verification_votes@[voting_id].status == VoteStatus::InProgress,
        if vote_cast {
            s.verification_votes@[voting_id].yes_votes < u64::MAX
        } else {
            s.verification_votes@[voting_id].no_votes < u64::MAX
        },
    ensures
        s.cast_verification_vote_ok(Origin::Signed(who), voting_id, vote_cast, now) <==> (now
            > s.verification_votes@[voting_id].start && now
            < s.verification_votes@[voting_id].end),
        (now <= s.verification_votes@[voting_id].start || now
            >= s.verification_votes@[voting_id].end) ==> s.cast_verification_vote_err(
            Origin::Signed(who),
            voting_id,
            vote_cast,
            now,
        ) == Error::VotingWindowNotValid,
{
}

/// A qualification round cannot be finalized at any tick at or before
/// its window's end: the call is refused as still in progress.
pub proof fn lemma_finalize_qualification_waits(s: Pallet, who: u64, voting_id: u64, now: u64)
    requires
        s.qualifiers@.contains(who),
        s.qualification_votes@.contains_key(voting_id),
        s.qualification_votes@[voting_id].status == VoteStatus::InProgress,
        s.documents@.contains_key(s.qualification_votes@[voting_id].document_id),
        s.documents@[s.qualification_votes@[voting_id].document_id].status
            == DocumentStatus::UnderReview,
        now <= s.qualification_votes@[voting_id].end,
    ensures
        !s.finalize_qualification_voting_ok(Origin::Signed(who), voting_id, now),
        s.finalize_qualification_voting_err(Origin::Signed(who), voting_id, now)
            == Error::VoteStillInProgress,
{
}

/// Once a qualification round is finalized, finalizing it again cannot
/// succeed at any tick or for any caller; for a signed qualifier the
/// refusal is the not-in-progress error.
pub proof fn lemma_finalize_qualification_exactly_once(
    pre: Pallet,
    post: Pallet,
    voting_id: u64,
    origin2: Origin,
    now2: u64,
)
    requires
        Pallet::finalize_qualification_voting_post(pre, post, voting_id),
    ensures
        !post.finalize_qualification_voting_ok(origin2, voting_id, now2),
        match origin2 {
            Origin::Signed(who2) => post.qualifiers@.contains(who2)
                ==> post.finalize_qualification_voting_err(origin2, voting_id, now2)
                == Error::VoteNotInProgress,
            Origin::Root => true,
        },
{
    assert(post.qualification_votes@[voting_id].status != VoteStatus::InProgress);
}

/// The verification twin of `lemma_finalize_qualification_waits`.
pub proof fn lemma_finalize_verification_waits(s: Pallet, who: u64, voting_id: u64, now: u64)
    requires
        s.qualifiers@.contains(who) || s.contributors@.contains(who),
        s.verification_votes@.contains_key(voting_id),
        s.verification_votes@[voting_id].status == VoteStatus::InProgress,
        s.documents@.contains_key(s.verification_votes@[voting_id].document_id),
        s.documents@[s.verification_votes@[voting_id].document_id].status
            == DocumentStatus::VoteInProgress,
        now <= s.verification_votes@[voting_id].end,
    ensures
        !s.finalize_verification_voting_ok(Origin::Signed(who), voting_id, now),
        s.finalize_verification_voting_err(Origin::Signed(who), voting_id, now)
            == Error::VoteStillInProgress,
{
}

/// The verification twin of
/// `lemma_finalize_qualification_exactly_once`.
pub proof fn lemma_finalize_verification_exactly_once(
    pre: Pallet,
    post: Pallet,
    voting_id: u64,
    origin2: Origin,
    now2: u64,
)
    requires
        Pallet::finalize_verification_voting_post(pre, post, voting_id),
    ensures
        !post.finalize_verification_voting_ok(origin2, voting_id, now2),
        match origin2 {
            Origin::Signed(who2) => (post.qualifiers@.contains(who2)
                || post.contributors@.contains(who2))
                ==> post.finalize_verification_voting_err(origin2, voting_id, now2)
                == Error::VoteNotInProgress,
            Origin::Root => true,
        },
{
    assert(post.verification_votes@[voting_id].status != VoteStatus::InProgress);
}

/// Quorum is met exactly when the total reaches it — a total equal to
/// the quorum meets it; only a strictly smaller total misses. And a tie
/// is a failing tally, whatever the quorum.
pub proof fn lemma_quorum_boundary(yes: u64, no: u64, quorum: u32)
    ensures
        quorum_met(yes, no, quorum) <==> !(yes + no < quorum),
        yes + no == quorum ==> quorum_met(yes, no, quorum),
        yes == no ==> !tally_passes(yes, no) && !round_passes(yes, no, quorum),
{
}

fn contributors_metadata() -> (r: Vec<u8>)
    ensures
        r@ == contributors_label(),
{
    let mut v: Vec<u8> = Vec::new();
    v.push(67);
    v.push(111);
    v.push(110);
    v.push(116);
    v.push(114);
    v.push(105);
    v.push(98);
    v.push(117);
    v.push(116);
    v.push(111);
    v.push(114);
    v.push(115);
    proof {
        assert(v@ =~= contributors_label());
    }
    v
}

} // verus!
