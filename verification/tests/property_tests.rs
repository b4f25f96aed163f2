use bhdao::dao::{Error, Event, Pallet};
use bhdao::nft;
use bhdao::{DocumentStatus, Origin, VoteStatus, DEFAULT_QUALIFICATION_VOTING_WINDOW};

fn dao_with_doc() -> Pallet {
    let mut dao = Pallet::new();
    assert!(dao.add_contributor(Origin::Root, 2).is_ok());
    assert!(dao.add_qualifier(Origin::Root, 4).is_ok());
    assert!(dao
        .create_document(
            Origin::Signed(2),
            b"Doc1".to_vec(),
            b"Test1".to_vec(),
            b"pdf".to_vec(),
            b"https://ipfs.hash".to_vec(),
        )
        .is_ok());
    dao
}

#[test]
fn role_membership_after_add() {
    let mut dao = Pallet::new();
    assert!(dao.add_qualifier(Origin::Root, 7).is_ok());
    assert!(dao.ensure_qualifier(7));
    assert!(!dao.ensure_collector(7));
    assert!(!dao.ensure_contributor(7));
    assert_eq!(dao.add_qualifier(Origin::Root, 7), Err(Error::QualifierAlreadyExists));
    assert!(dao.add_collector(Origin::Root, 7).is_ok());
    assert!(dao.ensure_collector(7));
    assert_eq!(dao.add_collector(Origin::Root, 7), Err(Error::CollectorAlreadyExists));
    assert!(dao.add_contributor(Origin::Root, 7).is_ok());
    assert!(dao.ensure_contributor(7));
    assert_eq!(dao.add_contributor(Origin::Root, 7), Err(Error::ContributorAlreadyExists));
}

#[test]
fn document_pipeline_happy_path() {
    let mut dao = dao_with_doc();
    assert_eq!(dao.get_total_items(), 1);
    assert_eq!(dao.get_document(1).unwrap().status, DocumentStatus::Submitted);

    // Default window: round 1 spans (10, 10 + 14400).
    assert!(dao.create_qualification_voting(Origin::Signed(4), 1, 10).is_ok());
    assert_eq!(dao.get_document(1).unwrap().status, DocumentStatus::UnderReview);
    let round = dao.get_qualification_vote(1).unwrap();
    assert_eq!(round.start, 10);
    assert_eq!(round.end, 10 + DEFAULT_QUALIFICATION_VOTING_WINDOW as u64);
    assert_eq!(round.status, VoteStatus::InProgress);

    assert!(dao.cast_qualification_vote(Origin::Signed(4), 1, true, 11).is_ok());
    assert!(dao.finalize_qualification_voting(Origin::Signed(4), 1, 14411).is_ok());
    assert_eq!(dao.get_qualification_vote(1).unwrap().status, VoteStatus::Passed);
    assert_eq!(dao.get_document(1).unwrap().status, DocumentStatus::SuccessfulReview);

    assert!(dao.create_verification_voting(Origin::Signed(2), 1, 14420).is_ok());
    assert_eq!(dao.get_document(1).unwrap().status, DocumentStatus::VoteInProgress);
    assert!(dao.cast_verification_vote(Origin::Signed(2), 1, true, 14421).is_ok());
    assert!(dao.finalize_verification_voting(Origin::Signed(2), 1, 28821).is_ok());
    assert_eq!(dao.get_verification_vote(1).unwrap().status, VoteStatus::Passed);
    assert_eq!(dao.get_document(1).unwrap().status, DocumentStatus::Verified);
}

#[test]
fn tie_tally_fails_round() {
    let mut dao = dao_with_doc();
    assert!(dao.add_qualifier(Origin::Root, 5).is_ok());
    assert!(dao.set_qualification_voting_window(Origin::Root, 100).is_ok());
    assert!(dao.create_qualification_voting(Origin::Signed(4), 1, 10).is_ok());
    assert!(dao.cast_qualification_vote(Origin::Signed(4), 1, true, 20).is_ok());
    assert!(dao.cast_qualification_vote(Origin::Signed(5), 1, false, 20).is_ok());
    assert!(dao.finalize_qualification_voting(Origin::Signed(4), 1, 111).is_ok());
    assert_eq!(dao.get_qualification_vote(1).unwrap().status, VoteStatus::Failed);
    assert_eq!(dao.get_document(1).unwrap().status, DocumentStatus::Rejected);
}

#[test]
fn duplicate_vote_refused_regardless_of_choice() {
    let mut dao = dao_with_doc();
    assert!(dao.set_qualification_voting_window(Origin::Root, 100).is_ok());
    assert!(dao.create_qualification_voting(Origin::Signed(4), 1, 10).is_ok());
    assert!(dao.cast_qualification_vote(Origin::Signed(4), 1, true, 20).is_ok());
    // The opposite choice changes nothing: the receipt alone decides.
    assert_eq!(
        dao.cast_qualification_vote(Origin::Signed(4), 1, false, 21),
        Err(Error::MemberAlreadyVoted)
    );
    assert_eq!(
        dao.cast_qualification_vote(Origin::Signed(4), 1, true, 21),
        Err(Error::MemberAlreadyVoted)
    );
}

#[test]
fn vote_window_strict_on_both_sides() {
    let mut dao = dao_with_doc();
    assert!(dao.add_qualifier(Origin::Root, 5).is_ok());
    assert!(dao.set_qualification_voting_window(Origin::Root, 100).is_ok());
    // Round spans (10, 110): both bounds are excluded.
    assert!(dao.create_qualification_voting(Origin::Signed(4), 1, 10).is_ok());
    assert_eq!(
        dao.cast_qualification_vote(Origin::Signed(4), 1, true, 10),
        Err(Error::VotingWindowNotValid)
    );
    assert_eq!(
        dao.cast_qualification_vote(Origin::Signed(4), 1, true, 110),
        Err(Error::VotingWindowNotValid)
    );
    assert_eq!(
        dao.cast_qualification_vote(Origin::Signed(4), 1, true, 111),
        Err(Error::VotingWindowNotValid)
    );
    assert!(dao.cast_qualification_vote(Origin::Signed(4), 1, true, 11).is_ok());
    assert!(dao.cast_qualification_vote(Origin::Signed(5), 1, true, 109).is_ok());
}

#[test]
fn finalize_only_after_window_and_only_once() {
    let mut dao = dao_with_doc();
    assert!(dao.set_qualification_voting_window(Origin::Root, 100).is_ok());
    assert!(dao.create_qualification_voting(Origin::Signed(4), 1, 10).is_ok());
    assert!(dao.cast_qualification_vote(Origin::Signed(4), 1, true, 20).is_ok());
    // A tick at the end is still inside the round.
    assert_eq!(
        dao.finalize_qualification_voting(Origin::Signed(4), 1, 110),
        Err(Error::VoteStillInProgress)
    );
    assert!(dao.finalize_qualification_voting(Origin::Signed(4), 1, 111).is_ok());
    // A second finalize is refused at the in-progress guard.
    assert_eq!(
        dao.finalize_qualification_voting(Origin::Signed(4), 1, 112),
        Err(Error::VoteNotInProgress)
    );
}

#[test]
fn quorum_boundary_total_equal_quorum_meets_it() {
    let mut dao = dao_with_doc();
    assert!(dao.add_qualifier(Origin::Root, 5).is_ok());
    assert!(dao.add_qualifier(Origin::Root, 6).is_ok());
    assert!(dao.set_qualification_quorum(Origin::Root, 3).is_ok());
    assert!(dao.set_qualification_voting_window(Origin::Root, 100).is_ok());
    assert!(dao.create_qualification_voting(Origin::Signed(4), 1, 10).is_ok());
    assert!(dao.cast_qualification_vote(Origin::Signed(4), 1, true, 20).is_ok());
    assert!(dao.cast_qualification_vote(Origin::Signed(5), 1, true, 20).is_ok());
    assert!(dao.cast_qualification_vote(Origin::Signed(6), 1, false, 20).is_ok());
    // Total 3 against quorum 3: met, and the majority passes the round.
    assert!(dao.finalize_qualification_voting(Origin::Signed(4), 1, 111).is_ok());
    assert_eq!(dao.get_qualification_vote(1).unwrap().status, VoteStatus::Passed);
    assert_eq!(dao.get_document(1).unwrap().status, DocumentStatus::SuccessfulReview);
}

#[test]
fn quorum_boundary_total_below_quorum_fails() {
    let mut dao = dao_with_doc();
    assert!(dao.add_qualifier(Origin::Root, 5).is_ok());
    assert!(dao.add_qualifier(Origin::Root, 6).is_ok());
    assert!(dao.set_qualification_quorum(Origin::Root, 4).is_ok());
    assert!(dao.set_qualification_voting_window(Origin::Root, 100).is_ok());
    assert!(dao.create_qualification_voting(Origin::Signed(4), 1, 10).is_ok());
    assert!(dao.cast_qualification_vote(Origin::Signed(4), 1, true, 20).is_ok());
    assert!(dao.cast_qualification_vote(Origin::Signed(5), 1, true, 20).is_ok());
    assert!(dao.cast_qualification_vote(Origin::Signed(6), 1, true, 20).is_ok());
    // Total 3 against quorum 4: missed, whatever the tally.
    assert!(dao.finalize_qualification_voting(Origin::Signed(4), 1, 111).is_ok());
    assert_eq!(dao.get_qualification_vote(1).unwrap().status, VoteStatus::Failed);
    assert_eq!(dao.get_document(1).unwrap().status, DocumentStatus::Rejected);
}

#[test]
fn quorum_met_two_yes_one_no_passes() {
    let mut dao = dao_with_doc();
    assert!(dao.add_qualifier(Origin::Root, 5).is_ok());
    assert!(dao.add_qualifier(Origin::Root, 6).is_ok());
    // Quorum stays at its default of zero.
    assert!(dao.set_qualification_voting_window(Origin::Root, 100).is_ok());
    assert!(dao.create_qualification_voting(Origin::Signed(4), 1, 10).is_ok());
    assert!(dao.cast_qualification_vote(Origin::Signed(4), 1, true, 20).is_ok());
    assert!(dao.cast_qualification_vote(Origin::Signed(5), 1, true, 20).is_ok());
    assert!(dao.cast_qualification_vote(Origin::Signed(6), 1, false, 20).is_ok());
    assert!(dao.finalize_qualification_voting(Origin::Signed(4), 1, 111).is_ok());
    assert_eq!(dao.get_qualification_vote(1).unwrap().status, VoteStatus::Passed);
    assert_eq!(dao.get_document(1).unwrap().status, DocumentStatus::SuccessfulReview);
}

#[test]
fn quorum_missed_single_vote_fails_either_way() {
    for choice in [true, false] {
        let mut dao = dao_with_doc();
        assert!(dao.set_qualification_quorum(Origin::Root, 10).is_ok());
        assert!(dao.set_qualification_voting_window(Origin::Root, 100).is_ok());
        assert!(dao.create_qualification_voting(Origin::Signed(4), 1, 10).is_ok());
        assert!(dao.cast_qualification_vote(Origin::Signed(4), 1, choice, 20).is_ok());
        assert!(dao.finalize_qualification_voting(Origin::Signed(4), 1, 111).is_ok());
        assert_eq!(dao.get_qualification_vote(1).unwrap().status, VoteStatus::Failed);
        assert_eq!(dao.get_document(1).unwrap().status, DocumentStatus::Rejected);
    }
}

#[test]
fn token_capacity_cycle() {
    let mut nft = nft::Pallet::new();
    assert!(nft.create_collection(Origin::Root, 1, 1, b"Qualifier".to_vec(), 1).is_ok());
    assert!(nft.mint(Origin::Root, 1, 1).is_ok());
    assert_eq!(nft.get_active_tokens(1), 1);
    assert_eq!(nft.mint(Origin::Root, 1, 2), Err(nft::Error::TokenMaxSupplyReached));
    assert!(nft.burn(Origin::Signed(1), 1).is_ok());
    assert_eq!(nft.get_active_tokens(1), 0);
    // The freed capacity can be minted again; the sequence id moves on.
    assert!(nft.mint(Origin::Root, 1, 2).is_ok());
    assert_eq!(nft.get_token(2, 1).unwrap().id, 2);
    assert_eq!(nft.get_total_tokens(1), 2);
    assert_eq!(nft.get_active_tokens(1), 1);
}

#[test]
fn bad_origin_is_refused_everywhere() {
    let mut dao = Pallet::new();
    assert_eq!(dao.add_qualifier(Origin::Signed(1), 1), Err(Error::BadOrigin));
    assert_eq!(dao.add_collector(Origin::Signed(1), 1), Err(Error::BadOrigin));
    assert_eq!(dao.add_contributor(Origin::Signed(1), 1), Err(Error::BadOrigin));
    assert_eq!(dao.init_collections(Origin::Signed(1), 1), Err(Error::BadOrigin));
    assert_eq!(dao.set_qualification_voting_window(Origin::Signed(1), 5), Err(Error::BadOrigin));
    assert_eq!(dao.set_verification_voting_window(Origin::Signed(1), 5), Err(Error::BadOrigin));
    assert_eq!(dao.set_qualification_quorum(Origin::Signed(1), 5), Err(Error::BadOrigin));
    assert_eq!(dao.set_verification_quorum(Origin::Signed(1), 5), Err(Error::BadOrigin));
    assert_eq!(
        dao.create_document(Origin::Root, b"a".to_vec(), b"b".to_vec(), b"c".to_vec(), b"d".to_vec()),
        Err(Error::BadOrigin)
    );
    assert_eq!(dao.create_qualification_voting(Origin::Root, 1, 1), Err(Error::BadOrigin));
    assert_eq!(dao.create_verification_voting(Origin::Root, 1, 1), Err(Error::BadOrigin));
    assert_eq!(dao.cast_qualification_vote(Origin::Root, 1, true, 1), Err(Error::BadOrigin));
    assert_eq!(dao.cast_verification_vote(Origin::Root, 1, true, 1), Err(Error::BadOrigin));
    assert_eq!(dao.finalize_qualification_voting(Origin::Root, 1, 1), Err(Error::BadOrigin));
    assert_eq!(dao.finalize_verification_voting(Origin::Root, 1, 1), Err(Error::BadOrigin));

    let mut nft = nft::Pallet::new();
    assert_eq!(
        nft.create_collection(Origin::Signed(1), 1, 10, b"x".to_vec(), 1),
        Err(nft::Error::BadOrigin)
    );
    assert_eq!(nft.mint(Origin::Signed(1), 1, 1), Err(nft::Error::BadOrigin));
    assert_eq!(nft.burn(Origin::Root, 1), Err(nft::Error::BadOrigin));
}

#[test]
fn role_gates_are_enforced() {
    let mut dao = dao_with_doc();
    // Account 9 holds no role at all.
    assert_eq!(dao.create_qualification_voting(Origin::Signed(9), 1, 1), Err(Error::NotAQualifier));
    assert_eq!(dao.cast_qualification_vote(Origin::Signed(9), 1, true, 1), Err(Error::NotAQualifier));
    assert_eq!(
        dao.finalize_qualification_voting(Origin::Signed(9), 1, 1),
        Err(Error::NotAQualifier)
    );
    assert_eq!(dao.cast_verification_vote(Origin::Signed(9), 1, true, 1), Err(Error::NotAContributor));
    assert_eq!(dao.create_verification_voting(Origin::Signed(9), 1, 1), Err(Error::NotAuthorized));
    assert_eq!(dao.finalize_verification_voting(Origin::Signed(9), 1, 1), Err(Error::NotAuthorized));
    assert_eq!(
        dao.create_document(Origin::Signed(9), b"a".to_vec(), b"b".to_vec(), b"c".to_vec(), b"d".to_vec()),
        Err(Error::NotAContributor)
    );
}

#[test]
fn empty_document_fields_are_refused_each_with_its_error() {
    let mut dao = Pallet::new();
    assert!(dao.add_contributor(Origin::Root, 2).is_ok());
    assert_eq!(
        dao.create_document(Origin::Signed(2), b"".to_vec(), b"b".to_vec(), b"c".to_vec(), b"d".to_vec()),
        Err(Error::DocumentTitleNotProvided)
    );
    assert_eq!(
        dao.create_document(Origin::Signed(2), b"a".to_vec(), b"".to_vec(), b"c".to_vec(), b"d".to_vec()),
        Err(Error::DocumentDescriptionNotProvided)
    );
    assert_eq!(
        dao.create_document(Origin::Signed(2), b"a".to_vec(), b"b".to_vec(), b"".to_vec(), b"d".to_vec()),
        Err(Error::DocumentFormatNotProvided)
    );
    assert_eq!(
        dao.create_document(Origin::Signed(2), b"a".to_vec(), b"b".to_vec(), b"c".to_vec(), b"".to_vec()),
        Err(Error::DocumentIPFSHashNotProvided)
    );
    assert_eq!(dao.get_total_items(), 0);
}

#[test]
fn missing_records_are_reported() {
    let mut dao = dao_with_doc();
    assert_eq!(dao.create_qualification_voting(Origin::Signed(4), 9, 1), Err(Error::DocumentNotFound));
    assert_eq!(dao.update_document_status(9, 1), Err(Error::DocumentNotFound));
    assert_eq!(dao.cast_qualification_vote(Origin::Signed(4), 9, true, 1), Err(Error::VoteNotFound));
    assert_eq!(dao.cast_verification_vote(Origin::Signed(2), 9, true, 1), Err(Error::VoteNotFound));
    assert_eq!(dao.finalize_qualification_voting(Origin::Signed(4), 9, 1), Err(Error::VoteNotFound));
    assert_eq!(dao.finalize_verification_voting(Origin::Signed(2), 9, 1), Err(Error::VoteNotFound));
    let mut nft = nft::Pallet::new();
    assert_eq!(nft.mint(Origin::Root, 1, 1), Err(nft::Error::CollectionDoesNotExist));
}

#[test]
fn wrong_document_status_is_reported() {
    let mut dao = dao_with_doc();
    assert!(dao.set_qualification_voting_window(Origin::Root, 100).is_ok());
    assert!(dao.create_qualification_voting(Origin::Signed(4), 1, 10).is_ok());
    // The document left `Submitted`, so a second round cannot open.
    assert_eq!(
        dao.create_qualification_voting(Origin::Signed(4), 1, 11),
        Err(Error::VerificationVoteAlreadyCreated)
    );
    // It is not reviewed yet either.
    assert_eq!(dao.create_verification_voting(Origin::Signed(2), 1, 11), Err(Error::DocumentNotReviewed));
    // Overriding the document's status away strands the round.
    assert!(dao.update_document_status(1, 0).is_ok());
    assert_eq!(
        dao.finalize_qualification_voting(Origin::Signed(4), 1, 111),
        Err(Error::DocumentNotUnderReview)
    );
}

#[test]
fn incorrect_status_blocks_verification_finalize() {
    let mut dao = dao_with_doc();
    assert!(dao.set_qualification_voting_window(Origin::Root, 100).is_ok());
    assert!(dao.set_verification_voting_window(Origin::Root, 100).is_ok());
    assert!(dao.create_qualification_voting(Origin::Signed(4), 1, 10).is_ok());
    assert!(dao.cast_qualification_vote(Origin::Signed(4), 1, true, 20).is_ok());
    assert!(dao.finalize_qualification_voting(Origin::Signed(4), 1, 111).is_ok());
    assert!(dao.create_verification_voting(Origin::Signed(2), 1, 120).is_ok());
    // Overriding the document's status away strands the round.
    assert!(dao.update_document_status(1, 2).is_ok());
    assert_eq!(
        dao.finalize_verification_voting(Origin::Signed(2), 1, 221),
        Err(Error::IncorrectDocumentStatus)
    );
}

#[test]
fn cast_on_settled_round_is_refused() {
    let mut dao = dao_with_doc();
    assert!(dao.add_qualifier(Origin::Root, 5).is_ok());
    assert!(dao.set_qualification_voting_window(Origin::Root, 100).is_ok());
    assert!(dao.create_qualification_voting(Origin::Signed(4), 1, 10).is_ok());
    assert!(dao.cast_qualification_vote(Origin::Signed(4), 1, true, 20).is_ok());
    assert!(dao.finalize_qualification_voting(Origin::Signed(4), 1, 111).is_ok());
    // Qualifier 5 never voted, so the round's settled state decides.
    assert_eq!(
        dao.cast_qualification_vote(Origin::Signed(5), 1, true, 20),
        Err(Error::VoteNotInProgress)
    );
}

#[test]
fn zero_window_is_refused() {
    let mut dao = Pallet::new();
    assert_eq!(dao.set_qualification_voting_window(Origin::Root, 0), Err(Error::VotingWindowNotValid));
    assert_eq!(dao.set_verification_voting_window(Origin::Root, 0), Err(Error::VotingWindowNotValid));
    assert_eq!(dao.get_qualification_voting_window(), 14400);
    assert_eq!(dao.get_verification_voting_window(), 14400);
    // A quorum of zero, by contrast, is accepted.
    assert!(dao.set_qualification_quorum(Origin::Root, 0).is_ok());
    assert!(dao.set_verification_quorum(Origin::Root, 0).is_ok());
}

#[test]
fn counter_overflow_fails_closed() {
    let mut dao = Pallet::new();
    dao.qualifiers_count = u32::MAX;
    assert_eq!(dao.add_qualifier(Origin::Root, 1), Err(Error::ArithmeticOverflow));
    assert!(!dao.ensure_qualifier(1));

    let mut dao2 = Pallet::new();
    assert!(dao2.add_contributor(Origin::Root, 2).is_ok());
    dao2.total_items = u64::MAX;
    assert_eq!(
        dao2.create_document(Origin::Signed(2), b"a".to_vec(), b"b".to_vec(), b"c".to_vec(), b"d".to_vec()),
        Err(Error::ArithmeticOverflow)
    );

    let mut dao3 = dao_with_doc();
    dao3.qualification_votes_count = u64::MAX;
    assert_eq!(dao3.create_qualification_voting(Origin::Signed(4), 1, 1), Err(Error::ArithmeticOverflow));

    let mut nft = nft::Pallet::new();
    nft.total_collections = u32::MAX;
    assert_eq!(
        nft.create_collection(Origin::Root, 1, 10, b"x".to_vec(), 1),
        Err(nft::Error::ArithmeticOverflow)
    );
}

#[test]
fn duplicate_collection_is_refused() {
    let mut nft = nft::Pallet::new();
    assert!(nft.create_collection(Origin::Root, 1, 10, b"x".to_vec(), 1).is_ok());
    assert_eq!(
        nft.create_collection(Origin::Root, 1, 20, b"y".to_vec(), 2),
        Err(nft::Error::CollectionExists)
    );
    assert_eq!(nft.get_total_collections(), 1);
    assert_eq!(nft.get_collection(1).unwrap().total_supply, 10);
}

#[test]
fn status_override_follows_codes() {
    let mut dao = dao_with_doc();
    assert!(dao.update_document_status(1, 1).is_ok());
    assert_eq!(dao.get_document(1).unwrap().status, DocumentStatus::UnderReview);
    assert!(dao.update_document_status(1, 2).is_ok());
    assert_eq!(dao.get_document(1).unwrap().status, DocumentStatus::SuccessfulReview);
    assert!(dao.update_document_status(1, 3).is_ok());
    assert_eq!(dao.get_document(1).unwrap().status, DocumentStatus::VoteInProgress);
    assert!(dao.update_document_status(1, 4).is_ok());
    assert_eq!(dao.get_document(1).unwrap().status, DocumentStatus::Verified);
    assert!(dao.update_document_status(1, 5).is_ok());
    assert_eq!(dao.get_document(1).unwrap().status, DocumentStatus::Rejected);
    assert!(dao.update_document_status(1, 0).is_ok());
    assert_eq!(dao.get_document(1).unwrap().status, DocumentStatus::Submitted);
    // A code past the range leaves the status in force.
    assert!(dao.update_document_status(1, 99).is_ok());
    assert_eq!(dao.get_document(1).unwrap().status, DocumentStatus::Submitted);
}

#[test]
fn init_collections_is_best_effort() {
    let mut dao = Pallet::new();
    assert!(dao.init_collections(Origin::Root, 1).is_ok());
    assert_eq!(dao.nft.get_total_collections(), 3);
    assert_eq!(dao.nft.get_collection(1).unwrap().total_supply, 200);
    assert_eq!(dao.nft.get_collection(2).unwrap().total_supply, 100);
    assert_eq!(dao.nft.get_collection(3).unwrap().total_supply, 1000);
    assert_eq!(dao.nft.get_collection(1).unwrap().metadata, b"Qualifiers".to_vec());
    assert_eq!(dao.nft.get_collection(2).unwrap().metadata, b"Collectors".to_vec());
    assert_eq!(dao.nft.get_collection(3).unwrap().metadata, b"Contributors".to_vec());
    // Running it again cannot re-create the collections, and the
    // failures are swallowed.
    assert!(dao.init_collections(Origin::Root, 2).is_ok());
    assert_eq!(dao.nft.get_total_collections(), 3);
}

#[test]
fn role_grant_mints_membership_token_best_effort() {
    let mut dao = Pallet::new();
    assert!(dao.init_collections(Origin::Root, 1).is_ok());
    assert!(dao.add_qualifier(Origin::Root, 7).is_ok());
    assert_eq!(dao.nft.get_active_tokens(1), 1);
    assert_eq!(dao.nft.get_token(7, 1).unwrap().id, 1);
    // Without the collections the mint quietly fails but the role grant
    // still succeeds.
    let mut bare = Pallet::new();
    assert!(bare.add_qualifier(Origin::Root, 7).is_ok());
    assert!(bare.ensure_qualifier(7));
    assert_eq!(bare.nft.get_total_collections(), 0);
}

#[test]
fn notifications_carry_counter_and_ids() {
    let mut dao = Pallet::new();
    assert!(dao.add_qualifier(Origin::Root, 1).is_ok());
    assert!(dao.add_qualifier(Origin::Root, 2).is_ok());
    assert_eq!(dao.events.last(), Some(&Event::QualifierAdded(2, 2)));
    assert!(dao.add_contributor(Origin::Root, 2).is_ok());
    assert!(dao
        .create_document(Origin::Signed(2), b"a".to_vec(), b"b".to_vec(), b"c".to_vec(), b"d".to_vec())
        .is_ok());
    assert_eq!(dao.events.last(), Some(&Event::DocumentCreated(2, 1)));
}
