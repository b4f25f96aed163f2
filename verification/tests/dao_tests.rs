use bhdao::dao::{Error, Pallet};
use bhdao::Origin;

#[test]
fn it_adds_qualifier_should_work() {
    let mut dao = Pallet::new();
    assert!(dao.add_qualifier(Origin::Root, 1).is_ok());
    assert_eq!(dao.qualifiers_uid_count(), 1);
}

#[test]
fn it_adds_qualifier_should_fail() {
    let mut dao = Pallet::new();
    assert!(dao.add_qualifier(Origin::Root, 1).is_ok());
    assert_eq!(dao.add_qualifier(Origin::Root, 1), Err(Error::QualifierAlreadyExists));
}

#[test]
fn it_adds_contributor_should_work() {
    let mut dao = Pallet::new();
    assert!(dao.add_contributor(Origin::Root, 1).is_ok());
    assert_eq!(dao.contributors_uid_count(), 1);
}

#[test]
fn it_adds_contributor_should_fail() {
    let mut dao = Pallet::new();
    assert!(dao.add_contributor(Origin::Root, 1).is_ok());
    assert_eq!(dao.add_contributor(Origin::Root, 1), Err(Error::ContributorAlreadyExists));
}

#[test]
fn it_adds_collector_should_work() {
    let mut dao = Pallet::new();
    assert!(dao.add_collector(Origin::Root, 1).is_ok());
    assert_eq!(dao.collectors_uid_count(), 1);
}

#[test]
fn it_adds_collector_should_fail() {
    let mut dao = Pallet::new();
    assert!(dao.add_collector(Origin::Root, 1).is_ok());
    assert_eq!(dao.add_collector(Origin::Root, 1), Err(Error::CollectorAlreadyExists));
}

#[test]
fn it_creates_document_should_work() {
    let mut dao = Pallet::new();
    assert!(dao.add_contributor(Origin::Root, 2).is_ok());
    assert!(dao
        .create_document(
            Origin::Signed(2),
            b"Doc1".to_vec(),
            b"Test1".to_vec(),
            b"pdf".to_vec(),
            b"https://ipfs.hash".to_vec(),
        )
        .is_ok());
    assert_eq!(dao.get_total_items(), 1);
}

#[test]
fn it_changes_qualification_voting_window_should_work() {
    let mut dao = Pallet::new();
    assert_eq!(dao.get_qualification_voting_window(), 14400u32);
    assert!(dao.set_qualification_voting_window(Origin::Root, 1000u32).is_ok());
    assert_eq!(dao.get_qualification_voting_window(), 1000u32);
}

#[test]
fn it_changes_verification_voting_window_should_work() {
    let mut dao = Pallet::new();
    assert_eq!(dao.get_verification_voting_window(), 14400u32);
    assert!(dao.set_verification_voting_window(Origin::Root, 1000u32).is_ok());
    assert_eq!(dao.get_verification_voting_window(), 1000u32);
}

#[test]
fn it_creates_qualification_voting_should_work() {
    let mut dao = Pallet::new();
    assert!(dao.add_contributor(Origin::Root, 2).is_ok());
    assert!(dao
        .create_document(
            Origin::Signed(2),
            b"Doc1".to_vec(),
            b"Test1".to_vec(),
            b"pdf".to_vec(),
            b"https://ipfs.hash".to_vec(),
        )
        .is_ok());
    assert_eq!(dao.get_total_items(), 1);
    assert!(dao.add_qualifier(Origin::Root, 4).is_ok());
    assert!(dao.create_qualification_voting(Origin::Signed(4), 1, 1).is_ok());
}

#[test]
fn it_changes_qualification_quorum_should_work() {
    let mut dao = Pallet::new();
    assert_eq!(dao.get_qualification_quorum(), 0u32);
    assert!(dao.set_qualification_quorum(Origin::Root, 10u32).is_ok());
    assert_eq!(dao.get_qualification_quorum(), 10u32);
}

#[test]
fn it_changes_verification_quorum_should_work() {
    let mut dao = Pallet::new();
    assert_eq!(dao.get_verification_quorum(), 0u32);
    assert!(dao.set_verification_quorum(Origin::Root, 1000u32).is_ok());
    assert_eq!(dao.get_verification_quorum(), 1000u32);
}

#[test]
fn it_creates_and_finalizes_qualification_voting_should_work() {
    let mut dao = Pallet::new();
    assert!(dao.add_contributor(Origin::Root, 2).is_ok());
    assert!(dao
        .create_document(
            Origin::Signed(2),
            b"Doc1".to_vec(),
            b"Test1".to_vec(),
            b"pdf".to_vec(),
            b"https://ipfs.hash".to_vec(),
        )
        .is_ok());
    assert_eq!(dao.get_total_items(), 1);
    assert!(dao.add_qualifier(Origin::Root, 4).is_ok());
    assert!(dao.create_qualification_voting(Origin::Signed(4), 1, 1).is_ok());
}

#[test]
fn it_casts_votes_and_verifies_voting_should_work() {
    let mut dao = Pallet::new();
    assert!(dao.init_collections(Origin::Root, 1).is_ok());
    // Three contributors.
    assert!(dao.add_contributor(Origin::Root, 1).is_ok());
    assert!(dao.add_contributor(Origin::Root, 2).is_ok());
    assert!(dao.add_contributor(Origin::Root, 3).is_ok());
    // Three qualifiers.
    assert!(dao.add_qualifier(Origin::Root, 4).is_ok());
    assert!(dao.add_qualifier(Origin::Root, 5).is_ok());
    assert!(dao.add_qualifier(Origin::Root, 6).is_ok());

    // A new document.
    assert!(dao
        .create_document(
            Origin::Signed(2),
            b"Doc1".to_vec(),
            b"Test1".to_vec(),
            b"pdf".to_vec(),
            b"https://ipfs.hash".to_vec(),
        )
        .is_ok());
    assert_eq!(dao.get_total_items(), 1);

    // At tick 10: qualification window becomes 100 ticks.
    assert!(dao.set_qualification_voting_window(Origin::Root, 100u32).is_ok());

    // At tick 15: qualification voting opens for document 1.
    assert!(dao.create_qualification_voting(Origin::Signed(4), 1, 15).is_ok());

    // At tick 20: two yeas, one nay.
    assert!(dao.cast_qualification_vote(Origin::Signed(4), 1, true, 20).is_ok());
    assert!(dao.cast_qualification_vote(Origin::Signed(5), 1, true, 20).is_ok());
    assert!(dao.cast_qualification_vote(Origin::Signed(6), 1, false, 20).is_ok());

    // At tick 120, past the window's end: finalize qualification.
    assert!(dao.finalize_qualification_voting(Origin::Signed(4), 1, 120).is_ok());

    // Verification window becomes 100 ticks.
    assert!(dao.set_verification_voting_window(Origin::Root, 100u32).is_ok());

    // At tick 150: verification voting opens for document 1.
    assert!(dao.create_verification_voting(Origin::Signed(2), 1, 150).is_ok());

    // At tick 155: two yeas, one nay.
    assert!(dao.cast_verification_vote(Origin::Signed(1), 1, true, 155).is_ok());
    assert!(dao.cast_verification_vote(Origin::Signed(2), 1, true, 155).is_ok());
    assert!(dao.cast_verification_vote(Origin::Signed(3), 1, false, 155).is_ok());

    // At tick 255, past the window's end: finalize verification.
    assert!(dao.finalize_verification_voting(Origin::Signed(2), 1, 255).is_ok());
}
