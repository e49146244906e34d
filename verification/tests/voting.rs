//! Free-vote eligibility, receipt dedup, and the vote operation's guards.

use chum_auction::{initialize, vote};
use chum_auction::{ArtCandidate, ArtEntry, ChumError, Config, ReceiptRegistry, VoteProof};

const AUTH: u64 = 1;
const TEAM: u64 = 2;
const CREATOR: u64 = 3;
const ALICE: u64 = 4;
const BOB: u64 = 5;
const COLL: u64 = 10;
const FELLOW: u64 = 11;
const ASSET: u64 = 100;
const FELLOW_ASSET: u64 = 200;

fn test_config() -> Config {
    initialize(AUTH, TEAM, COLL, FELLOW, 25, 50, 100, 100, 500, 1000, 0).unwrap()
}

fn fresh_candidate() -> ArtCandidate {
    ArtCandidate { mint: ASSET, creator: CREATOR, votes: 0, epoch_joined: 1, won: false, withdrawn: false }
}

fn fellow_proof(holder: u64) -> VoteProof {
    VoteProof::OwnedAsset { asset: FELLOW_ASSET, holder, collection: Some(FELLOW), founder_entry: None }
}

#[test]
fn fellow_asset_earns_a_free_vote() {
    let config = test_config();
    let mut candidate = fresh_candidate();
    let mut receipts = ReceiptRegistry::new();
    let mut balance: u64 = 0;
    let mut treasury: u64 = 0;
    let proofs = vec![fellow_proof(ALICE)];
    let r = vote(&config, &mut candidate, &mut receipts, ALICE, 1, false, &proofs, &mut balance, &mut treasury);
    assert_eq!(r, Ok(()));
    assert_eq!(candidate.votes, 1);
    assert_eq!(receipts.len(), 1);
    assert!(receipts.contains(FELLOW_ASSET, 1));
    // Free votes never move funds.
    assert_eq!(balance, 0);
    assert_eq!(treasury, 0);
}

#[test]
fn receipt_blocks_second_free_vote_without_error() {
    // The same asset in the same epoch grants zero further votes, and the
    // second attempt is not an error.
    let config = test_config();
    let mut candidate = fresh_candidate();
    let mut receipts = ReceiptRegistry::new();
    let mut balance: u64 = 0;
    let mut treasury: u64 = 0;
    let proofs = vec![fellow_proof(ALICE)];
    vote(&config, &mut candidate, &mut receipts, ALICE, 1, false, &proofs, &mut balance, &mut treasury).unwrap();
    assert_eq!(candidate.votes, 1);
    let again = vote(&config, &mut candidate, &mut receipts, ALICE, 1, false, &proofs, &mut balance, &mut treasury);
    assert_eq!(again, Ok(()));
    assert_eq!(candidate.votes, 1);
    assert_eq!(receipts.len(), 1);
}

#[test]
fn duplicate_proof_in_one_call_counts_once() {
    let config = test_config();
    let mut candidate = fresh_candidate();
    let mut receipts = ReceiptRegistry::new();
    let mut balance: u64 = 0;
    let mut treasury: u64 = 0;
    let proofs = vec![fellow_proof(ALICE), fellow_proof(ALICE)];
    let r = vote(&config, &mut candidate, &mut receipts, ALICE, 5, false, &proofs, &mut balance, &mut treasury);
    assert_eq!(r, Ok(()));
    assert_eq!(candidate.votes, 1);
    assert_eq!(receipts.len(), 1);
}

#[test]
fn zero_request_with_valid_proof_still_grants_one() {
    let config = test_config();
    let mut candidate = fresh_candidate();
    let mut receipts = ReceiptRegistry::new();
    let mut balance: u64 = 0;
    let mut treasury: u64 = 0;
    let proofs = vec![fellow_proof(ALICE)];
    let r = vote(&config, &mut candidate, &mut receipts, ALICE, 0, false, &proofs, &mut balance, &mut treasury);
    assert_eq!(r, Ok(()));
    assert_eq!(candidate.votes, 1);
}

#[test]
fn grants_are_clamped_to_the_request() {
    let config = test_config();
    let mut candidate = fresh_candidate();
    let mut receipts = ReceiptRegistry::new();
    let mut balance: u64 = 0;
    let mut treasury: u64 = 0;
    let proofs = vec![
        VoteProof::OwnedAsset { asset: 201, holder: ALICE, collection: Some(FELLOW), founder_entry: None },
        VoteProof::OwnedAsset { asset: 202, holder: ALICE, collection: Some(FELLOW), founder_entry: None },
        VoteProof::OwnedAsset { asset: 203, holder: ALICE, collection: Some(FELLOW), founder_entry: None },
    ];
    let r = vote(&config, &mut candidate, &mut receipts, ALICE, 2, false, &proofs, &mut balance, &mut treasury);
    assert_eq!(r, Ok(()));
    // Two votes granted, but all three receipts are consumed.
    assert_eq!(candidate.votes, 2);
    assert_eq!(receipts.len(), 3);
}

#[test]
fn artwork_asset_needs_founder_key_backing() {
    let config = test_config();
    let mut receipts = ReceiptRegistry::new();
    let mut balance: u64 = 0;
    let mut treasury: u64 = 0;

    // Backed by a genuine founder-key entry: grants.
    let mut candidate = fresh_candidate();
    let backed = vec![VoteProof::OwnedAsset {
        asset: 300,
        holder: ALICE,
        collection: Some(COLL),
        founder_entry: Some(ArtEntry { mint: 300, creator: CREATOR, is_founder_key: true, epoch_won: 1 }),
    }];
    let r = vote(&config, &mut candidate, &mut receipts, ALICE, 1, false, &backed, &mut balance, &mut treasury);
    assert_eq!(r, Ok(()));
    assert_eq!(candidate.votes, 1);

    // Entry without founder status: skipped, no vote, no error.
    let mut candidate2 = fresh_candidate();
    let unbacked = vec![VoteProof::OwnedAsset {
        asset: 301,
        holder: ALICE,
        collection: Some(COLL),
        founder_entry: Some(ArtEntry { mint: 301, creator: CREATOR, is_founder_key: false, epoch_won: 1 }),
    }];
    let r2 = vote(&config, &mut candidate2, &mut receipts, ALICE, 1, false, &unbacked, &mut balance, &mut treasury);
    assert_eq!(r2, Ok(()));
    assert_eq!(candidate2.votes, 0);

    // Entry for a different asset: skipped too.
    let mut candidate3 = fresh_candidate();
    let mismatched = vec![VoteProof::OwnedAsset {
        asset: 302,
        holder: ALICE,
        collection: Some(COLL),
        founder_entry: Some(ArtEntry { mint: 999, creator: CREATOR, is_founder_key: true, epoch_won: 1 }),
    }];
    let r3 = vote(&config, &mut candidate3, &mut receipts, ALICE, 1, false, &mismatched, &mut balance, &mut treasury);
    assert_eq!(r3, Ok(()));
    assert_eq!(candidate3.votes, 0);
}

#[test]
fn own_active_candidacy_earns_a_free_vote() {
    let config = test_config();
    let mut candidate = fresh_candidate();
    let mut receipts = ReceiptRegistry::new();
    let mut balance: u64 = 0;
    let mut treasury: u64 = 0;
    let other = ArtCandidate { mint: 400, creator: ALICE, votes: 3, epoch_joined: 1, won: false, withdrawn: false };
    let proofs = vec![VoteProof::Candidacy { record: other }];
    let r = vote(&config, &mut candidate, &mut receipts, ALICE, 1, false, &proofs, &mut balance, &mut treasury);
    assert_eq!(r, Ok(()));
    assert_eq!(candidate.votes, 1);
    assert!(receipts.contains(400, 1));
}

#[test]
fn won_or_foreign_candidacy_is_skipped() {
    let config = test_config();
    let mut candidate = fresh_candidate();
    let mut receipts = ReceiptRegistry::new();
    let mut balance: u64 = 0;
    let mut treasury: u64 = 0;
    let won = ArtCandidate { mint: 401, creator: ALICE, votes: 3, epoch_joined: 1, won: true, withdrawn: false };
    let foreign = ArtCandidate { mint: 402, creator: BOB, votes: 3, epoch_joined: 1, won: false, withdrawn: false };
    let proofs = vec![
        VoteProof::Candidacy { record: won },
        VoteProof::Candidacy { record: foreign },
        VoteProof::Unrecognized,
    ];
    let r = vote(&config, &mut candidate, &mut receipts, ALICE, 3, false, &proofs, &mut balance, &mut treasury);
    assert_eq!(r, Ok(()));
    assert_eq!(candidate.votes, 0);
    assert_eq!(receipts.len(), 0);
}

#[test]
fn asset_held_by_someone_else_is_skipped() {
    let config = test_config();
    let mut candidate = fresh_candidate();
    let mut receipts = ReceiptRegistry::new();
    let mut balance: u64 = 0;
    let mut treasury: u64 = 0;
    let proofs = vec![fellow_proof(BOB)];
    let r = vote(&config, &mut candidate, &mut receipts, ALICE, 1, false, &proofs, &mut balance, &mut treasury);
    assert_eq!(r, Ok(()));
    assert_eq!(candidate.votes, 0);
    assert_eq!(receipts.len(), 0);
}

#[test]
fn vote_rejects_paused_system() {
    let mut config = test_config();
    config.paused = true;
    let mut candidate = fresh_candidate();
    let mut receipts = ReceiptRegistry::new();
    let mut balance: u64 = 1_000;
    let mut treasury: u64 = 0;
    let proofs: Vec<VoteProof> = Vec::new();
    let r = vote(&config, &mut candidate, &mut receipts, ALICE, 1, true, &proofs, &mut balance, &mut treasury);
    assert_eq!(r, Err(ChumError::SystemPaused));
}

#[test]
fn vote_rejects_finished_candidates() {
    let config = test_config();
    let mut receipts = ReceiptRegistry::new();
    let mut balance: u64 = 1_000;
    let mut treasury: u64 = 0;
    let proofs: Vec<VoteProof> = Vec::new();

    let mut won = ArtCandidate { won: true, ..fresh_candidate() };
    let r = vote(&config, &mut won, &mut receipts, ALICE, 1, true, &proofs, &mut balance, &mut treasury);
    assert_eq!(r, Err(ChumError::AlreadyWon));

    let mut withdrawn = ArtCandidate { withdrawn: true, ..fresh_candidate() };
    let r2 = vote(&config, &mut withdrawn, &mut receipts, ALICE, 1, true, &proofs, &mut balance, &mut treasury);
    assert_eq!(r2, Err(ChumError::AlreadyWithdrawn));
}

#[test]
fn receipts_are_per_epoch() {
    // A receipt from epoch 1 does not block the same asset in epoch 2.
    let mut config = test_config();
    let mut candidate = fresh_candidate();
    let mut receipts = ReceiptRegistry::new();
    let mut balance: u64 = 0;
    let mut treasury: u64 = 0;
    let proofs = vec![fellow_proof(ALICE)];
    vote(&config, &mut candidate, &mut receipts, ALICE, 1, false, &proofs, &mut balance, &mut treasury).unwrap();
    config.current_epoch = 2;
    let r = vote(&config, &mut candidate, &mut receipts, ALICE, 1, false, &proofs, &mut balance, &mut treasury);
    assert_eq!(r, Ok(()));
    assert_eq!(candidate.votes, 2);
    assert!(receipts.contains(FELLOW_ASSET, 1));
    assert!(receipts.contains(FELLOW_ASSET, 2));
}
