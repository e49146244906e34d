//! The economic rules: the escalating vote price curve, the minimum-bid
//! premium, the anti-snipe close, and the settlement split.

use chum_auction::{initialize, vote, place_bid, settle_auction};
use chum_auction::{ArtCandidate, ArtEntry, Auction, ChumError, Config, ReceiptRegistry, SettleOutcome, VoteProof};

const AUTH: u64 = 1;
const TEAM: u64 = 2;
const CREATOR: u64 = 3;
const ALICE: u64 = 4;
const BOB: u64 = 5;
const COLL: u64 = 10;
const FELLOW: u64 = 11;
const ASSET: u64 = 100;

fn test_config() -> Config {
    initialize(AUTH, TEAM, COLL, FELLOW, 25, 50, 100, 100, 500, 1000, 0).unwrap()
}

fn fresh_candidate() -> ArtCandidate {
    ArtCandidate { mint: ASSET, creator: CREATOR, votes: 0, epoch_joined: 1, won: false, withdrawn: false }
}

fn open_auction() -> Auction {
    Auction {
        epoch: 1,
        art_mint: ASSET,
        art_creator: CREATOR,
        reserve_bid: 1000,
        current_bid: 1000,
        current_bidder: None,
        start_time: 0,
        end_time: 1000,
        bid_count: 0,
        settled: false,
    }
}

#[test]
fn paid_votes_follow_escalating_curve() {
    // Twelve votes from zero at base price 100: ten at 100, two at 150.
    let config = test_config();
    let mut candidate = fresh_candidate();
    let mut receipts = ReceiptRegistry::new();
    let mut voter_balance: u64 = 10_000;
    let mut treasury: u64 = 0;
    let proofs: Vec<VoteProof> = Vec::new();
    let r = vote(&config, &mut candidate, &mut receipts, ALICE, 12, true, &proofs, &mut voter_balance, &mut treasury);
    assert_eq!(r, Ok(()));
    assert_eq!(voter_balance, 10_000 - 1300);
    assert_eq!(treasury, 1300);
    assert_eq!(candidate.votes, 12);
}

#[test]
fn paid_vote_cost_rises_at_tier_boundary() {
    // One vote on a candidate at nine votes still costs the base price;
    // at ten votes it costs three halves of it.
    let config = test_config();
    let mut receipts = ReceiptRegistry::new();
    let proofs: Vec<VoteProof> = Vec::new();

    let mut at_nine = ArtCandidate { votes: 9, ..fresh_candidate() };
    let mut balance: u64 = 1_000;
    let mut treasury: u64 = 0;
    let r = vote(&config, &mut at_nine, &mut receipts, ALICE, 1, true, &proofs, &mut balance, &mut treasury);
    assert_eq!(r, Ok(()));
    assert_eq!(treasury, 100);

    let mut at_ten = ArtCandidate { votes: 10, ..fresh_candidate() };
    let mut balance2: u64 = 1_000;
    let mut treasury2: u64 = 0;
    let r2 = vote(&config, &mut at_ten, &mut receipts, ALICE, 1, true, &proofs, &mut balance2, &mut treasury2);
    assert_eq!(r2, Ok(()));
    assert_eq!(treasury2, 150);
}

#[test]
fn paid_vote_curve_through_three_tiers() {
    // 25 votes from zero: ten at 100, ten at 150, five at 100 * 9 / 4 = 225.
    let config = test_config();
    let mut candidate = fresh_candidate();
    let mut receipts = ReceiptRegistry::new();
    let mut balance: u64 = 10_000;
    let mut treasury: u64 = 0;
    let proofs: Vec<VoteProof> = Vec::new();
    let r = vote(&config, &mut candidate, &mut receipts, ALICE, 25, true, &proofs, &mut balance, &mut treasury);
    assert_eq!(r, Ok(()));
    assert_eq!(treasury, 10 * 100 + 10 * 150 + 5 * 225);
    assert_eq!(candidate.votes, 25);
}

#[test]
fn paid_vote_rejects_zero_count() {
    let config = test_config();
    let mut candidate = fresh_candidate();
    let mut receipts = ReceiptRegistry::new();
    let mut balance: u64 = 1_000;
    let mut treasury: u64 = 0;
    let proofs: Vec<VoteProof> = Vec::new();
    let r = vote(&config, &mut candidate, &mut receipts, ALICE, 0, true, &proofs, &mut balance, &mut treasury);
    assert_eq!(r, Err(ChumError::InvalidVoteCount));
    assert_eq!(candidate.votes, 0);
    assert_eq!(balance, 1_000);
}

#[test]
fn paid_vote_rejects_insufficient_payment() {
    let config = test_config();
    let mut candidate = fresh_candidate();
    let mut receipts = ReceiptRegistry::new();
    let mut balance: u64 = 99;
    let mut treasury: u64 = 0;
    let proofs: Vec<VoteProof> = Vec::new();
    let r = vote(&config, &mut candidate, &mut receipts, ALICE, 1, true, &proofs, &mut balance, &mut treasury);
    assert_eq!(r, Err(ChumError::InsufficientPayment));
    assert_eq!(balance, 99);
    assert_eq!(treasury, 0);
    assert_eq!(candidate.votes, 0);
}

#[test]
fn paid_vote_cost_overflow_aborts_cleanly() {
    // At the largest base price, two votes already exceed what a balance
    // can hold: the whole purchase aborts and nothing changes.
    let config = initialize(AUTH, TEAM, COLL, FELLOW, 25, 50, u64::MAX, 100, 500, 1000, 0).unwrap();
    let mut candidate = fresh_candidate();
    let mut receipts = ReceiptRegistry::new();
    let mut balance: u64 = u64::MAX;
    let mut treasury: u64 = 0;
    let proofs: Vec<VoteProof> = Vec::new();
    let r = vote(&config, &mut candidate, &mut receipts, ALICE, 2, true, &proofs, &mut balance, &mut treasury);
    assert_eq!(r, Err(ChumError::MathOverflow));
    assert_eq!(candidate.votes, 0);
    assert_eq!(balance, u64::MAX);
    assert_eq!(treasury, 0);
}

#[test]
fn minimum_bid_is_one_percent_premium_truncated() {
    // current bid 1000: 1009 is rejected, 1010 accepted.
    let mut auction = open_auction();
    let mut bidder_balance: u64 = 10_000;
    let mut treasury: u64 = 0;
    let mut prev_balance: u64 = 0;
    let low = place_bid(&mut auction, ALICE, 1009, 0, 100, &mut bidder_balance, &mut treasury, &mut prev_balance);
    assert_eq!(low, Err(ChumError::BidTooLow));
    assert_eq!(auction.bid_count, 0);
    let ok = place_bid(&mut auction, ALICE, 1010, 0, 100, &mut bidder_balance, &mut treasury, &mut prev_balance);
    assert_eq!(ok, Ok(()));
    assert_eq!(auction.current_bid, 1010);
    assert_eq!(auction.current_bidder, Some(ALICE));
    assert_eq!(auction.bid_count, 1);
    assert_eq!(bidder_balance, 10_000 - 1010);
    assert_eq!(treasury, 1010);
}

#[test]
fn refund_goes_to_previous_leader() {
    let mut auction = open_auction();
    let mut alice: u64 = 10_000;
    let mut bob: u64 = 10_000;
    let mut treasury: u64 = 0;
    let mut unused: u64 = 0;
    place_bid(&mut auction, ALICE, 1010, 0, 100, &mut alice, &mut treasury, &mut unused).unwrap();
    let r = place_bid(&mut auction, BOB, 1021, ALICE, 150, &mut bob, &mut treasury, &mut alice);
    assert_eq!(r, Ok(()));
    // Alice got exactly her bid back; the treasury holds only Bob's bid.
    assert_eq!(alice, 10_000);
    assert_eq!(bob, 10_000 - 1021);
    assert_eq!(treasury, 1021);
    assert_eq!(auction.current_bidder, Some(BOB));
}

#[test]
fn wrong_previous_bidder_is_rejected() {
    let mut auction = open_auction();
    let mut alice: u64 = 10_000;
    let mut bob: u64 = 10_000;
    let mut treasury: u64 = 0;
    let mut unused: u64 = 0;
    place_bid(&mut auction, ALICE, 1010, 0, 100, &mut alice, &mut treasury, &mut unused).unwrap();
    let r = place_bid(&mut auction, BOB, 1021, BOB, 150, &mut bob, &mut treasury, &mut unused);
    assert_eq!(r, Err(ChumError::WrongPreviousBidder));
    assert_eq!(auction.current_bidder, Some(ALICE));
    assert_eq!(treasury, 1010);
}

#[test]
fn anti_snipe_extends_close_to_now_plus_window() {
    // A bid with 250 units remaining pushes the close to now + 300,
    // never earlier than the original close.
    let mut auction = open_auction();
    let mut balance: u64 = 10_000;
    let mut treasury: u64 = 0;
    let mut unused: u64 = 0;
    let now = 750; // end_time 1000, 250 remaining
    let r = place_bid(&mut auction, ALICE, 1010, 0, now, &mut balance, &mut treasury, &mut unused);
    assert_eq!(r, Ok(()));
    assert_eq!(auction.end_time, now + 300);
    assert!(auction.end_time >= 1000);
}

#[test]
fn early_bid_leaves_close_unchanged() {
    let mut auction = open_auction();
    let mut balance: u64 = 10_000;
    let mut treasury: u64 = 0;
    let mut unused: u64 = 0;
    let r = place_bid(&mut auction, ALICE, 1010, 0, 100, &mut balance, &mut treasury, &mut unused);
    assert_eq!(r, Ok(()));
    assert_eq!(auction.end_time, 1000);
}

#[test]
fn bid_after_close_is_rejected() {
    let mut auction = open_auction();
    let mut balance: u64 = 10_000;
    let mut treasury: u64 = 0;
    let mut unused: u64 = 0;
    let r = place_bid(&mut auction, ALICE, 1010, 0, 1000, &mut balance, &mut treasury, &mut unused);
    assert_eq!(r, Err(ChumError::AuctionNotEnded));
}

#[test]
fn bid_on_settled_auction_is_rejected() {
    let mut auction = Auction { settled: true, ..open_auction() };
    let mut balance: u64 = 10_000;
    let mut treasury: u64 = 0;
    let mut unused: u64 = 0;
    let r = place_bid(&mut auction, ALICE, 1010, 0, 100, &mut balance, &mut treasury, &mut unused);
    assert_eq!(r, Err(ChumError::AuctionSettled));
}

#[test]
fn settlement_pays_creator_sixty_percent() {
    // Winning bid 1000: the creator receives 600 and the treasury drops
    // by exactly 600 of the bid it already held.
    let mut config = test_config();
    let mut auction = Auction {
        current_bid: 1000,
        current_bidder: Some(ALICE),
        bid_count: 1,
        ..open_auction()
    };
    let mut entry: Option<ArtEntry> = None;
    let mut treasury: u64 = 5_000;
    let mut creator_balance: u64 = 0;
    let r = settle_auction(&mut config, &mut auction, &mut entry, ALICE, CREATOR, COLL, 1000, &mut treasury, &mut creator_balance);
    assert_eq!(r, Ok(SettleOutcome::Sold { winner: ALICE, creator_share: 600 }));
    assert_eq!(creator_balance, 600);
    assert_eq!(treasury, 5_000 - 600);
    assert!(auction.settled);
    assert_eq!(config.total_founder_keys, 1);
    assert_eq!(
        entry,
        Some(ArtEntry { mint: ASSET, creator: CREATOR, is_founder_key: true, epoch_won: 1 })
    );
}

#[test]
fn no_bid_settlement_returns_asset_and_keeps_founder_count() {
    let mut config = test_config();
    let mut auction = open_auction();
    let mut entry: Option<ArtEntry> = None;
    let mut treasury: u64 = 5_000;
    let mut creator_balance: u64 = 0;
    let r = settle_auction(&mut config, &mut auction, &mut entry, ALICE, CREATOR, COLL, 1000, &mut treasury, &mut creator_balance);
    assert_eq!(r, Ok(SettleOutcome::NoSale));
    assert_eq!(treasury, 5_000);
    assert_eq!(creator_balance, 0);
    assert_eq!(config.total_founder_keys, 0);
    assert_eq!(entry, None);
    assert!(auction.settled);
}

#[test]
fn settle_before_close_is_rejected() {
    let mut config = test_config();
    let mut auction = open_auction();
    let mut entry: Option<ArtEntry> = None;
    let mut treasury: u64 = 5_000;
    let mut creator_balance: u64 = 0;
    let r = settle_auction(&mut config, &mut auction, &mut entry, ALICE, CREATOR, COLL, 999, &mut treasury, &mut creator_balance);
    assert_eq!(r, Err(ChumError::AuctionNotEnded));
    assert!(!auction.settled);
}

#[test]
fn settle_twice_is_rejected() {
    let mut config = test_config();
    let mut auction = open_auction();
    let mut entry: Option<ArtEntry> = None;
    let mut treasury: u64 = 5_000;
    let mut creator_balance: u64 = 0;
    settle_auction(&mut config, &mut auction, &mut entry, ALICE, CREATOR, COLL, 1000, &mut treasury, &mut creator_balance).unwrap();
    let again = settle_auction(&mut config, &mut auction, &mut entry, ALICE, CREATOR, COLL, 1000, &mut treasury, &mut creator_balance);
    assert_eq!(again, Err(ChumError::AuctionSettled));
}

#[test]
fn settle_rejects_wrong_winner() {
    let mut config = test_config();
    let mut auction = Auction {
        current_bid: 1000,
        current_bidder: Some(ALICE),
        bid_count: 1,
        ..open_auction()
    };
    let mut entry: Option<ArtEntry> = None;
    let mut treasury: u64 = 5_000;
    let mut creator_balance: u64 = 0;
    let r = settle_auction(&mut config, &mut auction, &mut entry, BOB, CREATOR, COLL, 1000, &mut treasury, &mut creator_balance);
    assert_eq!(r, Err(ChumError::NotOwner));
    assert!(!auction.settled);
    assert_eq!(config.total_founder_keys, 0);
}

#[test]
fn settle_rejects_wrong_creator_and_collection() {
    let mut config = test_config();
    let mut auction = open_auction();
    let mut entry: Option<ArtEntry> = None;
    let mut treasury: u64 = 5_000;
    let mut creator_balance: u64 = 0;
    let r = settle_auction(&mut config, &mut auction, &mut entry, ALICE, CREATOR, 999, 1000, &mut treasury, &mut creator_balance);
    assert_eq!(r, Err(ChumError::WrongCollection));
    let r2 = settle_auction(&mut config, &mut auction, &mut entry, ALICE, BOB, COLL, 1000, &mut treasury, &mut creator_balance);
    assert_eq!(r2, Err(ChumError::NotCreator));
}
