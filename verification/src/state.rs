//! The persisted records of the mechanism.
//!
//! Every record is independently addressed by its natural key: the config is
//! a singleton, a candidate and a founder-key entry by asset identity, an
//! epoch snapshot and an auction by epoch number, and a vote receipt by the
//! pair of asset identity and epoch number. Identities (wallets, assets,
//! collections) are plain numeric identifiers handed out by the ledger.

use vstd::prelude::*;

verus! {

/// The single global parameter record. Created once by `initialize`,
/// mutated thereafter only by the authority (and by the coordinator's
/// counters).
#[derive(Clone, Copy, Debug, PartialEq, Eq)]
pub struct Config {
    /// The administrator allowed to update parameters and, during
    /// bootstrap, to end epochs.
    pub authority: u64,
    /// Receives the mint fee.
    pub team_wallet: u64,
    /// The general artwork collection.
    pub collection: u64,
    /// A pre-existing collection whose holders vote for free.
    pub fellow_villains_collection: u64,
    /// Fee for minting an artwork, paid to the team wallet.
    pub mint_fee: u64,
    /// Fee for entering the curation vote, paid to the treasury.
    pub join_fee: u64,
    /// Price of the first paid vote on a fresh candidate.
    pub base_vote_price: u64,
    /// The running epoch number; starts at 1.
    pub current_epoch: u64,
    /// Length of one curation cycle, in time units.
    pub epoch_duration: i64,
    /// Length of the bidding window, in time units.
    pub auction_duration: i64,
    /// Opening bid of every auction.
    pub reserve_bid: u64,
    /// How many artworks were minted.
    pub total_minted: u64,
    /// How many founder keys were granted.
    pub total_founder_keys: u64,
    /// When the running epoch began.
    pub last_epoch_start: i64,
    /// While set, minting, joining and voting are refused.
    pub paused: bool,
}

impl Config {
    /// The parameter invariant: `initialize` establishes it and every
    /// operation preserves it.
    pub open spec fn wf(self) -> bool {
        &&& self.mint_fee > 0
        &&& self.join_fee > 0
        &&& self.base_vote_price > 0
        &&& self.epoch_duration > 0
        &&& self.auction_duration > 0
        &&& self.reserve_bid > 0
        &&& self.current_epoch >= 1
    }
}

/// One submitted artwork awaiting or having completed curation.
/// Created once per asset; `votes` only grows; `won` is set exactly once.
#[derive(Clone, Copy, Debug, PartialEq, Eq)]
pub struct ArtCandidate {
    /// The asset this candidacy is keyed by.
    pub mint: u64,
    /// Who submitted it and receives the creator share.
    pub creator: u64,
    /// Accumulated votes.
    pub votes: u32,
    /// The epoch in which the artwork joined.
    pub epoch_joined: u64,
    /// Set irreversibly when the candidate wins an epoch.
    pub won: bool,
    /// Set when the artwork is withdrawn from curation.
    pub withdrawn: bool,
}

/// The durable founder-status record of one asset, written on a successful
/// (bid-bearing) settlement and keyed by asset identity.
#[derive(Clone, Copy, Debug, PartialEq, Eq)]
pub struct ArtEntry {
    /// The asset the entry is keyed by.
    pub mint: u64,
    /// The artwork's creator.
    pub creator: u64,
    /// Whether the asset holds founder status.
    pub is_founder_key: bool,
    /// The epoch whose auction the asset won.
    pub epoch_won: u64,
}

/// The proof-of-use token that makes free votes replay-safe: at most one
/// receipt per (asset, epoch) pair ever exists.
#[derive(Clone, Copy, Debug, PartialEq, Eq)]
pub struct VoteReceipt {
    /// The asset the eligibility proof was based on.
    pub mint: u64,
    /// The epoch the free vote was cast in.
    pub epoch: u64,
    /// Who cast it.
    pub voter: u64,
}

/// The immutable snapshot written when an epoch is finalized.
#[derive(Clone, Copy, Debug, PartialEq, Eq)]
pub struct EpochState {
    /// The epoch number.
    pub epoch: u64,
    /// When the epoch began.
    pub start_time: i64,
    /// When it was finalized.
    pub end_time: i64,
    /// The asset of the winning candidate.
    pub winner_mint: u64,
    /// Always set by finalization; the snapshot is write-once.
    pub finalized: bool,
    /// Whether an auction was created for the winner.
    pub auction_started: bool,
    /// Whether the auction was skipped for want of treasury funds.
    pub auction_skipped: bool,
}

/// One English auction, keyed by the epoch it sells the winner of.
#[derive(Clone, Copy, Debug, PartialEq, Eq)]
pub struct Auction {
    /// The epoch this auction belongs to.
    pub epoch: u64,
    /// The asset on sale.
    pub art_mint: u64,
    /// Its creator, who receives the creator share.
    pub art_creator: u64,
    /// The configured opening bid.
    pub reserve_bid: u64,
    /// The leading bid; starts at the reserve and strictly increases.
    pub current_bid: u64,
    /// The leading bidder, once any bid landed.
    pub current_bidder: Option<u64>,
    /// When bidding opened.
    pub start_time: i64,
    /// When bidding closes; pushed out by late bids.
    pub end_time: i64,
    /// How many bids landed.
    pub bid_count: u32,
    /// Set exactly once, by settlement.
    pub settled: bool,
}

} // verus!
