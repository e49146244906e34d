//! Settling a closed auction.
//!
//! With bids, the asset goes to the recorded leader, the creator receives
//! sixty percent of the final bid from the treasury (the other forty stays
//! there as protocol revenue), the asset's founder-key entry is written,
//! and the founder-key counter grows by one. Without bids, the asset goes
//! back to the creator and nothing else moves. Either way `settled` is set
//! exactly once and guards against re-entry.

use vstd::prelude::*;
use vstd::arithmetic::div_mod::{lemma_div_is_ordered, lemma_div_by_multiple};
use crate::errors::ChumError;
use crate::state::{Config, Auction, ArtEntry};

verus! {

/// What the custody service is to do with the asset: hand it to the
/// auction winner, or return it to its creator because nobody bid.
#[derive(Clone, Copy, Debug, PartialEq, Eq)]
pub enum SettleOutcome {
    /// The sale went through: transfer the asset to the winner and promote
    /// it to founder status; the creator was paid this share.
    Sold {
        /// The recorded leading bidder.
        winner: u64,
        /// What the creator received from the treasury.
        creator_share: u64,
    },
    /// No bid landed: return the asset to its creator.
    NoSale,
}

/// The creator's cut of a winning bid: sixty percent, truncating.
pub open spec fn creator_share(bid: int) -> int {
    bid * 60 / 100
}

/// The creator's share never exceeds the bid itself.
pub proof fn lemma_creator_share_le_bid(bid: int)
    requires
        bid >= 0,
    ensures
        0 <= creator_share(bid) <= bid,
{
    lemma_div_is_ordered(0, bid * 60, 100);
    lemma_div_is_ordered(bid * 60, bid * 100, 100);
    lemma_div_by_multiple(bid, 100);
}

/// What settlement does. Each failure names its error, in the order the
/// guards are checked, and changes nothing.
pub open spec fn settle_post(
    pre_cfg: Config,
    post_cfg: Config,
    pre_a: Auction,
    post_a: Auction,
    pre_entry: Option<ArtEntry>,
    post_entry: Option<ArtEntry>,
    winner: u64,
    creator: u64,
    collection: u64,
    now: i64,
    pre_tb: u64,
    post_tb: u64,
    pre_cb: u64,
    post_cb: u64,
    r: Result<SettleOutcome, ChumError>,
) -> bool {
    let share = creator_share(pre_a.current_bid as int);
    match r {
        Ok(outcome) => {
            &&& !pre_a.settled
            &&& collection == pre_cfg.collection
            &&& creator == pre_a.art_creator
            &&& now >= pre_a.end_time
            &&& post_a == (Auction { settled: true, ..pre_a })
            &&& if pre_a.bid_count > 0 {
                &&& pre_a.current_bidder == Some(winner)
                &&& share <= pre_tb
                &&& pre_cb + share <= u64::MAX
                &&& pre_cfg.total_founder_keys + 1 <= u64::MAX
                &&& post_tb == pre_tb - share
                &&& post_cb == pre_cb + share
                &&& post_entry == Some(
                    (ArtEntry {
                        mint: pre_a.art_mint,
                        creator: pre_a.art_creator,
                        is_founder_key: true,
                        epoch_won: pre_a.epoch,
                    }),
                )
                &&& post_cfg == (Config {
                    total_founder_keys: (pre_cfg.total_founder_keys + 1) as u64,
                    ..pre_cfg
                })
                &&& outcome == (SettleOutcome::Sold { winner, creator_share: share as u64 })
            } else {
                &&& post_tb == pre_tb
                &&& post_cb == pre_cb
                &&& post_entry == pre_entry
                &&& post_cfg == pre_cfg
                &&& outcome == SettleOutcome::NoSale
            }
        },
        Err(e) => {
            &&& post_cfg == pre_cfg
            &&& post_a == pre_a
            &&& post_entry == pre_entry
            &&& post_tb == pre_tb
            &&& post_cb == pre_cb
            &&& if pre_a.settled {
                e == ChumError::AuctionSettled
            } else if collection != pre_cfg.collection {
                e == ChumError::WrongCollection
            } else if creator != pre_a.art_creator {
                e == ChumError::NotCreator
            } else if now < pre_a.end_time {
                e == ChumError::AuctionNotEnded
            } else if pre_a.bid_count > 0 && pre_a.current_bidder != Some(winner) {
                e == ChumError::NotOwner
            } else if pre_a.bid_count > 0 && share > pre_tb {
                e == ChumError::MathOverflow
            } else if pre_a.bid_count > 0 && pre_cb + share > u64::MAX {
                e == ChumError::MathOverflow
            } else {
                &&& pre_a.bid_count > 0
                &&& pre_cfg.total_founder_keys + 1 > u64::MAX
                &&& e == ChumError::MathOverflow
            }
        },
    }
}

/// Law: settlement creates and destroys no funds — the creator gains
/// exactly what the treasury gives up.
pub proof fn lemma_settle_conserves_funds(
    pre_cfg: Config,
    post_cfg: Config,
    pre_a: Auction,
    post_a: Auction,
    pre_entry: Option<ArtEntry>,
    post_entry: Option<ArtEntry>,
    winner: u64,
    creator: u64,
    collection: u64,
    now: i64,
    pre_tb: u64,
    post_tb: u64,
    pre_cb: u64,
    post_cb: u64,
    outcome: SettleOutcome,
)
    requires
        settle_post(
            pre_cfg,
            post_cfg,
            pre_a,
            post_a,
            pre_entry,
            post_entry,
            winner,
            creator,
            collection,
            now,
            pre_tb,
            post_tb,
            pre_cb,
            post_cb,
            Ok(outcome),
        ),
    ensures
        post_tb + post_cb == pre_tb + pre_cb,
{
}

/// Settles the auction at time `now`. `art_entry` is the founder-key slot
/// keyed by the auctioned asset; a sale writes it (creating or
/// overwriting) and bumps the global founder-key counter.
pub fn handler(
    config: &mut Config,
    auction: &mut Auction,
    art_entry: &mut Option<ArtEntry>,
    winner: u64,
    creator: u64,
    collection: u64,
    now: i64,
    treasury_balance: &mut u64,
    creator_balance: &mut u64,
) -> (r: Result<SettleOutcome, ChumError>)
    ensures
        settle_post(
            *old(config),
            *final(config),
            *old(auction),
            *final(auction),
            *old(art_entry),
            *final(art_entry),
            winner,
            creator,
            collection,
            now,
            *old(treasury_balance),
            *final(treasury_balance),
            *old(creator_balance),
            *final(creator_balance),
            r,
        ),
{
    if auction.settled {
        return Err(ChumError::AuctionSettled);
    }
    if collection != config.collection {
        return Err(ChumError::WrongCollection);
    }
    if creator != auction.art_creator {
        return Err(ChumError::NotCreator);
    }
    if now < auction.end_time {
        return Err(ChumError::AuctionNotEnded);
    }
    if auction.bid_count > 0 {
        let leader_matches = match auction.current_bidder {
            Some(leader) => leader == winner,
            None => false,
        };
        if !leader_matches {
            return Err(ChumError::NotOwner);
        }
        proof {
            lemma_creator_share_le_bid(auction.current_bid as int);
        }
        let share: u64 = ((auction.current_bid as u128) * 60 / 100) as u64;
        assert(share == creator_share(auction.current_bid as int));
        if share > *treasury_balance {
            return Err(ChumError::MathOverflow);
        }
        let paid_creator = match creator_balance.checked_add(share) {
            Some(c) => c,
            None => {
                return Err(ChumError::MathOverflow);
            },
        };
        let new_keys = match config.total_founder_keys.checked_add(1) {
            Some(k) => k,
            None => {
                return Err(ChumError::MathOverflow);
            },
        };
        *treasury_balance = *treasury_balance - share;
        *creator_balance = paid_creator;
        *art_entry = Some(
            ArtEntry {
                mint: auction.art_mint,
                creator: auction.art_creator,
                is_founder_key: true,
                epoch_won: auction.epoch,
            },
        );
        config.total_founder_keys = new_keys;
        auction.settled = true;
        Ok(SettleOutcome::Sold { winner, creator_share: share })
    } else {
        auction.settled = true;
        Ok(SettleOutcome::NoSale)
    }
}

} // verus!
