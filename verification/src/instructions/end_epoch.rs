//! Finalizing an epoch and starting (or skipping) its auction.
//!
//! Once the epoch duration has elapsed, the supplied candidate is marked
//! the winner — the coordinator deliberately does not check that it holds
//! the maximum vote count, a trust boundary of the design — a write-once
//! epoch snapshot is produced, and an auction opens at the reserve bid if
//! the treasury can back it, else the asset returns to its creator. The
//! epoch counter advances either way: cadence is independent of sales.
//! While no founder key exists yet, only the authority may finalize.

use vstd::prelude::*;
use crate::errors::ChumError;
use crate::state::{Config, ArtCandidate, EpochState, Auction};

verus! {

/// What the treasury can actually spend: its balance above the minimum it
/// must retain to exist on the ledger, saturating at zero.
pub open spec fn available_treasury(balance: int, floor: int) -> int {
    if balance >= floor {
        balance - floor
    } else {
        0
    }
}

/// What finalization does. On success the candidate is marked won, the
/// epoch counter advances, the cycle restarts at `now`, and the returned
/// snapshot says whether an auction opened (with the auction record) or
/// was skipped (the custody service returns the asset to its creator).
/// Each failure names its error, in the order the guards are checked, and
/// changes nothing.
pub open spec fn end_epoch_post(
    pre_cfg: Config,
    post_cfg: Config,
    pre_c: ArtCandidate,
    post_c: ArtCandidate,
    caller: u64,
    collection: u64,
    creator: u64,
    treasury_balance: u64,
    rent_floor: u64,
    now: i64,
    r: Result<(EpochState, Option<Auction>), ChumError>,
) -> bool {
    let available = available_treasury(treasury_balance as int, rent_floor as int);
    let starts = available >= pre_cfg.reserve_bid;
    match r {
        Ok((snapshot, auction)) => {
            &&& !pre_c.won
            &&& !pre_c.withdrawn
            &&& collection == pre_cfg.collection
            &&& creator == pre_c.creator
            &&& pre_cfg.last_epoch_start + pre_cfg.epoch_duration <= i64::MAX
            &&& now >= pre_cfg.last_epoch_start + pre_cfg.epoch_duration
            &&& (pre_cfg.total_founder_keys == 0 ==> caller == pre_cfg.authority)
            &&& pre_cfg.current_epoch + 1 <= u64::MAX
            &&& post_c == (ArtCandidate { won: true, ..pre_c })
            &&& post_cfg == (Config {
                current_epoch: (pre_cfg.current_epoch + 1) as u64,
                last_epoch_start: now,
                ..pre_cfg
            })
            &&& snapshot == (EpochState {
                epoch: pre_cfg.current_epoch,
                start_time: pre_cfg.last_epoch_start,
                end_time: now,
                winner_mint: pre_c.mint,
                finalized: true,
                auction_started: starts,
                auction_skipped: !starts,
            })
            &&& if starts {
                &&& now + pre_cfg.auction_duration <= i64::MAX
                &&& auction == Some(
                    (Auction {
                        epoch: pre_cfg.current_epoch,
                        art_mint: pre_c.mint,
                        art_creator: pre_c.creator,
                        reserve_bid: pre_cfg.reserve_bid,
                        current_bid: pre_cfg.reserve_bid,
                        current_bidder: None,
                        start_time: now,
                        end_time: (now + pre_cfg.auction_duration) as i64,
                        bid_count: 0,
                        settled: false,
                    }),
                )
            } else {
                auction == None::<Auction>
            }
        },
        Err(e) => {
            &&& post_cfg == pre_cfg
            &&& post_c == pre_c
            &&& if pre_c.won {
                e == ChumError::AlreadyWon
            } else if pre_c.withdrawn {
                e == ChumError::AlreadyWithdrawn
            } else if collection != pre_cfg.collection {
                e == ChumError::WrongCollection
            } else if creator != pre_c.creator {
                e == ChumError::NotCreator
            } else if pre_cfg.last_epoch_start + pre_cfg.epoch_duration > i64::MAX {
                e == ChumError::MathOverflow
            } else if now < pre_cfg.last_epoch_start + pre_cfg.epoch_duration {
                e == ChumError::EpochNotOver
            } else if pre_cfg.total_founder_keys == 0 && caller != pre_cfg.authority {
                e == ChumError::BootstrapOnly
            } else if starts && now + pre_cfg.auction_duration > i64::MAX {
                e == ChumError::MathOverflow
            } else {
                pre_cfg.current_epoch + 1 > u64::MAX && e == ChumError::MathOverflow
            }
        },
    }
}

/// Finalizes the current epoch at time `now` with the supplied winning
/// candidate. `treasury_balance` and `rent_floor` are the treasury's
/// balance and the ledger's minimum-existence balance, read by the caller
/// at transaction time.
pub fn handler(
    config: &mut Config,
    winning_candidate: &mut ArtCandidate,
    caller: u64,
    collection: u64,
    creator: u64,
    treasury_balance: u64,
    rent_floor: u64,
    now: i64,
) -> (r: Result<(EpochState, Option<Auction>), ChumError>)
    requires
        old(config).wf(),
    ensures
        final(config).wf(),
        end_epoch_post(
            *old(config),
            *final(config),
            *old(winning_candidate),
            *final(winning_candidate),
            caller,
            collection,
            creator,
            treasury_balance,
            rent_floor,
            now,
            r,
        ),
{
    if winning_candidate.won {
        return Err(ChumError::AlreadyWon);
    }
    if winning_candidate.withdrawn {
        return Err(ChumError::AlreadyWithdrawn);
    }
    if collection != config.collection {
        return Err(ChumError::WrongCollection);
    }
    if creator != winning_candidate.creator {
        return Err(ChumError::NotCreator);
    }
    let epoch_end = match config.last_epoch_start.checked_add(config.epoch_duration) {
        Some(t) => t,
        None => {
            return Err(ChumError::MathOverflow);
        },
    };
    if now < epoch_end {
        return Err(ChumError::EpochNotOver);
    }
    if config.total_founder_keys == 0 && caller != config.authority {
        return Err(ChumError::BootstrapOnly);
    }
    let available = if treasury_balance >= rent_floor {
        treasury_balance - rent_floor
    } else {
        0
    };
    let starts = available >= config.reserve_bid;
    let auction: Option<Auction> = if starts {
        let close = match now.checked_add(config.auction_duration) {
            Some(t) => t,
            None => {
                return Err(ChumError::MathOverflow);
            },
        };
        Some(
            Auction {
                epoch: config.current_epoch,
                art_mint: winning_candidate.mint,
                art_creator: winning_candidate.creator,
                reserve_bid: config.reserve_bid,
                current_bid: config.reserve_bid,
                current_bidder: None,
                start_time: now,
                end_time: close,
                bid_count: 0,
                settled: false,
            },
        )
    } else {
        None
    };
    let next_epoch = match config.current_epoch.checked_add(1) {
        Some(n) => n,
        None => {
            return Err(ChumError::MathOverflow);
        },
    };
    let snapshot = EpochState {
        epoch: config.current_epoch,
        start_time: config.last_epoch_start,
        end_time: now,
        winner_mint: winning_candidate.mint,
        finalized: true,
        auction_started: starts,
        auction_skipped: !starts,
    };
    winning_candidate.won = true;
    config.current_epoch = next_epoch;
    config.last_epoch_start = now;
    Ok((snapshot, auction))
}

} // verus!
