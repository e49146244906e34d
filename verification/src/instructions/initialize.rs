//! One-time creation of the global configuration record.
//!
//! Every fee, duration and the reserve bid must be positive; the epoch
//! counter starts at one and the first cycle begins now.

use vstd::prelude::*;
use crate::errors::ChumError;
use crate::state::Config;

verus! {

/// Builds the configuration from the given parameters at time `now`,
/// rejecting any non-positive fee, duration or reserve bid.
pub fn handler(
    authority: u64,
    team_wallet: u64,
    collection: u64,
    fellow_villains_collection: u64,
    mint_fee: u64,
    join_fee: u64,
    base_vote_price: u64,
    epoch_duration: i64,
    auction_duration: i64,
    reserve_bid: u64,
    now: i64,
) -> (r: Result<Config, ChumError>)
    ensures
        match r {
            Ok(cfg) => {
                &&& cfg == (Config {
                    authority,
                    team_wallet,
                    collection,
                    fellow_villains_collection,
                    mint_fee,
                    join_fee,
                    base_vote_price,
                    current_epoch: 1,
                    epoch_duration,
                    auction_duration,
                    reserve_bid,
                    total_minted: 0,
                    total_founder_keys: 0,
                    last_epoch_start: now,
                    paused: false,
                })
                &&& cfg.wf()
            },
            Err(e) => {
                if mint_fee == 0 {
                    e == ChumError::InvalidFee
                } else if join_fee == 0 {
                    e == ChumError::InvalidFee
                } else if base_vote_price == 0 {
                    e == ChumError::InvalidFee
                } else if epoch_duration <= 0 {
                    e == ChumError::InvalidDuration
                } else if auction_duration <= 0 {
                    e == ChumError::InvalidDuration
                } else {
                    reserve_bid == 0 && e == ChumError::InvalidReserveBid
                }
            },
        },
{
    if mint_fee == 0 {
        return Err(ChumError::InvalidFee);
    }
    if join_fee == 0 {
        return Err(ChumError::InvalidFee);
    }
    if base_vote_price == 0 {
        return Err(ChumError::InvalidFee);
    }
    if epoch_duration <= 0 {
        return Err(ChumError::InvalidDuration);
    }
    if auction_duration <= 0 {
        return Err(ChumError::InvalidDuration);
    }
    if reserve_bid == 0 {
        return Err(ChumError::InvalidReserveBid);
    }
    Ok(
        Config {
            authority,
            team_wallet,
            collection,
            fellow_villains_collection,
            mint_fee,
            join_fee,
            base_vote_price,
            current_epoch: 1,
            epoch_duration,
            auction_duration,
            reserve_bid,
            total_minted: 0,
            total_founder_keys: 0,
            last_epoch_start: now,
            paused: false,
        },
    )
}

} // verus!
