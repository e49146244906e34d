//! Authority-only patching of the configuration.
//!
//! Every present field is validated with the same positivity rules as
//! initialization before anything is applied; absent fields are left
//! untouched. The pause flag and the team wallet have no such constraint.

use vstd::prelude::*;
use crate::errors::ChumError;
use crate::state::Config;

verus! {

/// Applies the present fields to the configuration, if the caller is the
/// authority and every present value passes validation; on any failure
/// nothing at all is applied.
pub fn handler(
    config: &mut Config,
    caller: u64,
    mint_fee: Option<u64>,
    join_fee: Option<u64>,
    base_vote_price: Option<u64>,
    epoch_duration: Option<i64>,
    auction_duration: Option<i64>,
    reserve_bid: Option<u64>,
    paused: Option<bool>,
    team_wallet: Option<u64>,
) -> (r: Result<(), ChumError>)
    requires
        old(config).wf(),
    ensures
        final(config).wf(),
        match r {
            Ok(_) => {
                &&& caller == old(config).authority
                &&& *final(config) == (Config {
                    mint_fee: match mint_fee {
                        Some(v) => v,
                        None => old(config).mint_fee,
                    },
                    join_fee: match join_fee {
                        Some(v) => v,
                        None => old(config).join_fee,
                    },
                    base_vote_price: match base_vote_price {
                        Some(v) => v,
                        None => old(config).base_vote_price,
                    },
                    epoch_duration: match epoch_duration {
                        Some(v) => v,
                        None => old(config).epoch_duration,
                    },
                    auction_duration: match auction_duration {
                        Some(v) => v,
                        None => old(config).auction_duration,
                    },
                    reserve_bid: match reserve_bid {
                        Some(v) => v,
                        None => old(config).reserve_bid,
                    },
                    paused: match paused {
                        Some(v) => v,
                        None => old(config).paused,
                    },
                    team_wallet: match team_wallet {
                        Some(v) => v,
                        None => old(config).team_wallet,
                    },
                    ..*old(config)
                })
            },
            Err(e) => {
                &&& *final(config) == *old(config)
                &&& if caller != old(config).authority {
                    e == ChumError::Unauthorized
                } else if mint_fee == Some(0u64) {
                    e == ChumError::InvalidFee
                } else if join_fee == Some(0u64) {
                    e == ChumError::InvalidFee
                } else if base_vote_price == Some(0u64) {
                    e == ChumError::InvalidFee
                } else if (epoch_duration matches Some(d) && d <= 0) {
                    e == ChumError::InvalidDuration
                } else if (auction_duration matches Some(d) && d <= 0) {
                    e == ChumError::InvalidDuration
                } else {
                    reserve_bid == Some(0u64) && e == ChumError::InvalidReserveBid
                }
            },
        },
{
    if caller != config.authority {
        return Err(ChumError::Unauthorized);
    }
    if let Some(v) = mint_fee {
        if v == 0 {
            return Err(ChumError::InvalidFee);
        }
    }
    if let Some(v) = join_fee {
        if v == 0 {
            return Err(ChumError::InvalidFee);
        }
    }
    if let Some(v) = base_vote_price {
        if v == 0 {
            return Err(ChumError::InvalidFee);
        }
    }
    if let Some(v) = epoch_duration {
        if v <= 0 {
            return Err(ChumError::InvalidDuration);
        }
    }
    if let Some(v) = auction_duration {
        if v <= 0 {
            return Err(ChumError::InvalidDuration);
        }
    }
    if let Some(v) = reserve_bid {
        if v == 0 {
            return Err(ChumError::InvalidReserveBid);
        }
    }
    if let Some(v) = mint_fee {
        config.mint_fee = v;
    }
    if let Some(v) = join_fee {
        config.join_fee = v;
    }
    if let Some(v) = base_vote_price {
        config.base_vote_price = v;
    }
    if let Some(v) = epoch_duration {
        config.epoch_duration = v;
    }
    if let Some(v) = auction_duration {
        config.auction_duration = v;
    }
    if let Some(v) = reserve_bid {
        config.reserve_bid = v;
    }
    if let Some(v) = paused {
        config.paused = v;
    }
    if let Some(v) = team_wallet {
        config.team_wallet = v;
    }
    Ok(())
}

} // verus!
