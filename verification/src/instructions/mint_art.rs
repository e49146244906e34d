//! Minting a new artwork.
//!
//! The creator pays the mint fee to the team wallet and the custody
//! service creates the asset in the artwork collection, tagged with
//! ordinary artwork status. The library validates the request, moves the
//! fee and counts the mint; the asset creation itself is the custody
//! service's.

use vstd::prelude::*;
use crate::errors::ChumError;
use crate::state::Config;

verus! {

/// Longest accepted artwork name, in bytes.
pub const MAX_NAME_LEN: usize = 50;

/// Longest accepted artwork URI, in bytes.
pub const MAX_URI_LEN: usize = 200;

/// Mints an artwork named `name` at `uri`. Each failure names its error,
/// in the order the guards are checked, and changes nothing.
pub fn handler(
    config: &mut Config,
    team_wallet: u64,
    collection: u64,
    name: &str,
    uri: &str,
    creator_balance: &mut u64,
    team_wallet_balance: &mut u64,
) -> (r: Result<(), ChumError>)
    ensures
        match r {
            Ok(_) => {
                &&& !old(config).paused
                &&& team_wallet == old(config).team_wallet
                &&& collection == old(config).collection
                &&& name.len() <= MAX_NAME_LEN
                &&& uri.len() <= MAX_URI_LEN
                &&& old(config).mint_fee <= *old(creator_balance)
                &&& *old(team_wallet_balance) + old(config).mint_fee <= u64::MAX
                &&& old(config).total_minted + 1 <= u64::MAX
                &&& *final(creator_balance) == *old(creator_balance) - old(config).mint_fee
                &&& *final(team_wallet_balance) == *old(team_wallet_balance) + old(
                    config,
                ).mint_fee
                &&& *final(config) == (Config {
                    total_minted: (old(config).total_minted + 1) as u64,
                    ..*old(config)
                })
            },
            Err(e) => {
                &&& *final(config) == *old(config)
                &&& *final(creator_balance) == *old(creator_balance)
                &&& *final(team_wallet_balance) == *old(team_wallet_balance)
                &&& if old(config).paused {
                    e == ChumError::SystemPaused
                } else if team_wallet != old(config).team_wallet {
                    e == ChumError::Unauthorized
                } else if collection != old(config).collection {
                    e == ChumError::WrongCollection
                } else if name.len() > MAX_NAME_LEN {
                    e == ChumError::NameTooLong
                } else if uri.len() > MAX_URI_LEN {
                    e == ChumError::UriTooLong
                } else if old(config).mint_fee > *old(creator_balance) {
                    e == ChumError::InsufficientPayment
                } else if *old(team_wallet_balance) + old(config).mint_fee > u64::MAX {
                    e == ChumError::MathOverflow
                } else {
                    &&& old(config).total_minted + 1 > u64::MAX
                    &&& e == ChumError::MathOverflow
                }
            },
        },
{
    if config.paused {
        return Err(ChumError::SystemPaused);
    }
    if team_wallet != config.team_wallet {
        return Err(ChumError::Unauthorized);
    }
    if collection != config.collection {
        return Err(ChumError::WrongCollection);
    }
    if name.len() > MAX_NAME_LEN {
        return Err(ChumError::NameTooLong);
    }
    if uri.len() > MAX_URI_LEN {
        return Err(ChumError::UriTooLong);
    }
    if config.mint_fee > *creator_balance {
        return Err(ChumError::InsufficientPayment);
    }
    let new_team_balance = match team_wallet_balance.checked_add(config.mint_fee) {
        Some(t) => t,
        None => {
            return Err(ChumError::MathOverflow);
        },
    };
    let new_minted = match config.total_minted.checked_add(1) {
        Some(m) => m,
        None => {
            return Err(ChumError::MathOverflow);
        },
    };
    *creator_balance = *creator_balance - config.mint_fee;
    *team_wallet_balance = new_team_balance;
    config.total_minted = new_minted;
    Ok(())
}

} // verus!
