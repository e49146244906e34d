//! Entering an artwork into the curation vote.
//!
//! The creator pays the join fee into the treasury, the custody service
//! takes the asset into the vault, and a fresh candidate record is bound
//! to the current epoch with zero votes. At most one candidate per asset
//! ever exists: the keyed slot must be empty.

use vstd::prelude::*;
use crate::errors::ChumError;
use crate::state::{Config, ArtCandidate};

verus! {

/// Joins `asset` for `creator`, filling the candidate slot keyed by the
/// asset. Each failure names its error, in the order the guards are
/// checked, and changes nothing.
pub fn handler(
    config: &Config,
    candidate_slot: &mut Option<ArtCandidate>,
    creator: u64,
    asset: u64,
    collection: u64,
    creator_balance: &mut u64,
    treasury_balance: &mut u64,
) -> (r: Result<(), ChumError>)
    ensures
        match r {
            Ok(_) => {
                &&& !config.paused
                &&& collection == config.collection
                &&& (*old(candidate_slot)) is None
                &&& config.join_fee <= *old(creator_balance)
                &&& *old(treasury_balance) + config.join_fee <= u64::MAX
                &&& *final(creator_balance) == *old(creator_balance) - config.join_fee
                &&& *final(treasury_balance) == *old(treasury_balance) + config.join_fee
                &&& *final(candidate_slot) == Some(
                    (ArtCandidate {
                        mint: asset,
                        creator,
                        votes: 0,
                        epoch_joined: config.current_epoch,
                        won: false,
                        withdrawn: false,
                    }),
                )
            },
            Err(e) => {
                &&& *final(candidate_slot) == *old(candidate_slot)
                &&& *final(creator_balance) == *old(creator_balance)
                &&& *final(treasury_balance) == *old(treasury_balance)
                &&& if config.paused {
                    e == ChumError::SystemPaused
                } else if collection != config.collection {
                    e == ChumError::WrongCollection
                } else if (*old(candidate_slot)) is Some {
                    e == ChumError::AlreadyJoined
                } else if config.join_fee > *old(creator_balance) {
                    e == ChumError::InsufficientPayment
                } else {
                    &&& *old(treasury_balance) + config.join_fee > u64::MAX
                    &&& e == ChumError::MathOverflow
                }
            },
        },
{
    if config.paused {
        return Err(ChumError::SystemPaused);
    }
    if collection != config.collection {
        return Err(ChumError::WrongCollection);
    }
    if candidate_slot.is_some() {
        return Err(ChumError::AlreadyJoined);
    }
    if config.join_fee > *creator_balance {
        return Err(ChumError::InsufficientPayment);
    }
    let new_treasury = match treasury_balance.checked_add(config.join_fee) {
        Some(t) => t,
        None => {
            return Err(ChumError::MathOverflow);
        },
    };
    *creator_balance = *creator_balance - config.join_fee;
    *treasury_balance = new_treasury;
    *candidate_slot = Some(
        ArtCandidate {
            mint: asset,
            creator,
            votes: 0,
            epoch_joined: config.current_epoch,
            won: false,
            withdrawn: false,
        },
    );
    Ok(())
}

} // verus!
