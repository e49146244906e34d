//! The error kinds an operation can abort with.
//!
//! Every operation either commits all of its state changes and fund
//! movements or returns one of these and changes nothing.

use vstd::prelude::*;

verus! {

#[derive(Clone, Copy, Debug, PartialEq, Eq, Structural)]
pub enum ChumError {
    /// The system-wide pause flag is set.
    SystemPaused,
    /// A fee parameter must be greater than zero.
    InvalidFee,
    /// A duration parameter must be greater than zero.
    InvalidDuration,
    /// The reserve bid must be greater than zero.
    InvalidReserveBid,
    /// The caller does not hold the asset in question.
    NotOwner,
    /// The caller is not the creator of this artwork.
    NotCreator,
    /// The candidate has already won an epoch.
    AlreadyWon,
    /// The artwork was already withdrawn.
    AlreadyWithdrawn,
    /// A winning artwork cannot be withdrawn.
    CannotWithdrawWinner,
    /// The supplied collection is not the one the system recognizes.
    WrongCollection,
    /// The asset does not hold founder status.
    NotFounderKey,
    /// A receipt for this asset already exists in this epoch.
    AlreadyVotedThisEpoch,
    /// The requested vote count must be greater than zero.
    InvalidVoteCount,
    /// The payer's balance does not cover the amount owed.
    InsufficientPayment,
    /// The epoch duration has not elapsed yet.
    EpochNotOver,
    /// The epoch has not been finalized.
    EpochNotFinalized,
    /// An auction for this epoch already started.
    AuctionAlreadyStarted,
    /// The auction for this epoch was skipped.
    AuctionSkipped,
    /// The treasury holds less than the reserve bid.
    InsufficientTreasury,
    /// The auction was already settled.
    AuctionSettled,
    /// The auction window has not closed yet.
    AuctionNotEnded,
    /// The bid is below the minimum increment over the current bid.
    BidTooLow,
    /// The supplied previous-bidder identity does not match the leader.
    WrongPreviousBidder,
    /// The caller is not the configured authority.
    Unauthorized,
    /// While no founder key exists, only the authority may end an epoch.
    BootstrapOnly,
    /// The artwork name exceeds 50 bytes.
    NameTooLong,
    /// The artwork URI exceeds 200 bytes.
    UriTooLong,
    /// An arithmetic step overflowed or underflowed.
    MathOverflow,
    /// A candidate record for this asset already exists.
    AlreadyJoined,
}

} // verus!
