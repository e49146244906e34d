//! A curation-and-auction mechanism for submitted artworks.
//!
//! Creators submit works, a community votes on them (paying escalating fees
//! or presenting free-vote eligibility proofs), an epoch coordinator picks a
//! periodic winner, and the winning work is sold in an English auction with
//! anti-snipe protection. Proceeds are split between the creator and the
//! protocol treasury, and a sold work is promoted to "founder" status, which
//! grants its holder free voting rights in later epochs.
//!
//! The ledger that holds balances and custodies the assets, and the clock,
//! are external collaborators: every operation here takes the balances and
//! timestamps it touches as plain values, decides, and states in its
//! contract exactly which funds move and which records change.

pub mod errors;
pub mod state;
pub mod pricing;
pub mod receipts;
pub mod instructions;

pub use errors::ChumError;
pub use state::{Config, ArtCandidate, ArtEntry, VoteReceipt, EpochState, Auction};
pub use receipts::ReceiptRegistry;
pub use instructions::vote::VoteProof;
pub use instructions::settle_auction::SettleOutcome;
pub use instructions::initialize::handler as initialize;
pub use instructions::mint_art::handler as mint_art;
pub use instructions::join_voting::handler as join_voting;
pub use instructions::vote::handler as vote;
pub use instructions::end_epoch::handler as end_epoch;
pub use instructions::place_bid::handler as place_bid;
pub use instructions::settle_auction::handler as settle_auction;
pub use instructions::update_config::handler as update_config;
