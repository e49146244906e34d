//! One module per operation of the mechanism, each with a `handler` that
//! performs the operation on the records and balances it touches.

pub mod initialize;
pub mod mint_art;
pub mod join_voting;
pub mod vote;
pub mod end_epoch;
pub mod place_bid;
pub mod settle_auction;
pub mod update_config;
