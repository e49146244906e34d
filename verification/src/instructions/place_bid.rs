//! Bidding in a running auction.
//!
//! A bid must top the current one by at least one percent (truncating).
//! The bid moves to the treasury, the previous leader (if any) is refunded
//! exactly the previous leading bid, and a bid landing with fewer than 300
//! time units left pushes the close out to 300 units from now — the
//! soft-close that defeats sniping.

use vstd::prelude::*;
use vstd::arithmetic::div_mod::{lemma_div_is_ordered, lemma_div_by_multiple};
use crate::errors::ChumError;
use crate::state::Auction;

verus! {

/// How close to the end a bid must land to push the close out, and how
/// far out it is pushed.
pub const ANTI_SNIPE_WINDOW: i64 = 300;

/// The smallest acceptable bid over the current one: a one-percent
/// premium, truncating.
pub open spec fn min_next_bid(current_bid: int) -> int {
    current_bid * 101 / 100
}

/// The close after a bid at `now`: pushed to `now + 300` whenever fewer
/// than 300 time units remain, else unchanged. Never earlier than before.
pub open spec fn end_time_after_bid(end_time: int, now: int) -> int {
    if end_time - now < ANTI_SNIPE_WINDOW {
        now + ANTI_SNIPE_WINDOW
    } else {
        end_time
    }
}

/// The minimum premium never undercuts the current bid.
pub proof fn lemma_min_next_bid_ge_current(cb: int)
    requires
        cb >= 0,
    ensures
        min_next_bid(cb) >= cb,
{
    lemma_div_is_ordered(cb * 100, cb * 101, 100);
    lemma_div_by_multiple(cb, 100);
}

/// From one hundred up, the truncating one-percent premium is a real
/// increment, so accepted bids strictly raise the current bid.
pub proof fn lemma_min_next_bid_strict(cb: int)
    requires
        cb >= 100,
    ensures
        min_next_bid(cb) >= cb + 1,
{
    lemma_div_is_ordered((cb + 1) * 100, cb * 101, 100);
    lemma_div_by_multiple(cb + 1, 100);
}

/// What one bid does. On success the bid moves from the bidder to the
/// treasury, the previous leader is refunded exactly the previous bid,
/// the close is pushed out when the bid landed late, and the auction
/// records the new leader. Each failure names its error, in the order the
/// guards are checked, and changes nothing.
pub open spec fn place_bid_post(
    pre_a: Auction,
    post_a: Auction,
    bidder: u64,
    bid_amount: u64,
    prev_bidder: u64,
    now: i64,
    pre_bb: u64,
    post_bb: u64,
    pre_tb: u64,
    post_tb: u64,
    pre_pb: u64,
    post_pb: u64,
    r: Result<(), ChumError>,
) -> bool {
    let refund: int = if pre_a.bid_count > 0 {
        pre_a.current_bid as int
    } else {
        0
    };
    match r {
        Ok(_) => {
            &&& !pre_a.settled
            &&& now < pre_a.end_time
            &&& bid_amount >= min_next_bid(pre_a.current_bid as int)
            &&& bid_amount <= pre_bb
            &&& pre_tb + bid_amount <= u64::MAX
            &&& (pre_a.bid_count > 0 ==> pre_a.current_bidder == Some(prev_bidder) && pre_pb
                + refund <= u64::MAX)
            &&& post_bb == pre_bb - bid_amount
            &&& post_tb == pre_tb + bid_amount - refund
            &&& post_pb == (if pre_a.bid_count > 0 {
                pre_pb + refund
            } else {
                pre_pb as int
            })
            &&& pre_a.bid_count + 1 <= u32::MAX
            &&& post_a == (Auction {
                current_bid: bid_amount,
                current_bidder: Some(bidder),
                end_time: post_a.end_time,
                bid_count: (pre_a.bid_count + 1) as u32,
                ..pre_a
            })
            &&& post_a.end_time == end_time_after_bid(pre_a.end_time as int, now as int)
            &&& post_a.end_time >= pre_a.end_time
            &&& post_a.current_bid >= pre_a.current_bid
        },
        Err(e) => {
            &&& post_a == pre_a
            &&& post_bb == pre_bb
            &&& post_tb == pre_tb
            &&& post_pb == pre_pb
            &&& if pre_a.settled {
                e == ChumError::AuctionSettled
            } else if now >= pre_a.end_time {
                e == ChumError::AuctionNotEnded
            } else if bid_amount < min_next_bid(pre_a.current_bid as int) {
                e == ChumError::BidTooLow
            } else if bid_amount > pre_bb {
                e == ChumError::InsufficientPayment
            } else if pre_tb + bid_amount > u64::MAX {
                e == ChumError::MathOverflow
            } else if pre_a.bid_count > 0 && pre_a.current_bidder != Some(prev_bidder) {
                e == ChumError::WrongPreviousBidder
            } else if pre_a.bid_count > 0 && pre_pb + refund > u64::MAX {
                e == ChumError::MathOverflow
            } else if pre_a.end_time - now > i64::MAX || pre_a.end_time - now < i64::MIN {
                e == ChumError::MathOverflow
            } else if pre_a.end_time - now < ANTI_SNIPE_WINDOW && now + ANTI_SNIPE_WINDOW
                > i64::MAX {
                e == ChumError::MathOverflow
            } else {
                pre_a.bid_count + 1 > u32::MAX && e == ChumError::MathOverflow
            }
        },
    }
}

/// Law: a bid creates and destroys no funds — what the bidder pays is
/// exactly what the treasury and the refunded previous leader gain.
pub proof fn lemma_place_bid_conserves_funds(
    pre_a: Auction,
    post_a: Auction,
    bidder: u64,
    bid_amount: u64,
    prev_bidder: u64,
    now: i64,
    pre_bb: u64,
    post_bb: u64,
    pre_tb: u64,
    post_tb: u64,
    pre_pb: u64,
    post_pb: u64,
)
    requires
        place_bid_post(
            pre_a,
            post_a,
            bidder,
            bid_amount,
            prev_bidder,
            now,
            pre_bb,
            post_bb,
            pre_tb,
            post_tb,
            pre_pb,
            post_pb,
            Ok(()),
        ),
    ensures
        post_bb + post_tb + post_pb == pre_bb + pre_tb + pre_pb,
{
}

/// Places a bid of `bid_amount` by `bidder` at time `now`; `prev_bidder`
/// must name the recorded leader when one exists, and receives the refund.
pub fn handler(
    auction: &mut Auction,
    bidder: u64,
    bid_amount: u64,
    prev_bidder: u64,
    now: i64,
    bidder_balance: &mut u64,
    treasury_balance: &mut u64,
    prev_bidder_balance: &mut u64,
) -> (r: Result<(), ChumError>)
    ensures
        place_bid_post(
            *old(auction),
            *final(auction),
            bidder,
            bid_amount,
            prev_bidder,
            now,
            *old(bidder_balance),
            *final(bidder_balance),
            *old(treasury_balance),
            *final(treasury_balance),
            *old(prev_bidder_balance),
            *final(prev_bidder_balance),
            r,
        ),
{
    if auction.settled {
        return Err(ChumError::AuctionSettled);
    }
    if now >= auction.end_time {
        return Err(ChumError::AuctionNotEnded);
    }
    let min_bid: u128 = (auction.current_bid as u128) * 101 / 100;
    assert(min_bid == min_next_bid(auction.current_bid as int));
    if (bid_amount as u128) < min_bid {
        return Err(ChumError::BidTooLow);
    }
    if bid_amount > *bidder_balance {
        return Err(ChumError::InsufficientPayment);
    }
    let treasury_with_bid = match treasury_balance.checked_add(bid_amount) {
        Some(t) => t,
        None => {
            return Err(ChumError::MathOverflow);
        },
    };
    let mut refund: u64 = 0;
    if auction.bid_count > 0 {
        let leader_matches = match auction.current_bidder {
            Some(leader) => leader == prev_bidder,
            None => false,
        };
        if !leader_matches {
            return Err(ChumError::WrongPreviousBidder);
        }
        refund = auction.current_bid;
        proof {
            lemma_min_next_bid_ge_current(auction.current_bid as int);
        }
    }
    let refunded_prev = match prev_bidder_balance.checked_add(refund) {
        Some(p) => p,
        None => {
            return Err(ChumError::MathOverflow);
        },
    };
    let remaining = match auction.end_time.checked_sub(now) {
        Some(rem) => rem,
        None => {
            return Err(ChumError::MathOverflow);
        },
    };
    let new_end: i64 = if remaining < ANTI_SNIPE_WINDOW {
        match now.checked_add(ANTI_SNIPE_WINDOW) {
            Some(t) => t,
            None => {
                return Err(ChumError::MathOverflow);
            },
        }
    } else {
        auction.end_time
    };
    let new_count = match auction.bid_count.checked_add(1) {
        Some(c) => c,
        None => {
            return Err(ChumError::MathOverflow);
        },
    };
    proof {
        lemma_min_next_bid_ge_current(auction.current_bid as int);
    }
    *bidder_balance = *bidder_balance - bid_amount;
    *treasury_balance = treasury_with_bid - refund;
    *prev_bidder_balance = refunded_prev;
    auction.current_bid = bid_amount;
    auction.current_bidder = Some(bidder);
    auction.end_time = new_end;
    auction.bid_count = new_count;
    Ok(())
}

} // verus!
