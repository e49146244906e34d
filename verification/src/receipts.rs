//! The durable store of vote receipts.
//!
//! A receipt is keyed by the pair (asset identity, epoch number). Creation
//! is check-then-create: recording a key that already exists changes
//! nothing and says so, which is what makes free votes replay-safe — at
//! most one receipt per (asset, epoch) pair ever exists.

use vstd::prelude::*;
use crate::state::VoteReceipt;

verus! {

pub struct ReceiptRegistry {
    receipts: Vec<VoteReceipt>,
}

impl View for ReceiptRegistry {
    type V = Seq<VoteReceipt>;

    closed spec fn view(&self) -> Seq<VoteReceipt> {
        self.receipts@
    }
}

impl ReceiptRegistry {
    /// Whether a receipt for this (asset, epoch) key exists.
    pub open spec fn has_key(self, mint: u64, epoch: u64) -> bool {
        exists|i: int|
            0 <= i < self@.len() && (#[trigger] self@[i]).mint == mint && self@[i].epoch == epoch
    }

    /// The assets that already hold a receipt for the given epoch.
    pub open spec fn taken(self, epoch: u64) -> Set<u64> {
        Set::new(|m: u64| self.has_key(m, epoch))
    }

    /// Key uniqueness: no two receipts share (asset, epoch). Established
    /// empty and preserved by `record`.
    pub open spec fn wf(self) -> bool {
        forall|i: int, j: int|
            #![trigger self@[i], self@[j]]
            0 <= i < j < self@.len() ==> !(self@[i].mint == self@[j].mint && self@[i].epoch
                == self@[j].epoch)
    }

    pub fn new() -> (r: Self)
        ensures
            r@ == Seq::<VoteReceipt>::empty(),
            r.wf(),
    {
        ReceiptRegistry { receipts: Vec::new() }
    }

    pub fn len(&self) -> (n: usize)
        ensures
            n == self@.len(),
    {
        self.receipts.len()
    }

    /// Whether a receipt for this (asset, epoch) key exists.
    pub fn contains(&self, mint: u64, epoch: u64) -> (b: bool)
        ensures
            b == self.has_key(mint, epoch),
    {
        let mut i: usize = 0;
        while i < self.receipts.len()
            invariant
                i <= self@.len(),
                forall|k: int|
                    0 <= k < i ==> !((#[trigger] self@[k]).mint == mint && self@[k].epoch
                        == epoch),
            decreases self@.len() - i,
        {
            let r = self.receipts[i];
            if r.mint == mint && r.epoch == epoch {
                return true;
            }
            i = i + 1;
        }
        false
    }

    /// Creates the receipt for (mint, epoch) unless it already exists.
    /// Returns whether it was created; an existing receipt is left exactly
    /// as it was, and nothing else changes either way.
    pub fn record(&mut self, mint: u64, epoch: u64, voter: u64) -> (created: bool)
        ensures
            created == !old(self).has_key(mint, epoch),
            created ==> final(self)@ == old(self)@.push(
                (VoteReceipt { mint, epoch, voter }),
            ),
            !created ==> final(self)@ == old(self)@,
            old(self).wf() ==> final(self).wf(),
            final(self).has_key(mint, epoch),
    {
        if self.contains(mint, epoch) {
            return false;
        }
        let ghost pre = self@;
        self.receipts.push(VoteReceipt { mint, epoch, voter });
        proof {
            assert(self@[pre.len() as int].mint == mint && self@[pre.len() as int].epoch
                == epoch);
            if old(self).wf() {
                assert forall|i: int, j: int|
                    #![trigger self@[i], self@[j]]
                    0 <= i < j < self@.len() implies !(self@[i].mint == self@[j].mint
                    && self@[i].epoch == self@[j].epoch) by {
                    if j < pre.len() {
                        assert(self@[i] == pre[i] && self@[j] == pre[j]);
                    } else {
                        assert(self@[i] == pre[i]);
                    }
                }
            }
        }
        true
    }
}

} // verus!
