//! Voting on a candidate, in one of two mutually exclusive modes.
//!
//! Paid mode charges the escalating price curve of `crate::pricing` for the
//! requested number of votes. Free mode takes a sequence of tagged
//! eligibility proofs, grants one vote per valid proof whose asset has not
//! voted this epoch yet (writing the receipt that prevents reuse), and
//! clamps the granted count to the requested one — with the standing quirk
//! that a request for zero votes still grants one when a valid unused
//! proof is present.

use vstd::prelude::*;
use crate::errors::ChumError;
use crate::state::{Config, ArtCandidate, ArtEntry, VoteReceipt};
use crate::receipts::ReceiptRegistry;
use crate::pricing::{total_cost, cost_fits, compute_vote_cost};

verus! {

/// One free-vote eligibility proof, as the caller presents it: either an
/// owned asset (with its parent collection and, when that is the general
/// artwork collection, the founder-key record that backs it), or an active
/// candidacy of the caller's own, or something else entirely.
#[derive(Clone, Copy, Debug, PartialEq, Eq)]
pub enum VoteProof {
    /// An asset record: who holds it and which collection it belongs to.
    OwnedAsset {
        /// The asset's identity.
        asset: u64,
        /// Its current holder.
        holder: u64,
        /// Its parent collection, when it has one.
        collection: Option<u64>,
        /// The founder-key record backing an artwork-collection asset.
        founder_entry: Option<ArtEntry>,
    },
    /// A candidate record presented by its creator.
    Candidacy {
        /// The candidate record itself.
        record: ArtCandidate,
    },
    /// Anything that is neither; always skipped without error.
    Unrecognized,
}

/// Whether one proof earns the caller a free vote: a held asset of the
/// fellow collection, a held artwork backed by a founder key, or the
/// caller's own active, unwon candidacy.
pub open spec fn proof_eligible(p: VoteProof, voter: u64, cfg: Config) -> bool {
    match p {
        VoteProof::OwnedAsset { asset, holder, collection, founder_entry } => {
            &&& holder == voter
            &&& match collection {
                Some(c) => {
                    ||| c == cfg.fellow_villains_collection
                    ||| (c == cfg.collection && match founder_entry {
                        Some(e) => e.mint == asset && e.is_founder_key,
                        None => false,
                    })
                },
                None => false,
            }
        },
        VoteProof::Candidacy { record } => {
            record.creator == voter && !record.won && !record.withdrawn
        },
        VoteProof::Unrecognized => false,
    }
}

/// The asset a proof's receipt is keyed by.
pub open spec fn proof_mint(p: VoteProof) -> u64 {
    match p {
        VoteProof::OwnedAsset { asset, .. } => asset,
        VoteProof::Candidacy { record } => record.mint,
        VoteProof::Unrecognized => 0,
    }
}

/// The assets that earn a vote, in proof order: an eligible proof counts
/// exactly when its asset is neither already receipted (`taken`) nor
/// granted earlier in the same pass.
pub open spec fn free_grants(proofs: Seq<VoteProof>, voter: u64, cfg: Config, taken: Set<
    u64,
>) -> Seq<u64>
    decreases proofs.len(),
{
    if proofs.len() == 0 {
        Seq::empty()
    } else {
        let p = proofs[0];
        let rest = proofs.drop_first();
        if proof_eligible(p, voter, cfg) && !taken.contains(proof_mint(p)) {
            seq![proof_mint(p)] + free_grants(rest, voter, cfg, taken.insert(proof_mint(p)))
        } else {
            free_grants(rest, voter, cfg, taken)
        }
    }
}

/// How many votes a free-mode call grants when `available` proofs are
/// valid and unused: the minimum of the requested count and the available
/// one, except that a request for zero still grants one when possible.
pub open spec fn granted_count(num_votes: u32, available: nat) -> nat {
    if num_votes == 0 {
        if available >= 1 {
            1
        } else {
            0
        }
    } else if available < num_votes {
        available
    } else {
        num_votes as nat
    }
}

/// Law: a granted asset is never one that already held a receipt, and no
/// asset is granted twice in one pass.
pub proof fn lemma_free_grants_fresh_distinct(
    proofs: Seq<VoteProof>,
    voter: u64,
    cfg: Config,
    taken: Set<u64>,
)
    ensures
        forall|k: int|
            0 <= k < free_grants(proofs, voter, cfg, taken).len() ==> !taken.contains(
                #[trigger] free_grants(proofs, voter, cfg, taken)[k],
            ),
        forall|k: int, l: int|
            #![trigger free_grants(proofs, voter, cfg, taken)[k], free_grants(proofs, voter, cfg, taken)[l]]
            0 <= k < l < free_grants(proofs, voter, cfg, taken).len() ==> free_grants(
                proofs,
                voter,
                cfg,
                taken,
            )[k] != free_grants(proofs, voter, cfg, taken)[l],
    decreases proofs.len(),
{
    let g = free_grants(proofs, voter, cfg, taken);
    if proofs.len() > 0 {
        let p = proofs[0];
        let rest = proofs.drop_first();
        if proof_eligible(p, voter, cfg) && !taken.contains(proof_mint(p)) {
            let m = proof_mint(p);
            let g2 = free_grants(rest, voter, cfg, taken.insert(m));
            lemma_free_grants_fresh_distinct(rest, voter, cfg, taken.insert(m));
            assert(g == seq![m] + g2);
            assert forall|k: int| 0 <= k < g.len() implies !taken.contains(#[trigger] g[k]) by {
                if k == 0 {
                    assert(g[k] == m);
                } else {
                    assert(g[k] == g2[k - 1]);
                    assert(!taken.insert(m).contains(g2[k - 1]));
                }
            }
            assert forall|k: int, l: int|
                #![trigger g[k], g[l]]
                0 <= k < l < g.len() implies g[k] != g[l] by {
                if k == 0 {
                    assert(g[l] == g2[l - 1]);
                    assert(!taken.insert(m).contains(g2[l - 1]));
                } else {
                    assert(g[k] == g2[k - 1] && g[l] == g2[l - 1]);
                }
            }
        } else {
            lemma_free_grants_fresh_distinct(rest, voter, cfg, taken);
            let g2 = free_grants(rest, voter, cfg, taken);
            assert(g == g2);
            assert forall|k: int| 0 <= k < g.len() implies !taken.contains(#[trigger] g[k]) by {
                assert(g[k] == g2[k]);
            }
            assert forall|k: int, l: int|
                #![trigger g[k], g[l]]
                0 <= k < l < g.len() implies g[k] != g[l] by {
                assert(g[k] == g2[k] && g[l] == g2[l]);
            }
        }
    } else {
        assert(g.len() == 0);
    }
}

/// Law (replay safety): when every eligible proof's asset already holds a
/// receipt, a free-vote pass grants nothing — and in particular a second
/// pass over the same proofs grants zero further votes.
pub proof fn lemma_free_grants_replayed(
    proofs: Seq<VoteProof>,
    voter: u64,
    cfg: Config,
    taken: Set<u64>,
)
    requires
        forall|i: int|
            0 <= i < proofs.len() && proof_eligible(#[trigger] proofs[i], voter, cfg)
                ==> taken.contains(proof_mint(proofs[i])),
    ensures
        free_grants(proofs, voter, cfg, taken).len() == 0,
    decreases proofs.len(),
{
    if proofs.len() > 0 {
        let rest = proofs.drop_first();
        assert(forall|i: int| 0 <= i < rest.len() ==> rest[i] == proofs[i + 1]);
        lemma_free_grants_replayed(rest, voter, cfg, taken);
    }
}

/// Law: a free-vote pass misses nothing — every eligible proof whose
/// asset is not yet receipted gets its vote granted.
pub proof fn lemma_free_grants_complete(
    proofs: Seq<VoteProof>,
    voter: u64,
    cfg: Config,
    taken: Set<u64>,
    i: int,
)
    requires
        0 <= i < proofs.len(),
        proof_eligible(proofs[i], voter, cfg),
        !taken.contains(proof_mint(proofs[i])),
    ensures
        free_grants(proofs, voter, cfg, taken).contains(proof_mint(proofs[i])),
    decreases proofs.len(),
{
    let g = free_grants(proofs, voter, cfg, taken);
    let p = proofs[0];
    let rest = proofs.drop_first();
    let m0 = proof_mint(p);
    let m = proof_mint(proofs[i]);
    if proof_eligible(p, voter, cfg) && !taken.contains(m0) {
        let g2 = free_grants(rest, voter, cfg, taken.insert(m0));
        assert(g == seq![m0] + g2);
        assert(g[0] == m0);
        if i > 0 && m != m0 {
            lemma_free_grants_complete(rest, voter, cfg, taken.insert(m0), i - 1);
            assert(rest[i - 1] == proofs[i]);
            let j = choose|j: int| 0 <= j < g2.len() && g2[j] == m;
            assert(g[j + 1] == m);
        }
    } else {
        assert(i > 0);
        let g2 = free_grants(rest, voter, cfg, taken);
        assert(g == g2);
        lemma_free_grants_complete(rest, voter, cfg, taken, i - 1);
        assert(rest[i - 1] == proofs[i]);
        let j = choose|j: int| 0 <= j < g2.len() && g2[j] == m;
        assert(g[j] == m);
    }
}

/// Law (replay safety across calls): once a free-mode vote has written
/// its receipts, a second pass over the very same proofs finds every
/// eligible asset receipted and grants zero further votes.
pub proof fn lemma_second_free_vote_grants_nothing(
    proofs: Seq<VoteProof>,
    voter: u64,
    cfg: Config,
    pre_reg: ReceiptRegistry,
    post_reg: ReceiptRegistry,
)
    requires
        post_reg@ == pre_reg@ + free_grants(
            proofs,
            voter,
            cfg,
            pre_reg.taken(cfg.current_epoch),
        ).map_values(|m: u64| (VoteReceipt { mint: m, epoch: cfg.current_epoch, voter })),
    ensures
        free_grants(proofs, voter, cfg, post_reg.taken(cfg.current_epoch)).len() == 0,
{
    let epoch = cfg.current_epoch;
    let taken0 = pre_reg.taken(epoch);
    let g = free_grants(proofs, voter, cfg, taken0);
    let rmap = g.map_values(|m: u64| (VoteReceipt { mint: m, epoch: cfg.current_epoch, voter }));
    assert forall|i: int|
        0 <= i < proofs.len() && proof_eligible(#[trigger] proofs[i], voter, cfg) implies post_reg.taken(
        epoch,
    ).contains(proof_mint(proofs[i])) by {
        let m = proof_mint(proofs[i]);
        if taken0.contains(m) {
            let j = choose|j: int|
                0 <= j < pre_reg@.len() && (#[trigger] pre_reg@[j]).mint == m && pre_reg@[j].epoch
                    == epoch;
            assert(post_reg@[j] == pre_reg@[j]);
            assert(post_reg.has_key(m, epoch));
        } else {
            lemma_free_grants_complete(proofs, voter, cfg, taken0, i);
            let j = choose|j: int| 0 <= j < g.len() && g[j] == m;
            assert(post_reg@[pre_reg@.len() + j] == rmap[j]);
            assert(rmap[j].mint == m && rmap[j].epoch == epoch);
            assert(post_reg.has_key(m, epoch));
        }
    }
    lemma_free_grants_replayed(proofs, voter, cfg, post_reg.taken(epoch));
}

/// What a paid-mode vote does: on success the exact curve cost moves from
/// the voter to the treasury and the vote count grows by the request; each
/// failure names its error, in the order the guards are checked, and
/// changes nothing.
pub open spec fn paid_vote_post(
    cfg: Config,
    pre_c: ArtCandidate,
    post_c: ArtCandidate,
    pre_vb: u64,
    post_vb: u64,
    pre_tb: u64,
    post_tb: u64,
    num_votes: u32,
    r: Result<(), ChumError>,
) -> bool {
    let base = cfg.base_vote_price as int;
    let cur = pre_c.votes as int;
    let n = num_votes as nat;
    let cost = total_cost(base, cur, n);
    match r {
        Ok(_) => {
            &&& num_votes > 0
            &&& cost_fits(base, cur, n)
            &&& cost <= pre_vb
            &&& pre_tb + cost <= u64::MAX
            &&& cur + num_votes <= u32::MAX
            &&& post_vb == pre_vb - cost
            &&& post_tb == pre_tb + cost
            &&& post_c == (ArtCandidate { votes: (pre_c.votes + num_votes) as u32, ..pre_c })
        },
        Err(e) => {
            &&& post_c == pre_c
            &&& post_vb == pre_vb
            &&& post_tb == pre_tb
            &&& if num_votes == 0 {
                e == ChumError::InvalidVoteCount
            } else if !cost_fits(base, cur, n) {
                e == ChumError::MathOverflow
            } else if cost > pre_vb {
                e == ChumError::InsufficientPayment
            } else if pre_tb + cost > u64::MAX {
                e == ChumError::MathOverflow
            } else {
                cur + num_votes > u32::MAX && e == ChumError::MathOverflow
            }
        },
    }
}

/// What a free-mode vote does: every valid unused proof gets its receipt
/// written, the vote count grows by the clamped grant, and the only
/// failure is a counter overflowing.
pub open spec fn free_vote_post(
    cfg: Config,
    pre_c: ArtCandidate,
    post_c: ArtCandidate,
    pre_reg: ReceiptRegistry,
    post_reg: ReceiptRegistry,
    voter: u64,
    num_votes: u32,
    proofs: Seq<VoteProof>,
    r: Result<(), ChumError>,
) -> bool {
    let g = free_grants(proofs, voter, cfg, pre_reg.taken(cfg.current_epoch));
    let granted = granted_count(num_votes, g.len());
    match r {
        Ok(_) => {
            &&& g.len() <= u32::MAX
            &&& pre_c.votes + granted <= u32::MAX
            &&& post_c == (ArtCandidate { votes: (pre_c.votes + granted) as u32, ..pre_c })
            &&& post_reg@ == pre_reg@ + g.map_values(
                |m: u64| (VoteReceipt { mint: m, epoch: cfg.current_epoch, voter }),
            )
            &&& pre_reg.wf() ==> post_reg.wf()
        },
        Err(e) => {
            &&& e == ChumError::MathOverflow
            &&& g.len() > u32::MAX || pre_c.votes + granted > u32::MAX
            &&& post_c == pre_c
            &&& post_reg@ == pre_reg@
        },
    }
}

fn proof_is_eligible(p: &VoteProof, voter: u64, config: &Config) -> (b: bool)
    ensures
        b == proof_eligible(*p, voter, *config),
{
    match p {
        VoteProof::OwnedAsset { asset, holder, collection, founder_entry } => {
            if *holder != voter {
                return false;
            }
            match collection {
                Some(c) => {
                    if *c == config.fellow_villains_collection {
                        true
                    } else if *c == config.collection {
                        match founder_entry {
                            Some(e) => e.mint == *asset && e.is_founder_key,
                            None => false,
                        }
                    } else {
                        false
                    }
                },
                None => false,
            }
        },
        VoteProof::Candidacy { record } => {
            record.creator == voter && !record.won && !record.withdrawn
        },
        VoteProof::Unrecognized => false,
    }
}

fn proof_mint_of(p: &VoteProof) -> (m: u64)
    ensures
        m == proof_mint(*p),
{
    match p {
        VoteProof::OwnedAsset { asset, .. } => *asset,
        VoteProof::Candidacy { record } => record.mint,
        VoteProof::Unrecognized => 0,
    }
}

fn mints_contain(v: &Vec<u64>, m: u64) -> (b: bool)
    ensures
        b == v@.contains(m),
{
    let mut i: usize = 0;
    while i < v.len()
        invariant
            i <= v@.len(),
            forall|k: int| 0 <= k < i ==> v@[k] != m,
        decreases v@.len() - i,
    {
        if v[i] == m {
            return true;
        }
        i = i + 1;
    }
    false
}

/// Free-mode voting: scan the proofs, write a receipt for every valid
/// asset that has none for this epoch yet, and grant the clamped count.
pub fn handler_free(
    config: &Config,
    candidate: &mut ArtCandidate,
    receipts: &mut ReceiptRegistry,
    voter: u64,
    num_votes: u32,
    proofs: &Vec<VoteProof>,
) -> (r: Result<(), ChumError>)
    ensures
        free_vote_post(
            *config,
            *old(candidate),
            *final(candidate),
            *old(receipts),
            *final(receipts),
            voter,
            num_votes,
            proofs@,
            r,
        ),
{
    let epoch = config.current_epoch;
    let ghost taken0 = old(receipts).taken(epoch);
    let ghost g = free_grants(proofs@, voter, *config, taken0);

    // First pass: decide which assets earn a vote, without touching any
    // state, so that a failure further down leaves everything unchanged.
    let mut granted: Vec<u64> = Vec::new();
    let mut free_votes: u32 = 0;
    let mut idx: usize = 0;
    proof {
        assert(taken0.union(granted@.to_set()) =~= taken0);
        assert(proofs@.skip(0) =~= proofs@);
    }
    while idx < proofs.len()
        invariant
            idx <= proofs@.len(),
            receipts@ == old(receipts)@,
            taken0 == old(receipts).taken(epoch),
            epoch == config.current_epoch,
            g == free_grants(proofs@, voter, *config, taken0),
            free_votes as nat == granted@.len(),
            g == granted@ + free_grants(
                proofs@.skip(idx as int),
                voter,
                *config,
                taken0.union(granted@.to_set()),
            ),
        decreases proofs@.len() - idx,
    {
        let p = &proofs[idx];
        let ghost s = proofs@.skip(idx as int);
        let ghost tk = taken0.union(granted@.to_set());
        proof {
            assert(s[0] == proofs@[idx as int]);
            assert(s.drop_first() =~= proofs@.skip(idx as int + 1));
        }
        let eligible = proof_is_eligible(p, voter, config);
        if eligible {
            let m = proof_mint_of(p);
            let used = receipts.contains(m, epoch) || mints_contain(&granted, m);
            proof {
                assert(tk.contains(m) == (old(receipts).has_key(m, epoch) || granted@.contains(
                    m,
                )));
            }
            if !used {
                let next = match free_votes.checked_add(1) {
                    Some(v) => v,
                    None => {
                        proof {
                            assert(free_grants(s, voter, *config, tk).len() >= 1);
                            assert(g.len() > u32::MAX);
                        }
                        return Err(ChumError::MathOverflow);
                    },
                };
                free_votes = next;
                let ghost pre_granted = granted@;
                granted.push(m);
                proof {
                    assert(granted@ =~= pre_granted + seq![m]);
                    assert forall|x: u64| #[trigger]
                        granted@.contains(x) == (pre_granted.contains(x) || x == m) by {
                        if granted@.contains(x) {
                            let i = choose|i: int|
                                0 <= i < granted@.len() && #[trigger] granted@[i] == x;
                            if i < pre_granted.len() {
                                assert(pre_granted[i] == x);
                            }
                        }
                        if pre_granted.contains(x) {
                            let i = choose|i: int|
                                0 <= i < pre_granted.len() && #[trigger] pre_granted[i] == x;
                            assert(granted@[i] == x);
                        }
                        if x == m {
                            assert(granted@[pre_granted.len() as int] == x);
                        }
                    }
                    assert(taken0.union(granted@.to_set()) =~= tk.insert(m));
                    assert(g == pre_granted + (seq![m] + free_grants(
                        proofs@.skip(idx as int + 1),
                        voter,
                        *config,
                        tk.insert(m),
                    )));
                    assert(g =~= granted@ + free_grants(
                        proofs@.skip(idx as int + 1),
                        voter,
                        *config,
                        taken0.union(granted@.to_set()),
                    ));
                }
            }
        }
        idx = idx + 1;
    }
    proof {
        assert(proofs@.skip(proofs@.len() as int) =~= Seq::<VoteProof>::empty());
        assert(free_grants(
            Seq::<VoteProof>::empty(),
            voter,
            *config,
            taken0.union(granted@.to_set()),
        ) =~= Seq::<u64>::empty());
        assert(g =~= granted@);
    }

    // The asymmetric clamp: zero requested still grants one if possible.
    let actual: u32 = if num_votes == 0 {
        if free_votes >= 1 {
            1
        } else {
            0
        }
    } else if free_votes < num_votes {
        free_votes
    } else {
        num_votes
    };
    assert(actual as nat == granted_count(num_votes, g.len()));

    let new_votes = match candidate.votes.checked_add(actual) {
        Some(v) => v,
        None => {
            return Err(ChumError::MathOverflow);
        },
    };
    candidate.votes = new_votes;

    // Commit the receipts for every granted asset.
    proof {
        lemma_free_grants_fresh_distinct(proofs@, voter, *config, taken0);
        assert(g.map_values(
            |m: u64| (VoteReceipt { mint: m, epoch, voter }),
        ).take(0) =~= Seq::<VoteReceipt>::empty());
        assert(receipts@ =~= old(receipts)@ + g.map_values(
            |m: u64| (VoteReceipt { mint: m, epoch, voter }),
        ).take(0));
        assert(granted@.take(granted@.len() as int) =~= granted@);
    }
    let ghost rmap = g.map_values(|m: u64| (VoteReceipt { mint: m, epoch, voter }));
    let mut k: usize = 0;
    while k < granted.len()
        invariant
            k <= granted@.len(),
            granted@ == g,
            epoch == config.current_epoch,
            taken0 == old(receipts).taken(epoch),
            rmap == g.map_values(|m: u64| (VoteReceipt { mint: m, epoch, voter })),
            forall|i: int| 0 <= i < g.len() ==> !taken0.contains(#[trigger] g[i]),
            forall|i: int, j: int|
                #![trigger g[i], g[j]]
                0 <= i < j < g.len() ==> g[i] != g[j],
            receipts@ == old(receipts)@ + rmap.take(k as int),
            old(receipts).wf() ==> receipts.wf(),
        decreases granted@.len() - k,
    {
        let m = granted[k];
        let ghost pre_view = receipts@;
        proof {
            assert(!receipts.has_key(m, epoch)) by {
                if receipts.has_key(m, epoch) {
                    let i = choose|i: int|
                        0 <= i < receipts@.len() && (#[trigger] receipts@[i]).mint == m
                            && receipts@[i].epoch == epoch;
                    if i < old(receipts)@.len() {
                        assert(old(receipts)@[i] == receipts@[i]);
                        assert(old(receipts).has_key(m, epoch));
                        assert(taken0.contains(g[k as int]));
                    } else {
                        let j = i - old(receipts)@.len();
                        assert(receipts@[i] == rmap.take(k as int)[j]);
                        assert(rmap[j] == (VoteReceipt { mint: g[j], epoch, voter }));
                        assert(g[j] == g[k as int]);
                    }
                }
            }
        }
        let created = receipts.record(m, epoch, voter);
        proof {
            assert(created);
            assert(rmap[k as int] == (VoteReceipt { mint: m, epoch, voter }));
            assert(rmap.take(k as int + 1) =~= rmap.take(k as int).push(
                (VoteReceipt { mint: m, epoch, voter }),
            ));
            assert(receipts@ =~= old(receipts)@ + rmap.take(k as int + 1));
        }
        k = k + 1;
    }
    proof {
        assert(rmap.take(rmap.len() as int) =~= rmap);
    }
    Ok(())
}

/// Paid-mode voting: compute the curve cost, charge it to the treasury,
/// and credit the requested votes.
pub fn handler_paid(
    config: &Config,
    candidate: &mut ArtCandidate,
    voter_balance: &mut u64,
    treasury_balance: &mut u64,
    num_votes: u32,
) -> (r: Result<(), ChumError>)
    ensures
        paid_vote_post(
            *config,
            *old(candidate),
            *final(candidate),
            *old(voter_balance),
            *final(voter_balance),
            *old(treasury_balance),
            *final(treasury_balance),
            num_votes,
            r,
        ),
{
    if num_votes == 0 {
        return Err(ChumError::InvalidVoteCount);
    }
    let cost = match compute_vote_cost(config.base_vote_price, candidate.votes, num_votes) {
        Ok(c) => c,
        Err(e) => {
            return Err(e);
        },
    };
    if cost > *voter_balance {
        return Err(ChumError::InsufficientPayment);
    }
    let new_treasury = match treasury_balance.checked_add(cost) {
        Some(t) => t,
        None => {
            return Err(ChumError::MathOverflow);
        },
    };
    let new_votes = match candidate.votes.checked_add(num_votes) {
        Some(v) => v,
        None => {
            return Err(ChumError::MathOverflow);
        },
    };
    *voter_balance = *voter_balance - cost;
    *treasury_balance = new_treasury;
    candidate.votes = new_votes;
    Ok(())
}

/// The unified vote operation: refuse a paused system and a finished
/// candidate, then dispatch on the mode.
pub fn handler(
    config: &Config,
    candidate: &mut ArtCandidate,
    receipts: &mut ReceiptRegistry,
    voter: u64,
    num_votes: u32,
    is_paid: bool,
    proofs: &Vec<VoteProof>,
    voter_balance: &mut u64,
    treasury_balance: &mut u64,
) -> (r: Result<(), ChumError>)
    ensures
        (config.paused || old(candidate).won || old(candidate).withdrawn) ==> {
            &&& *final(candidate) == *old(candidate)
            &&& final(receipts)@ == old(receipts)@
            &&& *final(voter_balance) == *old(voter_balance)
            &&& *final(treasury_balance) == *old(treasury_balance)
            &&& r == Err::<(), ChumError>(
                if config.paused {
                    ChumError::SystemPaused
                } else if old(candidate).won {
                    ChumError::AlreadyWon
                } else {
                    ChumError::AlreadyWithdrawn
                },
            )
        },
        (!config.paused && !old(candidate).won && !old(candidate).withdrawn && is_paid) ==> {
            &&& paid_vote_post(
                *config,
                *old(candidate),
                *final(candidate),
                *old(voter_balance),
                *final(voter_balance),
                *old(treasury_balance),
                *final(treasury_balance),
                num_votes,
                r,
            )
            &&& final(receipts)@ == old(receipts)@
        },
        (!config.paused && !old(candidate).won && !old(candidate).withdrawn && !is_paid) ==> {
            &&& free_vote_post(
                *config,
                *old(candidate),
                *final(candidate),
                *old(receipts),
                *final(receipts),
                voter,
                num_votes,
                proofs@,
                r,
            )
            &&& *final(voter_balance) == *old(voter_balance)
            &&& *final(treasury_balance) == *old(treasury_balance)
        },
{
    if config.paused {
        return Err(ChumError::SystemPaused);
    }
    if candidate.won {
        return Err(ChumError::AlreadyWon);
    }
    if candidate.withdrawn {
        return Err(ChumError::AlreadyWithdrawn);
    }
    if is_paid {
        handler_paid(config, candidate, voter_balance, treasury_balance, num_votes)
    } else {
        handler_free(config, candidate, receipts, voter, num_votes, proofs)
    }
}

} // verus!
