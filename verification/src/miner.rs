//! The bounded nonce search.

use crate::block::{digest_at, Block, BlockView};
use crate::difficulty::{meets_difficulty, spec_meets_difficulty};
use crate::digest::spec_digest;
use vstd::prelude::*;

verus! {

/// The number of nonce values after the first that a search may try.
pub const RETRY_CAP: u64 = 100;

/// How a search ended.
#[derive(Clone, Copy, Debug, PartialEq, Eq, Structural)]
pub enum MineOutcome {
    /// The stored hash meets the difficulty.
    Found,
    /// The attempts ran out; the stored hash is the last one tried and does
    /// not meet the difficulty.
    CapReached,
}

/// The outcome of a search and the number of digests it computed.
#[derive(Clone, Copy, Debug, PartialEq, Eq, Structural)]
pub struct MineReport {
    pub outcome: MineOutcome,
    pub attempts: u64,
}

/// Searches nonces for a digest with `difficulty` leading zeros.
#[derive(Clone, Copy, Debug, PartialEq, Eq, Structural)]
pub struct Miner {
    pub difficulty: usize,
}

/// `after` is what a search at `difficulty` makes of `before`: the fixed
/// fields are kept, the nonce is the first from `before.nonce` on whose
/// digest qualifies, or the last one allowed if none does, and the hash is
/// the digest at that nonce.
pub open spec fn is_mining_result(before: BlockView, after: BlockView, difficulty: nat) -> bool {
    &&& after.previous_hash == before.previous_hash
    &&& after.timestamp == before.timestamp
    &&& after.index == before.index
    &&& after.data == before.data
    &&& before.nonce <= after.nonce <= before.nonce + RETRY_CAP
    &&& after.hash == digest_at(before, after.nonce)
    &&& forall|n: u64|
        before.nonce <= n < after.nonce ==> !spec_meets_difficulty(
            #[trigger] digest_at(before, n),
            difficulty,
        )
    &&& after.nonce < before.nonce + RETRY_CAP ==> spec_meets_difficulty(after.hash, difficulty)
}

/// What a search reports of the block it left: the outcome says whether
/// the stored hash qualifies, and one digest was computed per nonce from
/// the first to the last.
pub open spec fn is_report_of(
    report: MineReport,
    before: BlockView,
    after: BlockView,
    difficulty: nat,
) -> bool {
    &&& report.outcome == MineOutcome::Found <==> spec_meets_difficulty(after.hash, difficulty)
    &&& report.attempts == after.nonce - before.nonce + 1
}

impl Miner {
    /// A miner that asks for `difficulty` leading zeros.
    pub fn new(difficulty: usize) -> (miner: Miner)
        ensures
            miner.difficulty == difficulty,
    {
        Miner { difficulty }
    }

    /// Runs the search on `block`, from the nonce it holds. It ends on the
    /// first digest that qualifies, or on the digest of the last nonce
    /// allowed, which is stored though it does not qualify.
    pub fn mine(&self, block: &mut Block) -> (report: MineReport)
        requires
            old(block).nonce <= u64::MAX - RETRY_CAP,
        ensures
            is_mining_result(old(block)@, final(block)@, self.difficulty as nat),
            is_report_of(report, old(block)@, final(block)@, self.difficulty as nat),
            report.attempts <= RETRY_CAP + 1,
            final(block).hash@.len() == 64,
    {
        let mut iterations: u64 = 0;
        loop
            invariant
                block.previous_hash == old(block).previous_hash,
                block.timestamp == old(block).timestamp,
                block.index == old(block).index,
                block.data == old(block).data,
                old(block).nonce <= u64::MAX - RETRY_CAP,
                iterations <= RETRY_CAP,
                block.nonce == old(block).nonce + iterations,
                forall|n: u64|
                    old(block).nonce <= n < block.nonce ==> !spec_meets_difficulty(
                        #[trigger] digest_at(old(block)@, n),
                        self.difficulty as nat,
                    ),
            decreases RETRY_CAP - iterations,
        {
            iterations += 1;
            let candidate = block.calculate_hash();
            assert(candidate@ == digest_at(old(block)@, block.nonce));
            if meets_difficulty(candidate.as_str(), self.difficulty) {
                block.hash = candidate;
                return MineReport { outcome: MineOutcome::Found, attempts: iterations };
            }
            if iterations > RETRY_CAP {
                block.hash = candidate;
                return MineReport { outcome: MineOutcome::CapReached, attempts: iterations };
            }
            block.nonce += 1;
        }
    }
}

/// A search has one result: two blocks that both are what a search makes
/// of the same block at the same difficulty are equal.
pub proof fn lemma_mining_result_is_unique(
    before: BlockView,
    first: BlockView,
    second: BlockView,
    difficulty: nat,
)
    requires
        is_mining_result(before, first, difficulty),
        is_mining_result(before, second, difficulty),
    ensures
        first == second,
{
    if first.nonce < second.nonce {
        assert(!spec_meets_difficulty(digest_at(before, first.nonce), difficulty));
    } else if second.nonce < first.nonce {
        assert(!spec_meets_difficulty(digest_at(before, second.nonce), difficulty));
    }
}

/// A block that a search left with a qualifying hash holds the digest of
/// its own stored fields and nonce.
pub proof fn lemma_success_reproduces_hash(before: BlockView, after: BlockView, difficulty: nat)
    requires
        is_mining_result(before, after, difficulty),
        spec_meets_difficulty(after.hash, difficulty),
    ensures
        after.hash == spec_digest(
            after.previous_hash,
            after.timestamp,
            after.index,
            after.data,
            after.nonce,
        ),
        spec_meets_difficulty(
            spec_digest(
                after.previous_hash,
                after.timestamp,
                after.index,
                after.data,
                after.nonce,
            ),
            difficulty,
        ),
{
}

} // verus!
