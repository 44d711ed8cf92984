//! The chain: an append-only sequence of blocks that starts with the
//! genesis block.

use crate::block::{digest_at, spec_unmined, Block, BlockView};
use crate::clock::{current_timestamp, ClockError};
use crate::difficulty::DEFAULT_DIFFICULTY;
use crate::miner::{is_mining_result, is_report_of, MineReport, Miner, RETRY_CAP};
use vstd::prelude::*;

verus! {

/// What every block adds to the total reward.
pub const REWARD_PER_BLOCK: usize = 137;

/// The genesis block: index zero, the sentinel `"0"` for a predecessor, and
/// a hash that stays unset.
pub open spec fn is_genesis(block: BlockView) -> bool {
    &&& block.index == 0
    &&& block.previous_hash == "0"@
    &&& block.data == "Genesis Block"@
    &&& block.nonce == 0
    &&& block.hash == Seq::<char>::empty()
}

/// Every block but the first names the stored hash of the one before it.
pub open spec fn is_linked(chain: Seq<BlockView>) -> bool {
    forall|i: int| 1 <= i < chain.len() ==> (#[trigger] chain[i]).previous_hash == chain[i - 1].hash
}

/// Every block but the first stores the digest of its own fields and nonce.
pub open spec fn is_sealed(chain: Seq<BlockView>) -> bool {
    forall|i: int|
        1 <= i < chain.len() ==> (#[trigger] chain[i]).hash == digest_at(chain[i], chain[i].nonce)
}

/// What holds of a chain at every moment of its life.
pub open spec fn is_valid_chain(chain: Seq<BlockView>) -> bool {
    &&& chain.len() >= 1
    &&& is_genesis(chain[0])
    &&& is_linked(chain)
    &&& is_sealed(chain)
}

/// `block` with the hash of the chain's last block for a predecessor: what
/// is handed to the search when `block` is appended to `chain`.
pub open spec fn linked_to(chain: Seq<BlockView>, block: BlockView) -> BlockView {
    BlockView { previous_hash: chain.last().hash, ..block }
}

/// `after` is `before` with one block more at its end, and that block is
/// what a search at `difficulty` makes of `block` once it is linked.
pub open spec fn is_append_of(
    before: Seq<BlockView>,
    after: Seq<BlockView>,
    block: BlockView,
    difficulty: nat,
) -> bool {
    &&& before.len() >= 1
    &&& after.len() == before.len() + 1
    &&& after.drop_last() == before
    &&& is_mining_result(linked_to(before, block), after.last(), difficulty)
}

/// An ordered, append-only sequence of blocks with the miner that seals
/// each new one.
pub struct Blockchain {
    chain: Vec<Block>,
    miner: Miner,
}

impl View for Blockchain {
    type V = Seq<BlockView>;

    closed spec fn view(&self) -> Seq<BlockView> {
        Seq::new(self.chain@.len(), |i: int| self.chain@[i]@)
    }
}

impl Blockchain {
    /// The difficulty that the chain's miner holds.
    pub closed spec fn spec_difficulty(&self) -> nat {
        self.miner.difficulty as nat
    }

    /// The chain starts with the genesis block, is linked and is sealed.
    pub open spec fn wf(&self) -> bool {
        is_valid_chain(self@)
    }

    /// A chain of the genesis block alone, stamped with the system clock's
    /// time, with the default difficulty. The genesis block is not mined.
    /// It fails only where the clock gives no time.
    pub fn new() -> (made: Result<Blockchain, ClockError>)
        ensures
            match made {
                Ok(chain) => {
                    &&& chain.wf()
                    &&& chain@.len() == 1
                    &&& is_genesis(chain@[0])
                    &&& chain.spec_difficulty() == DEFAULT_DIFFICULTY
                },
                Err(error) => error == ClockError::Unavailable,
            },
    {
        match current_timestamp() {
            Ok(timestamp) => Ok(Blockchain::with_difficulty(timestamp, DEFAULT_DIFFICULTY)),
            Err(error) => Err(error),
        }
    }

    /// A chain of the genesis block alone, whose miner asks for
    /// `difficulty` leading zeros.
    pub fn with_difficulty(timestamp: u64, difficulty: usize) -> (chain: Blockchain)
        ensures
            chain.wf(),
            chain@.len() == 1,
            is_genesis(chain@[0]),
            chain@[0].timestamp == timestamp,
            chain.spec_difficulty() == difficulty,
    {
        let genesis_block = Block::stamped(
            0,
            String::from_str("0"),
            String::from_str("Genesis Block"),
            timestamp,
        );
        let mut chain: Vec<Block> = Vec::new();
        chain.push(genesis_block);
        Blockchain { chain, miner: Miner::new(difficulty) }
    }

    /// Links `new_block` to the last block, mines it and pushes it,
    /// whichever way the search ended. The predecessor that `new_block`
    /// came with is replaced.
    pub fn add_block(&mut self, new_block: Block) -> (report: MineReport)
        requires
            old(self).wf(),
            new_block.nonce <= u64::MAX - RETRY_CAP,
        ensures
            final(self).wf(),
            final(self).spec_difficulty() == old(self).spec_difficulty(),
            is_append_of(old(self)@, final(self)@, new_block@, old(self).spec_difficulty()),
            is_report_of(
                report,
                linked_to(old(self)@, new_block@),
                final(self)@.last(),
                old(self).spec_difficulty(),
            ),
            report.attempts <= RETRY_CAP + 1,
            final(self)@.last().hash.len() == 64,
    {
        let mut block = new_block;
        let last: usize = self.chain.len() - 1;
        assert(self@[last as int] == self.chain@[last as int]@);
        block.previous_hash = self.chain[last].hash.clone();
        let ghost linked = block@;
        let report = self.miner.mine(&mut block);
        self.chain.push(block);
        proof {
            let before = old(self)@;
            let after = self@;
            assert(after.drop_last() =~= before);
            assert(after.last() == block@);
            assert(linked == linked_to(before, new_block@));
            assert forall|i: int| 1 <= i < after.len() implies (#[trigger] after[i]).previous_hash
                == after[i - 1].hash by {
                if i < before.len() {
                    assert(after[i] == before[i]);
                    assert(after[i - 1] == before[i - 1]);
                }
            }
            assert forall|i: int| 1 <= i < after.len() implies (#[trigger] after[i]).hash
                == digest_at(after[i], after[i].nonce) by {
                if i < before.len() {
                    assert(after[i] == before[i]);
                }
            }
            assert(after[0] == before[0]);
        }
        report
    }

    /// Builds the block for `index` and `data`, stamped with the system
    /// clock's time, and appends it. Where the clock gives no time the
    /// chain is left as it was.
    pub fn append(&mut self, index: u32, data: String) -> (done: Result<MineReport, ClockError>)
        requires
            old(self).wf(),
        ensures
            final(self).wf(),
            final(self).spec_difficulty() == old(self).spec_difficulty(),
            match done {
                Ok(report) => {
                    let block = spec_unmined(
                        Seq::<char>::empty(),
                        final(self)@.last().timestamp,
                        index,
                        data@,
                    );
                    &&& is_append_of(old(self)@, final(self)@, block, old(self).spec_difficulty())
                    &&& is_report_of(
                        report,
                        linked_to(old(self)@, block),
                        final(self)@.last(),
                        old(self).spec_difficulty(),
                    )
                    &&& report.attempts <= RETRY_CAP + 1
                    &&& final(self)@.last().hash.len() == 64
                },
                Err(error) => error == ClockError::Unavailable && final(self)@ == old(self)@,
            },
    {
        match Block::new(index, String::new(), data) {
            Ok(new_block) => Ok(self.add_block(new_block)),
            Err(error) => Err(error),
        }
    }

    /// The number of blocks, the genesis block included.
    pub fn get_total_blocks(&self) -> (count: usize)
        ensures
            count == self@.len(),
    {
        self.chain.len()
    }

    /// The difficulty that the chain's miner holds.
    pub fn difficulty(&self) -> (difficulty: usize)
        ensures
            difficulty == self.spec_difficulty(),
    {
        self.miner.difficulty
    }

    /// The block at `position`, if the chain is that long.
    pub fn block(&self, position: usize) -> (found: Option<&Block>)
        ensures
            position < self@.len() ==> found.is_some() && found.unwrap()@ == self@[position as int],
            position >= self@.len() ==> found.is_none(),
    {
        if position < self.chain.len() {
            Some(&self.chain[position])
        } else {
            None
        }
    }
}

/// The reward for `block_count` blocks, or `None` where it does not fit.
pub fn total_reward(block_count: usize) -> (reward: Option<usize>)
    ensures
        block_count * REWARD_PER_BLOCK <= usize::MAX ==> reward == Some(
            (block_count * REWARD_PER_BLOCK) as usize,
        ),
        block_count * REWARD_PER_BLOCK > usize::MAX ==> reward.is_none(),
{
    if block_count <= usize::MAX / REWARD_PER_BLOCK {
        Some(block_count * REWARD_PER_BLOCK)
    } else {
        None
    }
}

/// An append adds exactly one block and leaves every earlier block as it
/// was.
pub proof fn lemma_append_grows_by_one(
    before: Seq<BlockView>,
    after: Seq<BlockView>,
    block: BlockView,
    difficulty: nat,
)
    requires
        is_append_of(before, after, block, difficulty),
    ensures
        after.len() == before.len() + 1,
        forall|i: int| 0 <= i < before.len() ==> after[i] == before[i],
{
    assert forall|i: int| 0 <= i < before.len() implies after[i] == before[i] by {
        assert(after.drop_last()[i] == after[i]);
    }
}

/// The block that an append adds names the hash that the last block held
/// at that moment, and stores the digest of its own fields and nonce.
pub proof fn lemma_append_links(
    before: Seq<BlockView>,
    after: Seq<BlockView>,
    block: BlockView,
    difficulty: nat,
)
    requires
        is_append_of(before, after, block, difficulty),
    ensures
        after[after.len() - 1].previous_hash == after[after.len() - 2].hash,
        after.last().hash == digest_at(after.last(), after.last().nonce),
        is_valid_chain(before) ==> is_valid_chain(after),
{
    lemma_append_grows_by_one(before, after, block, difficulty);
    if is_valid_chain(before) {
        assert forall|i: int| 1 <= i < after.len() implies (#[trigger] after[i]).previous_hash
            == after[i - 1].hash by {
            if i < before.len() {
                assert(after[i] == before[i]);
                assert(after[i - 1] == before[i - 1]);
            }
        }
        assert forall|i: int| 1 <= i < after.len() implies (#[trigger] after[i]).hash == digest_at(
            after[i],
            after[i].nonce,
        ) by {
            if i < before.len() {
                assert(after[i] == before[i]);
            }
        }
    }
}

/// Over any run of appends, where `states[k + 1]` is `states[k]` after one
/// append, the size after `k` appends is the first size plus `k`, so it
/// never falls, and the blocks of every earlier state stay where they were.
pub proof fn lemma_appends_grow(
    states: Seq<Seq<BlockView>>,
    blocks: Seq<BlockView>,
    difficulty: nat,
    k: int,
)
    requires
        states.len() == blocks.len() + 1,
        forall|j: int|
            0 <= j < blocks.len() ==> is_append_of(
                #[trigger] states[j],
                states[j + 1],
                blocks[j],
                difficulty,
            ),
        0 <= k < states.len(),
    ensures
        states[k].len() == states[0].len() + k,
        forall|j: int| 0 <= j <= k ==> (#[trigger] states[j]).len() <= states[k].len(),
        forall|i: int| 0 <= i < states[0].len() ==> states[k][i] == states[0][i],
    decreases k,
{
    if k > 0 {
        lemma_appends_grow(states, blocks, difficulty, k - 1);
        assert(is_append_of(states[k - 1], states[k], blocks[k - 1], difficulty));
        lemma_append_grows_by_one(states[k - 1], states[k], blocks[k - 1], difficulty);
        assert forall|j: int| 0 <= j <= k implies (#[trigger] states[j]).len()
            <= states[k].len() by {
            if j < k {
                assert(states[j].len() <= states[k - 1].len());
            }
        }
    }
}

} // verus!
