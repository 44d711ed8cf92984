//! One entry of the ledger.

use crate::calendar::{datetime_text, format_timestamp, spec_signed_seconds};
use crate::clock::{current_timestamp, ClockError};
use crate::digest::{digest, spec_digest};
use crate::encoding::{decimal, push_decimal};
use vstd::prelude::*;

verus! {

/// A ledger entry. `hash` is empty until mining assigns it.
pub struct Block {
    pub previous_hash: String,
    pub timestamp: u64,
    pub index: u32,
    pub data: String,
    pub nonce: u64,
    pub hash: String,
}

/// What a block holds, as plain mathematical values.
pub struct BlockView {
    pub previous_hash: Seq<char>,
    pub timestamp: u64,
    pub index: u32,
    pub data: Seq<char>,
    pub nonce: u64,
    pub hash: Seq<char>,
}

impl View for Block {
    type V = BlockView;

    open spec fn view(&self) -> BlockView {
        BlockView {
            previous_hash: self.previous_hash@,
            timestamp: self.timestamp,
            index: self.index,
            data: self.data@,
            nonce: self.nonce,
            hash: self.hash@,
        }
    }
}

/// The digest of `block`'s fixed fields at `nonce`.
pub open spec fn digest_at(block: BlockView, nonce: u64) -> Seq<char> {
    spec_digest(block.previous_hash, block.timestamp, block.index, block.data, nonce)
}

/// The text of a block for a reader, one field per line, with `moment`
/// for the calendar text of its timestamp.
pub open spec fn block_text(block: BlockView, moment: Seq<char>) -> Seq<char> {
    "Block #"@ + decimal(block.index as nat) + "\nPrevious Hash: "@ + block.previous_hash
        + "\nTimestamp: "@ + moment + "\nData: "@ + block.data + "\nNonce: "@ + decimal(
        block.nonce as nat,
    ) + "\nHash: "@ + block.hash + "\n"@
}

/// The block that construction gives: the four fields as they came, nonce
/// zero, hash unset.
pub open spec fn spec_unmined(
    previous_hash: Seq<char>,
    timestamp: u64,
    index: u32,
    data: Seq<char>,
) -> BlockView {
    BlockView { previous_hash, timestamp, index, data, nonce: 0, hash: Seq::<char>::empty() }
}

impl Block {
    /// A block that has not been mined: nonce zero, hash unset, stamped
    /// with `timestamp`, the time of its construction in seconds since the
    /// epoch.
    pub fn stamped(index: u32, previous_hash: String, data: String, timestamp: u64) -> (block:
        Block)
        ensures
            block@ == spec_unmined(previous_hash@, timestamp, index, data@),
    {
        Block { previous_hash, timestamp, index, data, nonce: 0, hash: String::new() }
    }

    /// A block that has not been mined, stamped with the system clock's
    /// time. It fails only where the clock gives no time.
    pub fn new(index: u32, previous_hash: String, data: String) -> (made: Result<Block, ClockError>)
        ensures
            match made {
                Ok(block) => block@ == spec_unmined(
                    previous_hash@,
                    block.timestamp,
                    index,
                    data@,
                ),
                Err(error) => error == ClockError::Unavailable,
            },
    {
        match current_timestamp() {
            Ok(timestamp) => Ok(Block::stamped(index, previous_hash, data, timestamp)),
            Err(error) => Err(error),
        }
    }

    /// The digest of the block's fields at the nonce it holds. The stored
    /// hash has no part in it and is left as it is.
    pub fn calculate_hash(&self) -> (hash: String)
        ensures
            hash@ == digest_at(self@, self.nonce),
            hash@.len() == 64,
    {
        digest(
            self.previous_hash.as_str(),
            self.timestamp,
            self.index,
            self.data.as_str(),
            self.nonce,
        )
    }

    /// The text of the block with `moment` on its timestamp line.
    pub fn describe_at(&self, moment: &str) -> (text: String)
        ensures
            text@ == block_text(self@, moment@),
    {
        let mut text = String::new();
        text.append("Block #");
        push_decimal(&mut text, self.index as u64);
        text.append("\nPrevious Hash: ");
        text.append(self.previous_hash.as_str());
        text.append("\nTimestamp: ");
        text.append(moment);
        text.append("\nData: ");
        text.append(self.data.as_str());
        text.append("\nNonce: ");
        push_decimal(&mut text, self.nonce);
        text.append("\nHash: ");
        text.append(self.hash.as_str());
        text.append("\n");
        assert(text@ =~= block_text(self@, moment@));
        text
    }

    /// The text of the block, with its timestamp as a calendar date and
    /// time, or the error where the timestamp has none.
    pub fn describe(&self) -> (text: Result<String, ClockError>)
        ensures
            match datetime_text(spec_signed_seconds(self.timestamp)) {
                Some(moment) => text.is_ok() && text.unwrap()@ == block_text(self@, moment),
                None => text == Err::<String, ClockError>(ClockError::OutOfRange),
            },
    {
        match format_timestamp(self.timestamp) {
            Ok(moment) => Ok(self.describe_at(moment.as_str())),
            Err(error) => Err(error),
        }
    }
}

} // verus!
