//! The digest of a block: SHA-256 over the canonical text of its fields.

use crate::encoding::{decimal, hex_encode, push_decimal, to_hex};
use sha2::{Digest, Sha256};
use vstd::prelude::*;
use vstd::utf8::encode_utf8;

verus! {

/// The 32 bytes that SHA-256 gives for `message`.
pub uninterp spec fn sha256(message: Seq<u8>) -> Seq<u8>;

/// Calls `sha2::Sha256::digest` (the `digest::Digest` trait's one-shot
/// method). Trusted: the result is a function of the message alone, here
/// called `sha256`, and holds the 32 bytes of the hash's fixed output size.
#[verifier::external_body]
fn sha256_bytes(message: &[u8]) -> (out: Vec<u8>)
    ensures
        out@ == sha256(message@),
        out@.len() == 32,
{
    Sha256::digest(message).to_vec()
}

/// The text that is hashed: the five fields in this fixed order, with no
/// delimiters, numbers in decimal.
pub open spec fn preimage(
    previous_hash: Seq<char>,
    timestamp: u64,
    index: u32,
    data: Seq<char>,
    nonce: u64,
) -> Seq<char> {
    previous_hash + decimal(timestamp as nat) + decimal(index as nat) + data + decimal(
        nonce as nat,
    )
}

/// The lowercase hex SHA-256 of the UTF-8 encoding of the preimage.
pub open spec fn spec_digest(
    previous_hash: Seq<char>,
    timestamp: u64,
    index: u32,
    data: Seq<char>,
    nonce: u64,
) -> Seq<char> {
    hex_encode(sha256(encode_utf8(preimage(previous_hash, timestamp, index, data, nonce))))
}

/// Builds the text that is hashed.
pub fn canonical_text(
    previous_hash: &str,
    timestamp: u64,
    index: u32,
    data: &str,
    nonce: u64,
) -> (text: String)
    ensures
        text@ == preimage(previous_hash@, timestamp, index, data@, nonce),
{
    let mut text = String::new();
    text.append(previous_hash);
    push_decimal(&mut text, timestamp);
    push_decimal(&mut text, index as u64);
    text.append(data);
    push_decimal(&mut text, nonce);
    assert(text@ =~= preimage(previous_hash@, timestamp, index, data@, nonce));
    text
}

/// The digest of a block's fields at a given nonce: 64 lowercase hex
/// characters.
pub fn digest(previous_hash: &str, timestamp: u64, index: u32, data: &str, nonce: u64) -> (hash:
    String)
    ensures
        hash@ == spec_digest(previous_hash@, timestamp, index, data@, nonce),
        hash@.len() == 64,
{
    let text = canonical_text(previous_hash, timestamp, index, data, nonce);
    let raw = sha256_bytes(text.as_str().as_bytes());
    to_hex(raw.as_slice())
}

} // verus!
