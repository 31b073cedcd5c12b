//! Transaction records as the ledger-indexing API reports them, and the
//! derivation of a wallet address from a public key: hex-decode the key,
//! hash it with SHA-256 then RIPEMD-160, and render the result as a C32Check
//! address with the mainnet version byte.

use vstd::prelude::*;
use sha2::{Digest, Sha256};
use ripemd::Ripemd160;
use crate::codec::{decode_hex, hex_bytes, is_hex_string};
use crate::protocol::ProofsError;

verus! {

/// One transaction of a wallet's history: the net amounts moved, as decimal
/// strings, and the details of the ledger entry.
#[derive(Clone, Debug, PartialEq, Eq)]
pub struct Transaction {
    pub tx: TransactionDetails,
    pub stx_sent: String,
    pub stx_received: String,
}

/// The ledger entry behind a transaction.
#[derive(Clone, Debug, PartialEq, Eq)]
pub struct TransactionDetails {
    pub tx_id: String,
    pub nonce: u64,
    pub block_height: u64,
    pub burn_block_height: u64,
    pub tx_index: u64,
    pub tx_status: String,
    pub parent_block_hash: String,
    pub tx_type: String,
}

/// The raw result payload of a ledger entry.
#[derive(Clone, Debug)]
pub struct TxResult {
    pub hex: String,
    pub repr: String,
}

/// Event counters attached to a ledger entry.
#[derive(Clone, Debug)]
pub struct Event {
    pub stx: StxEvent,
    pub ft: FtEvent,
    pub nft: NftEvent,
}

/// Counters of token-movement events.
#[derive(Clone, Copy, Debug)]
pub struct StxEvent {
    pub transfer: u16,
    pub mint: u16,
    pub burn: u16,
}

/// Counters of fungible-token events.
#[derive(Clone, Copy, Debug)]
pub struct FtEvent {
    pub transfer: u16,
    pub mint: u16,
    pub burn: u16,
}

/// Counters of non-fungible-token events.
#[derive(Clone, Copy, Debug)]
pub struct NftEvent {
    pub transfer: u16,
    pub mint: u16,
    pub burn: u16,
}

/// A plain token transfer carried by a transaction.
#[derive(Clone, Debug)]
pub struct TokenTransfer {
    pub recipient_address: String,
    pub amount: String,
    pub memo: String,
}

/// One page of the ledger-indexing API's transaction listing.
#[derive(Clone, Debug)]
pub struct ApiResponse {
    pub results: Vec<Transaction>,
    pub total: u64,
    pub limit: u64,
    pub offset: u64,
}

/// The version byte of mainnet single-signature addresses.
pub const MAINNET_ADDRESS_VERSION: u8 = 22;

/// The SHA-256 digest of a byte sequence; it depends on the input alone.
pub uninterp spec fn sha256_of(data: Seq<u8>) -> Seq<u8>;

/// The RIPEMD-160 digest of a byte sequence; it depends on the input alone.
pub uninterp spec fn ripemd160_of(data: Seq<u8>) -> Seq<u8>;

/// The C32Check address string for a 20-byte hash and a version byte; it
/// depends on the two arguments alone.
pub uninterp spec fn c32_address_of(hash: Seq<u8>, version: u8) -> Seq<char>;

/// Relies on the sha2 crate's SHA-256: a 32-byte digest of the input bytes.
#[verifier::external_body]
fn sha256_digest(data: &Vec<u8>) -> (r: Vec<u8>)
    ensures
        r@ == sha256_of(data@),
        r@.len() == 32,
{
    Sha256::digest(data.as_slice()).to_vec()
}

/// Relies on the ripemd crate's RIPEMD-160: a 20-byte digest of the input
/// bytes.
#[verifier::external_body]
fn ripemd160_digest(data: &Vec<u8>) -> (r: Vec<u8>)
    ensures
        r@ == ripemd160_of(data@),
        r@.len() == 20,
{
    Ripemd160::digest(data.as_slice()).to_vec()
}

/// Relies on stacks-rs's `c32_address`: for the four known address version
/// bytes it always returns the C32Check address of the 20-byte hash, a
/// string starting with 'S'.
#[verifier::external_body]
fn c32_encode_address(hash: &Vec<u8>, version: u8) -> (r: String)
    requires
        hash@.len() == 20,
        version == 20 || version == 21 || version == 22 || version == 26,
    ensures
        r@ == c32_address_of(hash@, version),
        r@.len() > 0 && r@[0] == 'S',
{
    let mut bytes = [0u8; 20];
    bytes.copy_from_slice(hash.as_slice());
    match stacks_rs::crypto::c32_address(bytes, version) {
        Ok(addr) => addr,
        Err(_) => String::new(),
    }
}

/// Derives the mainnet wallet address of a public key given in hex: the key
/// bytes are hashed with SHA-256, then RIPEMD-160, and the 20-byte result is
/// rendered as a C32Check address with the mainnet version byte. Fails
/// exactly when the input is not a well-formed hex string.
pub fn public_key_to_stacks_address(public_key_hex: String) -> (r: Result<String, ProofsError>)
    ensures
        r is Ok <==> is_hex_string(public_key_hex@),
        r is Ok ==> r->Ok_0@ == c32_address_of(
            ripemd160_of(sha256_of(hex_bytes(public_key_hex@))),
            MAINNET_ADDRESS_VERSION,
        ),
        r matches Err(e) ==> e.spec_message() == "malformed public key hex"@,
{
    let public_key_bytes = match decode_hex(public_key_hex.as_str()) {
        Some(b) => b,
        None => {
            return Err(ProofsError::new("malformed public key hex"));
        },
    };
    let sha256_hash = sha256_digest(&public_key_bytes);
    let ripemd160_hash = ripemd160_digest(&sha256_hash);
    Ok(c32_encode_address(&ripemd160_hash, MAINNET_ADDRESS_VERSION))
}

} // verus!
