//! Storage-key derivation and on-chain head decoding for the chain client.
//!
//! A runtime pallet stores a plain value under
//! `twox128(pallet) ++ twox128(item)`, and a map entry under that prefix
//! followed by `twox64(key) ++ key`.  The two hashes come from
//! `sp_crypto_hashing` through trusted wrappers; the keys built from them
//! are specified exactly over the hashes' names.

use vstd::prelude::*;
use crate::blocks::{ParaId, StorageChanges};
use crate::codec::{push_bytes, scale_decode_bytes, spec_scale_encode_bytes, u32_le_bytes};

verus! {

/// Why a chain-client operation failed.
#[derive(Clone, Copy, Debug, PartialEq, Eq, Structural)]
pub enum Error {
    /// An on-chain blob did not decode as the expected shape.
    FailedToDecode,
    /// A storage-changes query answered for no block.
    BlockNotFound,
}

/// The changes made by the one block a storage-changes query asked about:
/// the response's first entry, or `BlockNotFound` on an empty response.
/// The transport that fetches the response stays outside this crate.
pub fn first_storage_changes(response: Vec<StorageChanges>) -> (r: Result<StorageChanges, Error>)
    ensures
        response@.len() == 0 ==> r == Err::<StorageChanges, Error>(Error::BlockNotFound),
        response@.len() > 0 ==> (r matches Ok(c) && c == response@[0]),
{
    let mut response = response;
    if response.len() == 0 {
        Err(Error::BlockNotFound)
    } else {
        Ok(response.remove(0))
    }
}

/// The 16-byte twox hash of a string's bytes.
pub uninterp spec fn twox_128_of(s: Seq<char>) -> Seq<u8>;

/// The 8-byte twox hash of a byte string.
pub uninterp spec fn twox_64_of(b: Seq<u8>) -> Seq<u8>;

/// Relies on `sp_crypto_hashing::twox_128`: a 16-byte hash decided by the
/// input string's bytes alone.
#[verifier::external_body]
fn twox_128_str(s: &str) -> (r: Vec<u8>)
    ensures
        r@ == twox_128_of(s@),
        r@.len() == 16,
{
    sp_crypto_hashing::twox_128(s.as_bytes()).to_vec()
}

/// Relies on `sp_crypto_hashing::twox_64`: an 8-byte hash decided by the
/// input bytes alone.
#[verifier::external_body]
fn twox_64_bytes(data: &[u8]) -> (r: Vec<u8>)
    ensures
        r@ == twox_64_of(data@),
        r@.len() == 8,
{
    sp_crypto_hashing::twox_64(data).to_vec()
}

/// The storage key prefix of a plain storage value.
pub fn storage_value_key_vec(module: &str, storage_key_name: &str) -> (r: Vec<u8>)
    ensures
        r@ == twox_128_of(module@) + twox_128_of(storage_key_name@),
        r@.len() == 32,
{
    let mut key = twox_128_str(module);
    let name_hash = twox_128_str(storage_key_name);
    push_bytes(&mut key, name_hash.as_slice());
    key
}

/// The storage key of one entry of a storage map.
fn storage_map_key_vec(module: &str, storage_item: &str, item_key: &[u8]) -> (r: Vec<u8>)
    ensures
        r@ == twox_128_of(module@) + twox_128_of(storage_item@) + twox_64_of(item_key@) + item_key@,
        r@.len() == 40 + item_key@.len(),
{
    let mut key = storage_value_key_vec(module, storage_item);
    let hash = twox_64_bytes(item_key);
    push_bytes(&mut key, hash.as_slice());
    push_bytes(&mut key, item_key);
    assert(key@ =~= twox_128_of(module@) + twox_128_of(storage_item@) + twox_64_of(item_key@)
        + item_key@);
    key
}

/// The storage key under which the chain publishes the given parachain's
/// current head.
pub fn paras_heads_key(para_id: &ParaId) -> (r: Vec<u8>)
    ensures
        r@ == twox_128_of("Paras"@) + twox_128_of("Heads"@)
            + twox_64_of(u32_le_bytes(para_id.id_spec())) + u32_le_bytes(para_id.id_spec()),
        r@.len() == 44,
{
    let encoded = para_id.encode();
    storage_map_key_vec("Paras", "Heads", encoded.as_slice())
}

/// Decodes a published parachain head: the stored blob wraps the head's
/// bytes in one more SCALE layer, which this strips.
pub fn get_parachain_heads(head: Vec<u8>) -> (r: Result<Vec<u8>, Error>)
    ensures
        forall|b: Seq<u8>| head@ == spec_scale_encode_bytes(b) ==> (r matches Ok(v) && v@ == b),
        r is Err ==> r == Err::<Vec<u8>, Error>(Error::FailedToDecode),
        head@.len() == 0 ==> r == Err::<Vec<u8>, Error>(Error::FailedToDecode),
{
    match scale_decode_bytes(&head) {
        Option::Some(v) => Ok(v),
        Option::None => Err(Error::FailedToDecode),
    }
}

} // verus!
