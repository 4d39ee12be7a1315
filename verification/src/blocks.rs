//! The data that flows through the synchronizer: headers, justification
//! batches, authority-set rotations and storage proofs.
//!
//! A header here carries, as plain values, exactly what the synchronizer
//! reads: its number, its own hash, its parent's hash and its state root.
//! The chain-specific extra fields of an on-chain header are opaque to this
//! core and are not represented; a hash is carried as a 64-bit model value,
//! compared only for equality.

use vstd::prelude::*;

pub mod compat;

verus! {

/// Number of a block in a chain.
pub type BlockNumber = u32;

/// A hash value, carried as data and compared only for equality.
pub type Hash = u64;

/// An ordered sequence of opaque trie-proof nodes.  The order matters to the
/// proof verifier, not to this core.
pub type StorageProof = Vec<Vec<u8>>;

/// A full key/value storage snapshot.
pub type StorageState = Vec<(Vec<u8>, Vec<u8>)>;

/// A raw storage key.
pub type RawStorageKey = Vec<u8>;

/// The identity of one finality authority: its raw public key and its voting
/// weight.
pub type AuthorityList = Vec<(Vec<u8>, u64)>;

/// The generation id of an authority set.
pub type SetId = u64;

/// A block header, reduced to the fields the synchronizer reads.
///
/// `hash` is the header's own hash, observed alongside the header; it is not
/// recomputed by this core.
#[derive(Clone, Copy, Debug, PartialEq, Eq, Structural)]
pub struct Header {
    pub number: BlockNumber,
    pub hash: Hash,
    pub parent_hash: Hash,
    pub state_root: Hash,
}

/// A header together with its optional finality justification.  Only the
/// last header of a sync batch is required to carry one.
#[derive(Clone, Debug)]
pub struct HeaderToSync {
    pub header: Header,
    pub justification: Option<Vec<u8>>,
}

/// The authority set with its generation id.
#[derive(Clone, Debug)]
pub struct AuthoritySet {
    pub list: AuthorityList,
    pub id: SetId,
}

/// An authority-set rotation together with the storage proof that attests it.
#[derive(Clone, Debug)]
pub struct AuthoritySetChange {
    pub authority_set: AuthoritySet,
    pub authority_proof: StorageProof,
}

/// The genesis block initialization info: the first block from which light
/// validation starts tracking, with the authority set active at that block.
#[derive(Clone, Debug)]
pub struct GenesisBlockInfo {
    pub block_header: Header,
    pub authority_set: AuthoritySet,
    pub proof: StorageProof,
}

/// A raw storage key paired with a value.
#[derive(Clone, Debug)]
pub struct StorageKV<T>(pub RawStorageKey, pub T);

impl<T> StorageKV<T> {
    pub fn key(&self) -> (r: &RawStorageKey)
        ensures
            r == self.0,
    {
        &self.0
    }

    pub fn value(&self) -> (r: &T)
        ensures
            r == self.1,
    {
        &self.1
    }
}

/// A request to sync a batch of headers, with an optional authority-set
/// rotation taking effect at the batch's end.
#[derive(Clone, Debug)]
pub struct SyncHeaderReq {
    pub headers: Vec<HeaderToSync>,
    pub authority_set_change: Option<AuthoritySetChange>,
}

/// The numeric identity of a parachain.
#[derive(Clone, Debug, Default, PartialEq, Eq, Structural)]
pub struct ParaId(u32);

impl ParaId {
    pub fn new(n: u32) -> (r: ParaId)
        ensures
            r.id_spec() == n,
    {
        ParaId(n)
    }

    /// The raw id.
    pub closed spec fn id_spec(&self) -> u32 {
        self.0
    }

    /// The id's four bytes, least significant first.
    pub fn encode(&self) -> (r: Vec<u8>)
        ensures
            r@ == crate::codec::u32_le_bytes(self.id_spec()),
    {
        let n = self.0;
        let mut r: Vec<u8> = Vec::new();
        r.push((n % 0x100) as u8);
        r.push(((n / 0x100) % 0x100) as u8);
        r.push(((n / 0x10000) % 0x100) as u8);
        r.push(((n / 0x1000000) % 0x100) as u8);
        assert(r@ =~= crate::codec::u32_le_bytes(n));
        r
    }
}

/// A request to sync a batch of parachain headers, anchored by a storage
/// proof against the most recent relaychain state root.
#[derive(Clone, Debug)]
pub struct SyncParachainHeaderReq {
    pub headers: Vec<Header>,
    pub proof: StorageProof,
}

/// A combined request: relaychain headers plus the parachain headers they
/// anchor.
#[derive(Clone, Debug)]
pub struct SyncCombinedHeadersReq {
    pub relaychain_headers: Vec<HeaderToSync>,
    pub authority_set_change: Option<AuthoritySetChange>,
    pub parachain_headers: Vec<Header>,
    pub proof: StorageProof,
}

/// A request to feed blocks of storage changes.
#[derive(Clone, Debug)]
pub struct DispatchBlockReq {
    pub blocks: Vec<BlockHeaderWithChanges>,
}

/// The key/value deltas declared by one block: changes to the main trie and,
/// per child trie, changes to that child trie.  A `None` value is a deletion.
#[derive(Clone, Debug)]
pub struct StorageChanges {
    pub main_storage_changes: Vec<(Vec<u8>, Option<Vec<u8>>)>,
    pub child_storage_changes: Vec<(Vec<u8>, Vec<(Vec<u8>, Option<Vec<u8>>)>)>,
}

/// A block header together with the storage deltas its block declares.
#[derive(Clone, Debug)]
pub struct BlockHeaderWithChanges {
    pub block_header: Header,
    pub storage_changes: StorageChanges,
}

} // verus!
