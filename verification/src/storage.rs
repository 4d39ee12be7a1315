//! The storage image the synchronizer advances.
//!
//! The trie engine proper is an external collaborator: this core only needs
//! the part of it that the sync protocol observes, namely the root that a set
//! of declared changes leads to.  The image therefore tracks its root as a
//! running digest of the committed change sets: applying a change set folds
//! the model encoding of the changes into the previous root, byte by byte.
//! What matters to the synchronizer is proved from that definition alone:
//! a speculative computation never mutates the image, and a commit installs
//! exactly the root that was computed for it.

use vstd::prelude::*;
use crate::codec::{encode_changes, spec_encode_changes};

verus! {

type Hash = crate::blocks::Hash;

/// One step of the root digest: the previous accumulator mixed with one byte.
#[verifier::opaque]
pub open spec fn mix_byte(acc: u64, b: u8) -> u64 {
    acc.wrapping_mul(0x100000001b3).wrapping_add(b as u64)
}

fn mix_step(acc: u64, b: u8) -> (r: u64)
    ensures
        r == mix_byte(acc, b),
{
    proof {
        reveal(mix_byte);
    }
    acc.wrapping_mul(0x100000001b3).wrapping_add(b as u64)
}

/// The root digest: `acc` folded over every byte of `s` in order.
pub open spec fn spec_digest(acc: u64, s: Seq<u8>) -> u64
    decreases s.len(),
{
    if s.len() == 0 {
        acc
    } else {
        spec_digest(mix_byte(acc, s[0]), s.drop_first())
    }
}

/// The root that applying `(main, child)` to an image with root `prev`
/// leads to.
pub open spec fn spec_root_after(
    prev: Hash,
    main: Seq<(Vec<u8>, Option<Vec<u8>>)>,
    child: Seq<(Vec<u8>, Vec<(Vec<u8>, Option<Vec<u8>>)>)>,
) -> Hash {
    spec_digest(prev, spec_encode_changes(main, child))
}

/// The root digest of `bytes`, folded from `seed`.
fn digest_bytes(seed: u64, bytes: &Vec<u8>) -> (r: u64)
    ensures
        r == spec_digest(seed, bytes@),
{
    let mut acc: u64 = seed;
    let mut i: usize = 0;
    assert(bytes@.skip(0) =~= bytes@);
    while i < bytes.len()
        invariant
            i <= bytes@.len(),
            spec_digest(acc, bytes@.skip(i as int)) == spec_digest(seed, bytes@),
        decreases bytes@.len() - i,
    {
        proof {
            let s = bytes@.skip(i as int);
            assert(s.len() > 0);
            assert(s[0] == bytes@[i as int]);
            assert(s.drop_first() =~= bytes@.skip(i + 1 as int));
            assert(spec_digest(acc, s) == spec_digest(mix_byte(acc, s[0]), s.drop_first()));
        }
        acc = mix_step(acc, bytes[i]);
        i = i + 1;
    }
    assert(bytes@.skip(bytes@.len() as int) =~= Seq::<u8>::empty());
    acc
}

/// A change set whose resulting root has been computed but not committed.
pub struct StorageTransaction {
    root: Hash,
}

impl StorageTransaction {
    /// The root this transaction installs when committed.
    pub closed spec fn root_spec(&self) -> Hash {
        self.root
    }
}

/// The trie-backed storage image, reduced to what the synchronizer observes:
/// the root committing to the state.
pub struct Storage {
    root: Hash,
}

impl Storage {
    /// The root committing to the current state.
    pub closed spec fn root_spec(&self) -> Hash {
        self.root
    }

    /// An image at a given starting root (for example the genesis root).
    pub fn new(root: Hash) -> (r: Storage)
        ensures
            r.root_spec() == root,
    {
        Storage { root }
    }

    /// The current root.
    pub fn root(&self) -> (r: Hash)
        ensures
            r == self.root_spec(),
    {
        self.root
    }

    /// Computes the root that the given changes would lead to, without
    /// mutating the image, and the transaction that would commit them.
    pub fn calc_root_if_changes(
        &self,
        main: &Vec<(Vec<u8>, Option<Vec<u8>>)>,
        child: &Vec<(Vec<u8>, Vec<(Vec<u8>, Option<Vec<u8>>)>)>,
    ) -> (r: (Hash, StorageTransaction))
        ensures
            r.0 == spec_root_after(self.root_spec(), main@, child@),
            r.1.root_spec() == r.0,
    {
        let bytes = encode_changes(main, child);
        let acc = digest_bytes(self.root, &bytes);
        (acc, StorageTransaction { root: acc })
    }

    /// Commits a previously computed transaction.  Must only be called with
    /// the transaction produced by a matching `calc_root_if_changes` call,
    /// together with the root it computed.
    pub fn apply_changes(&mut self, root: Hash, transaction: StorageTransaction)
        requires
            transaction.root_spec() == root,
        ensures
            final(self).root_spec() == root,
    {
        let _ = transaction;
        self.root = root;
    }
}

} // verus!
