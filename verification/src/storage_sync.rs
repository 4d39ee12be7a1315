//! The synchronizer state machine.
//!
//! A sync cursor ([`BlockSyncState`]) tracks the next expected header number
//! and block number, validates header-chain continuity and finality
//! justification, and gates storage commits on state-root agreement.  Two
//! topologies compose it: [`SolochainSynchronizer`] tracks a single chain;
//! [`ParachainSynchronizer`] tracks a relaychain whose state anchors the
//! parachain's own headers through storage-inclusion proofs.
//!
//! Every operation either completes and advances the cursor, or fails with a
//! typed [`Error`] and leaves cursor, queues and storage untouched: all
//! checks precede any mutation.

use vstd::prelude::*;
use std::collections::VecDeque;
use crate::blocks::{
    AuthoritySetChange, BlockHeaderWithChanges, BlockNumber, Header, HeaderToSync, StorageProof,
};
use crate::codec::{encode_header, scale_encode_bytes, spec_encode_header, spec_scale_encode_bytes};
use crate::storage::{spec_root_after, Storage};
use vstd::slice::slice_to_vec;

verus! {

type Hash = crate::blocks::Hash;

/// Why a synchronizer operation was rejected.  Every rejection is terminal
/// for the triggering call and leaves all state unchanged.
#[derive(Debug)]
pub enum Error {
    /// No header or block data in the request.
    EmptyRequest,
    /// No justification found in the last header of the batch.
    MissingJustification,
    /// The validator rejected the finality proof or the ancestry.
    HeaderValidateFailed(String),
    /// The validator rejected a storage inclusion proof.
    StorageProofFailed(String),
    /// Parachain header sync attempted before the relaychain was synced.
    RelaychainHeaderNotSynced,
    /// Some header's parent hash mismatches its parent header's hash.
    HeaderHashMismatch,
    /// The batch or block number mismatches the expected next number.
    BlockNumberMismatch,
    /// No state root queued to validate the storage changes against.
    NoStateRoot,
    /// The root recomputed from the declared changes disagrees with the
    /// queued expectation.
    StateRootMismatch { block: BlockNumber, expected: Hash, actual: Hash },
    /// Parachain header sync attempted on a solochain instance.
    ChainModeMismatch,
}

/// The headers of a justified batch, without their justifications.
pub open spec fn headers_of(s: Seq<HeaderToSync>) -> Seq<Header> {
    s.map_values(|h: HeaderToSync| h.header)
}

/// The state roots declared by a run of headers, in order.
pub open spec fn roots_of(s: Seq<Header>) -> Seq<Hash> {
    s.map_values(|h: Header| h.state_root)
}

/// Each header's parent hash equals the previous header's hash.
pub open spec fn chain_is_contiguous(s: Seq<Header>) -> bool {
    forall|i: int| 1 <= i < s.len() ==> s[i].parent_hash == s[i - 1].hash
}

/// The checks `sync_header` makes before consulting the validator, and the
/// rejection the first failing one yields.
pub open spec fn sync_header_precheck(
    header_number_next: BlockNumber,
    headers: Seq<HeaderToSync>,
) -> Option<Error> {
    if headers.len() == 0 {
        Some(Error::EmptyRequest)
    } else if headers[0].header.number != header_number_next {
        Some(Error::BlockNumberMismatch)
    } else if headers.last().justification is None {
        Some(Error::MissingJustification)
    } else if !chain_is_contiguous(headers_of(headers)) {
        Some(Error::HeaderHashMismatch)
    } else {
        None
    }
}

/// The checks `feed_block` makes before recomputing the storage root, and
/// the rejection the first failing one yields.
pub open spec fn feed_block_precheck(
    block_number_next: BlockNumber,
    block_number: BlockNumber,
    queued_roots: Seq<Hash>,
) -> Option<Error> {
    if block_number != block_number_next {
        Some(Error::BlockNumberMismatch)
    } else if queued_roots.len() == 0 {
        Some(Error::NoStateRoot)
    } else {
        None
    }
}

/// The checks `sync_parachain_header` makes before consulting the validator,
/// and the rejection the first failing one yields.
pub open spec fn sync_parachain_header_precheck(
    para_header_number_next: BlockNumber,
    cached_root: Option<Hash>,
    headers: Seq<Header>,
) -> Option<Error> {
    if headers.len() == 0 {
        Some(Error::EmptyRequest)
    } else if headers[0].number != para_header_number_next {
        Some(Error::BlockNumberMismatch)
    } else if cached_root is None {
        Some(Error::RelaychainHeaderNotSynced)
    } else {
        None
    }
}

/// The state root a block feed is validated against is the one its own
/// header declared: the queue an accepted header batch leaves behind holds,
/// at each position, exactly that header's state root, so the root
/// `feed_block` commits for the `i`-th queued block is the `i`-th header's
/// own `state_root`.
pub proof fn lemma_queued_root_is_header_root(headers: Seq<Header>, i: int)
    requires
        0 <= i < headers.len(),
    ensures
        roots_of(headers)[i] == headers[i].state_root,
{
}

/// The relaychain-root cache is single-use: once a parachain header sync
/// has consumed it (leaving `None` behind), the very next parachain header
/// sync is rejected for want of a fresh relaychain root, however
/// well-formed its batch.
pub proof fn lemma_cache_single_use(para_header_number_next: BlockNumber, headers: Seq<Header>)
    requires
        headers.len() > 0,
        headers[0].number == para_header_number_next,
    ensures
        sync_parachain_header_precheck(para_header_number_next, None, headers)
            == Some(Error::RelaychainHeaderNotSynced),
{
}

/// An owned copy of a justification's bytes, handed on to the validator.
fn clone_bytes(v: &Vec<u8>) -> (r: Vec<u8>)
    ensures
        r@ == v@,
{
    let mut r: Vec<u8> = Vec::new();
    crate::codec::push_bytes(&mut r, v.as_slice());
    r
}

/// The ancestry proof handed to the validator with a header batch: every
/// header of the batch but the last, in reverse order, so it runs from the
/// highest number down to the batch's start.
fn ancestry_of(headers: &Vec<HeaderToSync>) -> (r: Vec<Header>)
    requires
        headers@.len() > 0,
    ensures
        r@ == headers_of(headers@).drop_last().reverse(),
{
    let mut r: Vec<Header> = Vec::new();
    let mut j: usize = headers.len() - 1;
    while j > 0
        invariant
            j <= headers@.len() - 1,
            r@.len() == headers@.len() - 1 - j,
            forall|t: int| 0 <= t < r@.len()
                ==> r@[t] == headers@[headers@.len() - 2 - t].header,
        decreases j,
    {
        j = j - 1;
        r.push(headers[j].header);
    }
    proof {
        assert(r@ =~= headers_of(headers@).drop_last().reverse());
    }
    r
}

/// The one proof item a parachain head sync asks the validator to check:
/// the parachain-head storage key, mapped to the head wrapped in one more
/// SCALE layer — the double-encoding under which the chain stores it.
fn head_proof_items(storage_key: &[u8], last: &Header) -> (r: Vec<(Vec<u8>, Vec<u8>)>)
    ensures
        r@.len() == 1,
        r@[0].0@ == storage_key@,
        r@[0].1@ == spec_scale_encode_bytes(spec_encode_header(*last)),
{
    let encoded = encode_header(last);
    let doubly_encoded = scale_encode_bytes(&encoded);
    let mut items: Vec<(Vec<u8>, Vec<u8>)> = Vec::new();
    items.push((slice_to_vec(storage_key), doubly_encoded));
    items
}

/// The finality validator: an external collaborator, injected at
/// construction, that checks finality proofs against the authority set it
/// tracks and storage-inclusion proofs against a state root.  Nothing is
/// assumed of its verdicts: the synchronizer states what holds whatever the
/// validator answers.
pub trait BlockValidator {
    /// Verifies `grandpa_proof` finalizes `header`, with `ancestry_proof`
    /// connecting it back to the previously finalized header, applying
    /// `authority_set_change` atomically with acceptance.
    fn submit_finalized_headers(
        &mut self,
        bridge_id: u64,
        header: Header,
        ancestry_proof: Vec<Header>,
        grandpa_proof: Vec<u8>,
        authority_set_change: Option<AuthoritySetChange>,
    ) -> Result<(), Error>;

    /// Verifies each key/value pair of `items` is included in the trie
    /// committing to `state_root`, under `proof`.
    fn validate_storage_proof(
        &self,
        state_root: Hash,
        proof: StorageProof,
        items: &Vec<(Vec<u8>, Vec<u8>)>,
    ) -> Result<(), Error>;
}

/// Progress counters: the next block numbers the synchronizer expects.
#[derive(Clone, Copy, Debug, Default, PartialEq, Eq, Structural)]
pub struct Counters {
    pub next_header_number: BlockNumber,
    pub next_para_header_number: BlockNumber,
    pub next_block_number: BlockNumber,
}

/// The sync cursor: sequencing and light validation shared by both chain
/// topologies.  `header_number_next` and `block_number_next` advance only
/// through successful operations, never decrease and never skip.
pub struct BlockSyncState<Validator> {
    pub validator: Validator,
    pub main_bridge: u64,
    /// The number of the next header to sync.
    pub header_number_next: BlockNumber,
    /// The number of the next block of storage changes to feed.  In
    /// parachain mode this counts parachain blocks while
    /// `header_number_next` counts relaychain headers.
    pub block_number_next: BlockNumber,
}

impl<Validator> BlockSyncState<Validator> where Validator: BlockValidator {
    pub fn new(
        validator: Validator,
        main_bridge: u64,
        header_number_next: BlockNumber,
        block_number_next: BlockNumber,
    ) -> (r: Self)
        ensures
            r.validator == validator,
            r.main_bridge == main_bridge,
            r.header_number_next == header_number_next,
            r.block_number_next == block_number_next,
    {
        Self { validator, main_bridge, header_number_next, block_number_next }
    }

    /// Validates a batch of headers in sequence and appends their state
    /// roots to `state_roots`.
    ///
    /// The batch must be non-empty, start exactly at `header_number_next`,
    /// carry a justification on its last header and form a contiguous
    /// parent-hash chain; the first failing check rejects the whole batch.
    /// The validator then judges the last header with its ancestry; only if
    /// it accepts does the cursor advance past the batch.  No rejection
    /// mutates the cursor or the queue.
    pub fn sync_header(
        &mut self,
        headers: Vec<HeaderToSync>,
        authority_set_change: Option<AuthoritySetChange>,
        state_roots: &mut VecDeque<Hash>,
    ) -> (r: Result<BlockNumber, Error>)
        requires
            sync_header_precheck(old(self).header_number_next, headers@) is None
                ==> headers@.last().header.number < BlockNumber::MAX,
        ensures
            sync_header_precheck(old(self).header_number_next, headers@) matches Some(e)
                ==> r == Err::<BlockNumber, Error>(e) && *final(self) == *old(self)
                    && final(state_roots)@ == old(state_roots)@,
            sync_header_precheck(old(self).header_number_next, headers@) is None && r is Ok
                ==> r == Ok::<BlockNumber, Error>(headers@.last().header.number)
                    && final(self).header_number_next == headers@.last().header.number + 1
                    && final(self).block_number_next == old(self).block_number_next
                    && final(self).main_bridge == old(self).main_bridge
                    && final(state_roots)@ == old(state_roots)@ + roots_of(headers_of(headers@)),
            sync_header_precheck(old(self).header_number_next, headers@) is None && r is Err
                ==> final(self).header_number_next == old(self).header_number_next
                    && final(self).block_number_next == old(self).block_number_next
                    && final(self).main_bridge == old(self).main_bridge
                    && final(state_roots)@ == old(state_roots)@,
    {
        let ghost hs = headers_of(headers@);
        if headers.len() == 0 {
            return Err(Error::EmptyRequest);
        }
        if headers[0].header.number != self.header_number_next {
            return Err(Error::BlockNumberMismatch);
        }

        let last_idx = headers.len() - 1;
        // 1. the last header must have a justification
        let justification = match &headers[last_idx].justification {
            Option::Some(j) => clone_bytes(j),
            Option::None => {
                return Err(Error::MissingJustification);
            },
        };
        let last_header = headers[last_idx].header;
        // 2. check the header sequence
        let mut k: usize = 1;
        while k < headers.len()
            invariant
                1 <= k <= headers@.len(),
                hs == headers_of(headers@),
                *self == *old(self),
                state_roots@ == old(state_roots)@,
                headers@.len() > 0,
                headers@[0].header.number == old(self).header_number_next,
                headers@.last().justification is Some,
                forall|t: int| 1 <= t < k ==> hs[t].parent_hash == hs[t - 1].hash,
            decreases headers@.len() - k,
        {
            if headers[k - 1].header.hash != headers[k].header.parent_hash {
                proof {
                    assert(hs[k as int].parent_hash != hs[k as int - 1].hash);
                    assert(!chain_is_contiguous(hs));
                    assert(sync_header_precheck(old(self).header_number_next, headers@)
                        == Some(Error::HeaderHashMismatch));
                }
                return Err(Error::HeaderHashMismatch);
            }
            k = k + 1;
        }
        proof {
            assert forall|i: int| 1 <= i < hs.len() implies hs[i].parent_hash == hs[i - 1].hash by {
            }
            assert(chain_is_contiguous(hs));
        }
        // 3. build the ancestry proof, from high to low
        let ancestry_proof = ancestry_of(&headers);
        // 4. submit to the light validator
        let bridge_id = self.main_bridge;
        match self.validator.submit_finalized_headers(
            bridge_id,
            last_header,
            ancestry_proof,
            justification,
            authority_set_change,
        ) {
            Result::Ok(_) => {},
            Result::Err(e) => {
                return Err(e);
            },
        }

        // Save the state roots for future block dispatch
        let mut idx: usize = 0;
        proof {
            assert(roots_of(hs).take(0) =~= Seq::<Hash>::empty());
            assert(old(state_roots)@ + roots_of(hs).take(0) =~= state_roots@);
        }
        while idx < headers.len()
            invariant
                idx <= headers@.len(),
                hs == headers_of(headers@),
                headers@.len() > 0,
                last_header == headers@.last().header,
                last_header.number < BlockNumber::MAX,
                sync_header_precheck(old(self).header_number_next, headers@) is None,
                self.header_number_next == old(self).header_number_next,
                self.block_number_next == old(self).block_number_next,
                self.main_bridge == old(self).main_bridge,
                state_roots@ == old(state_roots)@ + roots_of(hs).take(idx as int),
            decreases headers@.len() - idx,
        {
            state_roots.push_back(headers[idx].header.state_root);
            proof {
                assert(roots_of(hs).take(idx + 1 as int)
                    =~= roots_of(hs).take(idx as int).push(hs[idx as int].state_root));
                assert(state_roots@ =~= old(state_roots)@ + roots_of(hs).take(idx + 1 as int));
            }
            idx = idx + 1;
        }
        proof {
            assert(roots_of(hs).take(hs.len() as int) =~= roots_of(hs));
        }

        self.header_number_next = last_header.number + 1;

        Ok(last_header.number)
    }

    /// Feeds one block of storage changes, committing them only if the root
    /// they lead to equals the queue's front.
    ///
    /// The block must carry exactly the number `block_number_next` and a
    /// state root must be queued; the root is then recomputed from the
    /// declared changes without mutating storage, and only agreement with
    /// the queue's front lets the commit happen, the cursor advance and the
    /// queue pop.  A rejected block leaves storage untouched.
    pub fn feed_block(
        &mut self,
        block: &BlockHeaderWithChanges,
        state_roots: &mut VecDeque<Hash>,
        storage: &mut Storage,
    ) -> (r: Result<(), Error>)
        requires
            feed_block_precheck(old(self).block_number_next, block.block_header.number, old(state_roots)@) is None
                ==> block.block_header.number < BlockNumber::MAX,
        ensures
            feed_block_precheck(old(self).block_number_next, block.block_header.number, old(state_roots)@)
                matches Some(e)
                ==> r == Err::<(), Error>(e) && *final(self) == *old(self)
                    && final(state_roots)@ == old(state_roots)@ && *final(storage) == *old(storage),
            ({
                let expected = old(state_roots)@[0];
                let actual = spec_root_after(
                    old(storage).root_spec(),
                    block.storage_changes.main_storage_changes@,
                    block.storage_changes.child_storage_changes@,
                );
                &&& (feed_block_precheck(old(self).block_number_next, block.block_header.number, old(state_roots)@) is None
                        && expected != actual
                    ==> r == Err::<(), Error>(Error::StateRootMismatch {
                            block: block.block_header.number,
                            expected: expected,
                            actual: actual,
                        }) && *final(self) == *old(self)
                        && final(state_roots)@ == old(state_roots)@ && *final(storage) == *old(storage))
                &&& (feed_block_precheck(old(self).block_number_next, block.block_header.number, old(state_roots)@) is None
                        && expected == actual
                    ==> r == Ok::<(), Error>(())
                        && final(storage).root_spec() == expected
                        && final(self).block_number_next == old(self).block_number_next + 1
                        && final(self).header_number_next == old(self).header_number_next
                        && final(self).main_bridge == old(self).main_bridge
                        && final(self).validator == old(self).validator
                        && final(state_roots)@ == old(state_roots)@.drop_first())
            }),
    {
        if block.block_header.number != self.block_number_next {
            return Err(Error::BlockNumberMismatch);
        }
        if state_roots.len() == 0 {
            return Err(Error::NoStateRoot);
        }
        let expected_root = state_roots[0];

        let changes = &block.storage_changes;

        let (state_root, transaction) = storage.calc_root_if_changes(
            &changes.main_storage_changes,
            &changes.child_storage_changes,
        );

        if expected_root != state_root {
            return Err(Error::StateRootMismatch {
                block: block.block_header.number,
                expected: expected_root,
                actual: state_root,
            });
        }

        storage.apply_changes(state_root, transaction);

        self.block_number_next = self.block_number_next + 1;
        let _ = state_roots.pop_front();
        proof {
            assert(state_roots@ =~= old(state_roots)@.drop_first());
        }
        Ok(())
    }
}

/// The capability set both chain topologies implement, letting the outer
/// driver be written once against either mode.  The abstract counters and
/// root queue give the sequencing laws the two topologies share; what each
/// mode does beyond them (queueing every root, or caching the last one)
/// stands in that type's own contracts.
pub trait StorageSynchronizer {
    /// The number of the next header to sync.
    spec fn next_header_number(&self) -> BlockNumber;

    /// The number of the next parachain header to sync; zero where no
    /// parachain is tracked.
    spec fn next_para_header_number(&self) -> BlockNumber;

    /// The number of the next block of storage changes to feed.
    spec fn next_block_number(&self) -> BlockNumber;

    /// The queued state roots that gate the upcoming block feeds, front
    /// first.
    spec fn queued_roots(&self) -> Seq<Hash>;

    /// Whether this topology bridges a parachain.
    spec fn tracks_parachain(&self) -> bool;

    /// The next block numbers to sync.  A pure read.
    fn counters(&self) -> (c: Counters)
        ensures
            c == (Counters {
                next_header_number: self.next_header_number(),
                next_para_header_number: self.next_para_header_number(),
                next_block_number: self.next_block_number(),
            }),
    ;

    /// Validates chain headers in sequence and makes their state roots
    /// available for block validation.
    fn sync_header(
        &mut self,
        headers: Vec<HeaderToSync>,
        authority_set_change: Option<AuthoritySetChange>,
    ) -> (r: Result<BlockNumber, Error>)
        requires
            sync_header_precheck(old(self).next_header_number(), headers@) is None
                ==> headers@.last().header.number < BlockNumber::MAX,
        ensures
            sync_header_precheck(old(self).next_header_number(), headers@) matches Some(e)
                ==> r == Err::<BlockNumber, Error>(e),
            r is Ok ==> sync_header_precheck(old(self).next_header_number(), headers@) is None
                && r == Ok::<BlockNumber, Error>(headers@.last().header.number)
                && final(self).next_header_number() == headers@.last().header.number + 1,
            r is Err ==> final(self).next_header_number() == old(self).next_header_number()
                && final(self).queued_roots() == old(self).queued_roots(),
            final(self).next_block_number() == old(self).next_block_number(),
            final(self).next_para_header_number() == old(self).next_para_header_number(),
            final(self).tracks_parachain() == old(self).tracks_parachain(),
    ;

    /// Validates parachain headers in sequence, anchored to the relaychain,
    /// and queues their state roots for block validation.
    fn sync_parachain_header(
        &mut self,
        headers: Vec<Header>,
        proof: StorageProof,
        storage_key: &[u8],
    ) -> (r: Result<BlockNumber, Error>)
        requires
            old(self).tracks_parachain() && headers@.len() > 0
                && headers@[0].number == old(self).next_para_header_number()
                ==> headers@.last().number < BlockNumber::MAX,
        ensures
            !old(self).tracks_parachain()
                ==> r == Err::<BlockNumber, Error>(Error::ChainModeMismatch),
            r is Ok ==> old(self).tracks_parachain() && headers@.len() > 0
                && r == Ok::<BlockNumber, Error>(headers@.last().number)
                && final(self).next_para_header_number() == headers@.last().number + 1
                && final(self).queued_roots() == old(self).queued_roots() + roots_of(headers@),
            r is Err ==> final(self).next_para_header_number() == old(self).next_para_header_number()
                && final(self).queued_roots() == old(self).queued_roots(),
            final(self).next_header_number() == old(self).next_header_number(),
            final(self).next_block_number() == old(self).next_block_number(),
            final(self).tracks_parachain() == old(self).tracks_parachain(),
    ;

    /// Feeds in one block of storage changes, committing them only if the
    /// root they lead to equals the front of the queued roots.
    fn feed_block(
        &mut self,
        block: &BlockHeaderWithChanges,
        storage: &mut Storage,
    ) -> (r: Result<(), Error>)
        requires
            feed_block_precheck(old(self).next_block_number(), block.block_header.number, old(self).queued_roots()) is None
                ==> block.block_header.number < BlockNumber::MAX,
        ensures
            feed_block_precheck(old(self).next_block_number(), block.block_header.number, old(self).queued_roots())
                matches Some(e)
                ==> r == Err::<(), Error>(e) && final(self).queued_roots() == old(self).queued_roots()
                    && final(self).next_block_number() == old(self).next_block_number()
                    && *final(storage) == *old(storage),
            ({
                let expected = old(self).queued_roots()[0];
                let actual = spec_root_after(
                    old(storage).root_spec(),
                    block.storage_changes.main_storage_changes@,
                    block.storage_changes.child_storage_changes@,
                );
                &&& (feed_block_precheck(old(self).next_block_number(), block.block_header.number, old(self).queued_roots()) is None
                        && expected != actual
                    ==> r == Err::<(), Error>(Error::StateRootMismatch {
                            block: block.block_header.number,
                            expected: expected,
                            actual: actual,
                        }) && final(self).queued_roots() == old(self).queued_roots()
                        && final(self).next_block_number() == old(self).next_block_number()
                        && *final(storage) == *old(storage))
                &&& (feed_block_precheck(old(self).next_block_number(), block.block_header.number, old(self).queued_roots()) is None
                        && expected == actual
                    ==> r == Ok::<(), Error>(())
                        && final(storage).root_spec() == expected
                        && final(self).next_block_number() == old(self).next_block_number() + 1
                        && final(self).queued_roots() == old(self).queued_roots().drop_first())
            }),
            final(self).next_header_number() == old(self).next_header_number(),
            final(self).next_para_header_number() == old(self).next_para_header_number(),
            final(self).tracks_parachain() == old(self).tracks_parachain(),
    ;
}

/// The single-chain topology: one sync cursor, one state-root queue, no
/// second chain to bridge.
pub struct SolochainSynchronizer<Validator> {
    pub sync_state: BlockSyncState<Validator>,
    pub state_roots: VecDeque<Hash>,
}

impl<Validator: BlockValidator> SolochainSynchronizer<Validator> {
    pub fn new(validator: Validator, main_bridge: u64) -> (r: Self)
        ensures
            r.sync_state.validator == validator,
            r.sync_state.main_bridge == main_bridge,
            r.sync_state.header_number_next == 1,
            r.sync_state.block_number_next == 1,
            r.state_roots@ == Seq::<Hash>::empty(),
    {
        Self {
            sync_state: BlockSyncState::new(validator, main_bridge, 1, 1),
            state_roots: VecDeque::new(),
        }
    }

    /// The next block numbers to sync; a solochain has no parachain, so the
    /// parachain counter reads zero.
    pub fn counters(&self) -> (c: Counters)
        ensures
            c == (Counters {
                next_header_number: self.sync_state.header_number_next,
                next_para_header_number: 0,
                next_block_number: self.sync_state.block_number_next,
            }),
    {
        Counters {
            next_block_number: self.sync_state.block_number_next,
            next_header_number: self.sync_state.header_number_next,
            next_para_header_number: 0,
        }
    }

    /// Validates a batch of headers and queues every state root of it for
    /// block dispatch; see [`BlockSyncState::sync_header`].
    pub fn sync_header(
        &mut self,
        headers: Vec<HeaderToSync>,
        authority_set_change: Option<AuthoritySetChange>,
    ) -> (r: Result<BlockNumber, Error>)
        requires
            sync_header_precheck(old(self).sync_state.header_number_next, headers@) is None
                ==> headers@.last().header.number < BlockNumber::MAX,
        ensures
            sync_header_precheck(old(self).sync_state.header_number_next, headers@) matches Some(e)
                ==> r == Err::<BlockNumber, Error>(e) && final(self).sync_state == old(self).sync_state
                    && final(self).state_roots@ == old(self).state_roots@,
            sync_header_precheck(old(self).sync_state.header_number_next, headers@) is None && r is Ok
                ==> r == Ok::<BlockNumber, Error>(headers@.last().header.number)
                    && final(self).sync_state.header_number_next == headers@.last().header.number + 1
                    && final(self).sync_state.block_number_next == old(self).sync_state.block_number_next
                    && final(self).sync_state.main_bridge == old(self).sync_state.main_bridge
                    && final(self).state_roots@ == old(self).state_roots@ + roots_of(headers_of(headers@)),
            sync_header_precheck(old(self).sync_state.header_number_next, headers@) is None && r is Err
                ==> final(self).sync_state.header_number_next == old(self).sync_state.header_number_next
                    && final(self).sync_state.block_number_next == old(self).sync_state.block_number_next
                    && final(self).sync_state.main_bridge == old(self).sync_state.main_bridge
                    && final(self).state_roots@ == old(self).state_roots@,
    {
        self.sync_state.sync_header(headers, authority_set_change, &mut self.state_roots)
    }

    /// Feeds one block of storage changes against the front of the queue;
    /// see [`BlockSyncState::feed_block`].
    #[verifier::rlimit(50)]
    pub fn feed_block(
        &mut self,
        block: &BlockHeaderWithChanges,
        storage: &mut Storage,
    ) -> (r: Result<(), Error>)
        requires
            feed_block_precheck(old(self).sync_state.block_number_next, block.block_header.number, old(self).state_roots@) is None
                ==> block.block_header.number < BlockNumber::MAX,
        ensures
            feed_block_precheck(old(self).sync_state.block_number_next, block.block_header.number, old(self).state_roots@)
                matches Some(e)
                ==> r == Err::<(), Error>(e) && final(self).sync_state == old(self).sync_state
                    && final(self).state_roots@ == old(self).state_roots@ && *final(storage) == *old(storage),
            ({
                let expected = old(self).state_roots@[0];
                let actual = spec_root_after(
                    old(storage).root_spec(),
                    block.storage_changes.main_storage_changes@,
                    block.storage_changes.child_storage_changes@,
                );
                &&& (feed_block_precheck(old(self).sync_state.block_number_next, block.block_header.number, old(self).state_roots@) is None
                        && expected != actual
                    ==> r == Err::<(), Error>(Error::StateRootMismatch {
                            block: block.block_header.number,
                            expected: expected,
                            actual: actual,
                        }) && final(self).sync_state == old(self).sync_state
                        && final(self).state_roots@ == old(self).state_roots@ && *final(storage) == *old(storage))
                &&& (feed_block_precheck(old(self).sync_state.block_number_next, block.block_header.number, old(self).state_roots@) is None
                        && expected == actual
                    ==> r == Ok::<(), Error>(())
                        && final(storage).root_spec() == expected
                        && final(self).sync_state.block_number_next == old(self).sync_state.block_number_next + 1
                        && final(self).sync_state.header_number_next == old(self).sync_state.header_number_next
                        && final(self).sync_state.main_bridge == old(self).sync_state.main_bridge
                        && final(self).sync_state.validator == old(self).sync_state.validator
                        && final(self).state_roots@ == old(self).state_roots@.drop_first())
            }),
    {
        self.sync_state.feed_block(block, &mut self.state_roots, storage)
    }

    /// A solochain bridges no second chain: every parachain header sync is
    /// rejected, whatever the input.
    pub fn sync_parachain_header(
        &mut self,
        _headers: Vec<Header>,
        _proof: StorageProof,
        _storage_key: &[u8],
    ) -> (r: Result<BlockNumber, Error>)
        ensures
            r == Err::<BlockNumber, Error>(Error::ChainModeMismatch),
            *final(self) == *old(self),
    {
        Err(Error::ChainModeMismatch)
    }
}

/// The relay-plus-parachain topology.  The sync cursor tracks relaychain
/// headers and parachain blocks; a single-use cache holds the most recent
/// relaychain state root, consumed by the next parachain header sync; a
/// dedicated queue holds the parachain state roots that gate block feeds.
pub struct ParachainSynchronizer<Validator> {
    pub sync_state: BlockSyncState<Validator>,
    pub last_relaychain_state_root: Option<Hash>,
    pub para_header_number_next: BlockNumber,
    pub para_state_roots: VecDeque<Hash>,
}

impl<Validator: BlockValidator> ParachainSynchronizer<Validator> {
    pub fn new(validator: Validator, main_bridge: u64, headernum_next: BlockNumber) -> (r: Self)
        ensures
            r.sync_state.validator == validator,
            r.sync_state.main_bridge == main_bridge,
            r.sync_state.header_number_next == headernum_next,
            r.sync_state.block_number_next == 1,
            r.last_relaychain_state_root is None,
            r.para_header_number_next == 1,
            r.para_state_roots@ == Seq::<Hash>::empty(),
    {
        Self {
            sync_state: BlockSyncState::new(validator, main_bridge, headernum_next, 1),
            last_relaychain_state_root: None,
            para_header_number_next: 1,
            para_state_roots: VecDeque::new(),
        }
    }

    /// The next block numbers to sync: relaychain headers, parachain
    /// headers, and parachain blocks.
    pub fn counters(&self) -> (c: Counters)
        ensures
            c == (Counters {
                next_header_number: self.sync_state.header_number_next,
                next_para_header_number: self.para_header_number_next,
                next_block_number: self.sync_state.block_number_next,
            }),
    {
        Counters {
            next_block_number: self.sync_state.block_number_next,
            next_header_number: self.sync_state.header_number_next,
            next_para_header_number: self.para_header_number_next,
        }
    }

    /// Validates a batch of relaychain headers and caches the last one's
    /// state root for the next parachain header sync.
    ///
    /// In this topology the relaychain exists to anchor a storage proof for
    /// the parachain's head, not to gate storage directly: the batch's
    /// per-header state roots are discarded but the last, which overwrites
    /// the cache.  Rejections are those of [`BlockSyncState::sync_header`],
    /// and leave the cache as it was.
    pub fn sync_header(
        &mut self,
        headers: Vec<HeaderToSync>,
        authority_set_change: Option<AuthoritySetChange>,
    ) -> (r: Result<BlockNumber, Error>)
        requires
            sync_header_precheck(old(self).sync_state.header_number_next, headers@) is None
                ==> headers@.last().header.number < BlockNumber::MAX,
        ensures
            sync_header_precheck(old(self).sync_state.header_number_next, headers@) matches Some(e)
                ==> r == Err::<BlockNumber, Error>(e) && final(self).sync_state == old(self).sync_state
                    && final(self).last_relaychain_state_root == old(self).last_relaychain_state_root
                    && final(self).para_header_number_next == old(self).para_header_number_next
                    && final(self).para_state_roots@ == old(self).para_state_roots@,
            sync_header_precheck(old(self).sync_state.header_number_next, headers@) is None && r is Ok
                ==> r == Ok::<BlockNumber, Error>(headers@.last().header.number)
                    && final(self).sync_state.header_number_next == headers@.last().header.number + 1
                    && final(self).sync_state.block_number_next == old(self).sync_state.block_number_next
                    && final(self).sync_state.main_bridge == old(self).sync_state.main_bridge
                    && final(self).last_relaychain_state_root == Some(headers@.last().header.state_root)
                    && final(self).para_header_number_next == old(self).para_header_number_next
                    && final(self).para_state_roots@ == old(self).para_state_roots@,
            sync_header_precheck(old(self).sync_state.header_number_next, headers@) is None && r is Err
                ==> final(self).sync_state.header_number_next == old(self).sync_state.header_number_next
                    && final(self).sync_state.block_number_next == old(self).sync_state.block_number_next
                    && final(self).sync_state.main_bridge == old(self).sync_state.main_bridge
                    && final(self).last_relaychain_state_root == old(self).last_relaychain_state_root
                    && final(self).para_header_number_next == old(self).para_header_number_next
                    && final(self).para_state_roots@ == old(self).para_state_roots@,
    {
        let ghost hs = headers_of(headers@);
        let mut state_roots: VecDeque<Hash> = VecDeque::new();
        let last_header = match self.sync_state.sync_header(
            headers,
            authority_set_change,
            &mut state_roots,
        ) {
            Result::Ok(n) => n,
            Result::Err(e) => {
                return Err(e);
            },
        };
        proof {
            assert(state_roots@ =~= roots_of(hs));
            assert(roots_of(hs).len() == hs.len());
            assert(roots_of(hs).last() == hs.last().state_root);
        }
        self.last_relaychain_state_root = state_roots.pop_back();
        Ok(last_header)
    }

    /// Validates a batch of parachain headers against the cached relaychain
    /// state root and queues their state roots for block validation.
    ///
    /// The batch must be non-empty and start exactly at
    /// `para_header_number_next`; a relaychain state root must be cached.
    /// The validator then judges a storage proof binding `storage_key` to
    /// the double-encoded last header under the cached root, and the batch
    /// must form a contiguous parent-hash chain.  Success queues every state
    /// root, consumes the cache — a second parachain sync cannot follow
    /// without a fresh relaychain header sync — and advances
    /// `para_header_number_next` past the batch.  No rejection mutates
    /// anything, the cache included.
    pub fn sync_parachain_header(
        &mut self,
        headers: Vec<Header>,
        proof: StorageProof,
        storage_key: &[u8],
    ) -> (r: Result<BlockNumber, Error>)
        requires
            sync_parachain_header_precheck(
                old(self).para_header_number_next,
                old(self).last_relaychain_state_root,
                headers@,
            ) is None ==> headers@.last().number < BlockNumber::MAX,
        ensures
            sync_parachain_header_precheck(
                old(self).para_header_number_next,
                old(self).last_relaychain_state_root,
                headers@,
            ) matches Some(e)
                ==> r == Err::<BlockNumber, Error>(e) && *final(self) == *old(self),
            sync_parachain_header_precheck(
                old(self).para_header_number_next,
                old(self).last_relaychain_state_root,
                headers@,
            ) is None && r is Err
                ==> *final(self) == *old(self),
            sync_parachain_header_precheck(
                old(self).para_header_number_next,
                old(self).last_relaychain_state_root,
                headers@,
            ) is None && !chain_is_contiguous(headers@)
                ==> r is Err,
            sync_parachain_header_precheck(
                old(self).para_header_number_next,
                old(self).last_relaychain_state_root,
                headers@,
            ) is None && r is Ok
                ==> r == Ok::<BlockNumber, Error>(headers@.last().number)
                    && chain_is_contiguous(headers@)
                    && final(self).sync_state == old(self).sync_state
                    && final(self).last_relaychain_state_root is None
                    && final(self).para_header_number_next == headers@.last().number + 1
                    && final(self).para_state_roots@ == old(self).para_state_roots@ + roots_of(headers@),
    {
        if headers.len() == 0 {
            return Err(Error::EmptyRequest);
        }
        if self.para_header_number_next != headers[0].number {
            return Err(Error::BlockNumberMismatch);
        }

        let last_idx = headers.len() - 1;
        let last_hdr = headers[last_idx];

        let state_root = match &self.last_relaychain_state_root {
            Option::Some(h) => *h,
            Option::None => {
                return Err(Error::RelaychainHeaderNotSynced);
            },
        };

        // 1. validate the storage proof: the parachain-head key maps to the
        // double-encoded last header under the cached relaychain root
        let items = head_proof_items(storage_key, &last_hdr);
        match self.sync_state.validator.validate_storage_proof(state_root, proof, &items) {
            Result::Ok(_) => {},
            Result::Err(e) => {
                return Err(e);
            },
        }

        // 2. check the header sequence
        let mut k: usize = 1;
        while k < headers.len()
            invariant
                1 <= k <= headers@.len(),
                *self == *old(self),
                headers@.len() > 0,
                headers@[0].number == old(self).para_header_number_next,
                old(self).last_relaychain_state_root is Some,
                last_hdr == headers@.last(),
                last_hdr.number < BlockNumber::MAX,
                forall|t: int| 1 <= t < k ==> headers@[t].parent_hash == headers@[t - 1].hash,
            decreases headers@.len() - k,
        {
            if headers[k - 1].hash != headers[k].parent_hash {
                proof {
                    assert(!chain_is_contiguous(headers@));
                }
                return Err(Error::HeaderHashMismatch);
            }
            k = k + 1;
        }
        proof {
            assert(chain_is_contiguous(headers@));
        }

        // All checks passed: queue the state roots for storage validation.
        let mut idx: usize = 0;
        proof {
            assert(roots_of(headers@).take(0) =~= Seq::<Hash>::empty());
            assert(old(self).para_state_roots@ + roots_of(headers@).take(0) =~= self.para_state_roots@);
        }
        while idx < headers.len()
            invariant
                idx <= headers@.len(),
                headers@.len() > 0,
                sync_parachain_header_precheck(
                    old(self).para_header_number_next,
                    old(self).last_relaychain_state_root,
                    headers@,
                ) is None,
                chain_is_contiguous(headers@),
                last_hdr == headers@.last(),
                last_hdr.number < BlockNumber::MAX,
                self.sync_state == old(self).sync_state,
                self.last_relaychain_state_root == old(self).last_relaychain_state_root,
                self.para_header_number_next == old(self).para_header_number_next,
                self.para_state_roots@ == old(self).para_state_roots@ + roots_of(headers@).take(idx as int),
            decreases headers@.len() - idx,
        {
            self.para_state_roots.push_back(headers[idx].state_root);
            proof {
                assert(roots_of(headers@).take(idx + 1 as int)
                    =~= roots_of(headers@).take(idx as int).push(headers@[idx as int].state_root));
                assert(self.para_state_roots@
                    =~= old(self).para_state_roots@ + roots_of(headers@).take(idx + 1 as int));
            }
            idx = idx + 1;
        }
        proof {
            assert(roots_of(headers@).take(headers@.len() as int) =~= roots_of(headers@));
        }

        self.last_relaychain_state_root = None;
        self.para_header_number_next = last_hdr.number + 1;

        Ok(last_hdr.number)
    }

    /// Feeds one parachain block of storage changes against the front of the
    /// parachain queue; see [`BlockSyncState::feed_block`].
    #[verifier::rlimit(50)]
    pub fn feed_block(
        &mut self,
        block: &BlockHeaderWithChanges,
        storage: &mut Storage,
    ) -> (r: Result<(), Error>)
        requires
            feed_block_precheck(old(self).sync_state.block_number_next, block.block_header.number, old(self).para_state_roots@) is None
                ==> block.block_header.number < BlockNumber::MAX,
        ensures
            feed_block_precheck(old(self).sync_state.block_number_next, block.block_header.number, old(self).para_state_roots@)
                matches Some(e)
                ==> r == Err::<(), Error>(e) && final(self).sync_state == old(self).sync_state
                    && final(self).last_relaychain_state_root == old(self).last_relaychain_state_root
                    && final(self).para_header_number_next == old(self).para_header_number_next
                    && final(self).para_state_roots@ == old(self).para_state_roots@
                    && *final(storage) == *old(storage),
            ({
                let expected = old(self).para_state_roots@[0];
                let actual = spec_root_after(
                    old(storage).root_spec(),
                    block.storage_changes.main_storage_changes@,
                    block.storage_changes.child_storage_changes@,
                );
                &&& (feed_block_precheck(old(self).sync_state.block_number_next, block.block_header.number, old(self).para_state_roots@) is None
                        && expected != actual
                    ==> r == Err::<(), Error>(Error::StateRootMismatch {
                            block: block.block_header.number,
                            expected: expected,
                            actual: actual,
                        }) && final(self).sync_state == old(self).sync_state
                        && final(self).last_relaychain_state_root == old(self).last_relaychain_state_root
                        && final(self).para_header_number_next == old(self).para_header_number_next
                        && final(self).para_state_roots@ == old(self).para_state_roots@
                        && *final(storage) == *old(storage))
                &&& (feed_block_precheck(old(self).sync_state.block_number_next, block.block_header.number, old(self).para_state_roots@) is None
                        && expected == actual
                    ==> r == Ok::<(), Error>(())
                        && final(storage).root_spec() == expected
                        && final(self).sync_state.block_number_next == old(self).sync_state.block_number_next + 1
                        && final(self).sync_state.header_number_next == old(self).sync_state.header_number_next
                        && final(self).sync_state.main_bridge == old(self).sync_state.main_bridge
                        && final(self).sync_state.validator == old(self).sync_state.validator
                        && final(self).last_relaychain_state_root == old(self).last_relaychain_state_root
                        && final(self).para_header_number_next == old(self).para_header_number_next
                        && final(self).para_state_roots@ == old(self).para_state_roots@.drop_first())
            }),
    {
        self.sync_state.feed_block(block, &mut self.para_state_roots, storage)
    }
}

impl<Validator: BlockValidator> StorageSynchronizer for ParachainSynchronizer<Validator> {
    open spec fn next_header_number(&self) -> BlockNumber {
        self.sync_state.header_number_next
    }

    open spec fn next_para_header_number(&self) -> BlockNumber {
        self.para_header_number_next
    }

    open spec fn next_block_number(&self) -> BlockNumber {
        self.sync_state.block_number_next
    }

    open spec fn queued_roots(&self) -> Seq<Hash> {
        self.para_state_roots@
    }

    open spec fn tracks_parachain(&self) -> bool {
        true
    }

    fn counters(&self) -> (c: Counters) {
        self.counters()
    }

    fn sync_header(
        &mut self,
        headers: Vec<HeaderToSync>,
        authority_set_change: Option<AuthoritySetChange>,
    ) -> (r: Result<BlockNumber, Error>) {
        self.sync_header(headers, authority_set_change)
    }

    fn sync_parachain_header(
        &mut self,
        headers: Vec<Header>,
        proof: StorageProof,
        storage_key: &[u8],
    ) -> (r: Result<BlockNumber, Error>) {
        self.sync_parachain_header(headers, proof, storage_key)
    }

    fn feed_block(
        &mut self,
        block: &BlockHeaderWithChanges,
        storage: &mut Storage,
    ) -> (r: Result<(), Error>) {
        self.feed_block(block, storage)
    }
}

impl<Validator: BlockValidator> StorageSynchronizer for SolochainSynchronizer<Validator> {
    open spec fn next_header_number(&self) -> BlockNumber {
        self.sync_state.header_number_next
    }

    open spec fn next_para_header_number(&self) -> BlockNumber {
        0
    }

    open spec fn next_block_number(&self) -> BlockNumber {
        self.sync_state.block_number_next
    }

    open spec fn queued_roots(&self) -> Seq<Hash> {
        self.state_roots@
    }

    open spec fn tracks_parachain(&self) -> bool {
        false
    }

    fn counters(&self) -> (c: Counters) {
        self.counters()
    }

    fn sync_header(
        &mut self,
        headers: Vec<HeaderToSync>,
        authority_set_change: Option<AuthoritySetChange>,
    ) -> (r: Result<BlockNumber, Error>) {
        self.sync_header(headers, authority_set_change)
    }

    fn sync_parachain_header(
        &mut self,
        headers: Vec<Header>,
        proof: StorageProof,
        storage_key: &[u8],
    ) -> (r: Result<BlockNumber, Error>) {
        self.sync_parachain_header(headers, proof, storage_key)
    }

    fn feed_block(
        &mut self,
        block: &BlockHeaderWithChanges,
        storage: &mut Storage,
    ) -> (r: Result<(), Error>) {
        self.feed_block(block, storage)
    }
}

} // verus!
