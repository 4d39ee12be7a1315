use phactory_api::blocks::{
    AuthoritySetChange, BlockHeaderWithChanges, Header, HeaderToSync, StorageChanges,
};
use phactory_api::storage::Storage;
use phactory_api::storage_sync::{
    BlockValidator, Counters, Error, ParachainSynchronizer, SolochainSynchronizer,
};

struct AcceptAll;

impl BlockValidator for AcceptAll {
    fn submit_finalized_headers(
        &mut self,
        _bridge_id: u64,
        _header: Header,
        _ancestry_proof: Vec<Header>,
        _grandpa_proof: Vec<u8>,
        _authority_set_change: Option<AuthoritySetChange>,
    ) -> Result<(), Error> {
        Ok(())
    }

    fn validate_storage_proof(
        &self,
        _state_root: u64,
        _proof: Vec<Vec<u8>>,
        _items: &Vec<(Vec<u8>, Vec<u8>)>,
    ) -> Result<(), Error> {
        Ok(())
    }
}

struct RejectAll;

impl BlockValidator for RejectAll {
    fn submit_finalized_headers(
        &mut self,
        _bridge_id: u64,
        _header: Header,
        _ancestry_proof: Vec<Header>,
        _grandpa_proof: Vec<u8>,
        _authority_set_change: Option<AuthoritySetChange>,
    ) -> Result<(), Error> {
        Err(Error::HeaderValidateFailed(String::from("refused")))
    }

    fn validate_storage_proof(
        &self,
        _state_root: u64,
        _proof: Vec<Vec<u8>>,
        _items: &Vec<(Vec<u8>, Vec<u8>)>,
    ) -> Result<(), Error> {
        Err(Error::StorageProofFailed(String::from("refused")))
    }
}

fn header(number: u32, hash: u64, parent_hash: u64, state_root: u64) -> Header {
    Header { number, hash, parent_hash, state_root }
}

fn justified(h: Header) -> HeaderToSync {
    HeaderToSync { header: h, justification: Some(vec![0xAA]) }
}

fn unjustified(h: Header) -> HeaderToSync {
    HeaderToSync { header: h, justification: None }
}

fn no_changes() -> StorageChanges {
    StorageChanges { main_storage_changes: vec![], child_storage_changes: vec![] }
}

fn some_changes() -> StorageChanges {
    StorageChanges {
        main_storage_changes: vec![(b"key".to_vec(), Some(b"value".to_vec()))],
        child_storage_changes: vec![],
    }
}

#[test]
fn sync_header_advances_cursor_and_queues_roots() {
    let mut sync = SolochainSynchronizer::new(AcceptAll, 7);
    assert_eq!(
        sync.counters(),
        Counters { next_header_number: 1, next_para_header_number: 0, next_block_number: 1 }
    );
    let batch = vec![
        unjustified(header(1, 101, 100, 11)),
        unjustified(header(2, 102, 101, 12)),
        justified(header(3, 103, 102, 13)),
    ];
    let r = sync.sync_header(batch, None);
    assert!(matches!(r, Ok(3)));
    assert_eq!(
        sync.counters(),
        Counters { next_header_number: 4, next_para_header_number: 0, next_block_number: 1 }
    );
    assert_eq!(sync.state_roots.len(), 3);
    assert_eq!(sync.state_roots[0], 11);
    assert_eq!(sync.state_roots[1], 12);
    assert_eq!(sync.state_roots[2], 13);
}

#[test]
fn sync_header_empty_batch_is_rejected() {
    let mut sync = SolochainSynchronizer::new(AcceptAll, 0);
    let r = sync.sync_header(vec![], None);
    assert!(matches!(r, Err(Error::EmptyRequest)));
    assert_eq!(
        sync.counters(),
        Counters { next_header_number: 1, next_para_header_number: 0, next_block_number: 1 }
    );
    assert_eq!(sync.state_roots.len(), 0);
}

#[test]
fn sync_header_wrong_start_number_is_rejected() {
    let mut sync = SolochainSynchronizer::new(AcceptAll, 0);
    let batch = vec![justified(header(2, 102, 101, 12))];
    let r = sync.sync_header(batch, None);
    assert!(matches!(r, Err(Error::BlockNumberMismatch)));
    assert_eq!(sync.counters().next_header_number, 1);
}

#[test]
fn sync_header_missing_justification_is_rejected() {
    let mut sync = SolochainSynchronizer::new(AcceptAll, 0);
    let batch = vec![unjustified(header(1, 101, 100, 11)), unjustified(header(2, 102, 101, 12))];
    let r = sync.sync_header(batch, None);
    assert!(matches!(r, Err(Error::MissingJustification)));
    assert_eq!(sync.counters().next_header_number, 1);
    assert_eq!(sync.state_roots.len(), 0);
}

#[test]
fn sync_header_parent_hash_break_is_rejected() {
    let mut sync = SolochainSynchronizer::new(AcceptAll, 0);
    let batch = vec![
        unjustified(header(1, 101, 100, 11)),
        unjustified(header(2, 102, 999, 12)),
        justified(header(3, 103, 102, 13)),
    ];
    let r = sync.sync_header(batch, None);
    assert!(matches!(r, Err(Error::HeaderHashMismatch)));
    assert_eq!(sync.counters().next_header_number, 1);
    assert_eq!(sync.state_roots.len(), 0);
}

#[test]
fn sync_header_validator_rejection_leaves_state() {
    let mut sync = SolochainSynchronizer::new(RejectAll, 0);
    let batch = vec![justified(header(1, 101, 100, 11))];
    let r = sync.sync_header(batch, None);
    assert!(matches!(r, Err(Error::HeaderValidateFailed(_))));
    assert_eq!(sync.counters().next_header_number, 1);
    assert_eq!(sync.state_roots.len(), 0);
}

#[test]
fn feed_block_commits_matching_changes() {
    let mut storage = Storage::new(0);
    let changes = some_changes();
    let (root1, _) = storage.calc_root_if_changes(
        &changes.main_storage_changes,
        &changes.child_storage_changes,
    );

    let mut sync = SolochainSynchronizer::new(AcceptAll, 0);
    assert_eq!(sync.counters().next_header_number, 1);
    assert_eq!(sync.counters().next_block_number, 1);
    let batch = vec![
        unjustified(header(1, 101, 100, root1)),
        unjustified(header(2, 102, 101, 998)),
        justified(header(3, 103, 102, 999)),
    ];
    let r = sync.sync_header(batch, None);
    assert!(matches!(r, Ok(3)));
    assert_eq!(sync.counters().next_header_number, 4);
    assert_eq!(sync.state_roots.len(), 3);

    let block = BlockHeaderWithChanges {
        block_header: header(1, 101, 100, root1),
        storage_changes: changes,
    };
    let r = sync.feed_block(&block, &mut storage);
    assert!(matches!(r, Ok(())));
    // The committed root is the block's own declared state root.
    assert_eq!(storage.root(), root1);
    assert_eq!(sync.counters().next_block_number, 2);
    assert_eq!(sync.state_roots.len(), 2);

    // Feeding the same block again mismatches the cursor.
    let r = sync.feed_block(&block, &mut storage);
    assert!(matches!(r, Err(Error::BlockNumberMismatch)));
    assert_eq!(storage.root(), root1);
}

#[test]
fn feed_block_without_queued_root_is_rejected() {
    let mut storage = Storage::new(0);
    let mut sync = SolochainSynchronizer::new(AcceptAll, 0);
    let block =
        BlockHeaderWithChanges { block_header: header(1, 101, 100, 11), storage_changes: no_changes() };
    let r = sync.feed_block(&block, &mut storage);
    assert!(matches!(r, Err(Error::NoStateRoot)));
    assert_eq!(sync.counters().next_block_number, 1);
}

#[test]
fn feed_block_root_mismatch_never_touches_storage() {
    let mut storage = Storage::new(0);
    let changes = some_changes();
    let (root1, _) = storage.calc_root_if_changes(
        &changes.main_storage_changes,
        &changes.child_storage_changes,
    );
    let wrong = root1.wrapping_add(1);

    let mut sync = SolochainSynchronizer::new(AcceptAll, 0);
    let batch = vec![justified(header(1, 101, 100, wrong))];
    sync.sync_header(batch, None).unwrap();

    let root_before = storage.root();
    let block = BlockHeaderWithChanges {
        block_header: header(1, 101, 100, wrong),
        storage_changes: changes,
    };
    let r = sync.feed_block(&block, &mut storage);
    match r {
        Err(Error::StateRootMismatch { block: n, expected, actual }) => {
            assert_eq!(n, 1);
            assert_eq!(expected, wrong);
            assert_eq!(actual, root1);
        },
        other => panic!("unexpected result: {:?}", other),
    }
    // Rejection is idempotent on storage: the root is exactly as before.
    assert_eq!(storage.root(), root_before);
    assert_eq!(sync.counters().next_block_number, 1);
    assert_eq!(sync.state_roots.len(), 1);
}

#[test]
fn feed_blocks_in_order_track_each_header_root() {
    let mut storage = Storage::new(0);
    let changes1 = some_changes();
    let (root1, _) = storage.calc_root_if_changes(
        &changes1.main_storage_changes,
        &changes1.child_storage_changes,
    );
    let probe = Storage::new(root1);
    let changes2 = no_changes();
    let (root2, _) = probe.calc_root_if_changes(
        &changes2.main_storage_changes,
        &changes2.child_storage_changes,
    );

    let mut sync = SolochainSynchronizer::new(AcceptAll, 0);
    let batch = vec![
        unjustified(header(1, 101, 100, root1)),
        justified(header(2, 102, 101, root2)),
    ];
    sync.sync_header(batch, None).unwrap();

    let block1 = BlockHeaderWithChanges {
        block_header: header(1, 101, 100, root1),
        storage_changes: changes1,
    };
    assert!(sync.feed_block(&block1, &mut storage).is_ok());
    assert_eq!(storage.root(), root1);
    assert_eq!(sync.state_roots.len(), 1);

    let block2 = BlockHeaderWithChanges {
        block_header: header(2, 102, 101, root2),
        storage_changes: changes2,
    };
    assert!(sync.feed_block(&block2, &mut storage).is_ok());
    assert_eq!(storage.root(), root2);
    assert_eq!(sync.state_roots.len(), 0);
    assert_eq!(sync.counters().next_block_number, 3);
}

#[test]
fn solochain_never_syncs_parachain_headers() {
    let mut sync = SolochainSynchronizer::new(AcceptAll, 0);
    let r = sync.sync_parachain_header(vec![header(1, 101, 100, 11)], vec![], b"any-key");
    assert!(matches!(r, Err(Error::ChainModeMismatch)));
    let r = sync.sync_parachain_header(vec![], vec![], b"");
    assert!(matches!(r, Err(Error::ChainModeMismatch)));
}

#[test]
fn parachain_sync_caches_then_consumes_relaychain_root() {
    let mut sync = ParachainSynchronizer::new(AcceptAll, 0, 1);
    assert_eq!(
        sync.counters(),
        Counters { next_header_number: 1, next_para_header_number: 1, next_block_number: 1 }
    );

    // Relaychain sync of headers 1..2, header 2 justified: caches header 2's
    // state root and nothing else.
    let relay = vec![unjustified(header(1, 101, 100, 21)), justified(header(2, 102, 101, 22))];
    let r = sync.sync_header(relay, None);
    assert!(matches!(r, Ok(2)));
    assert_eq!(sync.last_relaychain_state_root, Some(22));
    assert_eq!(sync.counters().next_header_number, 3);
    assert_eq!(sync.para_state_roots.len(), 0);

    // Parachain sync of header 1 against the cached root: succeeds, queues
    // the parachain root, clears the cache.
    let r = sync.sync_parachain_header(vec![header(1, 201, 200, 31)], vec![b"node".to_vec()], b"head-key");
    assert!(matches!(r, Ok(1)));
    assert_eq!(sync.last_relaychain_state_root, None);
    assert_eq!(sync.para_state_roots.len(), 1);
    assert_eq!(sync.para_state_roots[0], 31);
    assert_eq!(sync.counters().next_para_header_number, 2);

    // A second parachain sync without a fresh relaychain sync fails fast.
    let r = sync.sync_parachain_header(vec![header(2, 202, 201, 32)], vec![], b"head-key");
    assert!(matches!(r, Err(Error::RelaychainHeaderNotSynced)));
    assert_eq!(sync.para_state_roots.len(), 1);
    assert_eq!(sync.counters().next_para_header_number, 2);
}

#[test]
fn parachain_sync_rejects_empty_and_misnumbered_batches() {
    let mut sync = ParachainSynchronizer::new(AcceptAll, 0, 1);
    let r = sync.sync_parachain_header(vec![], vec![], b"k");
    assert!(matches!(r, Err(Error::EmptyRequest)));
    let r = sync.sync_parachain_header(vec![header(5, 205, 204, 35)], vec![], b"k");
    assert!(matches!(r, Err(Error::BlockNumberMismatch)));
}

#[test]
fn parachain_sync_parent_hash_break_is_rejected() {
    let mut sync = ParachainSynchronizer::new(AcceptAll, 0, 1);
    let relay = vec![justified(header(1, 101, 100, 21))];
    sync.sync_header(relay, None).unwrap();
    assert_eq!(sync.last_relaychain_state_root, Some(21));

    let paras = vec![header(1, 201, 200, 31), header(2, 202, 777, 32)];
    let r = sync.sync_parachain_header(paras, vec![], b"k");
    assert!(matches!(r, Err(Error::HeaderHashMismatch)));
    // No partial mutation: the cache survives a rejected parachain sync.
    assert_eq!(sync.last_relaychain_state_root, Some(21));
    assert_eq!(sync.para_state_roots.len(), 0);
    assert_eq!(sync.counters().next_para_header_number, 1);
}

#[test]
fn parachain_sync_proof_rejection_keeps_cache() {
    let mut sync = ParachainSynchronizer::new(RejectAll, 0, 1);
    // The reject-all validator refuses the finality proof too, so install the
    // cache by hand for this test.
    sync.last_relaychain_state_root = Some(21);
    let r = sync.sync_parachain_header(vec![header(1, 201, 200, 31)], vec![], b"k");
    assert!(matches!(r, Err(Error::StorageProofFailed(_))));
    assert_eq!(sync.last_relaychain_state_root, Some(21));
    assert_eq!(sync.para_state_roots.len(), 0);
}

#[test]
fn parachain_feed_block_consumes_para_queue() {
    let mut storage = Storage::new(0);
    let changes = some_changes();
    let (root1, _) = storage.calc_root_if_changes(
        &changes.main_storage_changes,
        &changes.child_storage_changes,
    );

    let mut sync = ParachainSynchronizer::new(AcceptAll, 0, 1);
    sync.sync_header(vec![justified(header(1, 101, 100, 21))], None).unwrap();
    sync.sync_parachain_header(vec![header(1, 201, 200, root1)], vec![], b"k").unwrap();

    let block = BlockHeaderWithChanges {
        block_header: header(1, 201, 200, root1),
        storage_changes: changes,
    };
    let r = sync.feed_block(&block, &mut storage);
    assert!(matches!(r, Ok(())));
    assert_eq!(storage.root(), root1);
    assert_eq!(sync.para_state_roots.len(), 0);
    assert_eq!(sync.counters().next_block_number, 2);
}

fn progress<S: phactory_api::storage_sync::StorageSynchronizer>(s: &S) -> Counters {
    s.counters()
}

#[test]
fn both_topologies_share_the_interface() {
    let solo = SolochainSynchronizer::new(AcceptAll, 0);
    assert_eq!(
        progress(&solo),
        Counters { next_header_number: 1, next_para_header_number: 0, next_block_number: 1 }
    );
    let para = ParachainSynchronizer::new(AcceptAll, 0, 5);
    assert_eq!(
        progress(&para),
        Counters { next_header_number: 5, next_para_header_number: 1, next_block_number: 1 }
    );
}

struct Recording {
    submitted: Option<(u64, Header, Vec<Header>, Vec<u8>, bool)>,
    proofs: std::cell::RefCell<Option<(u64, Vec<Vec<u8>>, Vec<(Vec<u8>, Vec<u8>)>)>>,
}

impl Recording {
    fn new() -> Self {
        Recording { submitted: None, proofs: std::cell::RefCell::new(None) }
    }
}

impl BlockValidator for Recording {
    fn submit_finalized_headers(
        &mut self,
        bridge_id: u64,
        header: Header,
        ancestry_proof: Vec<Header>,
        grandpa_proof: Vec<u8>,
        authority_set_change: Option<AuthoritySetChange>,
    ) -> Result<(), Error> {
        self.submitted =
            Some((bridge_id, header, ancestry_proof, grandpa_proof, authority_set_change.is_some()));
        Ok(())
    }

    fn validate_storage_proof(
        &self,
        state_root: u64,
        proof: Vec<Vec<u8>>,
        items: &Vec<(Vec<u8>, Vec<u8>)>,
    ) -> Result<(), Error> {
        *self.proofs.borrow_mut() = Some((state_root, proof, items.clone()));
        Ok(())
    }
}

#[test]
fn sync_header_hands_the_validator_the_reversed_ancestry() {
    let mut sync = SolochainSynchronizer::new(Recording::new(), 7);
    let batch = vec![
        unjustified(header(1, 101, 100, 11)),
        unjustified(header(2, 102, 101, 12)),
        justified(header(3, 103, 102, 13)),
    ];
    sync.sync_header(batch, None).unwrap();
    let (bridge_id, last, ancestry, justification, has_change) =
        sync.sync_state.validator.submitted.clone().unwrap();
    assert_eq!(bridge_id, 7);
    assert_eq!(last, header(3, 103, 102, 13));
    // All headers but the last, highest first.
    assert_eq!(ancestry, vec![header(2, 102, 101, 12), header(1, 101, 100, 11)]);
    assert_eq!(justification, vec![0xAA]);
    assert!(!has_change);
}

#[test]
fn parachain_sync_hands_the_validator_the_double_encoded_head() {
    let mut sync = ParachainSynchronizer::new(Recording::new(), 0, 1);
    sync.sync_header(vec![justified(header(1, 101, 100, 21))], None).unwrap();

    let head = header(1, 201, 200, 31);
    sync.sync_parachain_header(vec![head], vec![b"node".to_vec()], b"head-key").unwrap();

    let (state_root, proof, items) =
        sync.sync_state.validator.proofs.borrow().clone().unwrap();
    assert_eq!(state_root, 21);
    assert_eq!(proof, vec![b"node".to_vec()]);
    let expected_value =
        phactory_api::codec::scale_encode_bytes(&phactory_api::codec::encode_header(&head));
    assert_eq!(items, vec![(b"head-key".to_vec(), expected_value)]);
}
