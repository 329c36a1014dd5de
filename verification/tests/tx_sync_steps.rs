use lightning_kit::persist::ChainOutPoint;
use lightning_kit::tx_sync::sync::{
    best_block_update, collect_confirmed, confirmation_height, locate_confirmation, locate_in_merkle_proof, sort_confirmed_transactions, ConfirmedTx, SyncAction, SyncEvent, TxSyncState,
    WatchedOutput,
};
use lightning_kit::tx_sync::TxSyncError;

use bitcoin::{BlockHash, ScriptBuf, Transaction, Txid};

fn block_hash(byte: u8) -> BlockHash {
    <BlockHash as bitcoin::hashes::Hash>::from_byte_array([byte; 32])
}

fn txid(byte: u8) -> Txid {
    <Txid as bitcoin::hashes::Hash>::from_byte_array([byte; 32])
}

fn tx(lock_time: u32) -> Transaction {
    Transaction {
        version: bitcoin::transaction::Version::TWO,
        lock_time: bitcoin::absolute::LockTime::from_consensus(lock_time),
        input: vec![],
        output: vec![],
    }
}

fn header() -> bitcoin::block::Header {
    bitcoin::block::Header {
        version: bitcoin::block::Version::TWO,
        prev_blockhash: block_hash(0),
        merkle_root: <bitcoin::TxMerkleNode as bitcoin::hashes::Hash>::from_byte_array([0; 32]),
        time: 0,
        bits: bitcoin::CompactTarget::from_consensus(0),
        nonce: 0,
    }
}

fn confirmed(lock_time: u32, block_height: u32, pos: usize) -> ConfirmedTx {
    ConfirmedTx { tx: tx(lock_time), block_header: header(), block_height, pos }
}

fn output(byte: u8) -> WatchedOutput {
    WatchedOutput {
        block_hash: None,
        outpoint: ChainOutPoint { txid: txid(byte), index: 0 },
        script_pubkey: ScriptBuf::new(),
    }
}

fn is_finished_ok(action: &SyncAction) -> bool {
    matches!(action, SyncAction::Finished(Ok(())))
}

#[test]
fn sorting_orders_by_height_then_position() {
    let sorted = sort_confirmed_transactions(vec![
        confirmed(1, 10, 3),
        confirmed(2, 9, 7),
        confirmed(3, 10, 1),
        confirmed(4, 9, 2),
    ]);
    let order: Vec<(u32, usize)> = sorted.iter().map(|c| (c.block_height, c.pos)).collect();
    assert_eq!(order, vec![(9, 2), (9, 7), (10, 1), (10, 3)]);
    assert!(sort_confirmed_transactions(vec![]).is_empty());
}

#[test]
fn full_sync_pass() {
    let mut state = TxSyncState::new();
    state.register_tx(&txid(1));
    state.register_tx(&txid(1));
    state.register_output(output(2));

    assert!(matches!(state.sync_step(SyncEvent::Start), SyncAction::FetchTip));
    assert!(matches!(state.sync_step(SyncEvent::TipFetched(Ok(block_hash(7)))), SyncAction::SyncUnconfirmed));
    assert_eq!(state.watched_transactions(), &vec![txid(1)]);
    assert_eq!(state.watched_outputs(), &vec![output(2)]);
    match state.sync_step(SyncEvent::UnconfirmedSynced(Ok(()))) {
        SyncAction::SyncBestBlock(tip) => assert_eq!(tip, block_hash(7)),
        _ => panic!("expected the best block update"),
    }
    assert!(matches!(state.sync_step(SyncEvent::BestBlockSynced(Ok(()))), SyncAction::GetConfirmed));
    let fetched = vec![confirmed(5, 3, 1), confirmed(6, 2, 0)];
    assert!(matches!(state.sync_step(SyncEvent::ConfirmedFetched(Ok((fetched, vec![output(2)])))), SyncAction::CheckTip));
    match state.sync_step(SyncEvent::TipChecked(Ok(block_hash(7)))) {
        SyncAction::NotifyConfirmed(txs) => {
            let heights: Vec<u32> = txs.iter().map(|c| c.block_height).collect();
            assert_eq!(heights, vec![2, 3]);
        },
        _ => panic!("expected the confirmed transactions"),
    }
    assert!(state.watched_outputs().is_empty());
    assert!(!state.pending_sync());
    let done = state.sync_step(SyncEvent::Notified);
    assert!(is_finished_ok(&done));

    // A second sync with nothing new finishes at once.
    assert!(matches!(state.sync_step(SyncEvent::Start), SyncAction::FetchTip));
    assert!(is_finished_ok(&state.sync_step(SyncEvent::TipFetched(Ok(block_hash(7))))));
}

#[test]
fn confirmed_transactions_stop_being_watched() {
    let mut state = TxSyncState::new();
    let confirmed_tx = confirmed(42, 5, 0);
    let id = confirmed_tx.tx.compute_txid();
    state.register_tx(&id);
    state.register_tx(&txid(9));
    state.sync_step(SyncEvent::Start);
    state.sync_step(SyncEvent::TipFetched(Ok(block_hash(1))));
    state.sync_step(SyncEvent::UnconfirmedSynced(Ok(())));
    state.sync_step(SyncEvent::BestBlockSynced(Ok(())));
    state.sync_step(SyncEvent::ConfirmedFetched(Ok((vec![confirmed_tx], vec![]))));
    state.sync_step(SyncEvent::TipChecked(Ok(block_hash(1))));
    assert_eq!(state.watched_transactions(), &vec![txid(9)]);
}

#[test]
fn errors_and_inconsistencies() {
    let mut state = TxSyncState::new();
    state.sync_step(SyncEvent::Start);
    // A failed tip query ends the sync without marking it pending.
    assert!(matches!(state.sync_step(SyncEvent::TipFetched(Err(TxSyncError::Failed))), SyncAction::Finished(Err(TxSyncError::Failed))));
    assert!(!state.pending_sync());

    state.sync_step(SyncEvent::Start);
    state.sync_step(SyncEvent::TipFetched(Ok(block_hash(3))));
    assert!(matches!(state.sync_step(SyncEvent::UnconfirmedSynced(Err(TxSyncError::Failed))), SyncAction::Finished(Err(TxSyncError::Failed))));
    assert!(state.pending_sync());

    // An inconsistency restarts the loop; the tip is still new.
    state.sync_step(SyncEvent::Start);
    state.sync_step(SyncEvent::TipFetched(Ok(block_hash(3))));
    state.sync_step(SyncEvent::UnconfirmedSynced(Ok(())));
    assert!(matches!(state.sync_step(SyncEvent::BestBlockSynced(Err(TxSyncError::Inconsistency))), SyncAction::SyncUnconfirmed));
    state.sync_step(SyncEvent::UnconfirmedSynced(Ok(())));
    state.sync_step(SyncEvent::BestBlockSynced(Ok(())));
    assert!(matches!(state.sync_step(SyncEvent::ConfirmedFetched(Err(TxSyncError::Inconsistency))), SyncAction::SyncUnconfirmed));
    state.sync_step(SyncEvent::UnconfirmedSynced(Ok(())));
    state.sync_step(SyncEvent::BestBlockSynced(Ok(())));
    state.sync_step(SyncEvent::ConfirmedFetched(Ok((vec![], vec![]))));
    // The tip moved during the sync: start over towards the new tip.
    assert!(matches!(state.sync_step(SyncEvent::TipChecked(Ok(block_hash(4)))), SyncAction::SyncUnconfirmed));
    state.sync_step(SyncEvent::UnconfirmedSynced(Ok(())));
    state.sync_step(SyncEvent::BestBlockSynced(Ok(())));
    state.sync_step(SyncEvent::ConfirmedFetched(Ok((vec![], vec![]))));
    assert!(matches!(state.sync_step(SyncEvent::TipChecked(Ok(block_hash(4)))), SyncAction::NotifyConfirmed(_)));
    assert!(!state.pending_sync());
    assert!(is_finished_ok(&state.sync_step(SyncEvent::Notified)));

    // With the tip already synced, a pending sync skips to the confirmed transactions.
    state.sync_step(SyncEvent::Start);
    state.sync_step(SyncEvent::TipFetched(Ok(block_hash(4))));
    state.register_tx(&txid(1));
    state.sync_step(SyncEvent::Start);
    assert!(matches!(state.sync_step(SyncEvent::TipFetched(Ok(block_hash(4)))), SyncAction::GetConfirmed));
    assert!(matches!(state.sync_step(SyncEvent::ConfirmedFetched(Err(TxSyncError::Failed))), SyncAction::Finished(Err(TxSyncError::Failed))));
    assert!(state.pending_sync());
}

#[test]
fn unconfirmed_transactions_are_watched_again() {
    let mut state = TxSyncState::new();
    state.mark_unconfirmed(&txid(3));
    state.mark_unconfirmed(&txid(3));
    assert_eq!(state.watched_transactions(), &vec![txid(3)]);
}

#[test]
fn locating_a_confirmation() {
    assert_eq!(locate_confirmation(&None, &block_hash(1), &vec![4, 9]), Ok(4));
    assert_eq!(locate_confirmation(&Some(block_hash(1)), &block_hash(1), &vec![2]), Ok(2));
    assert_eq!(locate_confirmation(&Some(block_hash(2)), &block_hash(1), &vec![2]), Err(TxSyncError::Inconsistency));
    assert_eq!(locate_confirmation(&None, &block_hash(1), &vec![]), Err(TxSyncError::Failed));
}

#[test]
fn locating_a_transaction_in_a_merkle_proof() {
    let txids = vec![txid(1), txid(2), txid(3), txid(4), txid(5)];
    let tree = bitcoin::merkle_tree::PartialMerkleTree::from_txids(&txids, &[false, false, true, false, false]);
    let header = header();
    let hash = header.block_hash();
    assert_eq!(locate_in_merkle_proof(&None, &header, &tree), Ok((hash, 2)));
    assert_eq!(locate_in_merkle_proof(&Some(hash), &header, &tree), Ok((hash, 2)));
    assert_eq!(locate_in_merkle_proof(&Some(block_hash(7)), &header, &tree), Err(TxSyncError::Inconsistency));
    let unmatched = bitcoin::merkle_tree::PartialMerkleTree::from_txids(&txids, &[false; 5]);
    assert_eq!(locate_in_merkle_proof(&None, &header, &unmatched), Err(TxSyncError::Failed));
}

#[test]
fn block_statuses_decide_announcements_and_heights() {
    assert_eq!(best_block_update(true, Some(800_000)), Ok(Some(800_000)));
    assert_eq!(best_block_update(true, None), Ok(None));
    assert_eq!(best_block_update(false, Some(800_000)), Err(TxSyncError::Inconsistency));
    assert_eq!(confirmation_height(Some(12)), Ok(12));
    assert_eq!(confirmation_height(None), Err(TxSyncError::Inconsistency));
}

#[test]
fn collecting_what_a_pass_found() {
    let (confirmed_txs, spent) = collect_confirmed(
        vec![Some(confirmed(1, 5, 0)), None, Some(confirmed(2, 3, 4))],
        vec![(output(7), None), (output(8), Some(confirmed(3, 9, 1))), (output(9), None)],
    );
    let lock_times: Vec<u32> = confirmed_txs.iter().map(|c| c.tx.lock_time.to_consensus_u32()).collect();
    assert_eq!(lock_times, vec![1, 2, 3]);
    assert_eq!(spent, vec![output(8)]);
    let (none, no_spent) = collect_confirmed(vec![None], vec![(output(1), None)]);
    assert!(none.is_empty() && no_spent.is_empty());
}

#[test]
fn tx_sync_error_text() {
    assert_eq!(TxSyncError::Failed.to_string(), "Failed to conduct transaction sync.");
    assert_eq!(TxSyncError::Inconsistency.to_string(), "Encountered an inconsisteny during transaction sync.");
}
