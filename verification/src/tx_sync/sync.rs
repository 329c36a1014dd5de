//! The state of a transaction sync: the transactions and outputs registered to be watched, and
//! the step-by-step decisions of a sync against an Esplora server.
//!
//! A sync alternates queries to the server, and calls into the `Confirm` implementations, with
//! decisions. The queries and calls are performed by the caller; [`TxSyncState::sync_step`]
//! takes the outcome of each ([`SyncEvent`]) and says what to do next ([`SyncAction`]).

use vstd::multiset::Multiset;
use vstd::prelude::*;

use bitcoin::{BlockHash, ScriptBuf, Transaction, Txid};

use super::error::TxSyncError;
use crate::btc::{
    block_hash_bytes, block_hash_eq, compute_txid, header_block_hash, header_hash, merkle_match_indexes, script_bytes,
    script_eq, transaction_id, tree_match_indexes, txid_bytes, txid_eq,
};
use crate::keyed::{
    key_set, keys_distinct, lemma_key_set_contains, lemma_key_set_drop_last, lemma_key_set_empty,
    lemma_key_set_is_empty, lemma_key_set_push, lemma_key_set_remove,
};
use crate::persist::ChainOutPoint;

verus! {

broadcast use vstd::seq_lib::group_to_multiset_ensures;

/// An output that was registered to be watched for spends.
#[derive(Clone, Debug, PartialEq, Eq, Hash)]
pub struct WatchedOutput {
    /// The block in which the output was confirmed, if known.
    pub block_hash: Option<BlockHash>,
    /// The outpoint of the output.
    pub outpoint: ChainOutPoint,
    /// The script that the output pays to.
    pub script_pubkey: ScriptBuf,
}

/// What tells watched outputs apart: the bytes of each of their fields.
pub open spec fn output_key(output: WatchedOutput) -> (Option<Seq<u8>>, Seq<u8>, u16, Seq<u8>) {
    (
        hash_key(output.block_hash),
        txid_bytes(output.outpoint.txid),
        output.outpoint.index,
        script_bytes(output.script_pubkey),
    )
}

/// The bytes of an optional block hash.
pub open spec fn hash_key(hash: Option<BlockHash>) -> Option<Seq<u8>> {
    match hash {
        Some(h) => Some(block_hash_bytes(h)),
        None => None,
    }
}

/// Whether two watched outputs are the same output.
pub fn watched_output_eq(a: &WatchedOutput, b: &WatchedOutput) -> (eq: bool)
    ensures
        eq == (output_key(*a) == output_key(*b)),
{
    let same_block = match (&a.block_hash, &b.block_hash) {
        (Some(x), Some(y)) => block_hash_eq(x, y),
        (None, None) => true,
        _ => false,
    };
    same_block && txid_eq(&a.outpoint.txid, &b.outpoint.txid) && a.outpoint.index == b.outpoint.index
        && script_eq(&a.script_pubkey, &b.script_pubkey)
}

/// A transaction confirmed in a block, at a position within it.
pub struct ConfirmedTx {
    /// The transaction.
    pub tx: Transaction,
    /// The header of the block that confirms it.
    pub block_header: bitcoin::block::Header,
    /// The height of that block.
    pub block_height: u32,
    /// The position of the transaction within the block.
    pub pos: usize,
}

/// Whether `a` comes no later than `b`: by block height, then by position in the block.
pub open spec fn confirmed_le(a: ConfirmedTx, b: ConfirmedTx) -> bool {
    a.block_height < b.block_height || (a.block_height == b.block_height && a.pos <= b.pos)
}

/// Whether confirmed transactions are in chain order.
pub open spec fn confirmed_sorted(s: Seq<ConfirmedTx>) -> bool {
    forall|i: int, j: int| 0 <= i < j < s.len() ==> confirmed_le(#[trigger] s[i], #[trigger] s[j])
}

/// Sorts confirmed transactions first by block height, then by in-block position, the order in
/// which they are fed to the `Confirm` implementations.
pub fn sort_confirmed_transactions(txs: Vec<ConfirmedTx>) -> (sorted: Vec<ConfirmedTx>)
    ensures
        confirmed_sorted(sorted@),
        sorted@.to_multiset() == txs@.to_multiset(),
{
    let mut rest = txs;
    let mut sorted: Vec<ConfirmedTx> = Vec::new();
    while rest.len() > 0
        invariant
            confirmed_sorted(sorted@),
            sorted@.to_multiset().add(rest@.to_multiset()) == txs@.to_multiset(),
        decreases rest.len(),
    {
        let ghost before = rest@;
        let x = rest.pop().unwrap();
        proof {
            assert(before =~= rest@.push(x));
        }
        let mut pos: usize = 0;
        while pos < sorted.len() && !(x.block_height < sorted[pos].block_height
            || (x.block_height == sorted[pos].block_height && x.pos < sorted[pos].pos))
            invariant
                pos <= sorted.len(),
                forall|j: int| 0 <= j < pos ==> confirmed_le(#[trigger] sorted@[j], x),
            decreases sorted.len() - pos,
        {
            pos += 1;
        }
        let ghost old_sorted = sorted@;
        sorted.insert(pos, x);
        proof {
            assert forall|i: int, j: int| 0 <= i < j < sorted@.len() implies confirmed_le(#[trigger] sorted@[i], #[trigger] sorted@[j]) by {
                if j < pos {
                } else if j == pos {
                    assert(sorted@[i] == old_sorted[i]);
                } else if i < pos {
                    assert(sorted@[j] == old_sorted[j - 1]);
                    assert(sorted@[i] == old_sorted[i]);
                    assert(confirmed_le(old_sorted[i], x));
                    assert(confirmed_le(x, old_sorted[pos as int]));
                    if j - 1 > pos {
                        assert(confirmed_le(old_sorted[pos as int], old_sorted[j - 1]));
                    }
                } else if i == pos {
                    assert(sorted@[j] == old_sorted[j - 1]);
                    assert(confirmed_le(x, old_sorted[pos as int]));
                    if j - 1 > pos {
                        assert(confirmed_le(old_sorted[pos as int], old_sorted[j - 1]));
                    }
                } else {
                    assert(sorted@[j] == old_sorted[j - 1]);
                    assert(sorted@[i] == old_sorted[i - 1]);
                }
            }
            assert(sorted@.to_multiset() == old_sorted.to_multiset().insert(x));
            assert(before.to_multiset() == rest@.to_multiset().insert(x));
            assert(sorted@.to_multiset().add(rest@.to_multiset()) =~= old_sorted.to_multiset().add(before.to_multiset()));
        }
    }
    proof {
        assert(rest@.to_multiset() =~= Multiset::<ConfirmedTx>::empty());
        assert(sorted@.to_multiset().add(rest@.to_multiset()) =~= sorted@.to_multiset());
    }
    sorted
}

/// Where a sync stands.
#[derive(Clone, Copy, Debug, PartialEq, Eq, Structural)]
pub enum SyncPhase {
    /// No sync is running.
    Idle,
    /// Waiting for the server's tip hash.
    AwaitTip,
    /// Waiting for the check of the transactions the `Confirm` implementations consider confirmed.
    AwaitUnconfirmed,
    /// Waiting for the `Confirm` implementations to learn the new best block.
    AwaitBestBlock,
    /// Waiting for the confirmation status of the watched transactions and outputs.
    AwaitConfirmed,
    /// Waiting for the tip hash again, to rule out a reorganisation during the sync.
    AwaitTipCheck,
    /// Waiting for the `Confirm` implementations to learn the confirmed transactions.
    AwaitNotified,
}

/// The outcome of what a sync asked the caller to do.
pub enum SyncEvent {
    /// A sync is to begin.
    Start,
    /// The server's tip hash, or the failure to get it.
    TipFetched(Result<BlockHash, TxSyncError>),
    /// The outcome of checking the transactions the `Confirm` implementations consider
    /// confirmed (each one found unconfirmed was passed to [`TxSyncState::mark_unconfirmed`]).
    UnconfirmedSynced(Result<(), TxSyncError>),
    /// The outcome of telling the `Confirm` implementations the new best block.
    BestBlockSynced(Result<(), TxSyncError>),
    /// The confirmed transactions found for the watched transactions and outputs, with the
    /// watched outputs found spent; or the failure to find them.
    ConfirmedFetched(Result<(Vec<ConfirmedTx>, Vec<WatchedOutput>), TxSyncError>),
    /// The server's tip hash once more, or the failure to get it.
    TipChecked(Result<BlockHash, TxSyncError>),
    /// The `Confirm` implementations were told of the confirmed transactions.
    Notified,
}

/// What a sync asks the caller to do next.
pub enum SyncAction {
    /// Get the server's tip hash; answer with [`SyncEvent::TipFetched`].
    FetchTip,
    /// Check the transactions the `Confirm` implementations consider confirmed; answer with
    /// [`SyncEvent::UnconfirmedSynced`].
    SyncUnconfirmed,
    /// Tell the `Confirm` implementations that this block is the best block; answer with
    /// [`SyncEvent::BestBlockSynced`].
    SyncBestBlock(BlockHash),
    /// Find the confirmed transactions of the watched transactions and outputs; answer with
    /// [`SyncEvent::ConfirmedFetched`].
    GetConfirmed,
    /// Get the server's tip hash again; answer with [`SyncEvent::TipChecked`].
    CheckTip,
    /// Tell the `Confirm` implementations of these confirmed transactions, in this order; answer
    /// with [`SyncEvent::Notified`].
    NotifyConfirmed(Vec<ConfirmedTx>),
    /// The sync is over, with this outcome.
    Finished(Result<(), TxSyncError>),
}

/// The state of a transaction sync, with transactions and outputs named by their bytes.
#[verifier::ext_equal]
pub struct TxSyncView {
    /// Transactions registered and not yet processed.
    pub queued_transactions: Set<Seq<u8>>,
    /// Transactions processed and still watched.
    pub watched_transactions: Set<Seq<u8>>,
    /// Outputs registered and not yet processed.
    pub queued_outputs: Set<(Option<Seq<u8>>, Seq<u8>, u16, Seq<u8>)>,
    /// Outputs processed and still watched.
    pub watched_outputs: Set<(Option<Seq<u8>>, Seq<u8>, u16, Seq<u8>)>,
    /// Whether a sync has to be redone, e.g., after an error.
    pub pending_sync: bool,
    /// The tip observed during the last complete sync.
    pub last_sync_hash: Option<Seq<u8>>,
    /// The tip that the running sync works towards.
    pub tip_hash: Option<Seq<u8>>,
    /// Where the running sync stands.
    pub phase: SyncPhase,
    /// The confirmed transactions awaiting the tip check, in chain order.
    pub held_confirmed: Seq<ConfirmedTx>,
    /// The watched outputs found spent, awaiting the tip check.
    pub held_spent: Seq<WatchedOutput>,
}

/// The ids of the given confirmed transactions.
pub open spec fn confirmed_ids(txs: Seq<ConfirmedTx>) -> Set<Seq<u8>> {
    Set::new(|id: Seq<u8>| exists|i: int| 0 <= i < txs.len() && #[trigger] transaction_id(txs[i].tx) == id)
}

/// The keys of the given outputs.
pub open spec fn output_keys(outputs: Seq<WatchedOutput>) -> Set<(Option<Seq<u8>>, Seq<u8>, u16, Seq<u8>)> {
    key_set(outputs, out_key())
}

impl TxSyncView {
    /// Whether transactions or outputs were registered since they were last processed.
    pub open spec fn has_registrations(self) -> bool {
        !self.queued_transactions.is_empty() || !self.queued_outputs.is_empty()
    }

    /// Whether the tip differs from the one of the last complete sync.
    pub open spec fn tip_is_new(self) -> bool {
        self.tip_hash != self.last_sync_hash
    }

    /// The registrations, all moved to the watched ones.
    pub open spec fn registrations_processed(self) -> Self {
        TxSyncView {
            queued_transactions: Set::empty(),
            watched_transactions: self.watched_transactions.union(self.queued_transactions),
            queued_outputs: Set::empty(),
            watched_outputs: self.watched_outputs.union(self.queued_outputs),
            ..self
        }
    }

    /// The state in the given phase, holding nothing.
    pub open spec fn in_phase(self, phase: SyncPhase) -> Self {
        TxSyncView { phase, held_confirmed: Seq::empty(), held_spent: Seq::empty(), ..self }
    }

    /// The state with a sync marked as pending.
    pub open spec fn with_pending(self) -> Self {
        TxSyncView { pending_sync: true, ..self }
    }

    /// The state working towards the given tip.
    pub open spec fn with_tip(self, tip: BlockHash) -> Self {
        TxSyncView { tip_hash: Some(block_hash_bytes(tip)), ..self }
    }
}

/// The top of the sync loop: the registrations are processed; the sync is over if nothing is
/// pending, nothing was registered and the tip is the one already synced to; otherwise it checks
/// the unconfirmed transactions first if the tip is new, or else finds the confirmed ones.
pub open spec fn sync_loop_top(before: TxSyncView, after: TxSyncView, action: SyncAction) -> bool {
    let processed = before.registrations_processed();
    if !before.pending_sync && !before.has_registrations() && !before.tip_is_new() {
        &&& after == processed.in_phase(SyncPhase::Idle)
        &&& action == SyncAction::Finished(Ok(()))
    } else if before.tip_is_new() {
        &&& after == processed.in_phase(SyncPhase::AwaitUnconfirmed)
        &&& action is SyncUnconfirmed
    } else {
        &&& after == processed.in_phase(SyncPhase::AwaitConfirmed)
        &&& action is GetConfirmed
    }
}

/// The event that a sync in the given phase waits for.
pub open spec fn expects_event(phase: SyncPhase, event: SyncEvent) -> bool {
    match event {
        SyncEvent::Start => phase == SyncPhase::Idle,
        SyncEvent::TipFetched(_) => phase == SyncPhase::AwaitTip,
        SyncEvent::UnconfirmedSynced(_) => phase == SyncPhase::AwaitUnconfirmed,
        SyncEvent::BestBlockSynced(_) => phase == SyncPhase::AwaitBestBlock,
        SyncEvent::ConfirmedFetched(_) => phase == SyncPhase::AwaitConfirmed,
        SyncEvent::TipChecked(_) => phase == SyncPhase::AwaitTipCheck,
        SyncEvent::Notified => phase == SyncPhase::AwaitNotified,
    }
}

/// One step of a sync: what the outcome `event` of the last request does to the state, and what
/// the sync asks for next.
pub open spec fn sync_step_spec(before: TxSyncView, event: SyncEvent, after: TxSyncView, action: SyncAction) -> bool {
    match event {
        SyncEvent::Start => {
            &&& after == before.in_phase(SyncPhase::AwaitTip)
            &&& action is FetchTip
        },
        SyncEvent::TipFetched(Err(e)) => {
            &&& after == before.in_phase(SyncPhase::Idle)
            &&& action == SyncAction::Finished(Err(e))
        },
        SyncEvent::TipFetched(Ok(tip)) => sync_loop_top(before.with_tip(tip), after, action),
        SyncEvent::UnconfirmedSynced(Err(e)) => {
            &&& after == before.with_pending().in_phase(SyncPhase::Idle)
            &&& action == SyncAction::Finished(Err(e))
        },
        SyncEvent::UnconfirmedSynced(Ok(())) => {
            &&& after == before.in_phase(SyncPhase::AwaitBestBlock)
            &&& action matches SyncAction::SyncBestBlock(tip) && before.tip_hash == Some(block_hash_bytes(tip))
        },
        SyncEvent::BestBlockSynced(Ok(())) => {
            &&& after == before.in_phase(SyncPhase::AwaitConfirmed)
            &&& action is GetConfirmed
        },
        SyncEvent::BestBlockSynced(Err(TxSyncError::Inconsistency)) => sync_loop_top(before.with_pending(), after, action),
        SyncEvent::BestBlockSynced(Err(e)) => {
            &&& after == before.with_pending().in_phase(SyncPhase::Idle)
            &&& action == SyncAction::Finished(Err(e))
        },
        SyncEvent::ConfirmedFetched(Ok((txs, spent))) => {
            &&& after == TxSyncView {
                phase: SyncPhase::AwaitTipCheck,
                held_confirmed: after.held_confirmed,
                held_spent: spent@,
                ..before
            }
            &&& confirmed_sorted(after.held_confirmed)
            &&& after.held_confirmed.to_multiset() == txs@.to_multiset()
            &&& action is CheckTip
        },
        SyncEvent::ConfirmedFetched(Err(TxSyncError::Inconsistency)) => sync_loop_top(before.with_pending(), after, action),
        SyncEvent::ConfirmedFetched(Err(e)) => {
            &&& after == before.with_pending().in_phase(SyncPhase::Idle)
            &&& action == SyncAction::Finished(Err(e))
        },
        SyncEvent::TipChecked(Err(e)) => {
            &&& after == before.in_phase(SyncPhase::Idle)
            &&& action == SyncAction::Finished(Err(e))
        },
        SyncEvent::TipChecked(Ok(tip)) => {
            if before.tip_hash != Some(block_hash_bytes(tip)) {
                sync_loop_top(before.with_tip(tip), after, action)
            } else {
                &&& after == (TxSyncView {
                    watched_transactions: before.watched_transactions.difference(confirmed_ids(before.held_confirmed)),
                    watched_outputs: before.watched_outputs.difference(output_keys(before.held_spent)),
                    last_sync_hash: before.tip_hash,
                    pending_sync: false,
                    ..before
                }).in_phase(SyncPhase::AwaitNotified)
                &&& action matches SyncAction::NotifyConfirmed(txs) && txs@ == before.held_confirmed
            }
        },
        SyncEvent::Notified => sync_loop_top(before, after, action),
    }
}

/// The bookkeeping of transaction sync: the registered transactions and outputs, and where a
/// running sync stands.
pub struct TxSyncState {
    queued_transactions: Vec<Txid>,
    watched_transactions: Vec<Txid>,
    queued_outputs: Vec<WatchedOutput>,
    watched_outputs: Vec<WatchedOutput>,
    pending_sync: bool,
    last_sync_hash: Option<BlockHash>,
    tip_hash: Option<BlockHash>,
    phase: SyncPhase,
    held_confirmed: Vec<ConfirmedTx>,
    held_spent: Vec<WatchedOutput>,
}

/// What tells transaction ids apart: their bytes.
pub open spec fn txid_key() -> spec_fn(Txid) -> Seq<u8> {
    |t: Txid| txid_bytes(t)
}

/// What tells watched outputs apart, as a function.
pub open spec fn out_key() -> spec_fn(WatchedOutput) -> (Option<Seq<u8>>, Seq<u8>, u16, Seq<u8>) {
    |o: WatchedOutput| output_key(o)
}

impl View for TxSyncState {
    type V = TxSyncView;

    closed spec fn view(&self) -> TxSyncView {
        TxSyncView {
            queued_transactions: key_set(self.queued_transactions@, txid_key()),
            watched_transactions: key_set(self.watched_transactions@, txid_key()),
            queued_outputs: key_set(self.queued_outputs@, out_key()),
            watched_outputs: key_set(self.watched_outputs@, out_key()),
            pending_sync: self.pending_sync,
            last_sync_hash: hash_key(self.last_sync_hash),
            tip_hash: hash_key(self.tip_hash),
            phase: self.phase,
            held_confirmed: self.held_confirmed@,
            held_spent: self.held_spent@,
        }
    }
}

/// Adds a transaction id unless it is there already.
fn insert_txid(v: &mut Vec<Txid>, txid: Txid)
    requires
        keys_distinct(old(v)@, txid_key()),
    ensures
        keys_distinct(final(v)@, txid_key()),
        key_set(final(v)@, txid_key()) == key_set(old(v)@, txid_key()).insert(txid_bytes(txid)),
{
    let mut i: usize = 0;
    while i < v.len()
        invariant
            i <= v.len(),
            v@ == old(v)@,
            keys_distinct(v@, txid_key()),
            forall|j: int| 0 <= j < i ==> txid_bytes(#[trigger] v@[j]) != txid_bytes(txid),
        decreases v.len() - i,
    {
        if txid_eq(&v[i], &txid) {
            proof {
                lemma_key_set_contains(v@, txid_key(), i as int);
                assert(key_set(v@, txid_key()).insert(txid_bytes(txid)) =~= key_set(v@, txid_key()));
            }
            return;
        }
        i += 1;
    }
    proof {
        lemma_key_set_push(v@, txid_key(), txid);
    }
    v.push(txid);
}

/// Removes a transaction id if it is there.
fn remove_txid(v: &mut Vec<Txid>, txid: &Txid)
    requires
        keys_distinct(old(v)@, txid_key()),
    ensures
        keys_distinct(final(v)@, txid_key()),
        key_set(final(v)@, txid_key()) == key_set(old(v)@, txid_key()).remove(txid_bytes(*txid)),
{
    let mut i: usize = 0;
    while i < v.len()
        invariant
            i <= v.len(),
            v@ == old(v)@,
            keys_distinct(v@, txid_key()),
            forall|j: int| 0 <= j < i ==> txid_bytes(#[trigger] v@[j]) != txid_bytes(*txid),
        decreases v.len() - i,
    {
        if txid_eq(&v[i], txid) {
            proof {
                lemma_key_set_remove(v@, txid_key(), i as int);
            }
            v.remove(i);
            return;
        }
        i += 1;
    }
    proof {
        assert(key_set(v@, txid_key()).remove(txid_bytes(*txid)) =~= key_set(v@, txid_key()));
    }
}

/// Adds an output unless it is there already.
fn insert_output(v: &mut Vec<WatchedOutput>, output: WatchedOutput)
    requires
        keys_distinct(old(v)@, out_key()),
    ensures
        keys_distinct(final(v)@, out_key()),
        key_set(final(v)@, out_key()) == key_set(old(v)@, out_key()).insert(output_key(output)),
{
    let mut i: usize = 0;
    while i < v.len()
        invariant
            i <= v.len(),
            v@ == old(v)@,
            keys_distinct(v@, out_key()),
            forall|j: int| 0 <= j < i ==> output_key(#[trigger] v@[j]) != output_key(output),
        decreases v.len() - i,
    {
        if watched_output_eq(&v[i], &output) {
            proof {
                lemma_key_set_contains(v@, out_key(), i as int);
                assert(key_set(v@, out_key()).insert(output_key(output)) =~= key_set(v@, out_key()));
            }
            return;
        }
        i += 1;
    }
    proof {
        lemma_key_set_push(v@, out_key(), output);
    }
    v.push(output);
}

/// Removes an output if it is there.
fn remove_output(v: &mut Vec<WatchedOutput>, output: &WatchedOutput)
    requires
        keys_distinct(old(v)@, out_key()),
    ensures
        keys_distinct(final(v)@, out_key()),
        key_set(final(v)@, out_key()) == key_set(old(v)@, out_key()).remove(output_key(*output)),
{
    let mut i: usize = 0;
    while i < v.len()
        invariant
            i <= v.len(),
            v@ == old(v)@,
            keys_distinct(v@, out_key()),
            forall|j: int| 0 <= j < i ==> output_key(#[trigger] v@[j]) != output_key(*output),
        decreases v.len() - i,
    {
        if watched_output_eq(&v[i], output) {
            proof {
                lemma_key_set_remove(v@, out_key(), i as int);
            }
            v.remove(i);
            return;
        }
        i += 1;
    }
    proof {
        assert(key_set(v@, out_key()).remove(output_key(*output)) =~= key_set(v@, out_key()));
    }
}

impl TxSyncState {
    /// The entries are consistent: nothing is listed twice, a running sync past the first tip
    /// query has a tip, and the confirmed transactions it holds are in chain order.
    pub closed spec fn wf(&self) -> bool {
        &&& keys_distinct(self.queued_transactions@, txid_key())
        &&& keys_distinct(self.watched_transactions@, txid_key())
        &&& keys_distinct(self.queued_outputs@, out_key())
        &&& keys_distinct(self.watched_outputs@, out_key())
        &&& (self.phase != SyncPhase::Idle && self.phase != SyncPhase::AwaitTip ==> self.tip_hash is Some)
        &&& confirmed_sorted(self.held_confirmed@)
    }

    /// A state with nothing registered and no sync done yet.
    pub fn new() -> (state: Self)
        ensures
            state.wf(),
            state@ == (TxSyncView {
                queued_transactions: Set::empty(),
                watched_transactions: Set::empty(),
                queued_outputs: Set::empty(),
                watched_outputs: Set::empty(),
                pending_sync: false,
                last_sync_hash: None,
                tip_hash: None,
                phase: SyncPhase::Idle,
                held_confirmed: Seq::empty(),
                held_spent: Seq::empty(),
            }),
    {
        let state = TxSyncState {
            queued_transactions: Vec::new(),
            watched_transactions: Vec::new(),
            queued_outputs: Vec::new(),
            watched_outputs: Vec::new(),
            pending_sync: false,
            last_sync_hash: None,
            tip_hash: None,
            phase: SyncPhase::Idle,
            held_confirmed: Vec::new(),
            held_spent: Vec::new(),
        };
        proof {
            lemma_key_set_empty(state.queued_transactions@, txid_key());
            lemma_key_set_empty(state.watched_transactions@, txid_key());
            lemma_key_set_empty(state.queued_outputs@, out_key());
            lemma_key_set_empty(state.watched_outputs@, out_key());
            assert(state@ =~= (TxSyncView {
                queued_transactions: Set::empty(),
                watched_transactions: Set::empty(),
                queued_outputs: Set::empty(),
                watched_outputs: Set::empty(),
                pending_sync: false,
                last_sync_hash: None,
                tip_hash: None,
                phase: SyncPhase::Idle,
                held_confirmed: Seq::empty(),
                held_spent: Seq::empty(),
            }));
        }
        state
    }

    /// Registers a transaction to be watched.
    pub fn register_tx(&mut self, txid: &Txid)
        requires
            old(self).wf(),
        ensures
            final(self).wf(),
            final(self)@ == (TxSyncView {
                queued_transactions: old(self)@.queued_transactions.insert(txid_bytes(*txid)),
                ..old(self)@
            }),
    {
        insert_txid(&mut self.queued_transactions, *txid);
        proof {
            assert(self@ =~= (TxSyncView {
                queued_transactions: old(self)@.queued_transactions.insert(txid_bytes(*txid)),
                ..old(self)@
            }));
        }
    }

    /// Registers an output to be watched for spends.
    pub fn register_output(&mut self, output: WatchedOutput)
        requires
            old(self).wf(),
        ensures
            final(self).wf(),
            final(self)@ == (TxSyncView {
                queued_outputs: old(self)@.queued_outputs.insert(output_key(output)),
                ..old(self)@
            }),
    {
        let ghost key = output_key(output);
        insert_output(&mut self.queued_outputs, output);
        proof {
            assert(self@ =~= (TxSyncView { queued_outputs: old(self)@.queued_outputs.insert(key), ..old(self)@ }));
        }
    }

    /// Records that a transaction was found unconfirmed, so that it is watched again.
    pub fn mark_unconfirmed(&mut self, txid: &Txid)
        requires
            old(self).wf(),
        ensures
            final(self).wf(),
            final(self)@ == (TxSyncView {
                watched_transactions: old(self)@.watched_transactions.insert(txid_bytes(*txid)),
                ..old(self)@
            }),
    {
        insert_txid(&mut self.watched_transactions, *txid);
        proof {
            assert(self@ =~= (TxSyncView {
                watched_transactions: old(self)@.watched_transactions.insert(txid_bytes(*txid)),
                ..old(self)@
            }));
        }
    }

    /// The transactions currently watched.
    pub fn watched_transactions(&self) -> (txids: &Vec<Txid>)
        ensures
            key_set(txids@, txid_key()) == self@.watched_transactions,
    {
        &self.watched_transactions
    }

    /// The outputs currently watched.
    pub fn watched_outputs(&self) -> (outputs: &Vec<WatchedOutput>)
        ensures
            output_keys(outputs@) == self@.watched_outputs,
    {
        &self.watched_outputs
    }

    /// Whether a sync has to be redone.
    pub fn pending_sync(&self) -> (pending: bool)
        ensures
            pending == self@.pending_sync,
    {
        self.pending_sync
    }

    /// Processes the transaction and output queues: everything queued becomes watched. Returns
    /// whether anything had been registered.
    pub fn process_queues(&mut self) -> (had_registrations: bool)
        requires
            old(self).wf(),
        ensures
            final(self).wf(),
            had_registrations == old(self)@.has_registrations(),
            final(self)@ == old(self)@.registrations_processed(),
    {
        let ghost old_view = self@;
        proof {
            lemma_key_set_is_empty(self.queued_transactions@, txid_key());
            lemma_key_set_is_empty(self.queued_outputs@, out_key());
        }
        let had_registrations = self.queued_transactions.len() > 0 || self.queued_outputs.len() > 0;
        while self.queued_transactions.len() > 0
            invariant
                self.wf(),
                key_set(self.watched_transactions@, txid_key()).union(key_set(self.queued_transactions@, txid_key()))
                    == old_view.watched_transactions.union(old_view.queued_transactions),
                self@.queued_outputs == old_view.queued_outputs,
                self@.watched_outputs == old_view.watched_outputs,
                self@ == (TxSyncView {
                    queued_transactions: self@.queued_transactions,
                    watched_transactions: self@.watched_transactions,
                    ..old_view
                }),
            decreases self.queued_transactions.len(),
        {
            let ghost q = self.queued_transactions@;
            let ghost w = key_set(self.watched_transactions@, txid_key());
            proof {
                lemma_key_set_drop_last(q, txid_key());
            }
            let txid = self.queued_transactions.pop().unwrap();
            insert_txid(&mut self.watched_transactions, txid);
            proof {
                assert(self.queued_transactions@ =~= q.drop_last());
                assert(key_set(self.watched_transactions@, txid_key()).union(key_set(self.queued_transactions@, txid_key()))
                    =~= w.union(key_set(q, txid_key())));
                assert(self@ =~= (TxSyncView {
                    queued_transactions: self@.queued_transactions,
                    watched_transactions: self@.watched_transactions,
                    ..old_view
                }));
            }
        }
        while self.queued_outputs.len() > 0
            invariant
                self.wf(),
                key_set(self.watched_outputs@, out_key()).union(key_set(self.queued_outputs@, out_key()))
                    == old_view.watched_outputs.union(old_view.queued_outputs),
                key_set(self.queued_transactions@, txid_key()) == Set::<Seq<u8>>::empty(),
                key_set(self.watched_transactions@, txid_key()) == old_view.watched_transactions.union(old_view.queued_transactions),
                self@ == (TxSyncView {
                    queued_transactions: self@.queued_transactions,
                    watched_transactions: self@.watched_transactions,
                    queued_outputs: self@.queued_outputs,
                    watched_outputs: self@.watched_outputs,
                    ..old_view
                }),
            decreases self.queued_outputs.len(),
        {
            let ghost q = self.queued_outputs@;
            let ghost w = key_set(self.watched_outputs@, out_key());
            proof {
                lemma_key_set_drop_last(q, out_key());
            }
            let output = self.queued_outputs.pop().unwrap();
            insert_output(&mut self.watched_outputs, output);
            proof {
                assert(self.queued_outputs@ =~= q.drop_last());
                assert(key_set(self.watched_outputs@, out_key()).union(key_set(self.queued_outputs@, out_key()))
                    =~= w.union(key_set(q, out_key())));
                assert(self@ =~= (TxSyncView {
                    queued_transactions: self@.queued_transactions,
                    watched_transactions: self@.watched_transactions,
                    queued_outputs: self@.queued_outputs,
                    watched_outputs: self@.watched_outputs,
                    ..old_view
                }));
            }
        }
        proof {
            lemma_key_set_empty(self.queued_outputs@, out_key());
            assert(key_set(self.watched_outputs@, out_key()).union(Set::empty()) =~= key_set(self.watched_outputs@, out_key()));
            assert(key_set(self.watched_transactions@, txid_key()).union(Set::empty()) =~= key_set(self.watched_transactions@, txid_key()));
            assert(self@ =~= old_view.registrations_processed());
        }
        had_registrations
    }

    /// The top of the sync loop.
    fn loop_top(&mut self) -> (action: SyncAction)
        requires
            old(self).wf(),
            old(self).tip_hash is Some,
        ensures
            final(self).wf(),
            final(self).tip_hash is Some,
            sync_loop_top(old(self)@, final(self)@, action),
    {
        let pending = self.pending_sync;
        let had_registrations = self.process_queues();
        let tip_is_new = match (&self.tip_hash, &self.last_sync_hash) {
            (Some(tip), Some(last)) => !block_hash_eq(tip, last),
            _ => true,
        };
        self.held_confirmed = Vec::new();
        self.held_spent = Vec::new();
        if !pending && !had_registrations && !tip_is_new {
            self.phase = SyncPhase::Idle;
            proof {
                assert(self@ =~= old(self)@.registrations_processed().in_phase(SyncPhase::Idle));
            }
            SyncAction::Finished(Ok(()))
        } else if tip_is_new {
            self.phase = SyncPhase::AwaitUnconfirmed;
            proof {
                assert(self@ =~= old(self)@.registrations_processed().in_phase(SyncPhase::AwaitUnconfirmed));
            }
            SyncAction::SyncUnconfirmed
        } else {
            self.phase = SyncPhase::AwaitConfirmed;
            proof {
                assert(self@ =~= old(self)@.registrations_processed().in_phase(SyncPhase::AwaitConfirmed));
            }
            SyncAction::GetConfirmed
        }
    }

    /// Ends the running sync with an error, marking a sync as pending when `mark_pending`.
    fn fail(&mut self, error: TxSyncError, mark_pending: bool) -> (action: SyncAction)
        requires
            old(self).wf(),
        ensures
            final(self).wf(),
            mark_pending ==> final(self)@ == old(self)@.with_pending().in_phase(SyncPhase::Idle),
            !mark_pending ==> final(self)@ == old(self)@.in_phase(SyncPhase::Idle),
            action == SyncAction::Finished(Err(error)),
    {
        if mark_pending {
            self.pending_sync = true;
        }
        self.phase = SyncPhase::Idle;
        self.held_confirmed = Vec::new();
        self.held_spent = Vec::new();
        proof {
            if mark_pending {
                assert(self@ =~= old(self)@.with_pending().in_phase(SyncPhase::Idle));
            } else {
                assert(self@ =~= old(self)@.in_phase(SyncPhase::Idle));
            }
        }
        SyncAction::Finished(Err(error))
    }

    /// Applies the held confirmations once the tip is known not to have moved: the confirmed
    /// transactions and the spent outputs are no longer watched, and the tip is synced to.
    fn apply_confirmed(&mut self) -> (action: SyncAction)
        requires
            old(self).wf(),
            old(self).phase == SyncPhase::AwaitTipCheck,
        ensures
            final(self).wf(),
            final(self)@ == (TxSyncView {
                watched_transactions: old(self)@.watched_transactions.difference(confirmed_ids(old(self)@.held_confirmed)),
                watched_outputs: old(self)@.watched_outputs.difference(output_keys(old(self)@.held_spent)),
                last_sync_hash: old(self)@.tip_hash,
                pending_sync: false,
                ..old(self)@
            }).in_phase(SyncPhase::AwaitNotified),
            action matches SyncAction::NotifyConfirmed(txs) && txs@ == old(self)@.held_confirmed,
    {
        let ghost before = self@;
        proof {
            assert(before.held_confirmed.subrange(0, 0) =~= Seq::<ConfirmedTx>::empty());
            assert(confirmed_ids(Seq::<ConfirmedTx>::empty()) =~= Set::empty());
            assert(before.watched_transactions.difference(Set::empty()) =~= before.watched_transactions);
        }
        let mut i: usize = 0;
        while i < self.held_confirmed.len()
            invariant
                self.wf(),
                i <= self.held_confirmed@.len(),
                self@ == (TxSyncView { watched_transactions: self@.watched_transactions, ..before }),
                self@.watched_transactions == before.watched_transactions.difference(
                    confirmed_ids(before.held_confirmed.subrange(0, i as int))),
            decreases self.held_confirmed.len() - i,
        {
            let txid = compute_txid(&self.held_confirmed[i].tx);
            let ghost w = self@.watched_transactions;
            remove_txid(&mut self.watched_transactions, &txid);
            proof {
                let h = before.held_confirmed;
                assert(confirmed_ids(h.subrange(0, i + 1)) =~= confirmed_ids(h.subrange(0, i as int)).insert(transaction_id(h[i as int].tx))) by {
                    assert forall|id: Seq<u8>| confirmed_ids(h.subrange(0, i + 1)).contains(id)
                        <==> confirmed_ids(h.subrange(0, i as int)).insert(transaction_id(h[i as int].tx)).contains(id) by {
                        if confirmed_ids(h.subrange(0, i + 1)).contains(id) {
                            let j = choose|j: int| 0 <= j < i + 1 && #[trigger] transaction_id(h.subrange(0, i + 1)[j].tx) == id;
                            if j < i {
                                assert(h.subrange(0, i as int)[j] == h.subrange(0, i + 1)[j]);
                                assert(transaction_id(h.subrange(0, i as int)[j].tx) == id);
                            } else {
                                assert(h.subrange(0, i + 1)[j] == h[i as int]);
                            }
                        }
                        if confirmed_ids(h.subrange(0, i as int)).contains(id) {
                            let j = choose|j: int| 0 <= j < i && #[trigger] transaction_id(h.subrange(0, i as int)[j].tx) == id;
                            assert(h.subrange(0, i as int)[j] == h.subrange(0, i + 1)[j]);
                            assert(transaction_id(h.subrange(0, i + 1)[j].tx) == id);
                        }
                        if id == transaction_id(h[i as int].tx) {
                            assert(h.subrange(0, i + 1)[i as int] == h[i as int]);
                            assert(transaction_id(h.subrange(0, i + 1)[i as int].tx) == id);
                        }
                    }
                }
                assert(self@.watched_transactions =~= before.watched_transactions.difference(
                    confirmed_ids(h.subrange(0, i + 1))));
                assert(self@ =~= (TxSyncView { watched_transactions: self@.watched_transactions, ..before }));
            }
            i += 1;
        }
        proof {
            assert(before.held_confirmed.subrange(0, before.held_confirmed.len() as int) =~= before.held_confirmed);
            assert(before.held_spent.subrange(0, 0) =~= Seq::<WatchedOutput>::empty());
            assert(output_keys(Seq::<WatchedOutput>::empty()) =~= Set::empty());
            assert(before.watched_outputs.difference(Set::empty()) =~= before.watched_outputs);
        }
        let mut k: usize = 0;
        while k < self.held_spent.len()
            invariant
                self.wf(),
                k <= self.held_spent@.len(),
                self@ == (TxSyncView {
                    watched_transactions: self@.watched_transactions,
                    watched_outputs: self@.watched_outputs,
                    ..before
                }),
                self@.watched_transactions == before.watched_transactions.difference(confirmed_ids(before.held_confirmed)),
                self@.watched_outputs == before.watched_outputs.difference(
                    output_keys(before.held_spent.subrange(0, k as int))),
            decreases self.held_spent.len() - k,
        {
            let ghost s = before.held_spent;
            remove_output(&mut self.watched_outputs, &self.held_spent[k]);
            proof {
                assert(output_keys(s.subrange(0, k + 1)) =~= output_keys(s.subrange(0, k as int)).insert(output_key(s[k as int]))) by {
                    assert forall|o| output_keys(s.subrange(0, k + 1)).contains(o)
                        <==> output_keys(s.subrange(0, k as int)).insert(output_key(s[k as int])).contains(o) by {
                        if output_keys(s.subrange(0, k + 1)).contains(o) {
                            let j = choose|j: int| 0 <= j < k + 1 && #[trigger] (out_key())(s.subrange(0, k + 1)[j]) == o;
                            if j < k {
                                assert(s.subrange(0, k as int)[j] == s.subrange(0, k + 1)[j]);
                            }
                        }
                        if output_keys(s.subrange(0, k as int)).contains(o) {
                            let j = choose|j: int| 0 <= j < k && #[trigger] (out_key())(s.subrange(0, k as int)[j]) == o;
                            assert(s.subrange(0, k as int)[j] == s.subrange(0, k + 1)[j]);
                        }
                        if o == output_key(s[k as int]) {
                            assert((out_key())(s.subrange(0, k + 1)[k as int]) == o);
                        }
                    }
                }
                assert(self@.watched_outputs =~= before.watched_outputs.difference(output_keys(s.subrange(0, k + 1))));
                assert(self@ =~= (TxSyncView {
                    watched_transactions: self@.watched_transactions,
                    watched_outputs: self@.watched_outputs,
                    ..before
                }));
            }
            k += 1;
        }
        proof {
            assert(before.held_confirmed.subrange(0, before.held_confirmed.len() as int) =~= before.held_confirmed);
            assert(before.held_spent.subrange(0, before.held_spent.len() as int) =~= before.held_spent);
        }
        let mut txs: Vec<ConfirmedTx> = Vec::new();
        std::mem::swap(&mut txs, &mut self.held_confirmed);
        self.held_spent = Vec::new();
        self.last_sync_hash = self.tip_hash;
        self.pending_sync = false;
        self.phase = SyncPhase::AwaitNotified;
        proof {
            assert(self@ =~= (TxSyncView {
                watched_transactions: before.watched_transactions.difference(confirmed_ids(before.held_confirmed)),
                watched_outputs: before.watched_outputs.difference(output_keys(before.held_spent)),
                last_sync_hash: before.tip_hash,
                pending_sync: false,
                ..before
            }).in_phase(SyncPhase::AwaitNotified));
        }
        SyncAction::NotifyConfirmed(txs)
    }

    /// Takes the outcome of what the running sync asked for (or [`SyncEvent::Start`] to begin
    /// one) and says what to do next. Confirmed transactions are handed out in chain order: by
    /// block height, then by position in the block.
    pub fn sync_step(&mut self, event: SyncEvent) -> (action: SyncAction)
        requires
            old(self).wf(),
            expects_event(old(self)@.phase, event),
        ensures
            final(self).wf(),
            sync_step_spec(old(self)@, event, final(self)@, action),
            action matches SyncAction::NotifyConfirmed(txs) ==> confirmed_sorted(txs@),
    {
        match event {
            SyncEvent::Start => {
                self.phase = SyncPhase::AwaitTip;
                self.held_confirmed = Vec::new();
                self.held_spent = Vec::new();
                proof {
                    assert(self@ =~= old(self)@.in_phase(SyncPhase::AwaitTip));
                }
                SyncAction::FetchTip
            },
            SyncEvent::TipFetched(Err(e)) => self.fail(e, false),
            SyncEvent::TipFetched(Ok(tip)) => {
                self.tip_hash = Some(tip);
                proof {
                    assert(self@ =~= old(self)@.with_tip(tip));
                }
                self.loop_top()
            },
            SyncEvent::UnconfirmedSynced(Err(e)) => self.fail(e, true),
            SyncEvent::UnconfirmedSynced(Ok(())) => {
                let tip = match self.tip_hash {
                    Some(tip) => tip,
                    None => {
                        proof {
                            assert(false);
                        }
                        return SyncAction::FetchTip;
                    },
                };
                self.phase = SyncPhase::AwaitBestBlock;
                self.held_confirmed = Vec::new();
                self.held_spent = Vec::new();
                proof {
                    assert(self@ =~= old(self)@.in_phase(SyncPhase::AwaitBestBlock));
                }
                SyncAction::SyncBestBlock(tip)
            },
            SyncEvent::BestBlockSynced(Ok(())) => {
                self.phase = SyncPhase::AwaitConfirmed;
                self.held_confirmed = Vec::new();
                self.held_spent = Vec::new();
                proof {
                    assert(self@ =~= old(self)@.in_phase(SyncPhase::AwaitConfirmed));
                }
                SyncAction::GetConfirmed
            },
            SyncEvent::BestBlockSynced(Err(e)) => {
                if e == TxSyncError::Inconsistency {
                    self.pending_sync = true;
                    proof {
                        assert(self@ =~= old(self)@.with_pending());
                    }
                    self.loop_top()
                } else {
                    self.fail(e, true)
                }
            },
            SyncEvent::ConfirmedFetched(Ok((txs, spent))) => {
                self.held_confirmed = sort_confirmed_transactions(txs);
                self.held_spent = spent;
                self.phase = SyncPhase::AwaitTipCheck;
                SyncAction::CheckTip
            },
            SyncEvent::ConfirmedFetched(Err(e)) => {
                if e == TxSyncError::Inconsistency {
                    self.pending_sync = true;
                    proof {
                        assert(self@ =~= old(self)@.with_pending());
                    }
                    self.loop_top()
                } else {
                    self.fail(e, true)
                }
            },
            SyncEvent::TipChecked(Err(e)) => self.fail(e, false),
            SyncEvent::TipChecked(Ok(tip)) => {
                let unchanged = match &self.tip_hash {
                    Some(current) => block_hash_eq(current, &tip),
                    None => false,
                };
                if !unchanged {
                    self.tip_hash = Some(tip);
                    proof {
                        assert(self@ =~= old(self)@.with_tip(tip));
                    }
                    self.loop_top()
                } else {
                    self.apply_confirmed()
                }
            },
            SyncEvent::Notified => self.loop_top(),
        }
    }
}

/// The confirmed transactions among the outcomes of looking transactions up, in order.
pub open spec fn found_confirmed(results: Seq<Option<ConfirmedTx>>) -> Seq<ConfirmedTx>
    decreases results.len(),
{
    if results.len() == 0 {
        seq![]
    } else {
        let rest = found_confirmed(results.drop_last());
        match results.last() {
            Some(tx) => rest.push(tx),
            None => rest,
        }
    }
}

/// The watched outputs, in order, for which a confirmed spending transaction was found.
pub open spec fn found_spent(spends: Seq<(WatchedOutput, Option<ConfirmedTx>)>) -> Seq<WatchedOutput>
    decreases spends.len(),
{
    if spends.len() == 0 {
        seq![]
    } else {
        let rest = found_spent(spends.drop_last());
        if spends.last().1 is Some {
            rest.push(spends.last().0)
        } else {
            rest
        }
    }
}

/// The confirmed spending transactions found for watched outputs, in order.
pub open spec fn found_spends(spends: Seq<(WatchedOutput, Option<ConfirmedTx>)>) -> Seq<ConfirmedTx> {
    found_confirmed(spends.map_values(|s: (WatchedOutput, Option<ConfirmedTx>)| s.1))
}

/// The confirmed transactions among lookup outcomes are the outcomes that found one, in order.
pub proof fn lemma_found_confirmed_are_the_found(results: Seq<Option<ConfirmedTx>>)
    ensures
        found_confirmed(results) == results.filter(|r: Option<ConfirmedTx>| r is Some).map_values(
            |r: Option<ConfirmedTx>| r.unwrap(),
        ),
    decreases results.len(),
{
    reveal(Seq::filter);
    if results.len() > 0 {
        lemma_found_confirmed_are_the_found(results.drop_last());
        let p = |r: Option<ConfirmedTx>| r is Some;
        let u = |r: Option<ConfirmedTx>| r.unwrap();
        let rest = results.drop_last().filter(p);
        if results.last() is Some {
            assert(rest.push(results.last()).map_values(u) =~= rest.map_values(u).push(results.last().unwrap()));
        }
    }
}

/// The outputs that count as spent are exactly, in order, those whose lookup found a confirmed
/// spending transaction, and the confirmed spends are exactly those found, in the same order:
/// each spent output is paired with its own spending transaction.
pub proof fn lemma_spent_outputs_match_found_spends(spends: Seq<(WatchedOutput, Option<ConfirmedTx>)>)
    ensures
        found_spent(spends) == spends.filter(|s: (WatchedOutput, Option<ConfirmedTx>)| s.1 is Some).map_values(
            |s: (WatchedOutput, Option<ConfirmedTx>)| s.0,
        ),
        found_spends(spends) == spends.filter(|s: (WatchedOutput, Option<ConfirmedTx>)| s.1 is Some).map_values(
            |s: (WatchedOutput, Option<ConfirmedTx>)| s.1.unwrap(),
        ),
        found_spent(spends).len() == found_spends(spends).len(),
    decreases spends.len(),
{
    reveal(Seq::filter);
    let p = |s: (WatchedOutput, Option<ConfirmedTx>)| s.1 is Some;
    let o = |s: (WatchedOutput, Option<ConfirmedTx>)| s.0;
    let t = |s: (WatchedOutput, Option<ConfirmedTx>)| s.1.unwrap();
    let f = |s: (WatchedOutput, Option<ConfirmedTx>)| s.1;
    if spends.len() > 0 {
        lemma_spent_outputs_match_found_spends(spends.drop_last());
        assert(spends.map_values(f).drop_last() =~= spends.drop_last().map_values(f));
        assert(spends.map_values(f).last() == spends.last().1);
        let rest = spends.drop_last().filter(p);
        if spends.last().1 is Some {
            assert(rest.push(spends.last()).map_values(o) =~= rest.map_values(o).push(spends.last().0));
            assert(rest.push(spends.last()).map_values(t) =~= rest.map_values(t).push(spends.last().1.unwrap()));
        }
    } else {
        assert(spends.map_values(f) =~= Seq::<Option<ConfirmedTx>>::empty());
        assert(spends.filter(p).map_values(o) =~= Seq::<WatchedOutput>::empty());
        assert(spends.filter(p).map_values(t) =~= Seq::<ConfirmedTx>::empty());
    }
}

/// Gathers what a pass over the watched transactions and outputs found: the confirmed watched
/// transactions, then the confirmed spends of watched outputs, each in the order they were
/// looked up; and the outputs that count as spent, exactly those whose spending transaction
/// was found confirmed.
pub fn collect_confirmed(
    tx_results: Vec<Option<ConfirmedTx>>,
    spend_results: Vec<(WatchedOutput, Option<ConfirmedTx>)>,
) -> (collected: (Vec<ConfirmedTx>, Vec<WatchedOutput>))
    ensures
        collected.0@ == found_confirmed(tx_results@) + found_spends(spend_results@),
        collected.1@ == found_spent(spend_results@),
        collected.0@ == tx_results@.filter(|r: Option<ConfirmedTx>| r is Some).map_values(|r: Option<ConfirmedTx>| r.unwrap())
            + spend_results@.filter(|s: (WatchedOutput, Option<ConfirmedTx>)| s.1 is Some).map_values(
            |s: (WatchedOutput, Option<ConfirmedTx>)| s.1.unwrap(),
        ),
        collected.1@ == spend_results@.filter(|s: (WatchedOutput, Option<ConfirmedTx>)| s.1 is Some).map_values(
            |s: (WatchedOutput, Option<ConfirmedTx>)| s.0,
        ),
{
    let ghost txs0 = tx_results@;
    let ghost spends0 = spend_results@;
    let mut tx_results = tx_results;
    let mut spend_results = spend_results;
    let mut confirmed: Vec<ConfirmedTx> = Vec::new();
    let mut i: usize = 0;
    let n = tx_results.len();
    while tx_results.len() > 0
        invariant
            n == txs0.len(),
            i + tx_results@.len() == n,
            tx_results@ == txs0.subrange(i as int, n as int),
            confirmed@ == found_confirmed(txs0.subrange(0, i as int)),
        decreases tx_results.len(),
    {
        let r = tx_results.remove(0);
        proof {
            assert(txs0.subrange(0, i + 1).drop_last() =~= txs0.subrange(0, i as int));
            assert(txs0.subrange(0, i + 1).last() == r);
        }
        match r {
            Some(tx) => confirmed.push(tx),
            None => {},
        }
        i += 1;
        proof {
            assert(tx_results@ =~= txs0.subrange(i as int, n as int));
        }
    }
    proof {
        assert(txs0.subrange(0, n as int) =~= txs0);
    }
    let ghost from_txs = confirmed@;
    let mut spends: Vec<ConfirmedTx> = Vec::new();
    let mut spent: Vec<WatchedOutput> = Vec::new();
    let m = spend_results.len();
    let mut j: usize = 0;
    while spend_results.len() > 0
        invariant
            m == spends0.len(),
            j + spend_results@.len() == m,
            spend_results@ == spends0.subrange(j as int, m as int),
            spends@ == found_spends(spends0.subrange(0, j as int)),
            spent@ == found_spent(spends0.subrange(0, j as int)),
        decreases spend_results.len(),
    {
        let (output, r) = spend_results.remove(0);
        proof {
            let pre = spends0.subrange(0, j + 1);
            assert(pre.drop_last() =~= spends0.subrange(0, j as int));
            assert(pre.last() == (output, r));
            let f = |s: (WatchedOutput, Option<ConfirmedTx>)| s.1;
            assert(pre.map_values(f).drop_last() =~= spends0.subrange(0, j as int).map_values(f));
            assert(pre.map_values(f).last() == r);
        }
        match r {
            Some(tx) => {
                spends.push(tx);
                spent.push(output);
            },
            None => {},
        }
        j += 1;
        proof {
            assert(spend_results@ =~= spends0.subrange(j as int, m as int));
        }
    }
    proof {
        assert(spends0.subrange(0, m as int) =~= spends0);
    }
    confirmed.append(&mut spends);
    proof {
        lemma_found_confirmed_are_the_found(txs0);
        lemma_spent_outputs_match_found_spends(spends0);
    }
    (confirmed, spent)
}

/// Where a merkle proof places a transaction: nowhere if the proof's block is not the one the
/// transaction was expected in (an inconsistency) or if the proof matches nothing (a failure);
/// otherwise at the first matched index.
pub open spec fn confirmation_position(
    expected_block_hash: Option<Seq<u8>>,
    block_hash: Seq<u8>,
    match_indexes: Seq<u32>,
) -> Result<usize, TxSyncError> {
    if expected_block_hash is Some && expected_block_hash.unwrap() != block_hash {
        Err(TxSyncError::Inconsistency)
    } else if match_indexes.len() == 0 {
        Err(TxSyncError::Failed)
    } else {
        Ok(match_indexes[0] as usize)
    }
}

/// Locates a transaction in the block that a merkle proof shows confirms it: the block must be
/// the one it was expected in, if any, and the proof must match the transaction, whose position
/// is then the first matched index.
pub fn locate_confirmation(
    expected_block_hash: &Option<BlockHash>,
    block_hash: &BlockHash,
    match_indexes: &Vec<u32>,
) -> (pos: Result<usize, TxSyncError>)
    ensures
        pos == confirmation_position(hash_key(*expected_block_hash), block_hash_bytes(*block_hash), match_indexes@),
{
    if let Some(expected) = expected_block_hash {
        if !block_hash_eq(expected, block_hash) {
            return Err(TxSyncError::Inconsistency);
        }
    }
    if match_indexes.len() == 0 {
        return Err(TxSyncError::Failed);
    }
    Ok(match_indexes[0] as usize)
}

/// Locates a transaction in the block of a merkle proof, given as the block's header and the
/// proof's partial merkle tree: the block's hash, and the transaction's position in the block.
pub fn locate_in_merkle_proof(
    expected_block_hash: &Option<BlockHash>,
    header: &bitcoin::block::Header,
    tree: &bitcoin::merkle_tree::PartialMerkleTree,
) -> (located: Result<(BlockHash, usize), TxSyncError>)
    ensures
        match located {
            Ok((block_hash, pos)) => {
                &&& block_hash_bytes(block_hash) == header_hash(*header)
                &&& confirmation_position(hash_key(*expected_block_hash), header_hash(*header), merkle_match_indexes(*tree))
                    == Ok::<usize, TxSyncError>(pos)
            },
            Err(e) => confirmation_position(hash_key(*expected_block_hash), header_hash(*header), merkle_match_indexes(*tree))
                == Err::<usize, TxSyncError>(e),
        },
{
    let block_hash = header_block_hash(header);
    let match_indexes = tree_match_indexes(tree);
    let pos = locate_confirmation(expected_block_hash, &block_hash, &match_indexes)?;
    Ok((block_hash, pos))
}

/// What a new tip's block status tells the `Confirm` implementations: a tip outside the best
/// chain is an inconsistency; a tip in it is announced at its height, if the server gave one.
pub fn best_block_update(in_best_chain: bool, height: Option<u32>) -> (update: Result<Option<u32>, TxSyncError>)
    ensures
        update == (if in_best_chain {
            Ok::<Option<u32>, TxSyncError>(height)
        } else {
            Err::<Option<u32>, TxSyncError>(TxSyncError::Inconsistency)
        }),
{
    if in_best_chain {
        Ok(height)
    } else {
        Err(TxSyncError::Inconsistency)
    }
}

/// The height of the block that confirms a transaction, as the server gave it; a block without
/// a height is no longer confirmed, an inconsistency.
pub fn confirmation_height(block_height: Option<u32>) -> (height: Result<u32, TxSyncError>)
    ensures
        height == (match block_height {
            Some(h) => Ok::<u32, TxSyncError>(h),
            None => Err::<u32, TxSyncError>(TxSyncError::Inconsistency),
        }),
{
    match block_height {
        Some(h) => Ok(h),
        None => Err(TxSyncError::Inconsistency),
    }
}

/// A sync reports success only when it is synced: no sync is pending, every registration has
/// been processed, and the tip it worked towards is the tip of its last complete pass.
pub proof fn lemma_sync_success_means_synced(before: TxSyncView, event: SyncEvent, after: TxSyncView, action: SyncAction)
    requires
        sync_step_spec(before, event, after, action),
        action == SyncAction::Finished(Ok(())),
    ensures
        !after.pending_sync,
        after.last_sync_hash == after.tip_hash,
        after.queued_transactions.is_empty(),
        after.queued_outputs.is_empty(),
        after.phase == SyncPhase::Idle,
{
}

/// A sync that fails after its first tip query, other than on the final tip check, leaves a
/// sync pending, so that the next sync starts over.
pub proof fn lemma_sync_failure_leaves_pending(before: TxSyncView, event: SyncEvent, after: TxSyncView, error: TxSyncError)
    requires
        sync_step_spec(before, event, after, SyncAction::Finished(Err(error))),
        !(event is TipFetched),
        !(event is TipChecked),
    ensures
        after.pending_sync,
        after.phase == SyncPhase::Idle,
{
}

/// A failure ends the sync with that very error, except an inconsistency found while updating
/// the best block or fetching confirmations, which restarts the pass at once. A failure after
/// the first tip query leaves a sync pending; a failed tip query leaves that flag as it was.
pub proof fn lemma_errors_end_the_sync(before: TxSyncView, event: SyncEvent, after: TxSyncView, action: SyncAction)
    requires
        sync_step_spec(before, event, after, action),
    ensures
        event matches SyncEvent::UnconfirmedSynced(Err(e)) ==> {
            &&& action == SyncAction::Finished(Err(e))
            &&& after.pending_sync
            &&& after.phase == SyncPhase::Idle
        },
        event matches SyncEvent::BestBlockSynced(Err(e)) ==> (e != TxSyncError::Inconsistency ==> {
            &&& action == SyncAction::Finished(Err(e))
            &&& after.pending_sync
            &&& after.phase == SyncPhase::Idle
        }),
        event matches SyncEvent::ConfirmedFetched(Err(e)) ==> (e != TxSyncError::Inconsistency ==> {
            &&& action == SyncAction::Finished(Err(e))
            &&& after.pending_sync
            &&& after.phase == SyncPhase::Idle
        }),
        event matches SyncEvent::TipFetched(Err(e)) ==> {
            &&& action == SyncAction::Finished(Err(e))
            &&& after.pending_sync == before.pending_sync
            &&& after.phase == SyncPhase::Idle
        },
        event matches SyncEvent::TipChecked(Err(e)) ==> {
            &&& action == SyncAction::Finished(Err(e))
            &&& after.pending_sync == before.pending_sync
            &&& after.phase == SyncPhase::Idle
        },
        (event == SyncEvent::BestBlockSynced(Err(TxSyncError::Inconsistency)) || event == SyncEvent::ConfirmedFetched(
            Err(TxSyncError::Inconsistency),
        )) ==> {
            &&& after.pending_sync
            &&& (action is SyncUnconfirmed || action is GetConfirmed)
        },
{
}

/// A pass that finds the tip unchanged at its final check completes: it hands out exactly the
/// confirmed transactions it holds, stops watching each of them and each output found spent,
/// records the tip as synced, and clears the pending flag.
pub proof fn lemma_completed_pass_applies_confirmations(
    before: TxSyncView,
    tip: BlockHash,
    after: TxSyncView,
    action: SyncAction,
)
    requires
        sync_step_spec(before, SyncEvent::TipChecked(Ok(tip)), after, action),
        before.tip_hash == Some(block_hash_bytes(tip)),
    ensures
        action matches SyncAction::NotifyConfirmed(txs) && txs@ == before.held_confirmed,
        forall|i: int| 0 <= i < before.held_confirmed.len()
            ==> !after.watched_transactions.contains(#[trigger] transaction_id(before.held_confirmed[i].tx)),
        forall|i: int| 0 <= i < before.held_spent.len()
            ==> !after.watched_outputs.contains(#[trigger] output_key(before.held_spent[i])),
        forall|id: Seq<u8>| #[trigger] after.watched_transactions.contains(id) ==> before.watched_transactions.contains(id),
        after.last_sync_hash == Some(block_hash_bytes(tip)),
        !after.pending_sync,
{
    assert forall|i: int| 0 <= i < before.held_spent.len()
        implies !after.watched_outputs.contains(#[trigger] output_key(before.held_spent[i])) by {
        lemma_key_set_contains(before.held_spent, out_key(), i);
    }
}

/// A sync whose tip query finds the tip it last synced to, with no sync pending and nothing newly
/// registered, finishes at once and successfully; with a new tip it first checks the
/// transactions that may have been unconfirmed.
pub proof fn lemma_up_to_date_sync_finishes(before: TxSyncView, tip: BlockHash, after: TxSyncView, action: SyncAction)
    requires
        sync_step_spec(before, SyncEvent::TipFetched(Ok(tip)), after, action),
    ensures
        !before.pending_sync && before.queued_transactions.is_empty() && before.queued_outputs.is_empty()
            && before.last_sync_hash == Some(block_hash_bytes(tip)) ==> action == SyncAction::Finished(Ok(())),
        before.last_sync_hash != Some(block_hash_bytes(tip)) ==> action is SyncUnconfirmed,
{
}

/// No registration is lost: every transaction or output that was queued or watched before a
/// step still is after it, unless the step applied a confirmation of it.
pub proof fn lemma_registrations_kept(before: TxSyncView, event: SyncEvent, after: TxSyncView, action: SyncAction)
    requires
        sync_step_spec(before, event, after, action),
    ensures
        forall|id: Seq<u8>| (#[trigger] before.queued_transactions.contains(id) || before.watched_transactions.contains(id))
            ==> (after.queued_transactions.contains(id) || after.watched_transactions.contains(id)
                || confirmed_ids(before.held_confirmed).contains(id)),
        forall|o: (Option<Seq<u8>>, Seq<u8>, u16, Seq<u8>)| (#[trigger] before.queued_outputs.contains(o) || before.watched_outputs.contains(o))
            ==> (after.queued_outputs.contains(o) || after.watched_outputs.contains(o)
                || output_keys(before.held_spent).contains(o)),
{
}

/// The tip of the last complete pass changes only when the tip a pass worked towards is found
/// unchanged by the final tip check; it then becomes that tip.
pub proof fn lemma_last_sync_hash_only_after_check(before: TxSyncView, event: SyncEvent, after: TxSyncView, action: SyncAction)
    requires
        sync_step_spec(before, event, after, action),
        after.last_sync_hash != before.last_sync_hash,
    ensures
        event matches SyncEvent::TipChecked(Ok(tip)) && before.tip_hash == Some(block_hash_bytes(tip)),
        after.last_sync_hash == before.tip_hash,
        after.phase == SyncPhase::AwaitNotified,
{
}

} // verus!
