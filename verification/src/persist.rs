//! A simple key-value store trait, [`KVStore`], and the persistence of the channel manager,
//! the network graph, the scorer and the channel monitors through it.
//!
//! Channel monitors are stored under a key derived from their funding outpoint,
//! `<txid hex>_<output index>`; reading them back parses that key and checks it against the
//! monitor's own funding outpoint.

use vstd::prelude::*;
use vstd::string::StringExecFns;
use vstd::string::StringSliceAdditionalSpecFns;
use vstd::utf8::{encode_utf8, is_char_boundary};

use bitcoin::Txid;

use crate::btc::{txid_bytes, txid_eq, txid_from_hex, txid_hex_decode, txid_hex_encode, txid_to_hex};
use crate::fs_store::{all_key_chars, entry_is_listed, is_key_char, is_temp_file_name, listed_keys, temp_name_split, ListedEntry};
use crate::encoding::{
    ascii_chars, ascii_string, decimal_digits, decimal_digits_of, is_decimal_digit, lemma_decimal_digits_are_digits,
    lemma_hex_decode_encode, lemma_parse_u16_decimal, lower_hex_digit, parse_u16, parse_u16_spec,
};

verus! {

#[verifier::external_type_specification]
#[verifier::external_body]
pub struct ExIoError(std::io::Error);

/// The namespace under which the channel manager will be persisted.
pub const CHANNEL_MANAGER_PERSISTENCE_NAMESPACE: &'static str = "";
/// The key under which the channel manager will be persisted.
pub const CHANNEL_MANAGER_PERSISTENCE_KEY: &'static str = "manager";

/// The namespace under which channel monitors will be persisted.
pub const CHANNEL_MONITOR_PERSISTENCE_NAMESPACE: &'static str = "monitors";

/// The namespace under which the network graph will be persisted.
pub const NETWORK_GRAPH_PERSISTENCE_NAMESPACE: &'static str = "";
/// The key under which the network graph will be persisted.
pub const NETWORK_GRAPH_PERSISTENCE_KEY: &'static str = "network_graph";

/// The namespace under which the scorer will be persisted.
pub const SCORER_PERSISTENCE_NAMESPACE: &'static str = "";
/// The key under which the scorer will be persisted.
pub const SCORER_PERSISTENCE_KEY: &'static str = "scorer";

/// Provides an interface that allows to store and retrieve persisted values that are associated
/// with given keys.
///
/// In order to avoid collisions the key space is segmented based on the given `namespace`s.
/// Implementations of this trait are free to handle them in different ways, as long as
/// per-namespace key uniqueness is asserted.
///
/// Keys and namespaces are required to be valid ASCII strings and the empty namespace (`""`) is
/// assumed to be valid namespace.
pub trait KVStore {
    /// Returns the data stored under the given `namespace` and `key`.
    ///
    /// Returns an error of kind `NotFound` if the given `key` could not be found in the given
    /// `namespace`.
    fn read(&self, namespace: &str, key: &str) -> std::io::Result<Vec<u8>>;

    /// Whether `result` is an outcome that persisting `buf` under `namespace` and `key` can
    /// have. A store that says nothing of its writes allows every outcome.
    open spec fn write_outcome(&self, namespace: Seq<char>, key: Seq<char>, buf: Seq<u8>, result: std::io::Result<()>) -> bool {
        true
    }

    /// Persists the given data under the given `key`.
    ///
    /// Will create the given `namespace` if not already present in the store.
    fn write(&self, namespace: &str, key: &str, buf: &[u8]) -> (result: std::io::Result<()>)
        ensures
            self.write_outcome(namespace@, key@, buf@, result),
    ;

    /// Removes any data that had previously been persisted under the given `key`.
    fn remove(&self, namespace: &str, key: &str) -> std::io::Result<()>;

    /// Returns a list of keys that are stored under the given `namespace`.
    ///
    /// Will return an empty list if the `namespace` is unknown.
    fn list(&self, namespace: &str) -> std::io::Result<Vec<String>>;
}

/// An object that can be serialized for persistence.
pub trait Writeable {
    /// Whether `bytes` is a serialization of the object. A type that says nothing of its
    /// serializations allows any bytes.
    open spec fn is_encoding(&self, bytes: Seq<u8>) -> bool {
        true
    }

    /// The serialization of the object.
    fn encode(&self) -> (bytes: Vec<u8>)
        ensures
            self.is_encoding(bytes@),
    ;
}

/// Trait that handles persisting a channel manager, network graph, and scorer to disk.
pub trait Persister<M: Writeable, G: Writeable, S: Writeable> {
    /// Whether `result` is an outcome that persisting the given channel manager can have. A persister
    /// that says nothing of it allows every outcome.
    open spec fn manager_persisted(&self, channel_manager: &M, result: std::io::Result<()>) -> bool {
        true
    }

    /// Persist the given channel manager to disk, returning an error if persistence failed.
    fn persist_manager(&self, channel_manager: &M) -> (result: std::io::Result<()>)
        ensures
            self.manager_persisted(channel_manager, result),
    ;

    /// Whether `result` is an outcome that persisting the given network graph can have. A persister
    /// that says nothing of it allows every outcome.
    open spec fn graph_persisted(&self, network_graph: &G, result: std::io::Result<()>) -> bool {
        true
    }

    /// Persist the given network graph to disk, returning an error if persistence failed.
    fn persist_graph(&self, network_graph: &G) -> (result: std::io::Result<()>)
        ensures
            self.graph_persisted(network_graph, result),
    ;

    /// Whether `result` is an outcome that persisting the given scorer can have. A persister
    /// that says nothing of it allows every outcome.
    open spec fn scorer_persisted(&self, scorer: &S, result: std::io::Result<()>) -> bool {
        true
    }

    /// Persist the given scorer to disk, returning an error if persistence failed.
    fn persist_scorer(&self, scorer: &S) -> (result: std::io::Result<()>)
        ensures
            self.scorer_persisted(scorer, result),
    ;
}

/// A key-value store persists each object by writing its serialization under the object's
/// namespace and key, and returns the write's outcome.
impl<A: KVStore, M: Writeable, G: Writeable, S: Writeable> Persister<M, G, S> for A {
    open spec fn manager_persisted(&self, channel_manager: &M, result: std::io::Result<()>) -> bool {
        exists|bytes: Seq<u8>|
            channel_manager.is_encoding(bytes) && #[trigger] self.write_outcome(CHANNEL_MANAGER_PERSISTENCE_NAMESPACE@, CHANNEL_MANAGER_PERSISTENCE_KEY@, bytes, result)
    }

    fn persist_manager(&self, channel_manager: &M) -> (result: std::io::Result<()>) {
        let encoded = channel_manager.encode();
        self.write(CHANNEL_MANAGER_PERSISTENCE_NAMESPACE, CHANNEL_MANAGER_PERSISTENCE_KEY, encoded.as_slice())
    }

    open spec fn graph_persisted(&self, network_graph: &G, result: std::io::Result<()>) -> bool {
        exists|bytes: Seq<u8>|
            network_graph.is_encoding(bytes) && #[trigger] self.write_outcome(NETWORK_GRAPH_PERSISTENCE_NAMESPACE@, NETWORK_GRAPH_PERSISTENCE_KEY@, bytes, result)
    }

    fn persist_graph(&self, network_graph: &G) -> (result: std::io::Result<()>) {
        let encoded = network_graph.encode();
        self.write(NETWORK_GRAPH_PERSISTENCE_NAMESPACE, NETWORK_GRAPH_PERSISTENCE_KEY, encoded.as_slice())
    }

    open spec fn scorer_persisted(&self, scorer: &S, result: std::io::Result<()>) -> bool {
        exists|bytes: Seq<u8>|
            scorer.is_encoding(bytes) && #[trigger] self.write_outcome(SCORER_PERSISTENCE_NAMESPACE@, SCORER_PERSISTENCE_KEY@, bytes, result)
    }

    fn persist_scorer(&self, scorer: &S) -> (result: std::io::Result<()>) {
        let encoded = scorer.encode();
        self.write(SCORER_PERSISTENCE_NAMESPACE, SCORER_PERSISTENCE_KEY, encoded.as_slice())
    }
}

/// A reference to a transaction output: the transaction and the index of the output in it (a
/// channel's funding outpoint, or a watched output).
#[derive(Clone, Copy, Debug, PartialEq, Eq, Hash)]
pub struct ChainOutPoint {
    /// The referenced transaction's txid.
    pub txid: Txid,
    /// The index of the referenced output in its transaction's vout.
    pub index: u16,
}

/// The outcome of persisting a channel monitor.
#[derive(Clone, Copy, Debug, PartialEq, Eq)]
pub enum ChannelMonitorUpdateStatus {
    /// The update has been durably persisted.
    Completed,
    /// The update could not be persisted and will not be.
    PermanentFailure,
}

/// Why a stored channel monitor was refused.
#[derive(Clone, Copy, Debug, PartialEq, Eq)]
pub enum MonitorKeyError {
    /// The stored key does not begin with a transaction id.
    InvalidTxid,
    /// The stored key does not end with an output index.
    InvalidIndex,
    /// The monitor's funding outpoint is not the one its key names.
    WrongKey,
}

/// The bytes of the key under which the monitor of the channel funded by the given
/// transaction (its bytes) and output index is stored: `<txid hex>_<index>`.
pub open spec fn monitor_key_bytes(txid: Seq<u8>, index: u16) -> Seq<u8> {
    txid_hex_encode(txid) + seq![0x5fu8] + decimal_digits(index as nat)
}

/// What reading a stored key gives: the transaction id from its first 64 bytes, and the output
/// index from what follows the 65th byte.
pub open spec fn monitor_key_parse(key: Seq<u8>) -> Result<(Seq<u8>, u16), MonitorKeyError> {
    match txid_hex_decode(key.subrange(0, 64)) {
        None => Err(MonitorKeyError::InvalidTxid),
        Some(txid) => match parse_u16_spec(key.subrange(65, key.len() as int)) {
            None => Err(MonitorKeyError::InvalidIndex),
            Some(index) => Ok((txid, index)),
        },
    }
}

/// The key under which the monitor of the channel with the given funding outpoint is stored.
pub fn monitor_storage_key(funding_txo: &ChainOutPoint) -> (key: String)
    ensures
        key@ == ascii_chars(monitor_key_bytes(txid_bytes(funding_txo.txid), funding_txo.index)),
        txid_bytes(funding_txo.txid).len() == 32,
{
    let txid_hex = txid_to_hex(&funding_txo.txid);
    let digits = decimal_digits_of(funding_txo.index as u64);
    proof {
        lemma_decimal_digits_are_digits(funding_txo.index as nat);
        assert forall|i: int| 0 <= i < digits@.len() implies #[trigger] digits@[i] < 0x80 by {
            assert(is_decimal_digit(digits@[i]));
        }
    }
    let index = ascii_string(digits);
    let separator = "_";
    proof {
        reveal_strlit("_");
    }
    let key = txid_hex.concat(separator).concat(index.as_str());
    proof {
        let h = txid_hex_encode(txid_bytes(funding_txo.txid));
        let d = decimal_digits(funding_txo.index as nat);
        assert(ascii_chars(h + seq![0x5fu8] + d) =~= ascii_chars(h) + seq!['_'] + ascii_chars(d));
    }
    key
}

/// Reads the funding outpoint that a stored monitor key names. The transaction id is read from
/// the first 64 bytes and the output index from what follows the 65th byte; the 65th byte itself
/// is not read. The key must split after its 64th byte, and after its 65th where the transaction
/// id is read.
pub fn parse_monitor_key(stored_key: &str) -> (parsed: Result<ChainOutPoint, MonitorKeyError>)
    requires
        vstd::utf8::is_char_boundary(stored_key.spec_bytes(), 64),
        txid_hex_decode(stored_key.spec_bytes().subrange(0, 64)) is Some ==> vstd::utf8::is_char_boundary(
            stored_key.spec_bytes(),
            65,
        ),
    ensures
        match (parsed, monitor_key_parse(stored_key.spec_bytes())) {
            (Ok(funding_txo), Ok((txid, index))) => txid_bytes(funding_txo.txid) == txid && funding_txo.index == index,
            (Err(e), Err(f)) => e == f,
            _ => false,
        },
{
    let (txid_part, _) = stored_key.split_at(64);
    let txid = match txid_from_hex(txid_part) {
        Some(txid) => txid,
        None => return Err(MonitorKeyError::InvalidTxid),
    };
    let (_, index_part) = stored_key.split_at(65);
    let index = match parse_u16(index_part.as_bytes()) {
        Some(index) => index,
        None => return Err(MonitorKeyError::InvalidIndex),
    };
    Ok(ChainOutPoint { txid, index })
}

/// Checks that a monitor read from under a key is the monitor of the channel that the key names.
pub fn check_monitor_key(stored: &ChainOutPoint, monitor_funding_txo: &ChainOutPoint) -> (checked: Result<(), MonitorKeyError>)
    ensures
        checked is Ok <==> (txid_bytes(stored.txid) == txid_bytes(monitor_funding_txo.txid)
            && stored.index == monitor_funding_txo.index),
        checked is Err ==> checked == Err::<(), MonitorKeyError>(MonitorKeyError::WrongKey),
{
    if !txid_eq(&monitor_funding_txo.txid, &stored.txid) || monitor_funding_txo.index != stored.index {
        return Err(MonitorKeyError::WrongKey);
    }
    Ok(())
}

/// The status of a monitor update whose write had the given outcome: completed exactly when the
/// write succeeded.
pub open spec fn monitor_status_of(write_result: std::io::Result<()>) -> ChannelMonitorUpdateStatus {
    if write_result is Ok {
        ChannelMonitorUpdateStatus::Completed
    } else {
        ChannelMonitorUpdateStatus::PermanentFailure
    }
}

/// The status of a monitor update whose write returned `write_result`.
pub fn monitor_update_status(write_result: &std::io::Result<()>) -> (status: ChannelMonitorUpdateStatus)
    ensures
        status == (if write_result is Ok {
            ChannelMonitorUpdateStatus::Completed
        } else {
            ChannelMonitorUpdateStatus::PermanentFailure
        }),
{
    match write_result {
        Ok(()) => ChannelMonitorUpdateStatus::Completed,
        Err(_) => ChannelMonitorUpdateStatus::PermanentFailure,
    }
}

/// Persists channel monitors, each under the key that its funding outpoint names.
pub trait Persist<M: Writeable> {
    /// Persists a new channel's monitor.
    fn persist_new_channel(&self, funding_txo: ChainOutPoint, monitor: &M) -> ChannelMonitorUpdateStatus;

    /// Persists an updated channel monitor.
    fn update_persisted_channel(&self, funding_txo: ChainOutPoint, monitor: &M) -> ChannelMonitorUpdateStatus;
}

impl<K: KVStore, M: Writeable> Persist<M> for K {
    /// Writes the monitor's serialization under the key of its funding outpoint, and reports
    /// the update completed exactly when the write succeeded.
    fn persist_new_channel(&self, funding_txo: ChainOutPoint, monitor: &M) -> (status: ChannelMonitorUpdateStatus)
        ensures
            exists|bytes: Seq<u8>, written: std::io::Result<()>|
                {
                    &&& monitor.is_encoding(bytes)
                    &&& #[trigger] self.write_outcome(
                        CHANNEL_MONITOR_PERSISTENCE_NAMESPACE@,
                        ascii_chars(monitor_key_bytes(txid_bytes(funding_txo.txid), funding_txo.index)),
                        bytes,
                        written,
                    )
                    &&& status == monitor_status_of(written)
                },
    {
        let key = monitor_storage_key(&funding_txo);
        let encoded = monitor.encode();
        let written = self.write(CHANNEL_MONITOR_PERSISTENCE_NAMESPACE, key.as_str(), encoded.as_slice());
        monitor_update_status(&written)
    }

    /// Writes the monitor's serialization under the key of its funding outpoint, and reports
    /// the update completed exactly when the write succeeded.
    fn update_persisted_channel(&self, funding_txo: ChainOutPoint, monitor: &M) -> (status: ChannelMonitorUpdateStatus)
        ensures
            exists|bytes: Seq<u8>, written: std::io::Result<()>|
                {
                    &&& monitor.is_encoding(bytes)
                    &&& #[trigger] self.write_outcome(
                        CHANNEL_MONITOR_PERSISTENCE_NAMESPACE@,
                        ascii_chars(monitor_key_bytes(txid_bytes(funding_txo.txid), funding_txo.index)),
                        bytes,
                        written,
                    )
                    &&& status == monitor_status_of(written)
                },
    {
        let key = monitor_storage_key(&funding_txo);
        let encoded = monitor.encode();
        let written = self.write(CHANNEL_MONITOR_PERSISTENCE_NAMESPACE, key.as_str(), encoded.as_slice());
        monitor_update_status(&written)
    }
}

/// Reading back the hex of a transaction id gives its bytes.
proof fn lemma_txid_hex_round_trip(txid: Seq<u8>)
    requires
        txid.len() == 32,
    ensures
        txid_hex_encode(txid).len() == 64,
        txid_hex_decode(txid_hex_encode(txid)) == Some(txid),
{
    lemma_hex_decode_encode(txid.reverse());
    assert(txid.reverse().reverse() =~= txid);
}

/// A monitor stored under the key of its funding outpoint is read back under the same funding
/// outpoint: the key names the transaction and the output index it was made from.
pub proof fn lemma_monitor_key_round_trip(txid: Seq<u8>, index: u16)
    requires
        txid.len() == 32,
    ensures
        monitor_key_parse(monitor_key_bytes(txid, index)) == Ok::<(Seq<u8>, u16), MonitorKeyError>((txid, index)),
{
    let key = monitor_key_bytes(txid, index);
    let h = txid_hex_encode(txid);
    let d = decimal_digits(index as nat);
    lemma_txid_hex_round_trip(txid);
    assert(key.subrange(0, 64) =~= h);
    assert(key.subrange(65, key.len() as int) =~= d);
    lemma_parse_u16_decimal(index);
}

/// The bytes of a monitor key are printable ASCII: hex digits, the separator, decimal digits.
proof fn lemma_monitor_key_bytes_printable(txid: Seq<u8>, index: u16)
    requires
        txid.len() == 32,
    ensures
        monitor_key_bytes(txid, index).len() >= 66,
        forall|i: int| 0 <= i < monitor_key_bytes(txid, index).len() ==> 0x20 <= #[trigger] monitor_key_bytes(txid, index)[i] <= 0x7e,
{
    let h = txid_hex_encode(txid);
    let d = decimal_digits(index as nat);
    let key = monitor_key_bytes(txid, index);
    lemma_txid_hex_round_trip(txid);
    lemma_decimal_digits_are_digits(index as nat);
    assert forall|i: int| 0 <= i < key.len() implies 0x20 <= #[trigger] key[i] <= 0x7e by {
        if i < 64 {
            assert(key[i] == h[i]);
            let r = txid.reverse();
            let v: nat = if i % 2 == 0 { (r[i / 2] / 16) as nat } else { (r[i / 2] % 16) as nat };
            assert(h[i] == lower_hex_digit(v));
        } else if i == 64 {
            assert(key[i] == 0x5f);
        } else {
            assert(key[i] == d[i - 65]);
            assert(is_decimal_digit(d[i - 65]));
        }
    }
}

/// A monitor is stored under a key that the store takes (not empty, printable ASCII) and that
/// reads back as the monitor's funding outpoint: its text splits after its 64th and its 65th
/// byte, where reading it splits it, and the parts give the transaction id and the output index
/// that the key was made from.
pub proof fn lemma_monitor_key_reads_back(txid: Seq<u8>, index: u16)
    requires
        txid.len() == 32,
    ensures
        ({
            let key = ascii_chars(monitor_key_bytes(txid, index));
            &&& key.len() > 0
            &&& all_key_chars(key)
            &&& encode_utf8(key) == monitor_key_bytes(txid, index)
            &&& is_char_boundary(encode_utf8(key), 64)
            &&& is_char_boundary(encode_utf8(key), 65)
            &&& monitor_key_parse(encode_utf8(key)) == Ok::<(Seq<u8>, u16), MonitorKeyError>((txid, index))
        }),
{
    let bytes = monitor_key_bytes(txid, index);
    let key = ascii_chars(bytes);
    lemma_monitor_key_bytes_printable(txid, index);
    assert forall|i: int| 0 <= i < key.len() implies #[trigger] is_key_char(key[i]) by {
        assert(0x20 <= bytes[i] <= 0x7e);
    }
    assert(vstd::utf8::is_ascii_chars(key));
    vstd::utf8::is_ascii_chars_encode_utf8(key);
    assert forall|i: int| 0 <= i < key.len() implies #[trigger] encode_utf8(key)[i] == bytes[i] by {
        assert(key[i] as u8 == encode_utf8(key)[i]);
        assert(0x20 <= bytes[i] <= 0x7e);
    }
    assert(encode_utf8(key) =~= bytes);
    vstd::utf8::encode_utf8_valid_utf8(key);
    vstd::utf8::is_char_boundary_iff_not_is_continuation_byte(bytes, 64);
    vstd::utf8::is_char_boundary_iff_not_is_continuation_byte(bytes, 65);
    lemma_monitor_key_round_trip(txid, index);
}

/// A file stored under a monitor key is listed: the listing of the monitors' namespace gives
/// back the key, so every stored monitor is found when monitors are read back.
pub proof fn lemma_monitor_keys_listed(txid: Seq<u8>, index: u16, entry: ListedEntry)
    requires
        txid.len() == 32,
        entry.is_file,
        entry.relative_path is Some,
        entry.relative_path.unwrap()@ == ascii_chars(monitor_key_bytes(txid, index)),
    ensures
        entry_is_listed(entry),
        listed_keys(seq![entry]) == seq![ascii_chars(monitor_key_bytes(txid, index))],
{
    let key = ascii_chars(monitor_key_bytes(txid, index));
    let d = decimal_digits(index as nat);
    lemma_monitor_key_reads_back(txid, index);
    lemma_decimal_digits_are_digits(index as nat);
    lemma_monitor_key_bytes_printable(txid, index);
    let bytes = monitor_key_bytes(txid, index);
    assert(bytes.last() == d.last());
    assert(is_decimal_digit(d[d.len() - 1]));
    assert(key.last() == bytes.last() as char);
    if is_temp_file_name(key) {
        let i = choose|i: int| temp_name_split(key, i);
        let t = key.subrange(key.len() - 4, key.len() as int);
        assert(t[3] == key.last());
    }
    assert(seq![entry].drop_last() =~= Seq::<ListedEntry>::empty());
    assert(seq![entry].last() == entry);
    assert(listed_keys(Seq::<ListedEntry>::empty()) =~= Seq::<Seq<char>>::empty());
    assert(listed_keys(seq![entry]) =~= seq![key]);
}

/// Monitor keys of different funding outpoints differ.
pub proof fn lemma_monitor_keys_distinct(txid_a: Seq<u8>, index_a: u16, txid_b: Seq<u8>, index_b: u16)
    requires
        txid_a.len() == 32,
        txid_b.len() == 32,
        (txid_a, index_a) != (txid_b, index_b),
    ensures
        monitor_key_bytes(txid_a, index_a) != monitor_key_bytes(txid_b, index_b),
{
    lemma_monitor_key_round_trip(txid_a, index_a);
    lemma_monitor_key_round_trip(txid_b, index_b);
}

} // verus!
