use lightning_kit::encoding::{decimal_digits_of, parse_u16};
use lightning_kit::fs_store::{
    check_namespace_and_key, select_listed_keys, temp_file_extension, FilesystemStore, KeyCheckError, ListedEntry,
};
use lightning_kit::persist::{
    Persist, Persister,
    check_monitor_key, monitor_storage_key, monitor_update_status, parse_monitor_key, ChainOutPoint,
    ChannelMonitorUpdateStatus, MonitorKeyError, CHANNEL_MANAGER_PERSISTENCE_KEY,
    CHANNEL_MANAGER_PERSISTENCE_NAMESPACE, CHANNEL_MONITOR_PERSISTENCE_NAMESPACE,
    NETWORK_GRAPH_PERSISTENCE_KEY, SCORER_PERSISTENCE_KEY,
};

use bitcoin::Txid;
use std::path::PathBuf;
use std::str::FromStr;

fn txid(bytes: [u8; 32]) -> Txid {
    <Txid as bitcoin::hashes::Hash>::from_byte_array(bytes)
}

#[test]
fn monitor_key_is_reversed_hex_and_index() {
    let mut bytes = [0u8; 32];
    bytes[0] = 0x01;
    bytes[31] = 0xab;
    let funding = ChainOutPoint { txid: txid(bytes), index: 7 };
    let key = monitor_storage_key(&funding);
    assert_eq!(key.len(), 66);
    assert!(key.starts_with("ab000000"));
    assert!(key.ends_with("0001_7"));
    assert_eq!(key, format!("{}_{}", funding.txid, 7));
}

#[test]
fn monitor_key_round_trip() {
    for (byte, index) in [(0x00u8, 0u16), (0x5a, 1), (0xff, 65535), (0x12, 300)] {
        let funding = ChainOutPoint { txid: txid([byte; 32]), index };
        let key = monitor_storage_key(&funding);
        assert_eq!(parse_monitor_key(&key), Ok(funding));
        assert_eq!(check_monitor_key(&funding, &funding), Ok(()));
        assert_eq!(check_namespace_and_key(CHANNEL_MONITOR_PERSISTENCE_NAMESPACE, &key), Ok(()));
    }
}

#[test]
fn monitor_key_errors() {
    let hex = "ab".repeat(32);
    assert_eq!(parse_monitor_key(&format!("{}_12", hex)).unwrap().index, 12);
    // Upper-case hex is read too, and the separator byte is not looked at.
    assert_eq!(parse_monitor_key(&format!("{}-+12", "AB".repeat(32))).unwrap().index, 12);
    assert_eq!(parse_monitor_key(&format!("{}_x", hex)), Err(MonitorKeyError::InvalidIndex));
    assert_eq!(parse_monitor_key(&format!("{}_", hex)), Err(MonitorKeyError::InvalidIndex));
    assert_eq!(parse_monitor_key(&format!("{}_65536", hex)), Err(MonitorKeyError::InvalidIndex));
    assert_eq!(parse_monitor_key(&format!("{}zz_1", "ab".repeat(31))), Err(MonitorKeyError::InvalidTxid));
    // A key whose first 64 bytes hold no transaction id is refused for that, before its index
    // is looked at.
    assert_eq!(parse_monitor_key(&"zz".repeat(32)), Err(MonitorKeyError::InvalidTxid));
    assert_eq!(parse_monitor_key(&format!("{}\u{e9}", "z".repeat(64))), Err(MonitorKeyError::InvalidTxid));
    let a = ChainOutPoint { txid: txid([1; 32]), index: 0 };
    let b = ChainOutPoint { txid: txid([1; 32]), index: 1 };
    let c = ChainOutPoint { txid: txid([2; 32]), index: 0 };
    assert_eq!(check_monitor_key(&a, &b), Err(MonitorKeyError::WrongKey));
    assert_eq!(check_monitor_key(&a, &c), Err(MonitorKeyError::WrongKey));
    let parsed = parse_monitor_key(&format!("{}_0", Txid::from_str(&"01".repeat(32)).unwrap())).unwrap();
    assert_eq!(parsed.txid, txid([1; 32]));
}

#[test]
fn monitor_update_status_follows_the_write() {
    assert_eq!(monitor_update_status(&Ok(())), ChannelMonitorUpdateStatus::Completed);
    let failed: std::io::Result<()> = Err(std::io::Error::new(std::io::ErrorKind::Other, "disk"));
    assert_eq!(monitor_update_status(&failed), ChannelMonitorUpdateStatus::PermanentFailure);
}

#[test]
fn persistence_locations() {
    assert_eq!(CHANNEL_MANAGER_PERSISTENCE_NAMESPACE, "");
    assert_eq!(CHANNEL_MANAGER_PERSISTENCE_KEY, "manager");
    assert_eq!(CHANNEL_MONITOR_PERSISTENCE_NAMESPACE, "monitors");
    assert_eq!(NETWORK_GRAPH_PERSISTENCE_KEY, "network_graph");
    assert_eq!(SCORER_PERSISTENCE_KEY, "scorer");
}

#[test]
fn decimal_encoding_and_parsing() {
    assert_eq!(decimal_digits_of(0), b"0".to_vec());
    assert_eq!(decimal_digits_of(10), b"10".to_vec());
    assert_eq!(decimal_digits_of(65535), b"65535".to_vec());
    assert_eq!(parse_u16(b"65535"), Some(65535));
    assert_eq!(parse_u16(b"+7"), Some(7));
    assert_eq!(parse_u16(b"007"), Some(7));
    assert_eq!(parse_u16(b"65536"), None);
    assert_eq!(parse_u16(b"999999999999"), None);
    assert_eq!(parse_u16(b"-7"), None);
    assert_eq!(parse_u16(b"+"), None);
    assert_eq!(parse_u16(b""), None);
    assert_eq!(parse_u16(b"1 "), None);
    for n in [0u16, 1, 9, 10, 99, 100, 4032, 65535] {
        assert_eq!(parse_u16(&decimal_digits_of(n as u64)), Some(n));
        assert_eq!(parse_u16(n.to_string().as_bytes()), n.to_string().parse::<u16>().ok());
    }
}

#[test]
fn filesystem_store_keeps_its_data_dir() {
    let store = FilesystemStore::new(PathBuf::from("/tmp/store"));
    assert_eq!(store.get_data_dir(), PathBuf::from("/tmp/store"));
}

#[test]
fn namespace_and_key_checks() {
    assert_eq!(check_namespace_and_key("testspace", "testkey"), Ok(()));
    assert_eq!(check_namespace_and_key("", "testkey"), Ok(()));
    assert_eq!(check_namespace_and_key("testspace", ""), Err(KeyCheckError::EmptyKey));
    assert_eq!(check_namespace_and_key("bad\u{e9}", ""), Err(KeyCheckError::EmptyKey));
    assert_eq!(check_namespace_and_key("test\nspace", "key"), Err(KeyCheckError::InvalidCharacters));
    assert_eq!(check_namespace_and_key("space", "k\u{7f}"), Err(KeyCheckError::InvalidCharacters));
    assert_eq!(check_namespace_and_key("space", "k\u{e9}"), Err(KeyCheckError::InvalidCharacters));
    assert_eq!(check_namespace_and_key(" ~", "a b~"), Ok(()));
}

#[test]
fn listing_keeps_stored_keys_only() {
    let entry = |is_file: bool, path: Option<&str>| ListedEntry { is_file, relative_path: path.map(|p| p.to_string()) };
    let entries = vec![
        entry(true, Some("testkey")),
        entry(false, Some("subdir")),
        entry(true, Some("testkey.0.tmp")),
        entry(true, None),
        entry(true, Some("caf\u{e9}")),
        entry(true, Some("a.tmp")),
        entry(true, Some("a.x7.tmp")),
        entry(true, Some(".tmp")),
        entry(true, Some("other")),
    ];
    assert_eq!(
        select_listed_keys(&entries),
        vec![
            "testkey".to_string(),
            "a.tmp".to_string(),
            "a.x7.tmp".to_string(),
            ".tmp".to_string(),
            "other".to_string()
        ]
    );
    assert!(select_listed_keys(&vec![]).is_empty());
}

#[test]
fn temporary_files_are_named_as_the_store_names_them() {
    assert_eq!(temp_file_extension(0), "0.tmp");
    assert_eq!(temp_file_extension(42), "42.tmp");
    assert_eq!(temp_file_extension(u64::MAX), format!("{}.tmp", u64::MAX));
    let entry = |path: String| ListedEntry { is_file: true, relative_path: Some(path) };
    for (key, counter) in [("testkey", 0u64), ("a.tmp", 7), ("a.b", 12), ("x", u64::MAX)] {
        let mut path = std::path::PathBuf::from(key);
        path.set_extension(temp_file_extension(counter));
        let temp = path.to_str().unwrap().to_string();
        assert!(temp.ends_with(&format!(".{}.tmp", counter)));
        assert!(select_listed_keys(&vec![entry(temp)]).is_empty());
        assert_eq!(select_listed_keys(&vec![entry(key.to_string())]), vec![key.to_string()]);
    }
}

#[test]
fn monitor_keys_of_different_outpoints_differ() {
    let outpoints = [
        ChainOutPoint { txid: txid([1; 32]), index: 0 },
        ChainOutPoint { txid: txid([1; 32]), index: 1 },
        ChainOutPoint { txid: txid([1; 32]), index: 10 },
        ChainOutPoint { txid: txid([2; 32]), index: 0 },
    ];
    for (i, a) in outpoints.iter().enumerate() {
        for (j, b) in outpoints.iter().enumerate() {
            assert_eq!(monitor_storage_key(a) == monitor_storage_key(b), i == j);
        }
    }
}

struct RecordingStore {
    writes: std::cell::RefCell<Vec<(String, String, Vec<u8>)>>,
    fail: bool,
}

impl lightning_kit::persist::KVStore for RecordingStore {
    fn read(&self, _namespace: &str, _key: &str) -> std::io::Result<Vec<u8>> {
        Err(std::io::Error::new(std::io::ErrorKind::NotFound, "not kept"))
    }

    fn write(&self, namespace: &str, key: &str, buf: &[u8]) -> std::io::Result<()> {
        self.writes.borrow_mut().push((namespace.to_string(), key.to_string(), buf.to_vec()));
        if self.fail {
            Err(std::io::Error::new(std::io::ErrorKind::Other, "disk full"))
        } else {
            Ok(())
        }
    }

    fn remove(&self, _namespace: &str, _key: &str) -> std::io::Result<()> {
        Ok(())
    }

    fn list(&self, _namespace: &str) -> std::io::Result<Vec<String>> {
        Ok(Vec::new())
    }
}

struct Blob(Vec<u8>);

impl lightning_kit::persist::Writeable for Blob {
    fn encode(&self) -> Vec<u8> {
        self.0.clone()
    }
}

#[test]
fn persisting_writes_the_encoding_under_its_key() {
    let store = RecordingStore { writes: std::cell::RefCell::new(Vec::new()), fail: false };
    let manager = Blob(vec![1, 2]);
    let graph = Blob(vec![3]);
    let scorer = Blob(vec![4, 5, 6]);
    assert!(Persister::<Blob, Blob, Blob>::persist_manager(&store, &manager).is_ok());
    assert!(Persister::<Blob, Blob, Blob>::persist_graph(&store, &graph).is_ok());
    assert!(Persister::<Blob, Blob, Blob>::persist_scorer(&store, &scorer).is_ok());
    let funding = ChainOutPoint { txid: txid([7; 32]), index: 3 };
    let monitor = Blob(vec![9]);
    assert_eq!(store.persist_new_channel(funding, &monitor), ChannelMonitorUpdateStatus::Completed);
    assert_eq!(store.update_persisted_channel(funding, &monitor), ChannelMonitorUpdateStatus::Completed);
    let key = monitor_storage_key(&funding);
    assert_eq!(
        *store.writes.borrow(),
        vec![
            ("".to_string(), "manager".to_string(), vec![1, 2]),
            ("".to_string(), "network_graph".to_string(), vec![3]),
            ("".to_string(), "scorer".to_string(), vec![4, 5, 6]),
            ("monitors".to_string(), key.clone(), vec![9]),
            ("monitors".to_string(), key, vec![9]),
        ]
    );

    let failing = RecordingStore { writes: std::cell::RefCell::new(Vec::new()), fail: true };
    assert!(Persister::<Blob, Blob, Blob>::persist_manager(&failing, &manager).is_err());
    assert_eq!(failing.persist_new_channel(funding, &monitor), ChannelMonitorUpdateStatus::PermanentFailure);
    assert_eq!(failing.update_persisted_channel(funding, &monitor), ChannelMonitorUpdateStatus::PermanentFailure);
}
