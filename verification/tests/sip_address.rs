use lightning_kit::sip::address::{
    build_cooperative_witness, build_refund_witness, build_sip_witness_script,
    cooperative_spend_satisfaction_weight, refund_spend_satisfaction_weight, sip_p2wsh_address,
};

use bitcoin::secp256k1::{PublicKey, Secp256k1, SecretKey};
use bitcoin::sighash::SighashCache;
use bitcoin::{
    transaction, Address, Amount, EcdsaSighashType, Network, OutPoint, ScriptBuf, Sequence,
    Transaction, TxIn, TxOut, Weight, Witness,
};

fn test_keys() -> (SecretKey, PublicKey, SecretKey, PublicKey) {
    let secp = Secp256k1::new();
    let user_sk = SecretKey::from_slice(&[0x11; 32]).unwrap();
    let user_pk = PublicKey::from_secret_key(&secp, &user_sk);
    let server_sk = SecretKey::from_slice(&[0x22; 32]).unwrap();
    let server_pk = PublicKey::from_secret_key(&secp, &server_sk);
    (user_sk, user_pk, server_sk, server_pk)
}

fn create_funding_tx(script_pubkey: ScriptBuf, value: Amount) -> Transaction {
    Transaction {
        version: transaction::Version::TWO,
        lock_time: bitcoin::absolute::LockTime::ZERO,
        input: vec![TxIn {
            previous_output: OutPoint::null(),
            script_sig: ScriptBuf::new(),
            sequence: Sequence::MAX,
            witness: Witness::new(),
        }],
        output: vec![TxOut { value, script_pubkey }],
    }
}

fn create_spending_tx(funding_tx: &Transaction, funding_vout: u32, sequence: Sequence) -> Transaction {
    Transaction {
        version: transaction::Version::TWO,
        lock_time: bitcoin::absolute::LockTime::ZERO,
        input: vec![TxIn {
            previous_output: OutPoint::new(funding_tx.compute_txid(), funding_vout),
            script_sig: ScriptBuf::new(),
            sequence,
            witness: Witness::new(),
        }],
        output: vec![TxOut {
            value: Amount::from_sat(49_000),
            script_pubkey: ScriptBuf::new_p2wpkh(&<bitcoin::WPubkeyHash as bitcoin::hashes::Hash>::from_slice(&[0; 20]).unwrap()),
        }],
    }
}

fn sign(tx: &Transaction, witness_script: &ScriptBuf, value: Amount, sk: &SecretKey) -> bitcoin::ecdsa::Signature {
    let secp = Secp256k1::new();
    let sighash = SighashCache::new(tx)
        .p2wsh_signature_hash(0, witness_script, value, EcdsaSighashType::All)
        .unwrap();
    let msg = bitcoin::secp256k1::Message::from_digest(bitcoin::hashes::Hash::to_byte_array(sighash));
    bitcoin::ecdsa::Signature { signature: secp.sign_ecdsa(&msg, sk), sighash_type: EcdsaSighashType::All }
}

#[test]
fn test_build_sip_witness_script() {
    let (_user_sk, user_pk, _server_sk, server_pk) = test_keys();
    let csv_delay = 2016u16;
    let script = build_sip_witness_script(&user_pk, &server_pk, csv_delay);

    // Script should be non-empty and parseable.
    assert!(!script.is_empty());

    // Verify script contains expected opcodes by checking the raw bytes include our keys.
    let script_bytes = script.as_bytes();
    assert!(script_bytes.windows(33).any(|w| w == user_pk.serialize()), "Script should contain user pubkey");
    assert!(script_bytes.windows(33).any(|w| w == server_pk.serialize()), "Script should contain server pubkey");
}

#[test]
fn test_sip_p2wsh_address() {
    let (_user_sk, user_pk, _server_sk, server_pk) = test_keys();
    let script = build_sip_witness_script(&user_pk, &server_pk, 2016);
    let address = sip_p2wsh_address(&script, Network::Regtest);

    // Should be a valid bech32 address.
    assert!(address.starts_with("bcrt1"));
}

#[test]
fn test_deterministic_address() {
    let (_user_sk, user_pk, _server_sk, server_pk) = test_keys();
    let script1 = build_sip_witness_script(&user_pk, &server_pk, 2016);
    let script2 = build_sip_witness_script(&user_pk, &server_pk, 2016);
    assert_eq!(script1, script2, "Same inputs should produce the same script");

    let addr1 = sip_p2wsh_address(&script1, Network::Regtest);
    let addr2 = sip_p2wsh_address(&script2, Network::Regtest);
    assert_eq!(addr1, addr2, "Same script should produce the same address");
}

#[test]
fn test_different_csv_produces_different_address() {
    let (_user_sk, user_pk, _server_sk, server_pk) = test_keys();
    let script_a = build_sip_witness_script(&user_pk, &server_pk, 2016);
    let script_b = build_sip_witness_script(&user_pk, &server_pk, 4032);
    assert_ne!(script_a, script_b);
}

#[test]
fn test_cooperative_spend_valid() {
    let (user_sk, user_pk, server_sk, server_pk) = test_keys();
    let csv_delay = 2016u16;
    let witness_script = build_sip_witness_script(&user_pk, &server_pk, csv_delay);
    let script_pubkey = ScriptBuf::new_p2wsh(&witness_script.wscript_hash());
    let value = Amount::from_sat(50_000);

    let funding_tx = create_funding_tx(script_pubkey, value);
    let mut spending_tx = create_spending_tx(&funding_tx, 0, Sequence::ENABLE_RBF_NO_LOCKTIME);

    let user_sig = sign(&spending_tx, &witness_script, value, &user_sk);
    let server_sig = sign(&spending_tx, &witness_script, value, &server_sk);

    spending_tx.input[0].witness = build_cooperative_witness(&user_sig, &server_sig, &witness_script);

    // Verify the witness is correctly structured (5 items).
    assert_eq!(spending_tx.input[0].witness.len(), 5);
}

#[test]
fn test_refund_spend_valid() {
    let (user_sk, user_pk, _server_sk, server_pk) = test_keys();
    let csv_delay = 2016u16;
    let witness_script = build_sip_witness_script(&user_pk, &server_pk, csv_delay);
    let script_pubkey = ScriptBuf::new_p2wsh(&witness_script.wscript_hash());
    let value = Amount::from_sat(50_000);

    let funding_tx = create_funding_tx(script_pubkey, value);
    let mut spending_tx = create_spending_tx(&funding_tx, 0, Sequence::from_consensus(csv_delay as u32));

    let user_sig = sign(&spending_tx, &witness_script, value, &user_sk);

    spending_tx.input[0].witness = build_refund_witness(&user_sig, &witness_script);

    // Verify the witness is correctly structured (3 items).
    assert_eq!(spending_tx.input[0].witness.len(), 3);
}

#[test]
fn test_satisfaction_weight_cooperative() {
    let (_user_sk, user_pk, _server_sk, server_pk) = test_keys();
    let witness_script = build_sip_witness_script(&user_pk, &server_pk, 2016);
    let weight = cooperative_spend_satisfaction_weight(&witness_script);
    // Weight should be reasonable (> 0, < 1000 WU).
    assert!(weight > Weight::ZERO);
    assert!(weight < Weight::from_wu(1000));
}

#[test]
fn test_satisfaction_weight_refund() {
    let (_user_sk, user_pk, _server_sk, server_pk) = test_keys();
    let witness_script = build_sip_witness_script(&user_pk, &server_pk, 2016);
    let weight = refund_spend_satisfaction_weight(&witness_script);
    // Weight should be reasonable and less than cooperative (fewer sig items).
    assert!(weight > Weight::ZERO);
    let coop_weight = cooperative_spend_satisfaction_weight(&witness_script);
    assert!(weight < coop_weight);
}

#[test]
fn witness_script_has_exact_layout() {
    let (_user_sk, user_pk, _server_sk, server_pk) = test_keys();
    let script = build_sip_witness_script(&user_pk, &server_pk, 2016);
    let mut expected = vec![0x63u8, 0x52, 33];
    expected.extend_from_slice(&user_pk.serialize());
    expected.push(33);
    expected.extend_from_slice(&server_pk.serialize());
    expected.extend_from_slice(&[0x52, 0xae, 0x67]);
    // 2016 = 0x07e0: a two-byte little-endian push.
    expected.extend_from_slice(&[0x02, 0xe0, 0x07]);
    expected.extend_from_slice(&[0xb2, 0x75, 33]);
    expected.extend_from_slice(&user_pk.serialize());
    expected.extend_from_slice(&[0xac, 0x68]);
    assert_eq!(script.as_bytes(), &expected[..]);
    assert_eq!(script.len(), 3 + 33 + 1 + 33 + 3 + 3 + 3 + 33 + 2);
}

#[test]
fn small_and_large_delays_use_their_push_forms() {
    let (_user_sk, user_pk, _server_sk, server_pk) = test_keys();
    let push_at = |delay: u16| {
        let script = build_sip_witness_script(&user_pk, &server_pk, delay);
        let bytes = script.as_bytes().to_vec();
        // OP_IF OP_2 <33> OP_2 OP_CHECKMULTISIG OP_ELSE, then the push.
        let start = 2 + 34 + 34 + 3;
        bytes[start..bytes.len() - (2 + 34 + 2)].to_vec()
    };
    assert_eq!(push_at(0), vec![0x00]);
    assert_eq!(push_at(1), vec![0x51]);
    assert_eq!(push_at(16), vec![0x60]);
    assert_eq!(push_at(17), vec![0x01, 17]);
    assert_eq!(push_at(128), vec![0x02, 0x80, 0x00]);
    assert_eq!(push_at(0x8000), vec![0x03, 0x00, 0x80, 0x00]);
    assert_eq!(push_at(u16::MAX), vec![0x03, 0xff, 0xff, 0x00]);
}

#[test]
fn satisfaction_weights_are_exact() {
    let (_user_sk, user_pk, _server_sk, server_pk) = test_keys();
    let witness_script = build_sip_witness_script(&user_pk, &server_pk, 2016);
    let len = witness_script.len() as u64;
    assert_eq!(cooperative_spend_satisfaction_weight(&witness_script), Weight::from_wu(1 + 1 + 73 + 73 + 2 + 1 + len));
    assert_eq!(refund_spend_satisfaction_weight(&witness_script), Weight::from_wu(1 + 73 + 1 + 1 + len));
    let long_script = ScriptBuf::from_bytes(vec![0x51; 300]);
    assert_eq!(cooperative_spend_satisfaction_weight(&long_script).to_wu(), 150 + 3 + 300);
    assert_eq!(refund_spend_satisfaction_weight(&long_script).to_wu(), 75 + 3 + 300);
}

#[test]
fn witnesses_hold_the_expected_elements() {
    let (user_sk, user_pk, server_sk, server_pk) = test_keys();
    let witness_script = build_sip_witness_script(&user_pk, &server_pk, 144);
    let value = Amount::from_sat(50_000);
    let funding_tx = create_funding_tx(ScriptBuf::new_p2wsh(&witness_script.wscript_hash()), value);
    let spending_tx = create_spending_tx(&funding_tx, 0, Sequence::from_consensus(144));
    let user_sig = sign(&spending_tx, &witness_script, value, &user_sk);
    let server_sig = sign(&spending_tx, &witness_script, value, &server_sk);

    let coop = build_cooperative_witness(&user_sig, &server_sig, &witness_script).to_vec();
    assert_eq!(coop, vec![
        vec![],
        user_sig.serialize().to_vec(),
        server_sig.serialize().to_vec(),
        vec![0x01],
        witness_script.as_bytes().to_vec(),
    ]);

    let refund = build_refund_witness(&user_sig, &witness_script).to_vec();
    assert_eq!(refund, vec![user_sig.serialize().to_vec(), vec![], witness_script.as_bytes().to_vec()]);
}

#[test]
fn satisfaction_weights_cover_the_built_witnesses() {
    let (user_sk, user_pk, server_sk, server_pk) = test_keys();
    let witness_script = build_sip_witness_script(&user_pk, &server_pk, 2016);
    let value = Amount::from_sat(50_000);
    let funding_tx = create_funding_tx(ScriptBuf::new_p2wsh(&witness_script.wscript_hash()), value);
    let spending_tx = create_spending_tx(&funding_tx, 0, Sequence::ENABLE_RBF_NO_LOCKTIME);
    let user_sig = sign(&spending_tx, &witness_script, value, &user_sk);
    let server_sig = sign(&spending_tx, &witness_script, value, &server_sk);
    let user_len = user_sig.serialize().len() as u64;
    let server_len = server_sig.serialize().len() as u64;
    assert!(user_len <= 72 && server_len <= 72);

    let cooperative = build_cooperative_witness(&user_sig, &server_sig, &witness_script);
    let cooperative_weight = cooperative_spend_satisfaction_weight(&witness_script).to_wu();
    assert_eq!(cooperative.size() as u64 + (72 - user_len) + (72 - server_len), cooperative_weight);

    let refund = build_refund_witness(&user_sig, &witness_script);
    let refund_weight = refund_spend_satisfaction_weight(&witness_script).to_wu();
    assert_eq!(refund.size() as u64 + (72 - user_len), refund_weight);
    assert_eq!(cooperative_weight - refund_weight, 75);
}

#[test]
fn sip_address_is_the_p2wsh_address_of_the_script() {
    let (_user_sk, user_pk, _server_sk, server_pk) = test_keys();
    let script = build_sip_witness_script(&user_pk, &server_pk, 2016);
    for network in [Network::Bitcoin, Network::Testnet, Network::Signet, Network::Regtest] {
        assert_eq!(sip_p2wsh_address(&script, network), Address::p2wsh(&script, network).to_string());
    }
    let mainnet = sip_p2wsh_address(&script, Network::Bitcoin);
    assert!(mainnet.starts_with("bc1q"));
    // A P2WSH address holds a 32-byte program: 62 characters on mainnet.
    assert_eq!(mainnet.len(), 62);
    let other = build_sip_witness_script(&user_pk, &server_pk, 4032);
    assert_ne!(sip_p2wsh_address(&other, Network::Bitcoin), mainnet);
}
