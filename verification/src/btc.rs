//! Declarations of the `bitcoin` types that the library carries, and the calls into
//! `bitcoin` that its logic makes, each with the contract that the crate's source shows.

use vstd::prelude::*;
use vstd::string::StringSliceAdditionalSpecFns;

use crate::encoding::{ascii_chars, hex_decode, hex_encode};

use bitcoin::blockdata::script::Builder;
use bitcoin::secp256k1::PublicKey;
use bitcoin::{Amount, BlockHash, OutPoint, ScriptBuf, Transaction, Txid, Weight, Witness};

verus! {

#[verifier::external_type_specification]
#[verifier::external_body]
pub struct ExPublicKey(PublicKey);

#[verifier::external_type_specification]
#[verifier::external_body]
pub struct ExScriptBuf(ScriptBuf);

#[verifier::external_type_specification]
#[verifier::external_body]
pub struct ExBuilder(Builder);

#[verifier::external_type_specification]
#[verifier::external_body]
pub struct ExWitness(Witness);

#[verifier::external_type_specification]
#[verifier::external_body]
pub struct ExWeight(Weight);

#[verifier::external_type_specification]
#[verifier::external_body]
pub struct ExSignature(bitcoin::ecdsa::Signature);

#[verifier::external_type_specification]
#[verifier::external_body]
pub struct ExOutPoint(OutPoint);

#[verifier::external_type_specification]
#[verifier::external_body]
pub struct ExTxid(Txid);

#[verifier::external_type_specification]
#[verifier::external_body]
pub struct ExBlockHash(BlockHash);

#[verifier::external_type_specification]
#[verifier::external_body]
pub struct ExAmount(Amount);

#[verifier::external_type_specification]
#[verifier::external_body]
pub struct ExTransaction(Transaction);

#[verifier::external_type_specification]
#[verifier::external_body]
pub struct ExHeader(bitcoin::block::Header);

#[verifier::external_type_specification]
#[verifier::external_body]
pub struct ExNetwork(bitcoin::Network);

#[verifier::external_type_specification]
#[verifier::external_body]
pub struct ExPartialMerkleTree(bitcoin::merkle_tree::PartialMerkleTree);

// ---------------------------------------------------------------------------------------------
// Names for what the outside code holds or returns.
// ---------------------------------------------------------------------------------------------

/// The bytes of a script (`ScriptBuf` is a byte buffer).
pub uninterp spec fn script_bytes(script: ScriptBuf) -> Seq<u8>;

/// The script bytes that a script `Builder` has collected so far.
pub uninterp spec fn builder_bytes(builder: Builder) -> Seq<u8>;

/// The 33-byte compressed SEC1 serialization of a public key (`PublicKey::serialize`).
pub uninterp spec fn compressed_key_bytes(key: PublicKey) -> Seq<u8>;

/// The serialization of an ECDSA signature with its sighash byte (`Signature::serialize`).
pub uninterp spec fn signature_bytes(sig: bitcoin::ecdsa::Signature) -> Seq<u8>;

/// The elements of a witness stack, bottom first.
pub uninterp spec fn witness_elements(witness: Witness) -> Seq<Seq<u8>>;

/// The number of weight units that a `Weight` stands for (`Weight::to_wu`).
pub uninterp spec fn weight_units(weight: Weight) -> u64;

/// The 32 bytes of a transaction id, in internal byte order (`Txid::to_byte_array`).
pub uninterp spec fn txid_bytes(txid: Txid) -> Seq<u8>;

/// The 32 bytes of a block hash, in internal byte order (`BlockHash::to_byte_array`).
pub uninterp spec fn block_hash_bytes(hash: BlockHash) -> Seq<u8>;

/// The bytes of the id of a transaction (`Transaction::compute_txid`).
pub uninterp spec fn transaction_id(tx: Transaction) -> Seq<u8>;

/// The bytes of the hash of a block header (`Header::block_hash`).
pub uninterp spec fn header_hash(header: bitcoin::block::Header) -> Seq<u8>;

/// The text of the P2WSH address, on the given network, of the witness script with the given
/// bytes (`Address::p2wsh`, then its `Display`): the bech32 encoding of the script's SHA-256.
pub uninterp spec fn p2wsh_address_text(script: Seq<u8>, network: bitcoin::Network) -> Seq<char>;

/// The positions in their block of the transactions that a partial merkle tree matches, as
/// `PartialMerkleTree::extract_matches` lists them.
pub uninterp spec fn merkle_match_indexes(tree: bitcoin::merkle_tree::PartialMerkleTree) -> Seq<u32>;

/// What `Txid::from_str` reads from text: 64 hex digits of either case, standing for the
/// bytes in reverse order.
pub open spec fn txid_hex_decode(text: Seq<u8>) -> Option<Seq<u8>> {
    if text.len() == 64 {
        match hex_decode(text) {
            Some(bytes) => Some(bytes.reverse()),
            None => None,
        }
    } else {
        None
    }
}

/// How `Txid` displays: its bytes in reverse order, as lower-case hex.
pub open spec fn txid_hex_encode(bytes: Seq<u8>) -> Seq<u8> {
    hex_encode(bytes.reverse())
}

// ---------------------------------------------------------------------------------------------
// Script encodings, as `bitcoin::blockdata::script` writes them.
// ---------------------------------------------------------------------------------------------

/// `OP_0`, which pushes the empty byte string.
pub const OP_0: u8 = 0x00;
/// `OP_PUSHNUM_2` (`OP_2`).
pub const OP_PUSHNUM_2: u8 = 0x52;
/// `OP_IF`.
pub const OP_IF: u8 = 0x63;
/// `OP_ELSE`.
pub const OP_ELSE: u8 = 0x67;
/// `OP_ENDIF`.
pub const OP_ENDIF: u8 = 0x68;
/// `OP_DROP`.
pub const OP_DROP: u8 = 0x75;
/// `OP_CHECKSIG`.
pub const OP_CHECKSIG: u8 = 0xac;
/// `OP_CHECKMULTISIG`.
pub const OP_CHECKMULTISIG: u8 = 0xae;
/// `OP_CHECKSEQUENCEVERIFY` (`OP_CSV`).
pub const OP_CSV: u8 = 0xb2;

/// The little-endian magnitude bytes of a script number, most significant byte last.
pub open spec fn script_num_magnitude(abs: nat) -> Seq<u8>
    decreases abs,
{
    if abs <= 0xff {
        seq![abs as u8]
    } else {
        seq![(abs % 256) as u8] + script_num_magnitude(abs / 256)
    }
}

/// The minimal script-number encoding of `n`: little-endian sign-and-magnitude, empty for 0.
pub open spec fn script_num(n: int) -> Seq<u8> {
    if n == 0 {
        seq![]
    } else {
        let neg = n < 0;
        let abs: nat = (if neg { -n } else { n }) as nat;
        let mag = script_num_magnitude(abs);
        let top = mag.last();
        if top >= 0x80 {
            mag.push(if neg { 0x80u8 } else { 0u8 })
        } else {
            mag.drop_last().push(if neg { (top + 0x80) as u8 } else { top })
        }
    }
}

/// The instruction that pushes a short byte string (fewer than 76 bytes): its length, then it.
pub open spec fn push_short_bytes(data: Seq<u8>) -> Seq<u8> {
    seq![data.len() as u8] + data
}

/// The instruction that `Builder::push_int` writes for `n`: a dedicated opcode for -1 and
/// 1 to 16, `OP_0` for 0, and a push of the script-number encoding otherwise.
pub open spec fn push_int_encoding(n: int) -> Seq<u8> {
    if n == -1 || (1 <= n <= 16) {
        seq![(n - 1 + 0x51) as u8]
    } else if n == 0 {
        seq![OP_0]
    } else {
        push_short_bytes(script_num(n))
    }
}

/// The instruction that `Builder::push_key` writes for a compressed key: a 33-byte push.
pub open spec fn push_key_encoding(key: Seq<u8>) -> Seq<u8> {
    seq![33u8] + key
}

// ---------------------------------------------------------------------------------------------
// Calls into `bitcoin`.
// ---------------------------------------------------------------------------------------------

/// `OutPoint` is `Copy` with a derived `Clone`: a clone is the same value.
pub assume_specification[ <OutPoint as Clone>::clone ](outpoint: &OutPoint) -> (copy: OutPoint)
    ensures
        copy == *outpoint,
;

/// `Amount` is `Copy` with a derived `Clone`: a clone is the same value.
pub assume_specification[ <Amount as Clone>::clone ](amount: &Amount) -> (copy: Amount)
    ensures
        copy == *amount,
;

/// `Txid` is `Copy` with a derived `Clone`: a clone is the same value.
pub assume_specification[ <Txid as Clone>::clone ](txid: &Txid) -> (copy: Txid)
    ensures
        copy == *txid,
;

/// `BlockHash` is `Copy` with a derived `Clone`: a clone is the same value.
pub assume_specification[ <BlockHash as Clone>::clone ](hash: &BlockHash) -> (copy: BlockHash)
    ensures
        copy == *hash,
;

/// `ScriptBuf`'s derived `Clone` copies its bytes.
pub assume_specification[ <ScriptBuf as Clone>::clone ](script: &ScriptBuf) -> (copy: ScriptBuf)
    ensures
        script_bytes(copy) == script_bytes(*script),
;

/// `PublicKey` is `Copy` with a derived `Clone`: a clone is the same value.
pub assume_specification[ <PublicKey as Clone>::clone ](key: &PublicKey) -> (copy: PublicKey)
    ensures
        copy == *key,
;

/// Calls `Builder::new`: the builder starts with no script bytes.
#[verifier::external_body]
pub(crate) fn builder_new() -> (builder: Builder)
    ensures
        builder_bytes(builder) == Seq::<u8>::empty(),
{
    Builder::new()
}

/// Calls `Builder::push_opcode` with the opcode of the given byte: the byte is appended.
#[verifier::external_body]
pub(crate) fn builder_push_opcode(builder: Builder, opcode: u8) -> (out: Builder)
    ensures
        builder_bytes(out) == builder_bytes(builder).push(opcode),
{
    builder.push_opcode(bitcoin::Opcode::from(opcode))
}

/// Calls `Builder::push_key` with the key marked compressed: the key's 33-byte serialization is
/// appended as a push of 34 bytes.
#[verifier::external_body]
pub(crate) fn builder_push_compressed_key(builder: Builder, key: &PublicKey) -> (out: Builder)
    ensures
        builder_bytes(out) == builder_bytes(builder) + push_key_encoding(compressed_key_bytes(*key)),
        builder_bytes(out).len() == builder_bytes(builder).len() + 34,
{
    builder.push_key(&bitcoin::PublicKey { inner: *key, compressed: true })
}

/// Calls `Builder::push_int`: the instruction that pushes `n` is appended. `i64::MIN` is left
/// out: its script-number encoding takes nine bytes, and writing it overflows the eight-byte
/// buffer that the builder encodes into.
#[verifier::external_body]
pub(crate) fn builder_push_int(builder: Builder, n: i64) -> (out: Builder)
    requires
        n != i64::MIN,
    ensures
        builder_bytes(out) == builder_bytes(builder) + push_int_encoding(n as int),
{
    builder.push_int(n)
}

/// Calls `Builder::into_script`: the script holds exactly the builder's bytes.
#[verifier::external_body]
pub(crate) fn builder_into_script(builder: Builder) -> (script: ScriptBuf)
    ensures
        script_bytes(script) == builder_bytes(builder),
{
    builder.into_script()
}

/// Calls `Script::len`: the number of bytes of the script. A script is a byte slice, and no
/// slice spans more than `isize::MAX` bytes.
#[verifier::external_body]
pub(crate) fn script_len(script: &ScriptBuf) -> (len: usize)
    ensures
        len == script_bytes(*script).len(),
        len <= isize::MAX,
{
    script.len()
}

/// Calls `Script::as_bytes`.
#[verifier::external_body]
pub(crate) fn script_as_bytes(script: &ScriptBuf) -> (bytes: &[u8])
    ensures
        bytes@ == script_bytes(*script),
{
    script.as_bytes()
}

/// Calls `PartialEq::eq` on two public keys, which compares their compressed serializations (`secp256k1_ec_pubkey_cmp`).
#[verifier::external_body]
pub(crate) fn key_eq(a: &PublicKey, b: &PublicKey) -> (eq: bool)
    ensures
        eq == (compressed_key_bytes(*a) == compressed_key_bytes(*b)),
{
    a == b
}

/// Calls `ecdsa::Signature::serialize`: the DER signature followed by the sighash byte.
#[verifier::external_body]
pub(crate) fn serialize_signature(sig: &bitcoin::ecdsa::Signature) -> (bytes: Vec<u8>)
    ensures
        bytes@ == signature_bytes(*sig),
{
    sig.serialize().to_vec()
}

/// Calls `Witness::new`: a witness with no elements.
#[verifier::external_body]
pub(crate) fn witness_new() -> (witness: Witness)
    ensures
        witness_elements(witness) == Seq::<Seq<u8>>::empty(),
{
    Witness::new()
}

/// Calls `Witness::push`: the element is pushed on top of the stack.
#[verifier::external_body]
pub(crate) fn witness_push(witness: &mut Witness, element: &[u8])
    ensures
        witness_elements(*final(witness)) == witness_elements(*old(witness)).push(element@),
{
    witness.push(element)
}

/// Calls `Weight::from_witness_data_size`: witness bytes count one weight unit each.
#[verifier::external_body]
pub(crate) fn weight_from_witness_data_size(witness_size: u64) -> (weight: Weight)
    ensures
        weight_units(weight) == witness_size,
{
    Weight::from_witness_data_size(witness_size)
}

/// Calls `Txid`'s `Display`, which writes the 32 bytes in reverse order as lower-case hex: 64
/// digits.
#[verifier::external_body]
pub(crate) fn txid_to_hex(txid: &Txid) -> (hex: String)
    ensures
        hex@ == ascii_chars(txid_hex_encode(txid_bytes(*txid))),
        hex@.len() == 64,
{
    txid.to_string()
}

/// Calls `Txid::from_str`, which takes exactly 64 hex digits of either case and reverses the
/// bytes they stand for. A `Txid` is its 32 bytes, so the result is the one with those bytes.
#[verifier::external_body]
pub(crate) fn txid_from_hex(text: &str) -> (txid: Option<Txid>)
    ensures
        match txid_hex_decode(text.spec_bytes()) {
            Some(bytes) => txid is Some && txid_bytes(txid.unwrap()) == bytes,
            None => txid is None,
        },
{
    <Txid as core::str::FromStr>::from_str(text).ok()
}

/// Calls `PartialEq::eq` on two transaction ids, which compares their bytes.
#[verifier::external_body]
pub(crate) fn txid_eq(a: &Txid, b: &Txid) -> (eq: bool)
    ensures
        eq == (txid_bytes(*a) == txid_bytes(*b)),
{
    a == b
}

/// Calls `PartialEq::eq` on two block hashes, which compares their bytes.
#[verifier::external_body]
pub(crate) fn block_hash_eq(a: &BlockHash, b: &BlockHash) -> (eq: bool)
    ensures
        eq == (block_hash_bytes(*a) == block_hash_bytes(*b)),
{
    a == b
}

/// Calls `PartialEq::eq` on two scripts, which compares their bytes.
#[verifier::external_body]
pub(crate) fn script_eq(a: &ScriptBuf, b: &ScriptBuf) -> (eq: bool)
    ensures
        eq == (script_bytes(*a) == script_bytes(*b)),
{
    a == b
}

/// Calls `Header::block_hash`.
#[verifier::external_body]
pub(crate) fn header_block_hash(header: &bitcoin::block::Header) -> (hash: BlockHash)
    ensures
        block_hash_bytes(hash) == header_hash(*header),
{
    header.block_hash()
}

/// Calls `PartialMerkleTree::extract_matches` and returns the indexes it lists, whether or not
/// the tree checks out. The call clears both lists it is handed before it fills them, so the
/// indexes depend on the tree alone.
#[verifier::external_body]
pub(crate) fn tree_match_indexes(tree: &bitcoin::merkle_tree::PartialMerkleTree) -> (indexes: Vec<u32>)
    ensures
        indexes@ == merkle_match_indexes(*tree),
{
    let mut matches = Vec::new();
    let mut indexes = Vec::new();
    let _ = tree.extract_matches(&mut matches, &mut indexes);
    indexes
}

/// Calls `Transaction::compute_txid`.
#[verifier::external_body]
pub(crate) fn compute_txid(tx: &Transaction) -> (txid: Txid)
    ensures
        txid_bytes(txid) == transaction_id(*tx),
{
    tx.compute_txid()
}

} // verus!
