//! Swap-in-potentiam address construction and witness building.
//!
//! A SIP address is a P2WSH address encoding a script with two spending paths:
//!
//! - **Cooperative path:** a 2-of-2 multisig requiring signatures from both the user and the
//!   server (LSP). Used for swapping funds into a Lightning channel.
//!
//! - **Refund path:** after a relative timelock (CSV) expires, the user can spend unilaterally
//!   without the server's cooperation.

use vstd::prelude::*;

use bitcoin::secp256k1::PublicKey;
use bitcoin::{Network, ScriptBuf, Weight, Witness};

use crate::btc::{
    builder_into_script, builder_new, builder_push_compressed_key, builder_push_int,
    builder_push_opcode, p2wsh_address_text, push_int_encoding, push_key_encoding, script_num, script_num_magnitude, script_as_bytes,
    script_bytes, script_len, serialize_signature, signature_bytes, weight_from_witness_data_size,
    weight_units, witness_elements, witness_new, witness_push, compressed_key_bytes,
    OP_CHECKMULTISIG, OP_CHECKSIG, OP_CSV, OP_DROP, OP_ELSE, OP_ENDIF, OP_IF, OP_PUSHNUM_2,
};

verus! {

/// The witness script of a swap-in-potentiam address, over the compressed serializations of
/// the user's and the server's keys:
///
/// ```text
/// OP_IF
///   OP_2 <user_key> <server_key> OP_2 OP_CHECKMULTISIG
/// OP_ELSE
///   <csv_delay> OP_CHECKSEQUENCEVERIFY OP_DROP
///   <user_key> OP_CHECKSIG
/// OP_ENDIF
/// ```
pub open spec fn sip_witness_script_spec(user_key: Seq<u8>, server_key: Seq<u8>, csv_delay: u16) -> Seq<u8> {
    seq![OP_IF, OP_PUSHNUM_2]
        + push_key_encoding(user_key)
        + push_key_encoding(server_key)
        + seq![OP_PUSHNUM_2, OP_CHECKMULTISIG, OP_ELSE]
        + push_int_encoding(csv_delay as int)
        + seq![OP_CSV, OP_DROP]
        + push_key_encoding(user_key)
        + seq![OP_CHECKSIG, OP_ENDIF]
}

/// The length of the compact-size prefix that the satisfaction weights count for the witness
/// script push.
pub open spec fn script_push_len(script_len: nat) -> nat {
    if script_len < 253 { 1 } else { 3 }
}

/// Witness bytes of a cooperative spend: item count, empty dummy, two worst-case 72-byte
/// signatures with their length prefixes, the one-byte branch selector with its prefix, and the
/// witness script with its prefix.
pub open spec fn cooperative_witness_size(script_len: nat) -> nat {
    1 + 1 + (1 + 72) + (1 + 72) + (1 + 1) + script_push_len(script_len) + script_len
}

/// Witness bytes of a refund spend: item count, one worst-case 72-byte signature with its
/// length prefix, the empty branch selector, and the witness script with its prefix.
pub open spec fn refund_witness_size(script_len: nat) -> nat {
    1 + (1 + 72) + 1 + script_push_len(script_len) + script_len
}

/// The witness stack of a cooperative spend: the empty `OP_CHECKMULTISIG` dummy, the user's and
/// the server's signatures, `TRUE` to select the `OP_IF` branch, and the witness script.
pub open spec fn cooperative_witness_elements(user_sig: Seq<u8>, server_sig: Seq<u8>, script: Seq<u8>) -> Seq<Seq<u8>> {
    seq![Seq::<u8>::empty(), user_sig, server_sig, seq![0x01u8], script]
}

/// The witness stack of a refund spend: the user's signature, the empty `FALSE` that selects the
/// `OP_ELSE` branch, and the witness script.
pub open spec fn refund_witness_elements(user_sig: Seq<u8>, script: Seq<u8>) -> Seq<Seq<u8>> {
    seq![user_sig, Seq::<u8>::empty(), script]
}

/// The length of the compact-size encoding of a count or a length.
pub open spec fn compact_size_len(n: nat) -> nat {
    if n < 253 {
        1
    } else if n <= 0xffff {
        3
    } else if n <= 0xffff_ffff {
        5
    } else {
        9
    }
}

/// The bytes that witness elements take when serialized: each one after its compact-size length.
pub open spec fn witness_elements_size(elements: Seq<Seq<u8>>) -> nat
    decreases elements.len(),
{
    if elements.len() == 0 {
        0
    } else {
        witness_elements_size(elements.drop_last()) + compact_size_len(elements.last().len())
            + elements.last().len()
    }
}

/// The number of bytes a witness with these elements contributes to a transaction: the
/// compact-size count of its elements, then the elements.
pub open spec fn witness_size(elements: Seq<Seq<u8>>) -> nat {
    compact_size_len(elements.len()) + witness_elements_size(elements)
}

/// Builds the witness script for a swap-in-potentiam address.
///
/// The cooperative branch (`OP_IF`) requires signatures from both parties. The refund branch
/// (`OP_ELSE`) requires only the user's signature after the CSV delay has elapsed.
pub fn build_sip_witness_script(user_key: &PublicKey, server_key: &PublicKey, csv_delay: u16) -> (script: ScriptBuf)
    ensures
        script_bytes(script) == sip_witness_script_spec(
            compressed_key_bytes(*user_key),
            compressed_key_bytes(*server_key),
            csv_delay,
        ),
        compressed_key_bytes(*user_key).len() == 33,
        compressed_key_bytes(*server_key).len() == 33,
{
    let b = builder_new();
    let b = builder_push_opcode(b, OP_IF);
    let b = builder_push_opcode(b, OP_PUSHNUM_2);
    let b = builder_push_compressed_key(b, user_key);
    let b = builder_push_compressed_key(b, server_key);
    let b = builder_push_opcode(b, OP_PUSHNUM_2);
    let b = builder_push_opcode(b, OP_CHECKMULTISIG);
    let b = builder_push_opcode(b, OP_ELSE);
    let b = builder_push_int(b, csv_delay as i64);
    let b = builder_push_opcode(b, OP_CSV);
    let b = builder_push_opcode(b, OP_DROP);
    let b = builder_push_compressed_key(b, user_key);
    let b = builder_push_opcode(b, OP_CHECKSIG);
    let b = builder_push_opcode(b, OP_ENDIF);
    let script = builder_into_script(b);
    proof {
        let u = push_key_encoding(compressed_key_bytes(*user_key));
        let s = push_key_encoding(compressed_key_bytes(*server_key));
        let i = push_int_encoding(csv_delay as int);
        assert(script_bytes(script) =~= seq![OP_IF, OP_PUSHNUM_2] + u + s
            + seq![OP_PUSHNUM_2, OP_CHECKMULTISIG, OP_ELSE] + i + seq![OP_CSV, OP_DROP] + u
            + seq![OP_CHECKSIG, OP_ENDIF]);
    }
    script
}

/// Derives the P2WSH address for a swap-in-potentiam witness script, as text: calls
/// `Address::p2wsh` and displays the address.
#[verifier::external_body]
pub fn sip_p2wsh_address(witness_script: &ScriptBuf, network: Network) -> (address: String)
    ensures
        address@ == p2wsh_address_text(script_bytes(*witness_script), network),
{
    bitcoin::Address::p2wsh(witness_script, network).to_string()
}

/// Builds the witness for spending via the cooperative (2-of-2 multisig) path.
///
/// The witness stack is `<> <user_sig> <server_sig> <TRUE> <witness_script>`: the empty first
/// element is the `OP_CHECKMULTISIG` dummy, and `TRUE` selects the `OP_IF` branch.
pub fn build_cooperative_witness(
    user_sig: &bitcoin::ecdsa::Signature,
    server_sig: &bitcoin::ecdsa::Signature,
    witness_script: &ScriptBuf,
) -> (witness: Witness)
    ensures
        witness_elements(witness) == cooperative_witness_elements(
            signature_bytes(*user_sig),
            signature_bytes(*server_sig),
            script_bytes(*witness_script),
        ),
{
    let mut witness = witness_new();
    let empty: [u8; 0] = [];
    witness_push(&mut witness, &empty);
    let user_bytes = serialize_signature(user_sig);
    witness_push(&mut witness, user_bytes.as_slice());
    let server_bytes = serialize_signature(server_sig);
    witness_push(&mut witness, server_bytes.as_slice());
    let selector: [u8; 1] = [0x01];
    witness_push(&mut witness, &selector);
    witness_push(&mut witness, script_as_bytes(witness_script));
    proof {
        assert(empty@ =~= Seq::<u8>::empty());
        assert(selector@ =~= seq![0x01u8]);
        assert(witness_elements(witness) =~= cooperative_witness_elements(
            signature_bytes(*user_sig),
            signature_bytes(*server_sig),
            script_bytes(*witness_script),
        ));
    }
    witness
}

/// Builds the witness for spending via the refund (CSV timeout) path.
///
/// The witness stack is `<user_sig> <FALSE> <witness_script>`: the empty element selects the
/// `OP_ELSE` branch.
pub fn build_refund_witness(user_sig: &bitcoin::ecdsa::Signature, witness_script: &ScriptBuf) -> (witness: Witness)
    ensures
        witness_elements(witness) == refund_witness_elements(signature_bytes(*user_sig), script_bytes(*witness_script)),
{
    let mut witness = witness_new();
    let user_bytes = serialize_signature(user_sig);
    witness_push(&mut witness, user_bytes.as_slice());
    let empty: [u8; 0] = [];
    witness_push(&mut witness, &empty);
    witness_push(&mut witness, script_as_bytes(witness_script));
    proof {
        assert(empty@ =~= Seq::<u8>::empty());
        assert(witness_elements(witness) =~= refund_witness_elements(
            signature_bytes(*user_sig),
            script_bytes(*witness_script),
        ));
    }
    witness
}

/// Returns the satisfaction weight for the cooperative spending path: the weight of the
/// witness data only, with worst-case 72-byte DER signatures.
pub fn cooperative_spend_satisfaction_weight(witness_script: &ScriptBuf) -> (weight: Weight)
    ensures
        weight_units(weight) == cooperative_witness_size(script_bytes(*witness_script).len()),
{
    let script_len = script_len(witness_script);
    let script_push_len: u64 = if script_len < 253 { 1 } else { 3 };
    let witness_bytes: u64 = 1 + 1 + (1 + 72) + (1 + 72) + (1 + 1) + script_push_len + script_len as u64;
    weight_from_witness_data_size(witness_bytes)
}

/// Returns the satisfaction weight for the refund spending path.
pub fn refund_spend_satisfaction_weight(witness_script: &ScriptBuf) -> (weight: Weight)
    ensures
        weight_units(weight) == refund_witness_size(script_bytes(*witness_script).len()),
{
    let script_len = script_len(witness_script);
    let script_push_len: u64 = if script_len < 253 { 1 } else { 3 };
    let witness_bytes: u64 = 1 + (1 + 72) + 1 + script_push_len + script_len as u64;
    weight_from_witness_data_size(witness_bytes)
}

/// For every witness script, the refund path weighs less than the cooperative path, by exactly
/// 75 weight units: the refund witness carries one signature fewer, no dummy element, and an
/// empty branch selector.
pub proof fn lemma_refund_lighter_than_cooperative(witness_script: ScriptBuf)
    ensures
        refund_witness_size(script_bytes(witness_script).len())
            < cooperative_witness_size(script_bytes(witness_script).len()),
        cooperative_witness_size(script_bytes(witness_script).len())
            == refund_witness_size(script_bytes(witness_script).len()) + 75,
{
}

/// The cooperative satisfaction weight covers the witness of a cooperative spend: with
/// signatures of at most 72 bytes (a low-S DER signature with its sighash byte) and a witness
/// script of at most 0xffff bytes, it exceeds the witness size by exactly what the signatures
/// fall short of 72 bytes.
pub proof fn lemma_cooperative_weight_covers_witness(user_sig: Seq<u8>, server_sig: Seq<u8>, script: Seq<u8>)
    requires
        user_sig.len() <= 72,
        server_sig.len() <= 72,
        script.len() <= 0xffff,
    ensures
        witness_size(cooperative_witness_elements(user_sig, server_sig, script)) + (72 - user_sig.len()) + (72
            - server_sig.len()) == cooperative_witness_size(script.len()),
        witness_size(cooperative_witness_elements(user_sig, server_sig, script)) <= cooperative_witness_size(
            script.len(),
        ),
{
    let w = cooperative_witness_elements(user_sig, server_sig, script);
    assert(w.drop_last() =~= seq![Seq::<u8>::empty(), user_sig, server_sig, seq![0x01u8]]);
    assert(w.drop_last().drop_last() =~= seq![Seq::<u8>::empty(), user_sig, server_sig]);
    assert(w.drop_last().drop_last().drop_last() =~= seq![Seq::<u8>::empty(), user_sig]);
    assert(w.drop_last().drop_last().drop_last().drop_last() =~= seq![Seq::<u8>::empty()]);
    assert(w.drop_last().drop_last().drop_last().drop_last().drop_last() =~= Seq::<Seq<u8>>::empty());
    reveal_with_fuel(witness_elements_size, 6);
}

/// The refund satisfaction weight covers the witness of a refund spend: with a signature of at
/// most 72 bytes and a witness script of at most 0xffff bytes, it exceeds the witness size by
/// exactly what the signature falls short of 72 bytes.
pub proof fn lemma_refund_weight_covers_witness(user_sig: Seq<u8>, script: Seq<u8>)
    requires
        user_sig.len() <= 72,
        script.len() <= 0xffff,
    ensures
        witness_size(refund_witness_elements(user_sig, script)) + (72 - user_sig.len()) == refund_witness_size(
            script.len(),
        ),
        witness_size(refund_witness_elements(user_sig, script)) <= refund_witness_size(script.len()),
{
    let w = refund_witness_elements(user_sig, script);
    assert(w.drop_last() =~= seq![user_sig, Seq::<u8>::empty()]);
    assert(w.drop_last().drop_last() =~= seq![user_sig]);
    assert(w.drop_last().drop_last().drop_last() =~= Seq::<Seq<u8>>::empty());
    reveal_with_fuel(witness_elements_size, 4);
}

/// The explicit form of the push that `push_int_encoding` gives for a delay of 17 or more.
proof fn lemma_push_int_u16(n: u16)
    requires
        n >= 17,
    ensures
        n < 128 ==> push_int_encoding(n as int) == seq![1u8, n as u8],
        128 <= n < 256 ==> push_int_encoding(n as int) == seq![2u8, n as u8, 0u8],
        256 <= n < 32768 ==> push_int_encoding(n as int) == seq![2u8, (n % 256) as u8, (n / 256) as u8],
        32768 <= n ==> push_int_encoding(n as int) == seq![3u8, (n % 256) as u8, (n / 256) as u8, 0u8],
{
    let abs = n as nat;
    if n < 256 {
        assert(script_num_magnitude(abs) == seq![n as u8]);
        if n < 128 {
            assert(script_num(n as int) =~= seq![n as u8]);
        } else {
            assert(script_num(n as int) =~= seq![n as u8, 0u8]);
        }
    } else {
        assert(script_num_magnitude(abs / 256) == seq![(abs / 256) as u8]);
        assert(script_num_magnitude(abs) =~= seq![(n % 256) as u8, (n / 256) as u8]);
        if n < 32768 {
            assert(script_num(n as int) =~= seq![(n % 256) as u8, (n / 256) as u8]);
        } else {
            assert(script_num(n as int) =~= seq![(n % 256) as u8, (n / 256) as u8, 0u8]);
        }
    }
}

/// The push of a delay determines the delay.
proof fn lemma_push_int_u16_injective(a: u16, b: u16)
    requires
        push_int_encoding(a as int) == push_int_encoding(b as int),
    ensures
        a == b,
{
    let ea = push_int_encoding(a as int);
    let eb = push_int_encoding(b as int);
    if a >= 17 {
        lemma_push_int_u16(a);
    }
    if b >= 17 {
        lemma_push_int_u16(b);
    }
    if a < 17 && b < 17 {
        assert(ea[0] == eb[0]);
    } else if a < 17 || b < 17 {
        assert(ea.len() == eb.len());
    } else {
        assert(ea.len() == eb.len());
        assert(ea[1] == eb[1]);
        if a >= 256 || b >= 256 {
            assert(ea[2] == eb[2]);
        }
    }
}

/// Scripts for different CSV delays differ: the witness script determines the refund delay,
/// whatever the keys.
pub proof fn lemma_csv_delay_determines_script(user_key: Seq<u8>, server_key: Seq<u8>, a: u16, b: u16)
    requires
        a != b,
    ensures
        sip_witness_script_spec(user_key, server_key, a) != sip_witness_script_spec(user_key, server_key, b),
{
    let p = seq![OP_IF, OP_PUSHNUM_2] + push_key_encoding(user_key) + push_key_encoding(server_key)
        + seq![OP_PUSHNUM_2, OP_CHECKMULTISIG, OP_ELSE];
    let q = seq![OP_CSV, OP_DROP] + push_key_encoding(user_key) + seq![OP_CHECKSIG, OP_ENDIF];
    let ea = push_int_encoding(a as int);
    let eb = push_int_encoding(b as int);
    let sa = sip_witness_script_spec(user_key, server_key, a);
    let sb = sip_witness_script_spec(user_key, server_key, b);
    assert(sa =~= p + ea + q);
    assert(sb =~= p + eb + q);
    if sa == sb {
        assert(ea.len() == eb.len());
        assert(ea =~= sa.subrange(p.len() as int, (p.len() + ea.len()) as int));
        assert(eb =~= sb.subrange(p.len() as int, (p.len() + eb.len()) as int));
        lemma_push_int_u16_injective(a, b);
    }
}

} // verus!
