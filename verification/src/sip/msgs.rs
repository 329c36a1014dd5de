//! Message types for the swap-in-potentiam protocol.
//!
//! These messages are transported via the LSPS0 JSON-RPC layer.

use vstd::prelude::*;

use bitcoin::secp256k1::PublicKey;
use bitcoin::OutPoint;

verus! {

/// The JSON-RPC method name of a [`SIPGetInfoRequest`].
pub const SIP_GET_INFO_METHOD_NAME: &'static str = "sip.get_info";
/// The JSON-RPC method name of a [`SIPRegisterUtxoRequest`].
pub const SIP_REGISTER_UTXO_METHOD_NAME: &'static str = "sip.register_utxo";
/// The JSON-RPC method name of a [`SIPSwapRequest`].
pub const SIP_SWAP_REQUEST_METHOD_NAME: &'static str = "sip.swap_request";

/// The identifier of a JSON-RPC request, chosen by the requester.
#[derive(Debug, PartialEq, Eq, Hash)]
pub struct LSPSRequestId(pub String);

impl Clone for LSPSRequestId {
    fn clone(&self) -> (copy: Self)
        ensures
            copy == *self,
    {
        LSPSRequestId(self.0.clone())
    }
}

/// An error object of a JSON-RPC response.
#[derive(Clone, Debug, PartialEq, Eq)]
pub struct LSPSResponseError {
    /// A number that indicates the error type that occurred.
    pub code: i32,
    /// A string providing a short description of the error.
    pub message: String,
    /// A primitive or structured value that contains additional information about the error.
    pub data: Option<String>,
}

/// A request to retrieve the LSP's swap-in-potentiam parameters.
///
/// The client sends this to learn the server's public key for SIP address construction,
/// the supported CSV delay, fee schedule, and swap amount limits.
#[derive(Clone, Debug, PartialEq, Eq, Default)]
pub struct SIPGetInfoRequest {}

/// The LSP's swap-in-potentiam parameters.
#[derive(Clone, Debug, PartialEq, Eq)]
pub struct SIPGetInfoResponse {
    /// The server's public key to use when constructing SIP addresses.
    pub server_pubkey: PublicKey,
    /// The relative timelock (in blocks) for the refund spending path.
    pub csv_delay: u16,
    /// The minimum swap amount in satoshis.
    pub min_swap_amount_sat: u64,
    /// The maximum swap amount in satoshis.
    pub max_swap_amount_sat: u64,
    /// The minimum number of confirmations required before a swap is accepted.
    pub min_confirmations: u16,
}

/// A request to notify the LSP about a deposit to a SIP address.
///
/// The client sends this after detecting an on-chain deposit to a SIP address.
#[derive(Clone, Debug, PartialEq, Eq)]
pub struct SIPRegisterUtxoRequest {
    /// The outpoint of the deposit.
    pub outpoint: OutPoint,
    /// The value of the deposit in satoshis.
    pub value_sat: u64,
    /// The user's public key used in this SIP address.
    pub user_pubkey: PublicKey,
}

/// Response to a UTXO registration request.
#[derive(Clone, Debug, PartialEq, Eq)]
pub struct SIPRegisterUtxoResponse {
    /// Whether the LSP has accepted and is now tracking this UTXO.
    pub accepted: bool,
    /// An optional reason if the UTXO was not accepted.
    pub reason: Option<String>,
}

/// A request to swap confirmed SIP UTXOs into a Lightning channel.
///
/// The client can request either a new channel open or a splice-in to an existing channel.
#[derive(Clone, Debug, PartialEq, Eq)]
pub struct SIPSwapRequest {
    /// The outpoints of the SIP UTXOs to swap.
    pub utxos: Vec<OutPoint>,
    /// If set, splice into this existing channel. If `None`, open a new channel.
    pub channel_id: Option<String>,
}

/// Response to a swap request.
#[derive(Clone, Debug, PartialEq, Eq)]
pub struct SIPSwapResponse {
    /// Whether the swap was accepted.
    pub accepted: bool,
    /// The channel ID for the swap (new or existing).
    pub channel_id: Option<String>,
    /// An optional reason if the swap was not accepted.
    pub reason: Option<String>,
}

/// An enum capturing all valid JSON-RPC requests in the SIP protocol.
#[derive(Clone, Debug, PartialEq, Eq)]
pub enum SIPRequest {
    /// A request to retrieve the LSP's SIP parameters.
    GetInfo(SIPGetInfoRequest),
    /// A request to register a UTXO deposit.
    RegisterUtxo(SIPRegisterUtxoRequest),
    /// A request to swap SIP UTXOs into a channel.
    SwapRequest(SIPSwapRequest),
}

/// An enum capturing all valid JSON-RPC responses in the SIP protocol.
#[derive(Clone, Debug, PartialEq, Eq)]
pub enum SIPResponse {
    /// A successful response to a [`SIPGetInfoRequest`].
    GetInfo(SIPGetInfoResponse),
    /// An error response to a [`SIPGetInfoRequest`].
    GetInfoError(LSPSResponseError),
    /// A successful response to a [`SIPRegisterUtxoRequest`].
    RegisterUtxo(SIPRegisterUtxoResponse),
    /// An error response to a [`SIPRegisterUtxoRequest`].
    RegisterUtxoError(LSPSResponseError),
    /// A successful response to a [`SIPSwapRequest`].
    SwapRequest(SIPSwapResponse),
    /// An error response to a [`SIPSwapRequest`].
    SwapRequestError(LSPSResponseError),
}

/// An enum capturing all valid JSON-RPC messages in the SIP protocol.
#[derive(Clone, Debug, PartialEq, Eq)]
pub enum SIPMessage {
    /// A SIP JSON-RPC request.
    Request(LSPSRequestId, SIPRequest),
    /// A SIP JSON-RPC response.
    Response(LSPSRequestId, SIPResponse),
}

/// A message of the LSPS JSON-RPC layer, as far as this protocol takes part in it.
#[derive(Clone, Debug, PartialEq, Eq)]
pub enum LSPSMessage {
    /// A message that could not be attributed to any protocol.
    Invalid(LSPSResponseError),
    /// A swap-in-potentiam message.
    SIP(SIPMessage),
}

impl TryFrom<LSPSMessage> for SIPMessage {
    type Error = ();

    fn try_from(message: LSPSMessage) -> (res: Result<Self, Self::Error>) {
        if let LSPSMessage::SIP(message) = message {
            return Ok(message);
        }
        Err(())
    }
}

impl vstd::std_specs::convert::TryFromSpecImpl<LSPSMessage> for SIPMessage {
    open spec fn obeys_try_from_spec() -> bool {
        true
    }

    open spec fn try_from_spec(message: LSPSMessage) -> Result<Self, ()> {
        match message {
            LSPSMessage::SIP(m) => Ok(m),
            _ => Err(()),
        }
    }
}

impl From<SIPMessage> for LSPSMessage {
    fn from(message: SIPMessage) -> (res: Self) {
        LSPSMessage::SIP(message)
    }
}

impl vstd::std_specs::convert::FromSpecImpl<SIPMessage> for LSPSMessage {
    open spec fn obeys_from_spec() -> bool {
        true
    }

    open spec fn from_spec(message: SIPMessage) -> Self {
        LSPSMessage::SIP(message)
    }
}

/// Unwrapping a swap-in-potentiam message that was wrapped as an LSPS message gives it back.
pub proof fn lemma_try_from_undoes_from(message: SIPMessage)
    ensures
        <SIPMessage as vstd::std_specs::convert::TryFromSpec<LSPSMessage>>::try_from_spec(
            <LSPSMessage as vstd::std_specs::convert::FromSpec<SIPMessage>>::from_spec(message),
        ) == Ok::<SIPMessage, ()>(message),
{
}

} // verus!
