//! The swap-in-potentiam service handler, [`SIPServiceHandler`].
//!
//! The service answers `sip.get_info` requests itself and hands registrations and swap requests
//! to the application as events.

use vstd::prelude::*;

use bitcoin::secp256k1::PublicKey;

use super::client::{response_handled, PendingRequestsView, RequestKind};
use super::event::{SIPClientEvent, SIPServiceEvent};
use crate::btc::compressed_key_bytes;
use super::msgs::{
    LSPSRequestId, SIPGetInfoResponse, SIPMessage, SIPRegisterUtxoRequest, SIPRequest, SIPResponse,
    SIPSwapRequest,
};

verus! {

/// Service-side configuration for swap-in-potentiam.
#[derive(Clone, Debug)]
pub struct SIPServiceConfig {
    /// The server's public key for SIP address construction.
    pub server_pubkey: PublicKey,
    /// The CSV delay (in blocks) for the refund path.
    pub csv_delay: u16,
    /// Minimum swap amount in satoshis.
    pub min_swap_amount_sat: u64,
    /// Maximum swap amount in satoshis.
    pub max_swap_amount_sat: u64,
    /// Minimum number of confirmations required before accepting a swap.
    pub min_confirmations: u16,
}

/// What the service does with a request it accepted.
#[derive(Debug, Clone, PartialEq, Eq)]
pub enum SIPServiceAction {
    /// Send this message to the client.
    SendMessage(SIPMessage),
    /// Emit this event to the application.
    EmitEvent(SIPServiceEvent),
}

/// Why the service handler refused a message.
#[derive(Debug, Clone, PartialEq, Eq)]
pub enum SIPServiceError {
    /// The service handler received a response; it only takes requests.
    UnexpectedResponse,
}

/// The service-side handler for the swap-in-potentiam protocol.
///
/// This handler manages the protocol flow for an LSP that accepts SIP deposits from clients
/// and facilitates swaps into Lightning channels.
pub struct SIPServiceHandler {
    config: SIPServiceConfig,
}

/// The response that answers a `sip.get_info` request under the given configuration.
pub open spec fn get_info_response_for(config: SIPServiceConfig) -> SIPGetInfoResponse {
    SIPGetInfoResponse {
        server_pubkey: config.server_pubkey,
        csv_delay: config.csv_delay,
        min_swap_amount_sat: config.min_swap_amount_sat,
        max_swap_amount_sat: config.max_swap_amount_sat,
        min_confirmations: config.min_confirmations,
    }
}

impl SIPServiceHandler {
    /// The configuration the handler answers with.
    pub closed spec fn spec_config(&self) -> SIPServiceConfig {
        self.config
    }

    /// Constructs a `SIPServiceHandler`.
    pub fn new(config: SIPServiceConfig) -> (handler: Self)
        ensures
            handler.spec_config() == config,
    {
        SIPServiceHandler { config }
    }

    /// Returns a reference to the service configuration.
    pub fn config(&self) -> (config: &SIPServiceConfig)
        ensures
            *config == self.spec_config(),
    {
        &self.config
    }

    fn handle_get_info(&self, request_id: LSPSRequestId) -> (action: SIPServiceAction)
        ensures
            action == SIPServiceAction::SendMessage(
                SIPMessage::Response(request_id, SIPResponse::GetInfo(get_info_response_for(self.spec_config()))),
            ),
    {
        let response = SIPGetInfoResponse {
            server_pubkey: self.config.server_pubkey,
            csv_delay: self.config.csv_delay,
            min_swap_amount_sat: self.config.min_swap_amount_sat,
            max_swap_amount_sat: self.config.max_swap_amount_sat,
            min_confirmations: self.config.min_confirmations,
        };
        SIPServiceAction::SendMessage(SIPMessage::Response(request_id, SIPResponse::GetInfo(response)))
    }

    fn handle_register_utxo(
        &self,
        request_id: LSPSRequestId,
        counterparty_node_id: &PublicKey,
        params: SIPRegisterUtxoRequest,
    ) -> (action: SIPServiceAction)
        ensures
            action == SIPServiceAction::EmitEvent(SIPServiceEvent::UtxoRegistered {
                counterparty_node_id: *counterparty_node_id,
                request_id,
                outpoint: params.outpoint,
                value_sat: params.value_sat,
                user_pubkey: params.user_pubkey,
            }),
    {
        SIPServiceAction::EmitEvent(SIPServiceEvent::UtxoRegistered {
            counterparty_node_id: *counterparty_node_id,
            request_id,
            outpoint: params.outpoint,
            value_sat: params.value_sat,
            user_pubkey: params.user_pubkey,
        })
    }

    fn handle_swap_request(
        &self,
        request_id: LSPSRequestId,
        counterparty_node_id: &PublicKey,
        params: SIPSwapRequest,
    ) -> (action: SIPServiceAction)
        ensures
            action == SIPServiceAction::EmitEvent(SIPServiceEvent::SwapRequested {
                counterparty_node_id: *counterparty_node_id,
                request_id,
                utxos: params.utxos,
                channel_id: params.channel_id,
            }),
    {
        SIPServiceAction::EmitEvent(SIPServiceEvent::SwapRequested {
            counterparty_node_id: *counterparty_node_id,
            request_id,
            utxos: params.utxos,
            channel_id: params.channel_id,
        })
    }

    /// Handles a message from the client `counterparty_node_id`: a `sip.get_info` request is
    /// answered with the configured parameters, a registration or a swap request becomes an
    /// event for the application, and a response is refused.
    pub fn handle_message(&self, message: SIPMessage, counterparty_node_id: &PublicKey) -> (res: Result<SIPServiceAction, SIPServiceError>)
        ensures
            match message {
                SIPMessage::Request(request_id, SIPRequest::GetInfo(_)) => res == Ok::<SIPServiceAction, SIPServiceError>(
                    SIPServiceAction::SendMessage(SIPMessage::Response(
                        request_id,
                        SIPResponse::GetInfo(get_info_response_for(self.spec_config())),
                    ))),
                SIPMessage::Request(request_id, SIPRequest::RegisterUtxo(params)) => res == Ok::<SIPServiceAction, SIPServiceError>(
                    SIPServiceAction::EmitEvent(SIPServiceEvent::UtxoRegistered {
                        counterparty_node_id: *counterparty_node_id,
                        request_id,
                        outpoint: params.outpoint,
                        value_sat: params.value_sat,
                        user_pubkey: params.user_pubkey,
                    })),
                SIPMessage::Request(request_id, SIPRequest::SwapRequest(params)) => res == Ok::<SIPServiceAction, SIPServiceError>(
                    SIPServiceAction::EmitEvent(SIPServiceEvent::SwapRequested {
                        counterparty_node_id: *counterparty_node_id,
                        request_id,
                        utxos: params.utxos,
                        channel_id: params.channel_id,
                    })),
                SIPMessage::Response(..) => res == Err::<SIPServiceAction, SIPServiceError>(SIPServiceError::UnexpectedResponse),
            },
    {
        match message {
            SIPMessage::Request(request_id, request) => match request {
                SIPRequest::GetInfo(_) => Ok(self.handle_get_info(request_id)),
                SIPRequest::RegisterUtxo(params) => {
                    Ok(self.handle_register_utxo(request_id, counterparty_node_id, params))
                },
                SIPRequest::SwapRequest(params) => {
                    Ok(self.handle_swap_request(request_id, counterparty_node_id, params))
                },
            },
            _ => Err(SIPServiceError::UnexpectedResponse),
        }
    }
}

/// A client that asked an LSP for its parameters learns, from the LSP's answer, exactly the
/// parameters the LSP is configured with.
pub proof fn lemma_client_learns_service_config(
    config: SIPServiceConfig,
    before: PendingRequestsView,
    after: PendingRequestsView,
    lsp_node_id: PublicKey,
    request_id: LSPSRequestId,
    res: Result<Option<SIPClientEvent>, super::client::SIPClientError>,
)
    requires
        before.is_pending(compressed_key_bytes(lsp_node_id), request_id.0@, RequestKind::GetInfo),
        response_handled(before, after, lsp_node_id, request_id, SIPResponse::GetInfo(get_info_response_for(config)), res),
    ensures
        res == Ok::<Option<SIPClientEvent>, super::client::SIPClientError>(Some(SIPClientEvent::GetInfoResponse {
            lsp_node_id,
            server_pubkey: config.server_pubkey,
            csv_delay: config.csv_delay,
            min_swap_amount_sat: config.min_swap_amount_sat,
            max_swap_amount_sat: config.max_swap_amount_sat,
            min_confirmations: config.min_confirmations,
        })),
{
}

} // verus!
