use lightning_kit::sip::client::{SIPClientConfig, SIPClientError, SIPClientHandler};
use lightning_kit::sip::event::{SIPClientEvent, SIPServiceEvent};
use lightning_kit::sip::msgs::{
    LSPSMessage, LSPSRequestId, LSPSResponseError, SIPGetInfoRequest, SIPGetInfoResponse, SIPMessage,
    SIPRegisterUtxoRequest, SIPRegisterUtxoResponse, SIPRequest, SIPResponse, SIPSwapRequest,
    SIPSwapResponse,
};
use lightning_kit::sip::service::{SIPServiceAction, SIPServiceConfig, SIPServiceError, SIPServiceHandler};

use bitcoin::secp256k1::{PublicKey, Secp256k1, SecretKey};
use bitcoin::{OutPoint, Txid};

fn key(byte: u8) -> PublicKey {
    let secp = Secp256k1::new();
    PublicKey::from_secret_key(&secp, &SecretKey::from_slice(&[byte; 32]).unwrap())
}

fn id(s: &str) -> LSPSRequestId {
    LSPSRequestId(s.to_string())
}

fn outpoint(byte: u8, vout: u32) -> OutPoint {
    let txid: Txid = <Txid as bitcoin::hashes::Hash>::from_byte_array([byte; 32]);
    OutPoint::new(txid, vout)
}

fn error(message: &str) -> LSPSResponseError {
    LSPSResponseError { code: 1, message: message.to_string(), data: None }
}

fn service_config() -> SIPServiceConfig {
    SIPServiceConfig {
        server_pubkey: key(0x22),
        csv_delay: 2016,
        min_swap_amount_sat: 10_000,
        max_swap_amount_sat: 10_000_000,
        min_confirmations: 3,
    }
}

#[test]
fn get_info_round_trip_between_client_and_service() {
    let lsp = key(0x33);
    let client_node = key(0x44);
    let mut client = SIPClientHandler::new(SIPClientConfig {});
    let service = SIPServiceHandler::new(service_config());

    let request = client.request_sip_info(lsp, id("req-1"));
    assert_eq!(request, SIPMessage::Request(id("req-1"), SIPRequest::GetInfo(SIPGetInfoRequest {})));

    let answer = match service.handle_message(request, &client_node).unwrap() {
        SIPServiceAction::SendMessage(message) => message,
        other => panic!("unexpected action {:?}", other),
    };
    let event = client.handle_message(answer.clone(), &lsp).unwrap();
    assert_eq!(event, Some(SIPClientEvent::GetInfoResponse {
        lsp_node_id: lsp,
        server_pubkey: key(0x22),
        csv_delay: 2016,
        min_swap_amount_sat: 10_000,
        max_swap_amount_sat: 10_000_000,
        min_confirmations: 3,
    }));

    // The same answer again is refused: the request was already answered.
    assert_eq!(client.handle_message(answer, &lsp), Err(SIPClientError::UnknownRequest { request_id: id("req-1") }));
}

#[test]
fn get_info_response_from_unknown_peer_is_refused() {
    let mut client = SIPClientHandler::new(SIPClientConfig {});
    let response = SIPMessage::Response(id("x"), SIPResponse::GetInfo(SIPGetInfoResponse {
        server_pubkey: key(0x22),
        csv_delay: 144,
        min_swap_amount_sat: 1,
        max_swap_amount_sat: 2,
        min_confirmations: 1,
    }));
    assert_eq!(client.handle_message(response.clone(), &key(0x33)),
        Err(SIPClientError::UnknownPeer { counterparty_node_id: key(0x33) }));

    // Once a request was sent to the peer, an unknown id is an unknown request.
    client.request_swap(key(0x33), id("other"), vec![], None);
    assert_eq!(client.handle_message(response, &key(0x33)), Err(SIPClientError::UnknownRequest { request_id: id("x") }));
}

#[test]
fn get_info_error_is_reported_once() {
    let lsp = key(0x33);
    let mut client = SIPClientHandler::new(SIPClientConfig {});
    client.request_sip_info(lsp, id("a"));
    let response = SIPMessage::Response(id("a"), SIPResponse::GetInfoError(error("busy")));
    assert_eq!(client.handle_message(response.clone(), &lsp).unwrap(),
        Some(SIPClientEvent::GetInfoFailed { lsp_node_id: lsp, error: "busy".to_string() }));
    assert_eq!(client.handle_message(response, &lsp).unwrap(), None);
}

#[test]
fn register_utxo_reports_the_registered_outpoint() {
    let lsp = key(0x33);
    let mut client = SIPClientHandler::new(SIPClientConfig {});
    let op = outpoint(0xab, 0);
    let message = client.register_utxo(lsp, id("r1"), op, 50_000, key(0x11));
    assert_eq!(message, SIPMessage::Request(id("r1"), SIPRequest::RegisterUtxo(SIPRegisterUtxoRequest {
        outpoint: op,
        value_sat: 50_000,
        user_pubkey: key(0x11),
    })));

    let accepted = SIPMessage::Response(id("r1"), SIPResponse::RegisterUtxo(SIPRegisterUtxoResponse { accepted: true, reason: None }));
    assert_eq!(client.handle_message(accepted.clone(), &lsp).unwrap(),
        Some(SIPClientEvent::UtxoRegistered { lsp_node_id: lsp, outpoint: op }));
    assert_eq!(client.handle_message(accepted, &lsp).unwrap(), None);
}

#[test]
fn register_utxo_rejection_without_reason_says_unknown_reason() {
    let lsp = key(0x33);
    let mut client = SIPClientHandler::new(SIPClientConfig {});
    let op = outpoint(0xab, 1);
    client.register_utxo(lsp, id("r1"), op, 50_000, key(0x11));
    let rejected = SIPMessage::Response(id("r1"), SIPResponse::RegisterUtxo(SIPRegisterUtxoResponse { accepted: false, reason: None }));
    assert_eq!(client.handle_message(rejected, &lsp).unwrap(), Some(SIPClientEvent::UtxoRegistrationFailed {
        lsp_node_id: lsp,
        outpoint: op,
        reason: "Unknown reason".to_string(),
    }));
}

#[test]
fn register_utxo_error_reports_the_error_message() {
    let lsp = key(0x33);
    let mut client = SIPClientHandler::new(SIPClientConfig {});
    let op = outpoint(0xcd, 2);
    client.register_utxo(lsp, id("r2"), op, 1, key(0x11));
    let response = SIPMessage::Response(id("r2"), SIPResponse::RegisterUtxoError(error("bad script")));
    assert_eq!(client.handle_message(response, &lsp).unwrap(), Some(SIPClientEvent::UtxoRegistrationFailed {
        lsp_node_id: lsp,
        outpoint: op,
        reason: "bad script".to_string(),
    }));
}

#[test]
fn re_registering_an_id_keeps_the_latest_outpoint() {
    let lsp = key(0x33);
    let mut client = SIPClientHandler::new(SIPClientConfig {});
    client.register_utxo(lsp, id("r"), outpoint(1, 0), 1, key(0x11));
    client.register_utxo(lsp, id("r"), outpoint(2, 5), 1, key(0x11));
    let accepted = SIPMessage::Response(id("r"), SIPResponse::RegisterUtxo(SIPRegisterUtxoResponse { accepted: true, reason: None }));
    assert_eq!(client.handle_message(accepted, &lsp).unwrap(),
        Some(SIPClientEvent::UtxoRegistered { lsp_node_id: lsp, outpoint: outpoint(2, 5) }));
}

#[test]
fn swap_responses() {
    let lsp = key(0x33);
    let mut client = SIPClientHandler::new(SIPClientConfig {});
    let utxos = vec![outpoint(0xcd, 0), outpoint(0xcd, 1)];
    let message = client.request_swap(lsp, id("s1"), utxos.clone(), Some("abc123".to_string()));
    assert_eq!(message, SIPMessage::Request(id("s1"), SIPRequest::SwapRequest(SIPSwapRequest {
        utxos: utxos.clone(),
        channel_id: Some("abc123".to_string()),
    })));
    let accepted = SIPMessage::Response(id("s1"), SIPResponse::SwapRequest(SIPSwapResponse {
        accepted: true,
        channel_id: Some("chan".to_string()),
        reason: None,
    }));
    assert_eq!(client.handle_message(accepted, &lsp).unwrap(), Some(SIPClientEvent::SwapAccepted {
        lsp_node_id: lsp,
        utxos: utxos.clone(),
        channel_id: "chan".to_string(),
    }));

    // Accepted without a channel id: the channel is the one the request asked to splice into.
    client.request_swap(lsp, id("s5"), vec![outpoint(0xce, 2)], Some("splice".to_string()));
    let splice = SIPMessage::Response(id("s5"), SIPResponse::SwapRequest(SIPSwapResponse {
        accepted: true,
        channel_id: None,
        reason: None,
    }));
    assert_eq!(client.handle_message(splice, &lsp).unwrap(), Some(SIPClientEvent::SwapAccepted {
        lsp_node_id: lsp,
        utxos: vec![outpoint(0xce, 2)],
        channel_id: "splice".to_string(),
    }));

    // Accepted, and no channel named either way: reported as failed, and the request resolved.
    client.request_swap(lsp, id("s2"), vec![], None);
    let no_channel = SIPMessage::Response(id("s2"), SIPResponse::SwapRequest(SIPSwapResponse {
        accepted: true,
        channel_id: None,
        reason: None,
    }));
    assert_eq!(client.handle_message(no_channel, &lsp).unwrap(), Some(SIPClientEvent::SwapFailed {
        lsp_node_id: lsp,
        reason: "Swap accepted without a channel id".to_string(),
    }));
    let failed = SIPMessage::Response(id("s2"), SIPResponse::SwapRequestError(error("late")));
    assert_eq!(client.handle_message(failed, &lsp).unwrap(), None);

    client.request_swap(lsp, id("s3"), vec![], None);
    let rejected = SIPMessage::Response(id("s3"), SIPResponse::SwapRequest(SIPSwapResponse {
        accepted: false,
        channel_id: None,
        reason: Some("too small".to_string()),
    }));
    assert_eq!(client.handle_message(rejected, &lsp).unwrap(),
        Some(SIPClientEvent::SwapFailed { lsp_node_id: lsp, reason: "too small".to_string() }));

    client.request_swap(lsp, id("s4"), vec![], None);
    let error_response = SIPMessage::Response(id("s4"), SIPResponse::SwapRequestError(error("offline")));
    assert_eq!(client.handle_message(error_response, &lsp).unwrap(),
        Some(SIPClientEvent::SwapFailed { lsp_node_id: lsp, reason: "offline".to_string() }));
}

#[test]
fn responses_are_matched_per_peer_and_per_kind() {
    let lsp_a = key(0x33);
    let lsp_b = key(0x34);
    let mut client = SIPClientHandler::new(SIPClientConfig {});
    client.request_swap(lsp_a, id("same"), vec![], None);
    client.request_sip_info(lsp_b, id("same"));
    // A swap response from the other peer does not answer the request.
    let swap_failed = SIPMessage::Response(id("same"), SIPResponse::SwapRequestError(error("e")));
    assert_eq!(client.handle_message(swap_failed.clone(), &lsp_b).unwrap(), None);
    // A get_info error from the first peer does not answer its swap request.
    let info_failed = SIPMessage::Response(id("same"), SIPResponse::GetInfoError(error("e")));
    assert_eq!(client.handle_message(info_failed, &lsp_a).unwrap(), None);
    assert_eq!(client.handle_message(swap_failed, &lsp_a).unwrap(),
        Some(SIPClientEvent::SwapFailed { lsp_node_id: lsp_a, reason: "e".to_string() }));
}

#[test]
fn client_refuses_requests() {
    let mut client = SIPClientHandler::new(SIPClientConfig {});
    let request = SIPMessage::Request(id("q"), SIPRequest::GetInfo(SIPGetInfoRequest {}));
    assert_eq!(client.handle_message(request, &key(0x33)), Err(SIPClientError::UnexpectedRequest));
}

#[test]
fn service_turns_requests_into_events() {
    let service = SIPServiceHandler::new(service_config());
    let client_node = key(0x44);
    let op = outpoint(0xab, 0);
    let register = SIPMessage::Request(id("r"), SIPRequest::RegisterUtxo(SIPRegisterUtxoRequest {
        outpoint: op,
        value_sat: 50_000,
        user_pubkey: key(0x11),
    }));
    assert_eq!(service.handle_message(register, &client_node), Ok(SIPServiceAction::EmitEvent(SIPServiceEvent::UtxoRegistered {
        counterparty_node_id: client_node,
        request_id: id("r"),
        outpoint: op,
        value_sat: 50_000,
        user_pubkey: key(0x11),
    })));
    let swap = SIPMessage::Request(id("s"), SIPRequest::SwapRequest(SIPSwapRequest { utxos: vec![op], channel_id: None }));
    assert_eq!(service.handle_message(swap, &client_node), Ok(SIPServiceAction::EmitEvent(SIPServiceEvent::SwapRequested {
        counterparty_node_id: client_node,
        request_id: id("s"),
        utxos: vec![op],
        channel_id: None,
    })));
    let response = SIPMessage::Response(id("s"), SIPResponse::GetInfoError(error("e")));
    assert_eq!(service.handle_message(response, &client_node), Err(SIPServiceError::UnexpectedResponse));
    assert_eq!(service.config().csv_delay, 2016);
}

#[test]
fn lsps_message_wrapping() {
    let message = SIPMessage::Request(id("q"), SIPRequest::GetInfo(SIPGetInfoRequest {}));
    let wrapped: LSPSMessage = message.clone().into();
    assert_eq!(wrapped, LSPSMessage::SIP(message.clone()));
    assert_eq!(SIPMessage::try_from(wrapped), Ok(message));
    assert_eq!(SIPMessage::try_from(LSPSMessage::Invalid(error("parse"))), Err(()));
}

#[test]
fn request_id_clone_is_equal() {
    let a = id("abc");
    assert_eq!(a.clone(), a);
    assert_eq!(SIPGetInfoRequest::default(), SIPGetInfoRequest {});
}
