//! The swap-in-potentiam client handler, [`SIPClientHandler`].
//!
//! The handler keeps, per LSP, the requests it has sent and not yet seen answered. Sending a
//! request records it and gives back the message to enqueue; handling a response resolves the
//! matching request and gives back the event to emit.

use vstd::prelude::*;
use vstd::string::StringExecFns;

use bitcoin::secp256k1::PublicKey;
use bitcoin::OutPoint;

use super::event::SIPClientEvent;
use super::msgs::{
    LSPSRequestId, LSPSResponseError, SIPGetInfoRequest, SIPGetInfoResponse, SIPMessage,
    SIPRegisterUtxoRequest, SIPRegisterUtxoResponse, SIPRequest, SIPResponse, SIPSwapRequest,
    SIPSwapResponse,
};
use crate::btc::{compressed_key_bytes, key_eq};
use crate::keyed::{
    key_map, key_set, keys_distinct, lemma_key_map_index, lemma_key_map_push, lemma_key_map_remove,
    lemma_key_map_update, lemma_key_set_contains, lemma_key_set_empty, lemma_key_set_push,
    lemma_key_set_remove,
};

verus! {

/// Client-side configuration for swap-in-potentiam.
#[derive(Clone, Debug)]
pub struct SIPClientConfig {}

/// The kinds of request that the client tracks.
#[derive(Clone, Copy, Debug, PartialEq, Eq)]
pub enum RequestKind {
    /// A `sip.get_info` request.
    GetInfo,
    /// A `sip.register_utxo` request.
    RegisterUtxo,
    /// A `sip.swap_request` request.
    Swap,
}

/// The requests that a client has sent and not yet seen answered. A request is named by the
/// LSP's compressed key and the request id.
#[verifier::ext_equal]
pub struct PendingRequestsView {
    /// The LSPs to which a request was ever sent.
    pub peers: Set<Seq<u8>>,
    /// Pending `sip.get_info` requests.
    pub get_info: Set<(Seq<u8>, Seq<char>)>,
    /// Pending `sip.register_utxo` requests, with the outpoint each one registers.
    pub register_utxo: Map<(Seq<u8>, Seq<char>), OutPoint>,
    /// Pending `sip.swap_request` requests, with what each one asked to swap.
    pub swap: Map<(Seq<u8>, Seq<char>), SwapSent>,
}

/// What a `sip.swap_request` request asked for: the outpoints to swap, and the channel to splice
/// into, if any.
#[verifier::ext_equal]
pub struct SwapSent {
    /// The outpoints of the SIP UTXOs to swap.
    pub utxos: Seq<OutPoint>,
    /// The channel to splice into; none for a new channel.
    pub channel_id: Option<Seq<char>>,
}

/// A request as the client sent it, with what its response is matched against.
pub enum SentRequest {
    /// A `sip.get_info` request.
    GetInfo,
    /// A `sip.register_utxo` request for the given outpoint.
    RegisterUtxo(OutPoint),
    /// A `sip.swap_request` request.
    Swap(SwapSent),
}

impl SentRequest {
    /// The kind of the request.
    pub open spec fn kind(self) -> RequestKind {
        match self {
            SentRequest::GetInfo => RequestKind::GetInfo,
            SentRequest::RegisterUtxo(_) => RequestKind::RegisterUtxo,
            SentRequest::Swap(_) => RequestKind::Swap,
        }
    }
}

impl PendingRequestsView {
    /// No request sent yet.
    pub open spec fn empty() -> Self {
        PendingRequestsView {
            peers: Set::empty(),
            get_info: Set::empty(),
            register_utxo: Map::empty(),
            swap: Map::empty(),
        }
    }

    /// Every pending request names an LSP to which a request was sent.
    pub open spec fn inv(self) -> bool {
        &&& forall|r: (Seq<u8>, Seq<char>)| #[trigger] self.get_info.contains(r) ==> self.peers.contains(r.0)
        &&& forall|r: (Seq<u8>, Seq<char>)| #[trigger] self.register_utxo.contains_key(r) ==> self.peers.contains(r.0)
        &&& forall|r: (Seq<u8>, Seq<char>)| #[trigger] self.swap.contains_key(r) ==> self.peers.contains(r.0)
    }

    /// Whether the request `id` of the given kind, sent to `peer`, awaits its response.
    pub open spec fn is_pending(self, peer: Seq<u8>, id: Seq<char>, kind: RequestKind) -> bool {
        match kind {
            RequestKind::GetInfo => self.get_info.contains((peer, id)),
            RequestKind::RegisterUtxo => self.register_utxo.contains_key((peer, id)),
            RequestKind::Swap => self.swap.contains_key((peer, id)),
        }
    }

    /// The state after sending `request` to `peer` under the id `id`.
    pub open spec fn add_request(self, peer: Seq<u8>, id: Seq<char>, request: SentRequest) -> Self {
        let peers = self.peers.insert(peer);
        match request {
            SentRequest::GetInfo => PendingRequestsView { peers, get_info: self.get_info.insert((peer, id)), ..self },
            SentRequest::RegisterUtxo(outpoint) => PendingRequestsView {
                peers,
                register_utxo: self.register_utxo.insert((peer, id), outpoint),
                ..self
            },
            SentRequest::Swap(sent) => PendingRequestsView { peers, swap: self.swap.insert((peer, id), sent), ..self },
        }
    }

    /// The state after a response to request `id` of the given kind arrives from `peer`: the
    /// request is no longer pending; nothing else changes.
    pub open spec fn resolve(self, peer: Seq<u8>, id: Seq<char>, kind: RequestKind) -> Self {
        match kind {
            RequestKind::GetInfo => PendingRequestsView { get_info: self.get_info.remove((peer, id)), ..self },
            RequestKind::RegisterUtxo => PendingRequestsView {
                register_utxo: self.register_utxo.remove((peer, id)),
                ..self
            },
            RequestKind::Swap => PendingRequestsView { swap: self.swap.remove((peer, id)), ..self },
        }
    }
}

/// The kind of request that a response answers.
pub open spec fn response_kind(response: SIPResponse) -> RequestKind {
    match response {
        SIPResponse::GetInfo(_) | SIPResponse::GetInfoError(_) => RequestKind::GetInfo,
        SIPResponse::RegisterUtxo(_) | SIPResponse::RegisterUtxoError(_) => RequestKind::RegisterUtxo,
        SIPResponse::SwapRequest(_) | SIPResponse::SwapRequestError(_) => RequestKind::Swap,
    }
}

/// The text that stands for a rejection reason the LSP did not give.
pub open spec fn unknown_reason() -> Seq<char> {
    seq!['U', 'n', 'k', 'n', 'o', 'w', 'n', ' ', 'r', 'e', 'a', 's', 'o', 'n']
}

/// The text that stands for an accepted swap that names no channel.
pub open spec fn no_channel_reason() -> Seq<char> {
    seq!['S', 'w', 'a', 'p', ' ', 'a', 'c', 'c', 'e', 'p', 't', 'e', 'd', ' ', 'w', 'i', 't', 'h', 'o', 'u', 't', ' ', 'a',
        ' ', 'c', 'h', 'a', 'n', 'n', 'e', 'l', ' ', 'i', 'd']
}

/// The channel of an accepted swap: the one the LSP's response names, or else the one the
/// request asked to splice into.
pub open spec fn swap_channel(response_channel_id: Option<String>, sent: SwapSent) -> Option<Seq<char>> {
    match response_channel_id {
        Some(c) => Some(c@),
        None => sent.channel_id,
    }
}

/// The reason text of a rejection: the LSP's reason, or "Unknown reason".
pub open spec fn reason_text(reason: Option<String>) -> Seq<char> {
    match reason {
        Some(r) => r@,
        None => unknown_reason(),
    }
}

/// What handling `response`, carrying `request_id`, from the LSP `node` does: a response to a
/// pending request resolves it and gives the event that reports it; any other response changes
/// nothing and gives no event (a `sip.get_info` response is then refused as coming from an
/// unknown LSP or answering an unknown request). An accepted swap is reported with the outpoints
/// its request named, on the channel that the response names or else the one the request asked
/// to splice into; an accepted swap that names no channel either way is reported failed.
pub open spec fn response_handled(
    before: PendingRequestsView,
    after: PendingRequestsView,
    node: PublicKey,
    request_id: LSPSRequestId,
    response: SIPResponse,
    res: Result<Option<SIPClientEvent>, SIPClientError>,
) -> bool {
    let peer = compressed_key_bytes(node);
    let id = request_id.0@;
    let kind = response_kind(response);
    if before.is_pending(peer, id, kind) {
        &&& after == before.resolve(peer, id, kind)
        &&& match response {
            SIPResponse::GetInfo(r) => res == Ok::<Option<SIPClientEvent>, SIPClientError>(
                Some(SIPClientEvent::GetInfoResponse {
                    lsp_node_id: node,
                    server_pubkey: r.server_pubkey,
                    csv_delay: r.csv_delay,
                    min_swap_amount_sat: r.min_swap_amount_sat,
                    max_swap_amount_sat: r.max_swap_amount_sat,
                    min_confirmations: r.min_confirmations,
                })),
            SIPResponse::GetInfoError(e) => res == Ok::<Option<SIPClientEvent>, SIPClientError>(
                Some(SIPClientEvent::GetInfoFailed { lsp_node_id: node, error: e.message })),
            SIPResponse::RegisterUtxo(r) => {
                let registered = before.register_utxo[(peer, id)];
                if r.accepted {
                    res == Ok::<Option<SIPClientEvent>, SIPClientError>(
                        Some(SIPClientEvent::UtxoRegistered { lsp_node_id: node, outpoint: registered }))
                } else {
                    &&& res matches Ok(Some(SIPClientEvent::UtxoRegistrationFailed { lsp_node_id, outpoint, reason }))
                    &&& lsp_node_id == node
                    &&& outpoint == registered
                    &&& reason@ == reason_text(r.reason)
                }
            },
            SIPResponse::RegisterUtxoError(e) => res == Ok::<Option<SIPClientEvent>, SIPClientError>(
                Some(SIPClientEvent::UtxoRegistrationFailed {
                    lsp_node_id: node,
                    outpoint: before.register_utxo[(peer, id)],
                    reason: e.message,
                })),
            SIPResponse::SwapRequest(r) => {
                let sent = before.swap[(peer, id)];
                if r.accepted {
                    match swap_channel(r.channel_id, sent) {
                        Some(c) => {
                            &&& res matches Ok(Some(SIPClientEvent::SwapAccepted { lsp_node_id, utxos, channel_id }))
                            &&& lsp_node_id == node
                            &&& utxos@ == sent.utxos
                            &&& channel_id@ == c
                        },
                        None => {
                            &&& res matches Ok(Some(SIPClientEvent::SwapFailed { lsp_node_id, reason }))
                            &&& lsp_node_id == node
                            &&& reason@ == no_channel_reason()
                        },
                    }
                } else {
                    &&& res matches Ok(Some(SIPClientEvent::SwapFailed { lsp_node_id, reason }))
                    &&& lsp_node_id == node
                    &&& reason@ == reason_text(r.reason)
                }
            },
            SIPResponse::SwapRequestError(e) => res == Ok::<Option<SIPClientEvent>, SIPClientError>(
                Some(SIPClientEvent::SwapFailed { lsp_node_id: node, reason: e.message })),
        }
    } else {
        &&& after == before
        &&& match response {
            SIPResponse::GetInfo(_) => if !before.peers.contains(peer) {
                res == Err::<Option<SIPClientEvent>, SIPClientError>(
                    SIPClientError::UnknownPeer { counterparty_node_id: node })
            } else {
                res == Err::<Option<SIPClientEvent>, SIPClientError>(SIPClientError::UnknownRequest { request_id })
            },
            _ => res == Ok::<Option<SIPClientEvent>, SIPClientError>(None),
        }
    }
}

/// Why the client handler refused a message.
#[derive(Debug, Clone, PartialEq, Eq)]
pub enum SIPClientError {
    /// A `sip.get_info` response answered no pending request.
    UnknownRequest {
        /// The id that the response carried.
        request_id: LSPSRequestId,
    },
    /// A `sip.get_info` response came from an LSP to which no request was ever sent.
    UnknownPeer {
        /// The LSP's node id.
        counterparty_node_id: PublicKey,
    },
    /// The client handler received a request; it only takes responses.
    UnexpectedRequest,
}

/// The client-side handler for the swap-in-potentiam protocol.
///
/// This handler manages the protocol flow for a wallet user that wants to swap on-chain funds
/// deposited at SIP addresses into Lightning channels via their LSP.
pub struct SIPClientHandler {
    peers: Vec<PublicKey>,
    pending_get_info_requests: Vec<(PublicKey, LSPSRequestId)>,
    pending_register_utxo_requests: Vec<(PublicKey, LSPSRequestId, OutPoint)>,
    pending_swap_requests: Vec<(PublicKey, LSPSRequestId, Vec<OutPoint>, Option<String>)>,
    config: SIPClientConfig,
}

spec fn peer_key() -> spec_fn(PublicKey) -> Seq<u8> {
    |k: PublicKey| compressed_key_bytes(k)
}

spec fn pair_key() -> spec_fn((PublicKey, LSPSRequestId)) -> (Seq<u8>, Seq<char>) {
    |e: (PublicKey, LSPSRequestId)| (compressed_key_bytes(e.0), e.1.0@)
}

spec fn triple_key() -> spec_fn((PublicKey, LSPSRequestId, OutPoint)) -> (Seq<u8>, Seq<char>) {
    |e: (PublicKey, LSPSRequestId, OutPoint)| (compressed_key_bytes(e.0), e.1.0@)
}

spec fn triple_outpoint() -> spec_fn((PublicKey, LSPSRequestId, OutPoint)) -> OutPoint {
    |e: (PublicKey, LSPSRequestId, OutPoint)| e.2
}

spec fn swap_key() -> spec_fn((PublicKey, LSPSRequestId, Vec<OutPoint>, Option<String>)) -> (Seq<u8>, Seq<char>) {
    |e: (PublicKey, LSPSRequestId, Vec<OutPoint>, Option<String>)| (compressed_key_bytes(e.0), e.1.0@)
}

/// The view of an optional channel id.
pub open spec fn channel_id_view(channel_id: Option<String>) -> Option<Seq<char>> {
    match channel_id {
        Some(c) => Some(c@),
        None => None,
    }
}

spec fn swap_sent() -> spec_fn((PublicKey, LSPSRequestId, Vec<OutPoint>, Option<String>)) -> SwapSent {
    |e: (PublicKey, LSPSRequestId, Vec<OutPoint>, Option<String>)| SwapSent { utxos: e.2@, channel_id: channel_id_view(e.3) }
}

impl View for SIPClientHandler {
    type V = PendingRequestsView;

    closed spec fn view(&self) -> PendingRequestsView {
        PendingRequestsView {
            peers: key_set(self.peers@, peer_key()),
            get_info: key_set(self.pending_get_info_requests@, pair_key()),
            register_utxo: key_map(self.pending_register_utxo_requests@, triple_key(), triple_outpoint()),
            swap: key_map(self.pending_swap_requests@, swap_key(), swap_sent()),
        }
    }
}

/// Looks up the position of the entry for `node` and `id`.
fn find_pair(v: &Vec<(PublicKey, LSPSRequestId)>, node: &PublicKey, id: &LSPSRequestId) -> (found: Option<usize>)
    ensures
        match found {
            Some(i) => i < v.len() && (pair_key())(v@[i as int]) == (compressed_key_bytes(*node), id.0@),
            None => !key_set(v@, pair_key()).contains((compressed_key_bytes(*node), id.0@)),
        },
{
    let mut i: usize = 0;
    while i < v.len()
        invariant
            i <= v.len(),
            forall|j: int| 0 <= j < i ==> (pair_key())(#[trigger] v@[j]) != (compressed_key_bytes(*node), id.0@),
        decreases v.len() - i,
    {
        if key_eq(&v[i].0, node) && v[i].1.0 == id.0 {
            return Some(i);
        }
        i += 1;
    }
    None
}

/// Looks up the position of the `sip.register_utxo` entry for `node` and `id`.
fn find_triple(v: &Vec<(PublicKey, LSPSRequestId, OutPoint)>, node: &PublicKey, id: &LSPSRequestId) -> (found: Option<usize>)
    ensures
        match found {
            Some(i) => i < v.len() && (triple_key())(v@[i as int]) == (compressed_key_bytes(*node), id.0@),
            None => !key_set(v@, triple_key()).contains((compressed_key_bytes(*node), id.0@)),
        },
{
    let mut i: usize = 0;
    while i < v.len()
        invariant
            i <= v.len(),
            forall|j: int| 0 <= j < i ==> (triple_key())(#[trigger] v@[j]) != (compressed_key_bytes(*node), id.0@),
        decreases v.len() - i,
    {
        if key_eq(&v[i].0, node) && v[i].1.0 == id.0 {
            return Some(i);
        }
        i += 1;
    }
    None
}

/// Adds the entry for `node` and `id` unless it is there already.
fn insert_pair(v: &mut Vec<(PublicKey, LSPSRequestId)>, node: PublicKey, id: LSPSRequestId)
    requires
        keys_distinct(old(v)@, pair_key()),
    ensures
        keys_distinct(final(v)@, pair_key()),
        key_set(final(v)@, pair_key()) == key_set(old(v)@, pair_key()).insert((compressed_key_bytes(node), id.0@)),
{
    match find_pair(v, &node, &id) {
        Some(i) => {
            proof {
                lemma_key_set_contains(v@, pair_key(), i as int);
                assert(key_set(v@, pair_key()).insert((compressed_key_bytes(node), id.0@)) =~= key_set(v@, pair_key()));
            }
        },
        None => {
            proof {
                lemma_key_set_push(v@, pair_key(), (node, id));
            }
            v.push((node, id));
        },
    }
}

/// Removes the entry for `node` and `id`, telling whether it was there.
fn remove_pair(v: &mut Vec<(PublicKey, LSPSRequestId)>, node: &PublicKey, id: &LSPSRequestId) -> (removed: bool)
    requires
        keys_distinct(old(v)@, pair_key()),
    ensures
        keys_distinct(final(v)@, pair_key()),
        removed == key_set(old(v)@, pair_key()).contains((compressed_key_bytes(*node), id.0@)),
        key_set(final(v)@, pair_key()) == key_set(old(v)@, pair_key()).remove((compressed_key_bytes(*node), id.0@)),
{
    match find_pair(v, node, id) {
        Some(i) => {
            proof {
                lemma_key_set_contains(v@, pair_key(), i as int);
                lemma_key_set_remove(v@, pair_key(), i as int);
            }
            v.remove(i);
            true
        },
        None => {
            proof {
                assert(key_set(v@, pair_key()).remove((compressed_key_bytes(*node), id.0@)) =~= key_set(v@, pair_key()));
            }
            false
        },
    }
}

/// The text "Unknown reason".
fn unknown_reason_string() -> (s: String)
    ensures
        s@ == unknown_reason(),
{
    let s = String::from_str("Unknown reason");
    proof {
        reveal_strlit("Unknown reason");
    }
    s
}

/// Removes the `sip.register_utxo` entry for `node` and `id`, giving back its outpoint.
fn remove_triple(v: &mut Vec<(PublicKey, LSPSRequestId, OutPoint)>, node: &PublicKey, id: &LSPSRequestId) -> (removed: Option<OutPoint>)
    requires
        keys_distinct(old(v)@, triple_key()),
    ensures
        keys_distinct(final(v)@, triple_key()),
        ({
            let k = (compressed_key_bytes(*node), id.0@);
            let m = key_map(old(v)@, triple_key(), triple_outpoint());
            &&& key_map(final(v)@, triple_key(), triple_outpoint()) == m.remove(k)
            &&& match removed {
                Some(o) => m.contains_key(k) && o == m[k],
                None => !m.contains_key(k),
            }
        }),
{
    match find_triple(v, node, id) {
        Some(i) => {
            proof {
                lemma_key_map_index(v@, triple_key(), triple_outpoint(), i as int);
                lemma_key_map_remove(v@, triple_key(), triple_outpoint(), i as int);
            }
            let entry = v.remove(i);
            Some(entry.2)
        },
        None => {
            proof {
                assert(key_map(v@, triple_key(), triple_outpoint()).remove((compressed_key_bytes(*node), id.0@))
                    =~= key_map(v@, triple_key(), triple_outpoint()));
            }
            None
        },
    }
}

/// Looks up the position of the `sip.swap_request` entry for `node` and `id`.
fn find_swap(
    v: &Vec<(PublicKey, LSPSRequestId, Vec<OutPoint>, Option<String>)>,
    node: &PublicKey,
    id: &LSPSRequestId,
) -> (found: Option<usize>)
    ensures
        match found {
            Some(i) => i < v.len() && (swap_key())(v@[i as int]) == (compressed_key_bytes(*node), id.0@),
            None => !key_set(v@, swap_key()).contains((compressed_key_bytes(*node), id.0@)),
        },
{
    let mut i: usize = 0;
    while i < v.len()
        invariant
            i <= v.len(),
            forall|j: int| 0 <= j < i ==> (swap_key())(#[trigger] v@[j]) != (compressed_key_bytes(*node), id.0@),
        decreases v.len() - i,
    {
        if key_eq(&v[i].0, node) && v[i].1.0 == id.0 {
            return Some(i);
        }
        i += 1;
    }
    None
}

/// Removes the `sip.swap_request` entry for `node` and `id`, giving back what it asked to swap.
fn remove_swap(
    v: &mut Vec<(PublicKey, LSPSRequestId, Vec<OutPoint>, Option<String>)>,
    node: &PublicKey,
    id: &LSPSRequestId,
) -> (removed: Option<(Vec<OutPoint>, Option<String>)>)
    requires
        keys_distinct(old(v)@, swap_key()),
    ensures
        keys_distinct(final(v)@, swap_key()),
        ({
            let k = (compressed_key_bytes(*node), id.0@);
            let m = key_map(old(v)@, swap_key(), swap_sent());
            &&& key_map(final(v)@, swap_key(), swap_sent()) == m.remove(k)
            &&& match removed {
                Some((utxos, channel_id)) => m.contains_key(k) && m[k] == (SwapSent {
                    utxos: utxos@,
                    channel_id: channel_id_view(channel_id),
                }),
                None => !m.contains_key(k),
            }
        }),
{
    match find_swap(v, node, id) {
        Some(i) => {
            proof {
                lemma_key_map_index(v@, swap_key(), swap_sent(), i as int);
                lemma_key_map_remove(v@, swap_key(), swap_sent(), i as int);
            }
            let (_, _, utxos, channel_id) = v.remove(i);
            Some((utxos, channel_id))
        },
        None => {
            proof {
                assert(key_map(v@, swap_key(), swap_sent()).remove((compressed_key_bytes(*node), id.0@))
                    =~= key_map(v@, swap_key(), swap_sent()));
            }
            None
        },
    }
}

/// A copy of the outpoints.
fn copy_outpoints(utxos: &Vec<OutPoint>) -> (copy: Vec<OutPoint>)
    ensures
        copy@ == utxos@,
{
    let mut copy: Vec<OutPoint> = Vec::new();
    let mut i: usize = 0;
    while i < utxos.len()
        invariant
            i <= utxos.len(),
            copy@ =~= utxos@.subrange(0, i as int),
        decreases utxos.len() - i,
    {
        copy.push(utxos[i]);
        i += 1;
    }
    proof {
        assert(utxos@.subrange(0, utxos@.len() as int) =~= utxos@);
    }
    copy
}

/// A copy of an optional channel id.
fn copy_channel_id(channel_id: &Option<String>) -> (copy: Option<String>)
    ensures
        copy == *channel_id,
{
    match channel_id {
        Some(c) => Some(c.clone()),
        None => None,
    }
}

/// The text "Swap accepted without a channel id".
fn no_channel_reason_string() -> (s: String)
    ensures
        s@ == no_channel_reason(),
{
    let s = String::from_str("Swap accepted without a channel id");
    proof {
        reveal_strlit("Swap accepted without a channel id");
    }
    s
}

impl SIPClientHandler {
    /// The entries are consistent: no entry is listed twice, and every pending request names a
    /// known LSP.
    pub closed spec fn wf(&self) -> bool {
        &&& keys_distinct(self.peers@, peer_key())
        &&& keys_distinct(self.pending_get_info_requests@, pair_key())
        &&& keys_distinct(self.pending_register_utxo_requests@, triple_key())
        &&& keys_distinct(self.pending_swap_requests@, swap_key())
        &&& self@.inv()
    }

    /// Constructs a `SIPClientHandler` with no request sent.
    pub fn new(config: SIPClientConfig) -> (handler: Self)
        ensures
            handler.wf(),
            handler@ == PendingRequestsView::empty(),
    {
        let handler = SIPClientHandler {
            peers: Vec::new(),
            pending_get_info_requests: Vec::new(),
            pending_register_utxo_requests: Vec::new(),
            pending_swap_requests: Vec::new(),
            config,
        };
        proof {
            lemma_key_set_empty(handler.peers@, peer_key());
            lemma_key_set_empty(handler.pending_get_info_requests@, pair_key());
            lemma_key_set_empty(handler.pending_swap_requests@, swap_key());
            assert(key_map(handler.pending_swap_requests@, swap_key(), swap_sent())
                =~= Map::<(Seq<u8>, Seq<char>), SwapSent>::empty());
            lemma_key_set_empty(handler.pending_register_utxo_requests@, triple_key());
            assert(key_map(handler.pending_register_utxo_requests@, triple_key(), triple_outpoint())
                =~= Map::<(Seq<u8>, Seq<char>), OutPoint>::empty());
        }
        handler
    }

    /// Records `node` as a known LSP.
    fn add_peer(&mut self, node: &PublicKey)
        requires
            old(self).wf(),
        ensures
            final(self).wf(),
            final(self)@ == (PendingRequestsView { peers: old(self)@.peers.insert(compressed_key_bytes(*node)), ..old(self)@ }),
    {
        let mut i: usize = 0;
        while i < self.peers.len()
            invariant
                i <= self.peers.len(),
                self.wf(),
                self == old(self),
                forall|j: int| 0 <= j < i ==> compressed_key_bytes(#[trigger] self.peers@[j]) != compressed_key_bytes(*node),
            decreases self.peers.len() - i,
        {
            if key_eq(&self.peers[i], node) {
                proof {
                    lemma_key_set_contains(self.peers@, peer_key(), i as int);
                    assert(key_set(self.peers@, peer_key()).insert(compressed_key_bytes(*node)) =~= key_set(self.peers@, peer_key()));
                }
                return;
            }
            i += 1;
        }
        proof {
            assert(!key_set(self.peers@, peer_key()).contains(compressed_key_bytes(*node)));
            lemma_key_set_push(self.peers@, peer_key(), *node);
        }
        self.peers.push(*node);
        proof {
            assert(self@ =~= (PendingRequestsView { peers: old(self)@.peers.insert(compressed_key_bytes(*node)), ..old(self)@ }));
        }
    }

    /// Whether a request was ever sent to `node`.
    fn has_peer(&self, node: &PublicKey) -> (known: bool)
        ensures
            known == self@.peers.contains(compressed_key_bytes(*node)),
    {
        let mut i: usize = 0;
        while i < self.peers.len()
            invariant
                i <= self.peers.len(),
                forall|j: int| 0 <= j < i ==> compressed_key_bytes(#[trigger] self.peers@[j]) != compressed_key_bytes(*node),
            decreases self.peers.len() - i,
        {
            if key_eq(&self.peers[i], node) {
                proof {
                    lemma_key_set_contains(self.peers@, peer_key(), i as int);
                }
                return true;
            }
            i += 1;
        }
        false
    }

    /// Requests the LSP's swap-in-potentiam parameters under the given request id, and returns
    /// the message to send to the LSP. The response will be emitted as a
    /// [`SIPClientEvent::GetInfoResponse`].
    pub fn request_sip_info(&mut self, counterparty_node_id: PublicKey, request_id: LSPSRequestId) -> (message: SIPMessage)
        requires
            old(self).wf(),
        ensures
            final(self).wf(),
            final(self)@ == old(self)@.add_request(
                compressed_key_bytes(counterparty_node_id),
                request_id.0@,
                SentRequest::GetInfo,
            ),
            message == SIPMessage::Request(request_id, SIPRequest::GetInfo(SIPGetInfoRequest {})),
    {
        self.add_peer(&counterparty_node_id);
        let id = request_id.clone();
        insert_pair(&mut self.pending_get_info_requests, counterparty_node_id, id);
        proof {
            assert(self@ =~= old(self)@.add_request(
                compressed_key_bytes(counterparty_node_id),
                request_id.0@,
                SentRequest::GetInfo,
            ));
        }
        SIPMessage::Request(request_id, SIPRequest::GetInfo(SIPGetInfoRequest {}))
    }

    /// Notifies the LSP about a deposit to a SIP address under the given request id, and
    /// returns the message to send. The response will be emitted as a
    /// [`SIPClientEvent::UtxoRegistered`] or [`SIPClientEvent::UtxoRegistrationFailed`].
    pub fn register_utxo(
        &mut self,
        counterparty_node_id: PublicKey,
        request_id: LSPSRequestId,
        outpoint: OutPoint,
        value_sat: u64,
        user_pubkey: PublicKey,
    ) -> (message: SIPMessage)
        requires
            old(self).wf(),
        ensures
            final(self).wf(),
            final(self)@ == old(self)@.add_request(
                compressed_key_bytes(counterparty_node_id),
                request_id.0@,
                SentRequest::RegisterUtxo(outpoint),
            ),
            message == SIPMessage::Request(
                request_id,
                SIPRequest::RegisterUtxo(SIPRegisterUtxoRequest { outpoint, value_sat, user_pubkey }),
            ),
    {
        self.add_peer(&counterparty_node_id);
        let id = request_id.clone();
        let entry = (counterparty_node_id, id, outpoint);
        match find_triple(&self.pending_register_utxo_requests, &counterparty_node_id, &request_id) {
            Some(i) => {
                proof {
                    lemma_key_map_update(self.pending_register_utxo_requests@, triple_key(), triple_outpoint(), i as int, entry);
                }
                self.pending_register_utxo_requests.set(i, entry);
            },
            None => {
                proof {
                    lemma_key_map_push(self.pending_register_utxo_requests@, triple_key(), triple_outpoint(), entry);
                }
                self.pending_register_utxo_requests.push(entry);
            },
        }
        proof {
            assert(self@ =~= old(self)@.add_request(
                compressed_key_bytes(counterparty_node_id),
                request_id.0@,
                SentRequest::RegisterUtxo(outpoint),
            ));
        }
        SIPMessage::Request(
            request_id,
            SIPRequest::RegisterUtxo(SIPRegisterUtxoRequest { outpoint, value_sat, user_pubkey }),
        )
    }

    /// Requests swapping confirmed SIP UTXOs into a Lightning channel under the given request
    /// id, and returns the message to send. The response will be emitted as a
    /// [`SIPClientEvent::SwapAccepted`] or [`SIPClientEvent::SwapFailed`].
    pub fn request_swap(
        &mut self,
        counterparty_node_id: PublicKey,
        request_id: LSPSRequestId,
        utxos: Vec<OutPoint>,
        channel_id: Option<String>,
    ) -> (message: SIPMessage)
        requires
            old(self).wf(),
        ensures
            final(self).wf(),
            final(self)@ == old(self)@.add_request(
                compressed_key_bytes(counterparty_node_id),
                request_id.0@,
                SentRequest::Swap(SwapSent { utxos: utxos@, channel_id: channel_id_view(channel_id) }),
            ),
            message == SIPMessage::Request(request_id, SIPRequest::SwapRequest(SIPSwapRequest { utxos, channel_id })),
    {
        self.add_peer(&counterparty_node_id);
        let id = request_id.clone();
        let entry = (counterparty_node_id, id, copy_outpoints(&utxos), copy_channel_id(&channel_id));
        match find_swap(&self.pending_swap_requests, &counterparty_node_id, &request_id) {
            Some(i) => {
                proof {
                    lemma_key_map_update(self.pending_swap_requests@, swap_key(), swap_sent(), i as int, entry);
                }
                self.pending_swap_requests.set(i, entry);
            },
            None => {
                proof {
                    lemma_key_map_push(self.pending_swap_requests@, swap_key(), swap_sent(), entry);
                }
                self.pending_swap_requests.push(entry);
            },
        }
        proof {
            assert(self@ =~= old(self)@.add_request(
                compressed_key_bytes(counterparty_node_id),
                request_id.0@,
                SentRequest::Swap(SwapSent { utxos: utxos@, channel_id: channel_id_view(channel_id) }),
            ));
        }
        SIPMessage::Request(request_id, SIPRequest::SwapRequest(SIPSwapRequest { utxos, channel_id }))
    }

    fn handle_get_info_response(
        &mut self,
        request_id: LSPSRequestId,
        counterparty_node_id: &PublicKey,
        result: SIPGetInfoResponse,
    ) -> (res: Result<Option<SIPClientEvent>, SIPClientError>)
        requires
            old(self).wf(),
        ensures
            final(self).wf(),
            response_handled(old(self)@, final(self)@, *counterparty_node_id, request_id, SIPResponse::GetInfo(result), res),
    {
        if !self.has_peer(counterparty_node_id) {
            return Err(SIPClientError::UnknownPeer { counterparty_node_id: *counterparty_node_id });
        }
        let ghost old_view = self@;
        if !remove_pair(&mut self.pending_get_info_requests, counterparty_node_id, &request_id) {
            proof {
                assert(self@ =~= old_view);
            }
            return Err(SIPClientError::UnknownRequest { request_id });
        }
        proof {
            assert(self@ =~= old_view.resolve(compressed_key_bytes(*counterparty_node_id), request_id.0@, RequestKind::GetInfo));
        }
        Ok(Some(SIPClientEvent::GetInfoResponse {
            lsp_node_id: *counterparty_node_id,
            server_pubkey: result.server_pubkey,
            csv_delay: result.csv_delay,
            min_swap_amount_sat: result.min_swap_amount_sat,
            max_swap_amount_sat: result.max_swap_amount_sat,
            min_confirmations: result.min_confirmations,
        }))
    }

    fn handle_get_info_error(
        &mut self,
        request_id: LSPSRequestId,
        counterparty_node_id: &PublicKey,
        error: LSPSResponseError,
    ) -> (res: Result<Option<SIPClientEvent>, SIPClientError>)
        requires
            old(self).wf(),
        ensures
            final(self).wf(),
            response_handled(old(self)@, final(self)@, *counterparty_node_id, request_id, SIPResponse::GetInfoError(error), res),
    {
        let ghost old_view = self@;
        if remove_pair(&mut self.pending_get_info_requests, counterparty_node_id, &request_id) {
            proof {
                assert(self@ =~= old_view.resolve(compressed_key_bytes(*counterparty_node_id), request_id.0@, RequestKind::GetInfo));
            }
            return Ok(Some(SIPClientEvent::GetInfoFailed { lsp_node_id: *counterparty_node_id, error: error.message }));
        }
        proof {
            assert(self@ =~= old_view);
        }
        Ok(None)
    }

    fn handle_register_utxo_response(
        &mut self,
        request_id: LSPSRequestId,
        counterparty_node_id: &PublicKey,
        result: SIPRegisterUtxoResponse,
    ) -> (res: Result<Option<SIPClientEvent>, SIPClientError>)
        requires
            old(self).wf(),
        ensures
            final(self).wf(),
            response_handled(old(self)@, final(self)@, *counterparty_node_id, request_id, SIPResponse::RegisterUtxo(result), res),
    {
        let ghost old_view = self@;
        match remove_triple(&mut self.pending_register_utxo_requests, counterparty_node_id, &request_id) {
            Some(outpoint) => {
                proof {
                    assert(self@ =~= old_view.resolve(compressed_key_bytes(*counterparty_node_id), request_id.0@, RequestKind::RegisterUtxo));
                }
                if result.accepted {
                    Ok(Some(SIPClientEvent::UtxoRegistered { lsp_node_id: *counterparty_node_id, outpoint }))
                } else {
                    let reason = match result.reason {
                        Some(reason) => reason,
                        None => unknown_reason_string(),
                    };
                    Ok(Some(SIPClientEvent::UtxoRegistrationFailed { lsp_node_id: *counterparty_node_id, outpoint, reason }))
                }
            },
            None => {
                proof {
                    assert(self@ =~= old_view);
                }
                Ok(None)
            },
        }
    }

    fn handle_register_utxo_error(
        &mut self,
        request_id: LSPSRequestId,
        counterparty_node_id: &PublicKey,
        error: LSPSResponseError,
    ) -> (res: Result<Option<SIPClientEvent>, SIPClientError>)
        requires
            old(self).wf(),
        ensures
            final(self).wf(),
            response_handled(old(self)@, final(self)@, *counterparty_node_id, request_id, SIPResponse::RegisterUtxoError(error), res),
    {
        let ghost old_view = self@;
        match remove_triple(&mut self.pending_register_utxo_requests, counterparty_node_id, &request_id) {
            Some(outpoint) => {
                proof {
                    assert(self@ =~= old_view.resolve(compressed_key_bytes(*counterparty_node_id), request_id.0@, RequestKind::RegisterUtxo));
                }
                Ok(Some(SIPClientEvent::UtxoRegistrationFailed {
                    lsp_node_id: *counterparty_node_id,
                    outpoint,
                    reason: error.message,
                }))
            },
            None => {
                proof {
                    assert(self@ =~= old_view);
                }
                Ok(None)
            },
        }
    }

    fn handle_swap_response(
        &mut self,
        request_id: LSPSRequestId,
        counterparty_node_id: &PublicKey,
        result: SIPSwapResponse,
    ) -> (res: Result<Option<SIPClientEvent>, SIPClientError>)
        requires
            old(self).wf(),
        ensures
            final(self).wf(),
            response_handled(old(self)@, final(self)@, *counterparty_node_id, request_id, SIPResponse::SwapRequest(result), res),
    {
        let ghost old_view = self@;
        match remove_swap(&mut self.pending_swap_requests, counterparty_node_id, &request_id) {
            Some((utxos, requested_channel_id)) => {
                proof {
                    assert(self@ =~= old_view.resolve(compressed_key_bytes(*counterparty_node_id), request_id.0@, RequestKind::Swap));
                }
                if result.accepted {
                    let channel = match result.channel_id {
                        Some(channel_id) => Some(channel_id),
                        None => requested_channel_id,
                    };
                    match channel {
                        Some(channel_id) => Ok(Some(SIPClientEvent::SwapAccepted {
                            lsp_node_id: *counterparty_node_id,
                            utxos,
                            channel_id,
                        })),
                        None => Ok(Some(SIPClientEvent::SwapFailed {
                            lsp_node_id: *counterparty_node_id,
                            reason: no_channel_reason_string(),
                        })),
                    }
                } else {
                    let reason = match result.reason {
                        Some(reason) => reason,
                        None => unknown_reason_string(),
                    };
                    Ok(Some(SIPClientEvent::SwapFailed { lsp_node_id: *counterparty_node_id, reason }))
                }
            },
            None => {
                proof {
                    assert(self@ =~= old_view);
                }
                Ok(None)
            },
        }
    }

    fn handle_swap_error(
        &mut self,
        request_id: LSPSRequestId,
        counterparty_node_id: &PublicKey,
        error: LSPSResponseError,
    ) -> (res: Result<Option<SIPClientEvent>, SIPClientError>)
        requires
            old(self).wf(),
        ensures
            final(self).wf(),
            response_handled(old(self)@, final(self)@, *counterparty_node_id, request_id, SIPResponse::SwapRequestError(error), res),
    {
        let ghost old_view = self@;
        if remove_swap(&mut self.pending_swap_requests, counterparty_node_id, &request_id).is_some() {
            proof {
                assert(self@ =~= old_view.resolve(compressed_key_bytes(*counterparty_node_id), request_id.0@, RequestKind::Swap));
            }
            return Ok(Some(SIPClientEvent::SwapFailed { lsp_node_id: *counterparty_node_id, reason: error.message }));
        }
        proof {
            assert(self@ =~= old_view);
        }
        Ok(None)
    }

    /// Handles a message from the LSP `counterparty_node_id`, and returns the event to emit,
    /// if any. Only responses are taken; a request is refused.
    pub fn handle_message(
        &mut self,
        message: SIPMessage,
        counterparty_node_id: &PublicKey,
    ) -> (res: Result<Option<SIPClientEvent>, SIPClientError>)
        requires
            old(self).wf(),
        ensures
            final(self).wf(),
            match message {
                SIPMessage::Response(request_id, response) =>
                    response_handled(old(self)@, final(self)@, *counterparty_node_id, request_id, response, res),
                SIPMessage::Request(..) => {
                    &&& res == Err::<Option<SIPClientEvent>, SIPClientError>(SIPClientError::UnexpectedRequest)
                    &&& final(self)@ == old(self)@
                },
            },
    {
        match message {
            SIPMessage::Response(request_id, response) => match response {
                SIPResponse::GetInfo(result) => {
                    self.handle_get_info_response(request_id, counterparty_node_id, result)
                },
                SIPResponse::GetInfoError(error) => {
                    self.handle_get_info_error(request_id, counterparty_node_id, error)
                },
                SIPResponse::RegisterUtxo(result) => {
                    self.handle_register_utxo_response(request_id, counterparty_node_id, result)
                },
                SIPResponse::RegisterUtxoError(error) => {
                    self.handle_register_utxo_error(request_id, counterparty_node_id, error)
                },
                SIPResponse::SwapRequest(result) => {
                    self.handle_swap_response(request_id, counterparty_node_id, result)
                },
                SIPResponse::SwapRequestError(error) => {
                    self.handle_swap_error(request_id, counterparty_node_id, error)
                },
            },
            _ => Err(SIPClientError::UnexpectedRequest),
        }
    }
}

/// A request that was just sent awaits its response; a `sip.register_utxo` request remembers
/// the outpoint it registers, and a `sip.swap_request` request what it asked to swap.
pub proof fn lemma_sent_request_is_pending(state: PendingRequestsView, peer: Seq<u8>, id: Seq<char>, request: SentRequest)
    ensures
        state.add_request(peer, id, request).is_pending(peer, id, request.kind()),
        state.add_request(peer, id, request).peers.contains(peer),
        request matches SentRequest::RegisterUtxo(outpoint)
            ==> state.add_request(peer, id, request).register_utxo[(peer, id)] == outpoint,
        request matches SentRequest::Swap(sent) ==> state.add_request(peer, id, request).swap[(peer, id)] == sent,
        state.inv() ==> state.add_request(peer, id, request).inv(),
{
}

/// Sending a request and resolving a request touch no other request: whether any other
/// request awaits its response is unchanged.
pub proof fn lemma_requests_independent(
    state: PendingRequestsView,
    peer: Seq<u8>,
    id: Seq<char>,
    request: SentRequest,
    other_peer: Seq<u8>,
    other_id: Seq<char>,
    other_kind: RequestKind,
)
    requires
        (peer, id, request.kind()) != (other_peer, other_id, other_kind),
    ensures
        state.add_request(peer, id, request).is_pending(other_peer, other_id, other_kind)
            == state.is_pending(other_peer, other_id, other_kind),
        state.resolve(peer, id, request.kind()).is_pending(other_peer, other_id, other_kind)
            == state.is_pending(other_peer, other_id, other_kind),
{
}

/// A response is acted on at most once: once a response has been handled (by
/// [`SIPClientHandler::handle_message`], whose contract is `response_handled`), the same
/// response again changes nothing and gives no event.
pub proof fn lemma_response_handled_at_most_once(
    s0: PendingRequestsView,
    s1: PendingRequestsView,
    s2: PendingRequestsView,
    node: PublicKey,
    request_id: LSPSRequestId,
    response: SIPResponse,
    first: Result<Option<SIPClientEvent>, SIPClientError>,
    second: Result<Option<SIPClientEvent>, SIPClientError>,
)
    requires
        response_handled(s0, s1, node, request_id, response, first),
        response_handled(s1, s2, node, request_id, response, second),
    ensures
        s2 == s1,
        !(second matches Ok(Some(_))),
{
}

/// A `sip.get_info` request is answered once: the first response to it gives the
/// `GetInfoResponse` event with the response's parameters, and the same response again is
/// refused as answering an unknown request, changing nothing.
pub proof fn lemma_get_info_answered_once(
    state: PendingRequestsView,
    after_first: PendingRequestsView,
    after_second: PendingRequestsView,
    node: PublicKey,
    request_id: LSPSRequestId,
    response: SIPGetInfoResponse,
    first: Result<Option<SIPClientEvent>, SIPClientError>,
    second: Result<Option<SIPClientEvent>, SIPClientError>,
)
    requires
        response_handled(
            state.add_request(compressed_key_bytes(node), request_id.0@, SentRequest::GetInfo),
            after_first,
            node,
            request_id,
            SIPResponse::GetInfo(response),
            first,
        ),
        response_handled(after_first, after_second, node, request_id, SIPResponse::GetInfo(response), second),
    ensures
        first == Ok::<Option<SIPClientEvent>, SIPClientError>(Some(SIPClientEvent::GetInfoResponse {
            lsp_node_id: node,
            server_pubkey: response.server_pubkey,
            csv_delay: response.csv_delay,
            min_swap_amount_sat: response.min_swap_amount_sat,
            max_swap_amount_sat: response.max_swap_amount_sat,
            min_confirmations: response.min_confirmations,
        })),
        second == Err::<Option<SIPClientEvent>, SIPClientError>(SIPClientError::UnknownRequest { request_id }),
        after_second == after_first,
{
    lemma_sent_request_is_pending(state, compressed_key_bytes(node), request_id.0@, SentRequest::GetInfo);
}

/// The response to a pending `sip.swap_request` request reports the swap, whatever channel the
/// request named: accepted with a channel in the response, as `SwapAccepted` on that channel;
/// accepted with none, as `SwapAccepted` on the channel the request asked to splice into, or as
/// `SwapFailed` if it asked for a new channel; rejected, as `SwapFailed` with the LSP's reason
/// ("Unknown reason" if it gave none). An accepted swap carries the outpoints the request named.
pub proof fn lemma_swap_response_reports_swap(
    state: PendingRequestsView,
    after: PendingRequestsView,
    node: PublicKey,
    request_id: LSPSRequestId,
    sent: SwapSent,
    response: SIPSwapResponse,
    res: Result<Option<SIPClientEvent>, SIPClientError>,
)
    requires
        response_handled(
            state.add_request(compressed_key_bytes(node), request_id.0@, SentRequest::Swap(sent)),
            after,
            node,
            request_id,
            SIPResponse::SwapRequest(response),
            res,
        ),
    ensures
        response.accepted && response.channel_id is Some ==> {
            &&& res matches Ok(Some(SIPClientEvent::SwapAccepted { lsp_node_id, utxos, channel_id }))
            &&& lsp_node_id == node
            &&& utxos@ == sent.utxos
            &&& channel_id@ == response.channel_id.unwrap()@
        },
        response.accepted && response.channel_id is None && sent.channel_id is Some ==> {
            &&& res matches Ok(Some(SIPClientEvent::SwapAccepted { lsp_node_id, utxos, channel_id }))
            &&& lsp_node_id == node
            &&& utxos@ == sent.utxos
            &&& channel_id@ == sent.channel_id.unwrap()
        },
        response.accepted && response.channel_id is None && sent.channel_id is None ==> (res matches Ok(
            Some(SIPClientEvent::SwapFailed { lsp_node_id, .. }),
        ) && lsp_node_id == node),
        !response.accepted ==> {
            &&& res matches Ok(Some(SIPClientEvent::SwapFailed { lsp_node_id, reason }))
            &&& lsp_node_id == node
            &&& reason@ == (match response.reason {
                Some(r) => r@,
                None => seq!['U', 'n', 'k', 'n', 'o', 'w', 'n', ' ', 'r', 'e', 'a', 's', 'o', 'n'],
            })
        },
        after == state.add_request(compressed_key_bytes(node), request_id.0@, SentRequest::Swap(sent)).resolve(
            compressed_key_bytes(node),
            request_id.0@,
            RequestKind::Swap,
        ),
{
    lemma_sent_request_is_pending(state, compressed_key_bytes(node), request_id.0@, SentRequest::Swap(sent));
}

/// An event is emitted only for a response that answers a pending request.
pub proof fn lemma_event_answers_pending_request(
    before: PendingRequestsView,
    after: PendingRequestsView,
    node: PublicKey,
    request_id: LSPSRequestId,
    response: SIPResponse,
    res: Result<Option<SIPClientEvent>, SIPClientError>,
)
    requires
        response_handled(before, after, node, request_id, response, res),
        res matches Ok(Some(_)),
    ensures
        before.is_pending(compressed_key_bytes(node), request_id.0@, response_kind(response)),
        !after.is_pending(compressed_key_bytes(node), request_id.0@, response_kind(response)),
{
}

/// The response to a pending `sip.register_utxo` request reports the outpoint that the request
/// registered.
pub proof fn lemma_registration_reports_registered_outpoint(
    state: PendingRequestsView,
    after: PendingRequestsView,
    node: PublicKey,
    request_id: LSPSRequestId,
    outpoint: OutPoint,
    response: SIPRegisterUtxoResponse,
    res: Result<Option<SIPClientEvent>, SIPClientError>,
)
    requires
        response_handled(
            state.add_request(compressed_key_bytes(node), request_id.0@, SentRequest::RegisterUtxo(outpoint)),
            after,
            node,
            request_id,
            SIPResponse::RegisterUtxo(response),
            res,
        ),
    ensures
        response.accepted ==> res == Ok::<Option<SIPClientEvent>, SIPClientError>(
            Some(SIPClientEvent::UtxoRegistered { lsp_node_id: node, outpoint })),
        !response.accepted ==> (res matches Ok(Some(SIPClientEvent::UtxoRegistrationFailed { outpoint: o, .. })) && o == outpoint),
{
    lemma_sent_request_is_pending(state, compressed_key_bytes(node), request_id.0@, SentRequest::RegisterUtxo(outpoint));
}

/// The response to a pending `sip.swap_request` request always reports it: an accepted swap as
/// a `SwapAccepted` event with the outpoints the request named, on the channel the response
/// names or else the one the request asked to splice into (a `SwapFailed` event if neither
/// names one), and a rejected swap as a `SwapFailed` event.
pub proof fn lemma_swap_reports_requested_utxos(
    state: PendingRequestsView,
    after: PendingRequestsView,
    node: PublicKey,
    request_id: LSPSRequestId,
    sent: SwapSent,
    response: SIPSwapResponse,
    res: Result<Option<SIPClientEvent>, SIPClientError>,
)
    requires
        response_handled(
            state.add_request(compressed_key_bytes(node), request_id.0@, SentRequest::Swap(sent)),
            after,
            node,
            request_id,
            SIPResponse::SwapRequest(response),
            res,
        ),
    ensures
        response.accepted && swap_channel(response.channel_id, sent) is Some ==> (res matches Ok(
            Some(SIPClientEvent::SwapAccepted { lsp_node_id, utxos, channel_id }),
        ) && lsp_node_id == node && utxos@ == sent.utxos && channel_id@ == swap_channel(response.channel_id, sent).unwrap()),
        !(response.accepted && swap_channel(response.channel_id, sent) is Some) ==> (res matches Ok(
            Some(SIPClientEvent::SwapFailed { lsp_node_id, .. }),
        ) && lsp_node_id == node),
{
    lemma_sent_request_is_pending(state, compressed_key_bytes(node), request_id.0@, SentRequest::Swap(sent));
}

} // verus!
