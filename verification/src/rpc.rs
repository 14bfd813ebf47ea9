//! The shapes that cross the wire, and how they are turned into the engine's
//! values and back.
//!
//! Inbound, a request's fields become the arguments of one engine call:
//! keys, hashes and addresses are read from text, amounts are scaled.
//! Outbound, the engine's records become response bodies: identifiers are
//! written as lowercase hexadecimal text, a payment's status as a fixed word.

use crate::address::address_accepted;
use crate::address::PeerAddress;
use crate::amount;
use crate::engine::BalanceSnapshot;
use crate::engine::ChannelRecord;
use crate::engine::EngineCall;
use crate::engine::Operation;
use crate::engine::PaymentRecord;
use crate::engine::PaymentStatus;
use crate::engine::PeerRecord;
use crate::error::Failure;
use crate::error::RpcError;
use crate::hex;
use crate::identity::node_id_of;
use crate::identity::NodeId;
use crate::invoice::invoice_accepted;
use crate::invoice::Invoice;
use vstd::prelude::*;

verus! {

/// A fresh on-chain address to fund the node's wallet.
#[derive(Debug, Clone, PartialEq, Eq)]
pub struct FundingAddress {
    pub address: String,
}

/// An on-chain address to be funded from outside.
#[derive(Debug, Clone, PartialEq, Eq)]
pub struct FaucetRequest {
    pub address: String,
}

/// Asks for a channel with a peer.
#[derive(Debug, Clone, PartialEq, Eq)]
pub struct OpenChannelRequest {
    /// The peer's public key, as hexadecimal text.
    pub pubkey: String,
    /// The peer's address, `host:port`.
    pub ip_port: String,
    pub funding_sats: u64,
    pub push_sats: u64,
}

/// The correlation id of the channel being opened.
#[derive(Debug, Clone, Copy, PartialEq, Eq, Structural)]
pub struct OpenChannelResponse {
    pub user_channel_id: u128,
}

/// Asks for a connection to a peer.
#[derive(Debug, Clone, PartialEq, Eq)]
pub struct ConnectPeerRequest {
    /// The peer's public key, as hexadecimal text.
    pub pubkey: String,
    /// The peer's address, `host:port`.
    pub ip_port: String,
}

/// The peer is connected.
#[derive(Debug, Clone, Copy, PartialEq, Eq, Structural)]
pub struct ConnectPeerResponse {}

/// One peer, as it is listed.
#[derive(Debug, Clone, PartialEq, Eq)]
pub struct Peer {
    pub node_id: String,
    pub address: String,
}

/// The peers the engine knows.
#[derive(Debug, Clone, PartialEq, Eq)]
pub struct ListPeersResponse {
    pub peers: Vec<Peer>,
}

/// One channel, as it is listed.
#[derive(Debug, Clone, PartialEq, Eq)]
pub struct CompactChannel {
    pub channel_id: String,
    pub counterparty_node_id: String,
    pub channel_value_sats: u64,
    pub user_channel_id: u128,
    pub outbound_capacity_msat: u64,
    pub inbound_capacity_msat: u64,
    pub is_channel_ready: bool,
    pub is_usable: bool,
}

/// The channels of the node.
#[derive(Debug, Clone, PartialEq, Eq)]
pub struct ListChannelsResponse {
    pub channels: Vec<CompactChannel>,
}

/// Asks for an invoice to be paid.
#[derive(Debug, Clone, PartialEq, Eq)]
pub struct PayInvoiceRequest {
    pub invoice: String,
}

/// The hash of the payment that was dispatched.
#[derive(Debug, Clone, PartialEq, Eq)]
pub struct PayInvoiceResponse {
    pub payment_hash: String,
}

/// Asks for an invoice to be made.
#[derive(Debug, Clone, PartialEq, Eq)]
pub struct GetInvoiceRequest {
    pub amount_sats: u64,
    pub description: String,
    pub expiry_secs: u32,
}

/// The invoice that was made.
#[derive(Debug, Clone, PartialEq, Eq)]
pub struct GetInvoiceResponse {
    pub invoice: String,
}

/// The on-chain balances.
#[derive(Debug, Clone, Copy, PartialEq, Eq, Structural)]
pub struct GetBalanceResponse {
    pub total_onchain_balance_sats: u64,
    pub spendable_onchain_balance_sats: u64,
}

/// Where a payment stands.
#[derive(Debug, Clone, PartialEq, Eq)]
pub struct GetPaymentResponse {
    pub status: String,
    pub preimage: Option<String>,
}

/// Wallet and chain state were brought up to date.
#[derive(Debug, Clone, Copy, PartialEq, Eq, Structural)]
pub struct SyncResponse {
    pub synced: bool,
}

/// A listed peer, its texts as sequences.
pub struct PeerView {
    pub node_id: Seq<char>,
    pub address: Seq<char>,
}

/// A listed channel, its texts as sequences.
pub struct CompactChannelView {
    pub channel_id: Seq<char>,
    pub counterparty_node_id: Seq<char>,
    pub channel_value_sats: u64,
    pub user_channel_id: u128,
    pub outbound_capacity_msat: u64,
    pub inbound_capacity_msat: u64,
    pub is_channel_ready: bool,
    pub is_usable: bool,
}

/// A payment's standing, its texts as sequences.
pub struct GetPaymentResponseView {
    pub status: Seq<char>,
    pub preimage: Option<Seq<char>>,
}

impl View for FundingAddress {
    type V = Seq<char>;

    open spec fn view(&self) -> Seq<char> {
        self.address@
    }
}

impl View for Peer {
    type V = PeerView;

    open spec fn view(&self) -> PeerView {
        PeerView { node_id: self.node_id@, address: self.address@ }
    }
}

impl View for ListPeersResponse {
    type V = Seq<PeerView>;

    open spec fn view(&self) -> Seq<PeerView> {
        Seq::new(self.peers@.len(), |i: int| self.peers@[i]@)
    }
}

impl View for CompactChannel {
    type V = CompactChannelView;

    open spec fn view(&self) -> CompactChannelView {
        CompactChannelView {
            channel_id: self.channel_id@,
            counterparty_node_id: self.counterparty_node_id@,
            channel_value_sats: self.channel_value_sats,
            user_channel_id: self.user_channel_id,
            outbound_capacity_msat: self.outbound_capacity_msat,
            inbound_capacity_msat: self.inbound_capacity_msat,
            is_channel_ready: self.is_channel_ready,
            is_usable: self.is_usable,
        }
    }
}

impl View for ListChannelsResponse {
    type V = Seq<CompactChannelView>;

    open spec fn view(&self) -> Seq<CompactChannelView> {
        Seq::new(self.channels@.len(), |i: int| self.channels@[i]@)
    }
}

impl View for PayInvoiceResponse {
    type V = Seq<char>;

    open spec fn view(&self) -> Seq<char> {
        self.payment_hash@
    }
}

impl View for GetInvoiceResponse {
    type V = Seq<char>;

    open spec fn view(&self) -> Seq<char> {
        self.invoice@
    }
}

impl View for GetPaymentResponse {
    type V = GetPaymentResponseView;

    open spec fn view(&self) -> GetPaymentResponseView {
        GetPaymentResponseView {
            status: self.status@,
            preimage: match self.preimage {
                Some(text) => Some(text@),
                None => None,
            },
        }
    }
}

/// The word that stands for a payment's status on the wire.
pub open spec fn status_word(status: PaymentStatus) -> Seq<char> {
    match status {
        PaymentStatus::Pending => "pending"@,
        PaymentStatus::Succeeded => "succeeded"@,
        PaymentStatus::Failed => "failed"@,
    }
}

/// A peer record as it is listed: the key in hexadecimal, the address as the
/// engine wrote it.
pub open spec fn peer_listed(record: PeerRecord) -> PeerView {
    PeerView { node_id: hex::encoded(record.node_id.bytes@), address: record.address@ }
}

/// The peer records as they are listed, one entry for each, in their order.
pub open spec fn peers_listed(records: Seq<PeerRecord>) -> Seq<PeerView> {
    Seq::new(records.len(), |i: int| peer_listed(records[i]))
}

/// A channel record as it is listed: both identifiers in hexadecimal, every
/// other field as the engine gave it.
pub open spec fn channel_listed(record: ChannelRecord) -> CompactChannelView {
    CompactChannelView {
        channel_id: hex::encoded(record.channel_id@),
        counterparty_node_id: hex::encoded(record.counterparty_node_id.bytes@),
        channel_value_sats: record.channel_value_sats,
        user_channel_id: record.user_channel_id,
        outbound_capacity_msat: record.outbound_capacity_msat,
        inbound_capacity_msat: record.inbound_capacity_msat,
        is_channel_ready: record.is_channel_ready,
        is_usable: record.is_usable,
    }
}

/// The channel records as they are listed, one entry for each, in their
/// order.
pub open spec fn channels_listed(records: Seq<ChannelRecord>) -> Seq<CompactChannelView> {
    Seq::new(records.len(), |i: int| channel_listed(records[i]))
}

/// A payment record as it is reported: the status as its word, the preimage,
/// where there is one, in hexadecimal.
pub open spec fn payment_reported(record: PaymentRecord) -> GetPaymentResponseView {
    GetPaymentResponseView {
        status: status_word(record.status),
        preimage: match record.preimage {
            Some(bytes) => Some(hex::encoded(bytes@)),
            None => None,
        },
    }
}

/// The word for a payment's status.
pub fn status_text(status: PaymentStatus) -> (word: &'static str)
    ensures
        word@ == status_word(status),
{
    match status {
        PaymentStatus::Pending => "pending",
        PaymentStatus::Succeeded => "succeeded",
        PaymentStatus::Failed => "failed",
    }
}

impl CompactChannel {
    /// The listing of one channel record.
    pub fn from(channel: ChannelRecord) -> (listed: CompactChannel)
        ensures
            listed@ == channel_listed(channel),
    {
        CompactChannel {
            channel_id: hex::encode(channel.channel_id.as_slice()),
            counterparty_node_id: channel.counterparty_node_id.to_hex(),
            channel_value_sats: channel.channel_value_sats,
            user_channel_id: channel.user_channel_id,
            outbound_capacity_msat: channel.outbound_capacity_msat,
            inbound_capacity_msat: channel.inbound_capacity_msat,
            is_channel_ready: channel.is_channel_ready,
            is_usable: channel.is_usable,
        }
    }
}

/// The response that lists the engine's peers: one entry for each record, in
/// the engine's order.
pub fn list_peers(records: Vec<PeerRecord>) -> (response: ListPeersResponse)
    ensures
        response@ == peers_listed(records@),
{
    let mut peers: Vec<Peer> = Vec::new();
    let mut i: usize = 0;
    while i < records.len()
        invariant
            i <= records.len(),
            peers@.len() == i,
            forall|k: int| 0 <= k < i ==> (#[trigger] peers@[k])@ == peer_listed(records@[k]),
        decreases records.len() - i,
    {
        let record = &records[i];
        peers.push(Peer { node_id: record.node_id.to_hex(), address: record.address.clone() });
        i += 1;
    }
    let response = ListPeersResponse { peers };
    assert(response@ =~= peers_listed(records@));
    response
}

/// The response that lists the node's channels: one entry for each record,
/// in the engine's order.
pub fn list_channels(records: Vec<ChannelRecord>) -> (response: ListChannelsResponse)
    ensures
        response@ == channels_listed(records@),
{
    let mut channels: Vec<CompactChannel> = Vec::new();
    let mut i: usize = 0;
    while i < records.len()
        invariant
            i <= records.len(),
            channels@.len() == i,
            forall|k: int|
                0 <= k < i ==> (#[trigger] channels@[k])@ == channel_listed(records@[k]),
        decreases records.len() - i,
    {
        channels.push(CompactChannel::from(records[i]));
        i += 1;
    }
    let response = ListChannelsResponse { channels };
    assert(response@ =~= channels_listed(records@));
    response
}

/// The response that carries a fresh funding address.
pub fn funding_address(address: String) -> (response: FundingAddress)
    ensures
        response@ == address@,
{
    FundingAddress { address }
}

/// The response to a connection that was made.
pub fn connect_peer_done() -> (response: ConnectPeerResponse)
    ensures
        response == (ConnectPeerResponse {  }),
{
    ConnectPeerResponse {  }
}

/// The response to a channel being opened: the correlation id that the
/// engine returned, unchanged.
pub fn open_channel_done(user_channel_id: u128) -> (response: OpenChannelResponse)
    ensures
        response.user_channel_id == user_channel_id,
{
    OpenChannelResponse { user_channel_id }
}

/// The response to a payment that was dispatched: its hash in hexadecimal.
pub fn pay_invoice_done(payment_hash: [u8; 32]) -> (response: PayInvoiceResponse)
    ensures
        response@ == hex::encoded(payment_hash@),
{
    PayInvoiceResponse { payment_hash: hex::encode(payment_hash.as_slice()) }
}

/// The response that carries an invoice.
pub fn get_invoice_done(invoice: String) -> (response: GetInvoiceResponse)
    ensures
        response@ == invoice@,
{
    GetInvoiceResponse { invoice }
}

/// The acknowledgement of a sync.
pub fn sync() -> (response: SyncResponse)
    ensures
        response.synced,
{
    SyncResponse { synced: true }
}

/// The response that reports one reading of the balances: both figures are
/// those of the one snapshot given.
pub fn get_balance(snapshot: BalanceSnapshot) -> (response: GetBalanceResponse)
    ensures
        response.total_onchain_balance_sats == snapshot.total_onchain_balance_sats,
        response.spendable_onchain_balance_sats == snapshot.spendable_onchain_balance_sats,
{
    GetBalanceResponse {
        total_onchain_balance_sats: snapshot.total_onchain_balance_sats,
        spendable_onchain_balance_sats: snapshot.spendable_onchain_balance_sats,
    }
}

/// The answer to a payment lookup: the payment's standing where the engine
/// knows it, `PaymentNotFound` where it does not.
pub fn get_payment_done(found: Option<PaymentRecord>) -> (r: Result<GetPaymentResponse, RpcError>)
    ensures
        match found {
            Some(record) => r matches Ok(response) && response@ == payment_reported(record),
            None => r matches Err(e) && e@ == Failure::PaymentNotFound,
        },
{
    match found {
        None => Err(RpcError::PaymentNotFound),
        Some(record) => {
            let preimage = match record.preimage {
                Some(bytes) => Some(hex::encode(bytes.as_slice())),
                None => None,
            };
            Ok(GetPaymentResponse { status: status_text(record.status).to_owned(), preimage })
        },
    }
}

/// The engine call that a connect request asks for: the public key is read
/// first, then the address; the peer is not remembered across restarts.
pub open spec fn connect_peer_asks(pubkey: Seq<char>, ip_port: Seq<char>) -> Result<
    Operation,
    Failure,
> {
    match node_id_of(pubkey) {
        None => Err(Failure::InvalidPublicKey),
        Some(node_id) => if address_accepted(ip_port) {
            Ok(Operation::Connect { node_id, address: ip_port, persist: false })
        } else {
            Err(Failure::InvalidAddress)
        },
    }
}

/// The engine call that an open-channel request asks for: the public key is
/// read first, then the address; both amounts are scaled, the funding amount
/// first; the channel is announced.
pub open spec fn open_channel_asks(
    pubkey: Seq<char>,
    ip_port: Seq<char>,
    funding_sats: u64,
    push_sats: u64,
) -> Result<Operation, Failure> {
    match node_id_of(pubkey) {
        None => Err(Failure::InvalidPublicKey),
        Some(node_id) => if !address_accepted(ip_port) {
            Err(Failure::InvalidAddress)
        } else {
            match (amount::engine_amount(funding_sats), amount::engine_amount(push_sats)) {
                (Some(channel_amount), Some(push_amount)) => Ok(
                    Operation::OpenChannel {
                        node_id,
                        address: ip_port,
                        channel_amount,
                        push_amount,
                        announce: true,
                    },
                ),
                _ => Err(Failure::AmountTooLarge),
            }
        },
    }
}

/// The engine call that a pay-invoice request asks for.
pub open spec fn pay_invoice_asks(invoice: Seq<char>) -> Result<Operation, Failure> {
    if invoice_accepted(invoice) {
        Ok(Operation::SendPayment { invoice })
    } else {
        Err(Failure::InvalidInvoice)
    }
}

/// The engine call that a get-invoice request asks for: the amount scaled,
/// description and expiry as given.
pub open spec fn get_invoice_asks(
    amount_sats: u64,
    description: Seq<char>,
    expiry_secs: u32,
) -> Result<Operation, Failure> {
    match amount::engine_amount(amount_sats) {
        Some(amount) => Ok(Operation::ReceivePayment { amount, description, expiry_secs }),
        None => Err(Failure::AmountTooLarge),
    }
}

/// The engine call that a payment lookup asks for: the hash that the 64
/// hexadecimal digits stand for.
pub open spec fn get_payment_asks(payment_hash: Seq<char>) -> Result<Operation, Failure> {
    match hex::decoded(payment_hash, 32) {
        Some(hash) => Ok(Operation::LookupPayment { hash }),
        None => Err(Failure::InvalidPaymentHash),
    }
}

/// A call or a failure, texts and byte strings as sequences.
pub open spec fn asked(r: Result<EngineCall, RpcError>) -> Result<Operation, Failure> {
    match r {
        Ok(call) => Ok(call@),
        Err(e) => Err(e@),
    }
}

/// Reads a connect request into the engine call it asks for.
pub fn connect_peer(req: &ConnectPeerRequest) -> (r: Result<EngineCall, RpcError>)
    ensures
        asked(r) == connect_peer_asks(req.pubkey@, req.ip_port@),
{
    let node_id = match NodeId::parse(req.pubkey.as_str()) {
        Some(id) => id,
        None => { return Err(RpcError::InvalidPublicKey); },
    };
    let address = match PeerAddress::parse(req.ip_port.as_str()) {
        Some(address) => address,
        None => { return Err(RpcError::InvalidAddress); },
    };
    Ok(EngineCall::Connect { node_id, address, persist: false })
}

/// Reads an open-channel request into the engine call it asks for.
pub fn open_channel(req: &OpenChannelRequest) -> (r: Result<EngineCall, RpcError>)
    ensures
        asked(r) == open_channel_asks(req.pubkey@, req.ip_port@, req.funding_sats, req.push_sats),
{
    let node_id = match NodeId::parse(req.pubkey.as_str()) {
        Some(id) => id,
        None => { return Err(RpcError::InvalidPublicKey); },
    };
    let address = match PeerAddress::parse(req.ip_port.as_str()) {
        Some(address) => address,
        None => { return Err(RpcError::InvalidAddress); },
    };
    let channel_amount = match amount::to_engine_units(req.funding_sats) {
        Some(scaled) => scaled,
        None => { return Err(RpcError::AmountTooLarge); },
    };
    let push_amount = match amount::to_engine_units(req.push_sats) {
        Some(scaled) => scaled,
        None => { return Err(RpcError::AmountTooLarge); },
    };
    Ok(EngineCall::OpenChannel { node_id, address, channel_amount, push_amount, announce: true })
}

/// Reads a pay-invoice request into the engine call it asks for.
pub fn pay_invoice(req: &PayInvoiceRequest) -> (r: Result<EngineCall, RpcError>)
    ensures
        asked(r) == pay_invoice_asks(req.invoice@),
{
    match Invoice::parse(req.invoice.as_str()) {
        Some(invoice) => Ok(EngineCall::SendPayment { invoice }),
        None => Err(RpcError::InvalidInvoice),
    }
}

/// Reads a get-invoice request into the engine call it asks for.
pub fn get_invoice(req: &GetInvoiceRequest) -> (r: Result<EngineCall, RpcError>)
    ensures
        asked(r) == get_invoice_asks(req.amount_sats, req.description@, req.expiry_secs),
{
    match amount::to_engine_units(req.amount_sats) {
        Some(amount) => Ok(
            EngineCall::ReceivePayment {
                amount,
                description: req.description.clone(),
                expiry_secs: req.expiry_secs,
            },
        ),
        None => Err(RpcError::AmountTooLarge),
    }
}

/// Reads the hash of a payment lookup into the engine call it asks for.
pub fn get_payment(payment_hash: &str) -> (r: Result<EngineCall, RpcError>)
    ensures
        asked(r) == get_payment_asks(payment_hash@),
{
    match hex::decode_32(payment_hash) {
        Some(hash) => Ok(EngineCall::LookupPayment { hash }),
        None => Err(RpcError::InvalidPaymentHash),
    }
}

} // verus!
