//! One request, from arrival to answer.
//!
//! A request is handled in two steps with one engine operation between them.
//! `begin` reads the request and says which operation to make, or fails the
//! request before the engine is touched. The caller makes that one operation
//! and hands what came back to `finish`, which gives the response or the
//! failure. Nothing is kept from one request to the next.

use crate::engine::EngineCall;
use crate::engine::EngineReply;
use crate::engine::Operation;
use crate::error::Failure;
use crate::error::RpcError;
use crate::hex;
use crate::rpc;
use crate::rpc::CompactChannelView;
use crate::rpc::ConnectPeerRequest;
use crate::rpc::ConnectPeerResponse;
use crate::rpc::FundingAddress;
use crate::rpc::GetBalanceResponse;
use crate::rpc::GetInvoiceRequest;
use crate::rpc::GetInvoiceResponse;
use crate::rpc::GetPaymentResponse;
use crate::rpc::GetPaymentResponseView;
use crate::rpc::ListChannelsResponse;
use crate::rpc::ListPeersResponse;
use crate::rpc::OpenChannelRequest;
use crate::rpc::OpenChannelResponse;
use crate::rpc::PayInvoiceRequest;
use crate::rpc::PayInvoiceResponse;
use crate::rpc::PeerView;
use crate::rpc::SyncResponse;
use vstd::prelude::*;

verus! {

/// What a caller can ask for.
#[derive(Clone, Copy, Debug, PartialEq, Eq, Structural)]
pub enum Verb {
    ConnectPeer,
    ListPeers,
    FundingAddress,
    OpenChannel,
    ListChannels,
    PayInvoice,
    GetInvoice,
    Sync,
    GetBalance,
    GetPayment,
}

/// A request, decoded from the wire.
#[derive(Clone, Debug, PartialEq, Eq)]
pub enum Request {
    ConnectPeer(ConnectPeerRequest),
    ListPeers,
    FundingAddress,
    OpenChannel(OpenChannelRequest),
    ListChannels,
    PayInvoice(PayInvoiceRequest),
    GetInvoice(GetInvoiceRequest),
    Sync,
    GetBalance,
    /// The payment hash, as the text that came with the request.
    GetPayment(String),
}

/// A response, ready to be encoded.
#[derive(Clone, Debug, PartialEq, Eq)]
pub enum Response {
    ConnectPeer(ConnectPeerResponse),
    ListPeers(ListPeersResponse),
    FundingAddress(FundingAddress),
    OpenChannel(OpenChannelResponse),
    ListChannels(ListChannelsResponse),
    PayInvoice(PayInvoiceResponse),
    GetInvoice(GetInvoiceResponse),
    Sync(SyncResponse),
    GetBalance(GetBalanceResponse),
    GetPayment(GetPaymentResponse),
}

/// A response, its texts as sequences.
pub enum Answer {
    ConnectPeer,
    ListPeers(Seq<PeerView>),
    FundingAddress(Seq<char>),
    OpenChannel(OpenChannelResponse),
    ListChannels(Seq<CompactChannelView>),
    PayInvoice(Seq<char>),
    GetInvoice(Seq<char>),
    Sync(SyncResponse),
    GetBalance(GetBalanceResponse),
    GetPayment(GetPaymentResponseView),
}

impl View for Response {
    type V = Answer;

    open spec fn view(&self) -> Answer {
        match self {
            Response::ConnectPeer(_) => Answer::ConnectPeer,
            Response::ListPeers(response) => Answer::ListPeers(response@),
            Response::FundingAddress(response) => Answer::FundingAddress(response@),
            Response::OpenChannel(response) => Answer::OpenChannel(*response),
            Response::ListChannels(response) => Answer::ListChannels(response@),
            Response::PayInvoice(response) => Answer::PayInvoice(response@),
            Response::GetInvoice(response) => Answer::GetInvoice(response@),
            Response::Sync(response) => Answer::Sync(*response),
            Response::GetBalance(response) => Answer::GetBalance(*response),
            Response::GetPayment(response) => Answer::GetPayment(response@),
        }
    }
}

impl Request {
    /// What this request asks for.
    pub open spec fn verb_spec(self) -> Verb {
        match self {
            Request::ConnectPeer(_) => Verb::ConnectPeer,
            Request::ListPeers => Verb::ListPeers,
            Request::FundingAddress => Verb::FundingAddress,
            Request::OpenChannel(_) => Verb::OpenChannel,
            Request::ListChannels => Verb::ListChannels,
            Request::PayInvoice(_) => Verb::PayInvoice,
            Request::GetInvoice(_) => Verb::GetInvoice,
            Request::Sync => Verb::Sync,
            Request::GetBalance => Verb::GetBalance,
            Request::GetPayment(_) => Verb::GetPayment,
        }
    }

    /// What this request asks for.
    pub fn verb(&self) -> (verb: Verb)
        ensures
            verb == self.verb_spec(),
    {
        match self {
            Request::ConnectPeer(_) => Verb::ConnectPeer,
            Request::ListPeers => Verb::ListPeers,
            Request::FundingAddress => Verb::FundingAddress,
            Request::OpenChannel(_) => Verb::OpenChannel,
            Request::ListChannels => Verb::ListChannels,
            Request::PayInvoice(_) => Verb::PayInvoice,
            Request::GetInvoice(_) => Verb::GetInvoice,
            Request::Sync => Verb::Sync,
            Request::GetBalance => Verb::GetBalance,
            Request::GetPayment(_) => Verb::GetPayment,
        }
    }
}

/// The one engine operation that a request asks for, or the failure that
/// ends it before the engine is touched.
pub open spec fn asks(request: Request) -> Result<Operation, Failure> {
    match request {
        Request::ConnectPeer(req) => rpc::connect_peer_asks(req.pubkey@, req.ip_port@),
        Request::ListPeers => Ok(Operation::ListPeers),
        Request::FundingAddress => Ok(Operation::NewAddress),
        Request::OpenChannel(req) => rpc::open_channel_asks(
            req.pubkey@,
            req.ip_port@,
            req.funding_sats,
            req.push_sats,
        ),
        Request::ListChannels => Ok(Operation::ListChannels),
        Request::PayInvoice(req) => rpc::pay_invoice_asks(req.invoice@),
        Request::GetInvoice(req) => rpc::get_invoice_asks(
            req.amount_sats,
            req.description@,
            req.expiry_secs,
        ),
        Request::Sync => Ok(Operation::SyncWallets),
        Request::GetBalance => Ok(Operation::ListBalances),
        Request::GetPayment(payment_hash) => rpc::get_payment_asks(payment_hash@),
    }
}

/// What is answered to a request for `verb` once the engine has replied.
///
/// A failure of the engine is passed on with its message, whatever was asked.
/// A reply of the kind that the operation gives becomes the response. A payment
/// lookup that found nothing is a failure of its own. Any other reply does
/// not belong to the operation.
pub open spec fn answers(verb: Verb, reply: EngineReply) -> Result<Answer, Failure> {
    match (verb, reply) {
        (_, EngineReply::Failed(message)) => Err(Failure::Engine(message@)),
        (Verb::ConnectPeer, EngineReply::Connected) => Ok(Answer::ConnectPeer),
        (Verb::ListPeers, EngineReply::Peers(records)) => Ok(
            Answer::ListPeers(rpc::peers_listed(records@)),
        ),
        (Verb::FundingAddress, EngineReply::Address(address)) => Ok(
            Answer::FundingAddress(address@),
        ),
        (Verb::OpenChannel, EngineReply::ChannelOpened(user_channel_id)) => Ok(
            Answer::OpenChannel(OpenChannelResponse { user_channel_id }),
        ),
        (Verb::ListChannels, EngineReply::Channels(records)) => Ok(
            Answer::ListChannels(rpc::channels_listed(records@)),
        ),
        (Verb::PayInvoice, EngineReply::PaymentSent(hash)) => Ok(
            Answer::PayInvoice(hex::encoded(hash@)),
        ),
        (Verb::GetInvoice, EngineReply::InvoiceCreated(invoice)) => Ok(
            Answer::GetInvoice(invoice@),
        ),
        (Verb::Sync, EngineReply::Synced) => Ok(Answer::Sync(SyncResponse { synced: true })),
        (Verb::GetBalance, EngineReply::Balances(snapshot)) => Ok(
            Answer::GetBalance(
                GetBalanceResponse {
                    total_onchain_balance_sats: snapshot.total_onchain_balance_sats,
                    spendable_onchain_balance_sats: snapshot.spendable_onchain_balance_sats,
                },
            ),
        ),
        (Verb::GetPayment, EngineReply::Payment(Some(record))) => Ok(
            Answer::GetPayment(rpc::payment_reported(record)),
        ),
        (Verb::GetPayment, EngineReply::Payment(None)) => Err(Failure::PaymentNotFound),
        _ => Err(Failure::UnexpectedReply),
    }
}

/// A response or a failure, texts as sequences.
pub open spec fn answered(r: Result<Response, RpcError>) -> Result<Answer, Failure> {
    match r {
        Ok(response) => Ok(response@),
        Err(e) => Err(e@),
    }
}

/// First step: reads the request and gives the one engine operation to make,
/// or fails the request.
pub fn begin(request: &Request) -> (r: Result<EngineCall, RpcError>)
    ensures
        rpc::asked(r) == asks(*request),
{
    match request {
        Request::ConnectPeer(req) => rpc::connect_peer(req),
        Request::ListPeers => Ok(EngineCall::ListPeers),
        Request::FundingAddress => Ok(EngineCall::NewAddress),
        Request::OpenChannel(req) => rpc::open_channel(req),
        Request::ListChannels => Ok(EngineCall::ListChannels),
        Request::PayInvoice(req) => rpc::pay_invoice(req),
        Request::GetInvoice(req) => rpc::get_invoice(req),
        Request::Sync => Ok(EngineCall::SyncWallets),
        Request::GetBalance => Ok(EngineCall::ListBalances),
        Request::GetPayment(payment_hash) => rpc::get_payment(payment_hash.as_str()),
    }
}

/// Second step: turns what the engine returned into the response to a
/// request for `verb`, or into the failure to report.
pub fn finish(verb: Verb, reply: EngineReply) -> (r: Result<Response, RpcError>)
    ensures
        answered(r) == answers(verb, reply),
{
    match reply {
        EngineReply::Failed(message) => Err(RpcError::Engine(message)),
        EngineReply::Connected => match verb {
            Verb::ConnectPeer => Ok(Response::ConnectPeer(rpc::connect_peer_done())),
            _ => Err(RpcError::UnexpectedReply),
        },
        EngineReply::Peers(records) => match verb {
            Verb::ListPeers => Ok(Response::ListPeers(rpc::list_peers(records))),
            _ => Err(RpcError::UnexpectedReply),
        },
        EngineReply::Address(address) => match verb {
            Verb::FundingAddress => Ok(Response::FundingAddress(rpc::funding_address(address))),
            _ => Err(RpcError::UnexpectedReply),
        },
        EngineReply::ChannelOpened(user_channel_id) => match verb {
            Verb::OpenChannel => Ok(Response::OpenChannel(rpc::open_channel_done(user_channel_id))),
            _ => Err(RpcError::UnexpectedReply),
        },
        EngineReply::Channels(records) => match verb {
            Verb::ListChannels => Ok(Response::ListChannels(rpc::list_channels(records))),
            _ => Err(RpcError::UnexpectedReply),
        },
        EngineReply::PaymentSent(hash) => match verb {
            Verb::PayInvoice => Ok(Response::PayInvoice(rpc::pay_invoice_done(hash))),
            _ => Err(RpcError::UnexpectedReply),
        },
        EngineReply::InvoiceCreated(invoice) => match verb {
            Verb::GetInvoice => Ok(Response::GetInvoice(rpc::get_invoice_done(invoice))),
            _ => Err(RpcError::UnexpectedReply),
        },
        EngineReply::Synced => match verb {
            Verb::Sync => Ok(Response::Sync(rpc::sync())),
            _ => Err(RpcError::UnexpectedReply),
        },
        EngineReply::Balances(snapshot) => match verb {
            Verb::GetBalance => Ok(Response::GetBalance(rpc::get_balance(snapshot))),
            _ => Err(RpcError::UnexpectedReply),
        },
        EngineReply::Payment(found) => match verb {
            Verb::GetPayment => match rpc::get_payment_done(found) {
                Ok(response) => Ok(Response::GetPayment(response)),
                Err(e) => Err(e),
            },
            _ => Err(RpcError::UnexpectedReply),
        },
    }
}

} // verus!
