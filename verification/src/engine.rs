//! The boundary with the node engine.
//!
//! The engine is reached through a handful of operations. An `EngineCall` is
//! one of them with its arguments, ready to be made; an `EngineReply` is what
//! came back from it, in plain values. Nothing here calls the engine: the
//! caller of this crate makes the call and hands the reply back.

use crate::address::PeerAddress;
use crate::identity::NodeId;
use crate::invoice::Invoice;
use vstd::prelude::*;

verus! {

/// Where a payment stands. It starts as `Pending` and ends as `Succeeded` or
/// `Failed`; the engine alone moves it.
#[derive(Clone, Copy, Debug, PartialEq, Eq, Structural)]
pub enum PaymentStatus {
    Pending,
    Succeeded,
    Failed,
}

/// What the engine knows of one payment.
#[derive(Clone, Copy, Debug, PartialEq, Eq)]
pub struct PaymentRecord {
    pub status: PaymentStatus,
    /// The preimage of the payment hash, once the payment has revealed it.
    pub preimage: Option<[u8; 32]>,
}

/// What the engine knows of one channel.
#[derive(Clone, Copy, Debug, PartialEq, Eq)]
pub struct ChannelRecord {
    pub channel_id: [u8; 32],
    pub counterparty_node_id: NodeId,
    pub channel_value_sats: u64,
    /// The correlation id that the open call returned for this channel.
    pub user_channel_id: u128,
    pub outbound_capacity_msat: u64,
    pub inbound_capacity_msat: u64,
    pub is_channel_ready: bool,
    pub is_usable: bool,
}

/// What the engine knows of one peer.
#[derive(Clone, Debug, PartialEq, Eq)]
pub struct PeerRecord {
    pub node_id: NodeId,
    /// The peer's address in the engine's own notation.
    pub address: String,
}

/// One reading of the on-chain balances, both taken together.
#[derive(Clone, Copy, Debug, PartialEq, Eq, Structural)]
pub struct BalanceSnapshot {
    pub total_onchain_balance_sats: u64,
    pub spendable_onchain_balance_sats: u64,
}

/// One operation of the engine, with its arguments.
#[derive(Debug, PartialEq, Eq)]
pub enum EngineCall {
    /// Connect to a peer.
    Connect { node_id: NodeId, address: PeerAddress, persist: bool },
    /// List the peers the engine knows.
    ListPeers,
    /// Hand out a fresh on-chain address.
    NewAddress,
    /// Connect to a peer if need be, and open a channel with it.
    OpenChannel {
        node_id: NodeId,
        address: PeerAddress,
        channel_amount: u64,
        push_amount: u64,
        announce: bool,
    },
    /// List the channels.
    ListChannels,
    /// Pay an invoice.
    SendPayment { invoice: Invoice },
    /// Make an invoice for an amount.
    ReceivePayment { amount: u64, description: String, expiry_secs: u32 },
    /// Bring wallet and chain state up to date.
    SyncWallets,
    /// Read the balances.
    ListBalances,
    /// Look a payment up by its hash.
    LookupPayment { hash: [u8; 32] },
}

/// An `EngineCall` with its texts and byte strings as sequences.
pub enum Operation {
    Connect { node_id: Seq<u8>, address: Seq<char>, persist: bool },
    ListPeers,
    NewAddress,
    OpenChannel {
        node_id: Seq<u8>,
        address: Seq<char>,
        channel_amount: u64,
        push_amount: u64,
        announce: bool,
    },
    ListChannels,
    SendPayment { invoice: Seq<char> },
    ReceivePayment { amount: u64, description: Seq<char>, expiry_secs: u32 },
    SyncWallets,
    ListBalances,
    LookupPayment { hash: Seq<u8> },
}

impl View for EngineCall {
    type V = Operation;

    open spec fn view(&self) -> Operation {
        match self {
            EngineCall::Connect { node_id, address, persist } => Operation::Connect {
                node_id: node_id.bytes@,
                address: address@,
                persist: *persist,
            },
            EngineCall::ListPeers => Operation::ListPeers,
            EngineCall::NewAddress => Operation::NewAddress,
            EngineCall::OpenChannel {
                node_id,
                address,
                channel_amount,
                push_amount,
                announce,
            } => Operation::OpenChannel {
                node_id: node_id.bytes@,
                address: address@,
                channel_amount: *channel_amount,
                push_amount: *push_amount,
                announce: *announce,
            },
            EngineCall::ListChannels => Operation::ListChannels,
            EngineCall::SendPayment { invoice } => Operation::SendPayment { invoice: invoice@ },
            EngineCall::ReceivePayment { amount, description, expiry_secs } => {
                Operation::ReceivePayment {
                    amount: *amount,
                    description: description@,
                    expiry_secs: *expiry_secs,
                }
            },
            EngineCall::SyncWallets => Operation::SyncWallets,
            EngineCall::ListBalances => Operation::ListBalances,
            EngineCall::LookupPayment { hash } => Operation::LookupPayment { hash: hash@ },
        }
    }
}

/// What came back from one engine operation.
#[derive(Clone, Debug, PartialEq, Eq)]
pub enum EngineReply {
    /// The peer is connected.
    Connected,
    /// The peers, in the engine's order.
    Peers(Vec<PeerRecord>),
    /// A fresh on-chain address, as text.
    Address(String),
    /// A channel is being opened; this is its correlation id.
    ChannelOpened(u128),
    /// The channels, in the engine's order.
    Channels(Vec<ChannelRecord>),
    /// A payment was dispatched; this is its hash.
    PaymentSent([u8; 32]),
    /// An invoice, as text.
    InvoiceCreated(String),
    /// Wallet and chain state are up to date.
    Synced,
    /// The balances.
    Balances(BalanceSnapshot),
    /// The payment asked for, or `None` if the engine knows none.
    Payment(Option<PaymentRecord>),
    /// The engine failed the operation, with its message.
    Failed(String),
}

} // verus!
