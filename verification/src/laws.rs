//! What holds of the control plane as a whole.
//!
//! Each statement here relates the two steps of a request, or two requests,
//! and is proved from the definitions of the steps.

use crate::address::address_accepted;
use crate::amount;
use crate::engine::ChannelRecord;
use crate::engine::EngineReply;
use crate::engine::Operation;
use crate::error::ErrorKind;
use crate::error::Failure;
use crate::handler::answers;
use crate::handler::asks;
use crate::handler::Answer;
use crate::handler::Request;
use crate::handler::Verb;
use crate::hex;
use crate::identity::key_shaped;
use crate::rpc::channels_listed;
use crate::seed::StartupSeed;
use vstd::prelude::*;

verus! {

/// A lookup by a well-formed payment hash always reaches the engine with the
/// hash that the text stands for, and where the engine knows no such payment
/// the answer is "not found".
pub proof fn law_unknown_payment_is_not_found(request: Request)
    requires
        request matches Request::GetPayment(text) && hex::decoded(text@, 32) is Some,
    ensures
        request matches Request::GetPayment(text) && asks(request) == Ok::<Operation, Failure>(
            Operation::LookupPayment { hash: hex::decoded(text@, 32).unwrap() },
        ),
        answers(Verb::GetPayment, EngineReply::Payment(None)) == Err::<Answer, Failure>(
            Failure::PaymentNotFound,
        ),
        Failure::PaymentNotFound.kind() == ErrorKind::NotFound,
{
}

/// A request for an invoice reaches the engine exactly when the amount times
/// 1000 can be given to it, and then with that product as its amount.
pub proof fn law_invoice_amount_is_scaled(request: Request)
    requires
        request is GetInvoice,
    ensures
        asks(request) is Ok <==> request->GetInvoice_0.amount_sats * 1000 <= u64::MAX,
        asks(request) matches Ok(operation) ==> operation matches Operation::ReceivePayment {
            amount,
            ..
        } && amount == request->GetInvoice_0.amount_sats * 1000,
        asks(request) matches Err(failure) ==> failure.kind() == ErrorKind::BadRequest,
{
}

/// Where a request to open a channel reaches the engine, both of its amounts
/// do so multiplied by 1000.
pub proof fn law_channel_amounts_are_scaled(request: Request)
    requires
        request is OpenChannel,
    ensures
        asks(request) matches Ok(operation) ==> operation matches Operation::OpenChannel {
            channel_amount,
            push_amount,
            ..
        } && channel_amount == request->OpenChannel_0.funding_sats * 1000 && push_amount
            == request->OpenChannel_0.push_sats * 1000,
        asks(request) matches Err(failure) ==> failure.kind() == ErrorKind::BadRequest,
{
}

/// A request to connect or to open a channel whose address the parser does
/// not accept never reaches the engine: it fails as a malformed request.
pub proof fn law_bad_address_is_rejected(request: Request)
    requires
        request is OpenChannel || request is ConnectPeer,
    ensures
        request matches Request::OpenChannel(req) && !address_accepted(req.ip_port@) ==> (asks(
            request,
        ) matches Err(failure) && failure.kind() == ErrorKind::BadRequest),
        request matches Request::ConnectPeer(req) && !address_accepted(req.ip_port@) ==> (asks(
            request,
        ) matches Err(failure) && failure.kind() == ErrorKind::BadRequest),
{
}

/// A public key that is not hexadecimal digits for 33 or 65 bytes is refused
/// as such, whatever else the request holds; and a key that reaches the
/// engine is 33 bytes long.
pub proof fn law_misshapen_key_is_rejected(request: Request)
    requires
        request is OpenChannel || request is ConnectPeer,
    ensures
        request matches Request::OpenChannel(req) && !key_shaped(req.pubkey@) ==> asks(request)
            == Err::<Operation, Failure>(Failure::InvalidPublicKey),
        request matches Request::ConnectPeer(req) && !key_shaped(req.pubkey@) ==> asks(request)
            == Err::<Operation, Failure>(Failure::InvalidPublicKey),
        asks(request) matches Ok(Operation::OpenChannel { node_id, .. }) ==> node_id.len() == 33,
        asks(request) matches Ok(Operation::Connect { node_id, .. }) ==> node_id.len() == 33,
{
}

/// The hash text that answers a payment is accepted by a later lookup, which
/// then asks the engine for the very hash that the engine had returned.
pub proof fn law_sent_payment_can_be_looked_up(hash: [u8; 32], lookup: Request)
    requires
        lookup matches Request::GetPayment(text) && answers(
            Verb::PayInvoice,
            EngineReply::PaymentSent(hash),
        ) == Ok::<Answer, Failure>(Answer::PayInvoice(text@)),
    ensures
        asks(lookup) == Ok::<Operation, Failure>(Operation::LookupPayment { hash: hash@ }),
{
    hex::lemma_decode_encoded(hash@);
}

/// Two payments with different hashes are answered with different texts.
pub proof fn law_distinct_payments_have_distinct_text(first: [u8; 32], second: [u8; 32])
    requires
        first != second,
    ensures
        answers(Verb::PayInvoice, EngineReply::PaymentSent(first)) != answers(
            Verb::PayInvoice,
            EngineReply::PaymentSent(second),
        ),
{
    if hex::encoded(first@) == hex::encoded(second@) {
        hex::lemma_encoded_injective(first@, second@);
        assert(first =~= second);
    }
}

/// Where the engine's channels hold the one that an open call returned, the
/// listing holds a channel with the correlation id of the open response.
pub proof fn law_opened_channel_is_listed(user_channel_id: u128, records: Vec<ChannelRecord>)
    requires
        exists|i: int|
            0 <= i < records@.len() && (#[trigger] records@[i]).user_channel_id
                == user_channel_id,
    ensures
        answers(Verb::OpenChannel, EngineReply::ChannelOpened(user_channel_id)) matches Ok(
            Answer::OpenChannel(opened),
        ) && answers(Verb::ListChannels, EngineReply::Channels(records)) matches Ok(
            Answer::ListChannels(listed),
        ) && listed.len() == records@.len() && exists|j: int|
            0 <= j < listed.len() && (#[trigger] listed[j]).user_channel_id
                == opened.user_channel_id,
{
    let i = choose|i: int|
        0 <= i < records@.len() && (#[trigger] records@[i]).user_channel_id == user_channel_id;
    let listed = channels_listed(records@);
    assert(listed[i].user_channel_id == user_channel_id);
}

/// The balances in an answer are the two figures of the one snapshot that the
/// engine returned.
pub proof fn law_balance_is_one_snapshot(reply: EngineReply)
    requires
        reply is Balances,
    ensures
        answers(Verb::GetBalance, reply) matches Ok(Answer::GetBalance(response))
            && response.total_onchain_balance_sats
            == reply->Balances_0.total_onchain_balance_sats
            && response.spendable_onchain_balance_sats
            == reply->Balances_0.spendable_onchain_balance_sats,
{
}

/// A seed text gives the same seed at every start.
pub proof fn law_supplied_seed_is_stable(text: Seq<char>, first: StartupSeed, second: StartupSeed)
    requires
        hex::decoded(text, 64) == Some(first.bytes@),
        hex::decoded(text, 64) == Some(second.bytes@),
    ensures
        first.bytes == second.bytes,
{
    assert(first.bytes =~= second.bytes);
}

/// An amount that fits is scaled to exactly a thousand times itself.
pub proof fn law_scaling_is_exact(sats: u64)
    ensures
        amount::engine_amount(sats) matches Some(scaled) ==> scaled == sats * 1000,
        amount::engine_amount(sats) is None <==> sats * 1000 > u64::MAX,
{
}

} // verus!
