//! Failures of a request, and what the caller is told.
//!
//! A failure stays with the request that met it. Each one has a class, a
//! status number for the response, and a reason in words.

use vstd::prelude::*;

verus! {

/// The class of a failure.
#[derive(Clone, Copy, Debug, PartialEq, Eq, Structural)]
pub enum ErrorKind {
    /// The request itself is malformed.
    BadRequest,
    /// The request is well formed and names something the engine does not
    /// know.
    NotFound,
    /// The engine refused or failed the operation.
    Engine,
}

/// The status number that stands for a class of failure.
pub open spec fn status_of(kind: ErrorKind) -> u16 {
    match kind {
        ErrorKind::BadRequest => 400,
        ErrorKind::NotFound => 404,
        ErrorKind::Engine => 500,
    }
}

impl ErrorKind {
    /// The status number of a response that reports this class of failure.
    pub fn status(self) -> (code: u16)
        ensures
            code == status_of(self),
            400 <= code < 600,
    {
        match self {
            ErrorKind::BadRequest => 400,
            ErrorKind::NotFound => 404,
            ErrorKind::Engine => 500,
        }
    }
}

/// Why a request was not answered with a result.
#[derive(Debug, PartialEq, Eq)]
pub enum RpcError {
    /// The public key is not the text of a key.
    InvalidPublicKey,
    /// The address is not a `host:port` that the engine can read.
    InvalidAddress,
    /// The invoice text is not a payment request.
    InvalidInvoice,
    /// The payment hash is not 64 hexadecimal digits.
    InvalidPaymentHash,
    /// An amount is more than the engine can be given once scaled.
    AmountTooLarge,
    /// The engine knows no payment with the hash asked for.
    PaymentNotFound,
    /// The engine failed the operation; its message is carried along.
    Engine(String),
    /// The engine's answer was for another operation than the one asked.
    UnexpectedReply,
}

/// A failure with its engine message, if any, as a sequence of characters.
pub enum Failure {
    InvalidPublicKey,
    InvalidAddress,
    InvalidInvoice,
    InvalidPaymentHash,
    AmountTooLarge,
    PaymentNotFound,
    Engine(Seq<char>),
    UnexpectedReply,
}

impl View for RpcError {
    type V = Failure;

    open spec fn view(&self) -> Failure {
        match self {
            RpcError::InvalidPublicKey => Failure::InvalidPublicKey,
            RpcError::InvalidAddress => Failure::InvalidAddress,
            RpcError::InvalidInvoice => Failure::InvalidInvoice,
            RpcError::InvalidPaymentHash => Failure::InvalidPaymentHash,
            RpcError::AmountTooLarge => Failure::AmountTooLarge,
            RpcError::PaymentNotFound => Failure::PaymentNotFound,
            RpcError::Engine(message) => Failure::Engine(message@),
            RpcError::UnexpectedReply => Failure::UnexpectedReply,
        }
    }
}

impl Failure {
    /// The class of this failure.
    pub open spec fn kind(self) -> ErrorKind {
        match self {
            Failure::InvalidPublicKey => ErrorKind::BadRequest,
            Failure::InvalidAddress => ErrorKind::BadRequest,
            Failure::InvalidInvoice => ErrorKind::BadRequest,
            Failure::InvalidPaymentHash => ErrorKind::BadRequest,
            Failure::AmountTooLarge => ErrorKind::BadRequest,
            Failure::PaymentNotFound => ErrorKind::NotFound,
            Failure::Engine(_) => ErrorKind::Engine,
            Failure::UnexpectedReply => ErrorKind::Engine,
        }
    }

    /// The reason given to the caller.
    pub open spec fn message(self) -> Seq<char> {
        match self {
            Failure::InvalidPublicKey => "invalid public key"@,
            Failure::InvalidAddress => "invalid network address"@,
            Failure::InvalidInvoice => "invalid invoice"@,
            Failure::InvalidPaymentHash => "invalid payment hash"@,
            Failure::AmountTooLarge => "amount too large"@,
            Failure::PaymentNotFound => "payment not found"@,
            Failure::Engine(message) => message,
            Failure::UnexpectedReply => "unexpected reply from the node"@,
        }
    }
}

impl RpcError {
    /// The class of this failure.
    pub fn kind(&self) -> (kind: ErrorKind)
        ensures
            kind == self@.kind(),
    {
        match self {
            RpcError::InvalidPublicKey => ErrorKind::BadRequest,
            RpcError::InvalidAddress => ErrorKind::BadRequest,
            RpcError::InvalidInvoice => ErrorKind::BadRequest,
            RpcError::InvalidPaymentHash => ErrorKind::BadRequest,
            RpcError::AmountTooLarge => ErrorKind::BadRequest,
            RpcError::PaymentNotFound => ErrorKind::NotFound,
            RpcError::Engine(_) => ErrorKind::Engine,
            RpcError::UnexpectedReply => ErrorKind::Engine,
        }
    }

    /// The status number of the response that reports this failure.
    pub fn status(&self) -> (code: u16)
        ensures
            code == status_of(self@.kind()),
    {
        self.kind().status()
    }

    /// The reason given to the caller: a fixed sentence for a malformed or
    /// unanswerable request, the engine's own message for an engine failure.
    pub fn message(&self) -> (text: String)
        ensures
            text@ == self@.message(),
    {
        match self {
            RpcError::InvalidPublicKey => "invalid public key".to_owned(),
            RpcError::InvalidAddress => "invalid network address".to_owned(),
            RpcError::InvalidInvoice => "invalid invoice".to_owned(),
            RpcError::InvalidPaymentHash => "invalid payment hash".to_owned(),
            RpcError::AmountTooLarge => "amount too large".to_owned(),
            RpcError::PaymentNotFound => "payment not found".to_owned(),
            RpcError::Engine(message) => message.clone(),
            RpcError::UnexpectedReply => "unexpected reply from the node".to_owned(),
        }
    }
}

} // verus!
