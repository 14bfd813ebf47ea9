//! Control plane for one long-lived payment-channel node.
//!
//! The node engine lives outside this crate. What is here is the layer between
//! a caller's request and one engine operation: what a request asks of the
//! engine, and what is answered for each thing the engine may return.

pub mod address;
pub mod amount;
pub mod engine;
pub mod error;
pub mod handler;
pub mod hex;
pub mod identity;
pub mod invoice;
pub mod laws;
pub mod rpc;
pub mod seed;
